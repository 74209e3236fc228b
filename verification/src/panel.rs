//! The settings panel: its display, its action menu and its live links.

use vstd::prelude::*;
use crate::binding::{link_of, single_set, standard_links, Field, FieldBinding, Target};
use crate::display::{blank, rendered, shown, Display, DisplayView};
use crate::events::{signal_table, Notification, NotificationView, SignalDecl, SignalKind};
use crate::record::{RecordView, VMRecord};

verus! {

/// The settings panel of one machine.
///
/// A panel is unbound, or bound to one record: `bindings` holds the links
/// that are live, in the order in which they were made.
#[derive(Debug)]
pub struct VMSettings {
    display: Display,
    popover_open: bool,
    bindings: Vec<FieldBinding>,
}

/// The mathematical value of a [`VMSettings`].
pub struct PanelView {
    pub display: DisplayView,
    pub popover_open: bool,
    pub bindings: Seq<FieldBinding>,
}

/// A new panel: nothing shown, the menu closed, no link.
pub open spec fn fresh() -> PanelView {
    PanelView { display: blank(), popover_open: false, bindings: Seq::empty() }
}

/// The panel after all its links have been released.
pub open spec fn unbound(panel: PanelView) -> PanelView {
    PanelView { bindings: Seq::empty(), ..panel }
}

/// The panel after it has been bound to `record`: earlier links are gone,
/// the five standard links to `record` are live, and every element shows
/// what `record` holds.
pub open spec fn bound(panel: PanelView, record: RecordView) -> PanelView {
    PanelView {
        display: rendered(record),
        bindings: standard_links(record.id),
        popover_open: panel.popover_open,
    }
}

/// The display after a change of `field` in `record` has passed through
/// `links`, one link after the other.
pub open spec fn refreshed(
    display: DisplayView,
    links: Seq<FieldBinding>,
    record: RecordView,
    field: Field,
) -> DisplayView
    decreases links.len(),
{
    if links.len() == 0 {
        display
    } else {
        let before = refreshed(display, links.drop_last(), record, field);
        if links.last().carries(record.id, field) {
            shown(before, links.last().target, record)
        } else {
            before
        }
    }
}

/// The panel after it has been told that `field` of `record` changed.
pub open spec fn notified(panel: PanelView, record: RecordView, field: Field) -> PanelView {
    PanelView { display: refreshed(panel.display, panel.bindings, record, field), ..panel }
}

/// The panel after its action menu has been closed.
pub open spec fn menu_closed(panel: PanelView) -> PanelView {
    PanelView { popover_open: false, ..panel }
}

impl View for VMSettings {
    type V = PanelView;

    closed spec fn view(&self) -> PanelView {
        PanelView {
            display: self.display@,
            popover_open: self.popover_open,
            bindings: self.bindings@,
        }
    }
}

/// Makes one more link, from `record` to `target`, and feeds `target`
/// through it at once.
fn establish(
    display: &mut Display,
    links: &mut Vec<FieldBinding>,
    record: &VMRecord,
    target: Target,
)
    ensures
        final(display)@ == shown(old(display)@, target, record@),
        final(links)@ == old(links)@.push(link_of(record@.id, target)),
{
    display.show(target, record);
    links.push(FieldBinding::link(record.id, target));
}

impl VMSettings {
    /// At most one set of links is live at any time.
    #[verifier::type_invariant]
    closed spec fn one_set_at_most(&self) -> bool {
        single_set(self.bindings@)
    }

    /// The record that the panel is bound to, if it is bound. A panel is
    /// unbound, with no link live, or bound to one record, with exactly that
    /// record's five standard links live.
    pub fn bound_source(&self) -> (source: Option<u64>)
        ensures
            single_set(self@.bindings),
            match source {
                Some(id) => self@.bindings == standard_links(id),
                None => self@.bindings.len() == 0,
            },
    {
        proof {
            use_type_invariant(self);
        }
        if self.bindings.len() == 0 {
            None
        } else {
            Some(self.bindings[0].source)
        }
    }

    /// A new panel: nothing shown, the menu closed, no link.
    pub fn new() -> (panel: VMSettings)
        ensures
            panel@ == fresh(),
    {
        VMSettings { display: Display::new(), popover_open: false, bindings: Vec::new() }
    }

    /// Binds the panel to `record`: releases the links that are live, then
    /// makes the five standard links to `record`, each of which shows its
    /// field at once.
    pub fn bind(&mut self, vm_object: &VMRecord)
        ensures
            final(self)@ == bound(old(self)@, vm_object@),
    {
        let _released = self.unbind();
        let mut display = self.display.clone();
        let mut links: Vec<FieldBinding> = Vec::new();
        establish(&mut display, &mut links, vm_object, Target::NameLabel);
        establish(&mut display, &mut links, vm_object, Target::StatusLabel);
        establish(&mut display, &mut links, vm_object, Target::DetailsLabel);
        establish(&mut display, &mut links, vm_object, Target::SecurityIcon);
        establish(&mut display, &mut links, vm_object, Target::SecurityLabel);
        assert(links@ =~= standard_links(vm_object@.id));
        self.display = display;
        self.bindings = links;
    }

    /// Releases every live link and returns them in the order in which they
    /// were made. With no link live, nothing changes and nothing is returned.
    pub fn unbind(&mut self) -> (released: Vec<FieldBinding>)
        ensures
            released@ == old(self)@.bindings,
            final(self)@ == unbound(old(self)@),
            old(self)@.bindings.len() == 0 ==> final(self)@ == old(self)@,
    {
        let mut released: Vec<FieldBinding> = Vec::new();
        std::mem::swap(&mut self.bindings, &mut released);
        proof {
            if old(self)@.bindings.len() == 0 {
                assert(self@.bindings =~= old(self)@.bindings);
            }
        }
        released
    }

    /// Tells the panel that `field` of `record` has changed: every live link
    /// from that field of that record shows the new value; links from other
    /// records or fields show nothing new.
    pub fn record_changed(&mut self, record: &VMRecord, field: Field)
        ensures
            final(self)@ == notified(old(self)@, record@, field),
    {
        proof {
            use_type_invariant(&*self);
        }
        let mut display = self.display.clone();
        let n = self.bindings.len();
        let mut i: usize = 0;
        while i < n
            invariant
                i <= n,
                n == self.bindings@.len(),
                *self == *old(self),
                display@ == refreshed(
                    old(self).display@,
                    old(self).bindings@.take(i as int),
                    record@,
                    field,
                ),
            decreases n - i,
        {
            let binding = self.bindings[i];
            if binding.listens_to(record.id, field) {
                display.show(binding.target, record);
            }
            proof {
                let links = old(self).bindings@;
                assert(links.take(i + 1).drop_last() =~= links.take(i as int));
                assert(links.take(i + 1).last() == links[i as int]);
            }
            i += 1;
        }
        proof {
            assert(old(self).bindings@.take(n as int) =~= old(self).bindings@);
        }
        self.display = display;
    }

    /// Opens the action menu.
    pub fn open_menu(&mut self)
        ensures
            final(self)@ == (PanelView { popover_open: true, ..old(self)@ }),
    {
        proof {
            use_type_invariant(&*self);
        }
        self.popover_open = true;
    }

    /// The start button was clicked: emits the start notification with the
    /// name that the name label shows, and closes the menu.
    pub fn on_vm_start_clicked(&mut self) -> (emitted: Notification)
        ensures
            emitted@ == NotificationView::VmStart(old(self)@.display.name_label),
            final(self)@ == menu_closed(old(self)@),
    {
        proof {
            use_type_invariant(&*self);
        }
        let vm_name = self.display.name_label.clone();
        self.popover_open = false;
        Notification::VmStart(vm_name)
    }

    /// The shutdown button was clicked: emits the shutdown notification with
    /// the name that the name label shows, and closes the menu.
    pub fn on_vm_shutdown_clicked(&mut self) -> (emitted: Notification)
        ensures
            emitted@ == NotificationView::VmShutdown(old(self)@.display.name_label),
            final(self)@ == menu_closed(old(self)@),
    {
        proof {
            use_type_invariant(&*self);
        }
        let vm_name = self.display.name_label.clone();
        self.popover_open = false;
        Notification::VmShutdown(vm_name)
    }

    /// The pause button was clicked: emits the pause notification with the
    /// name that the name label shows, and closes the menu.
    pub fn on_vm_pause_clicked(&mut self) -> (emitted: Notification)
        ensures
            emitted@ == NotificationView::VmPause(old(self)@.display.name_label),
            final(self)@ == menu_closed(old(self)@),
    {
        proof {
            use_type_invariant(&*self);
        }
        let vm_name = self.display.name_label.clone();
        self.popover_open = false;
        Notification::VmPause(vm_name)
    }

    /// Another microphone was chosen: emits its index.
    pub fn on_mic_changed(&self, value: u32) -> (emitted: Notification)
        ensures
            emitted@ == NotificationView::MicDeviceChanged(value),
    {
        Notification::MicDeviceChanged(value)
    }

    /// Another speaker was chosen: emits its index.
    pub fn on_speaker_changed(&self, value: u32) -> (emitted: Notification)
        ensures
            emitted@ == NotificationView::SpeakerDeviceChanged(value),
    {
        Notification::SpeakerDeviceChanged(value)
    }

    /// The signals that the panel declares, in the order of declaration:
    /// the three machine actions, which carry a machine's name, the two
    /// device choices, which carry an index, and the two volumes, which
    /// carry a fraction.
    pub fn signals() -> (table: Vec<SignalDecl>)
        ensures
            table@ == signal_table(),
    {
        let mut table: Vec<SignalDecl> = Vec::new();
        table.push(SignalKind::VmStart.declaration());
        table.push(SignalKind::VmPause.declaration());
        table.push(SignalKind::VmShutdown.declaration());
        table.push(SignalKind::MicChanged.declaration());
        table.push(SignalKind::SpeakerChanged.declaration());
        table.push(SignalKind::MicVolumeChanged.declaration());
        table.push(SignalKind::SpeakerVolumeChanged.declaration());
        assert(table@ =~= signal_table());
        table
    }

    /// The text of the name label.
    pub fn name_label(&self) -> (text: String)
        ensures
            text@ == self@.display.name_label,
    {
        self.display.name_label.clone()
    }

    /// The text of the status label.
    pub fn status_label(&self) -> (text: String)
        ensures
            text@ == self@.display.status_label,
    {
        self.display.status_label.clone()
    }

    /// The text of the details label.
    pub fn details_label(&self) -> (text: String)
        ensures
            text@ == self@.display.details_label,
    {
        self.display.details_label.clone()
    }

    /// The trust code under which the security icon is looked up, if one
    /// has been set.
    pub fn security_icon(&self) -> (key: Option<u8>)
        ensures
            key == self@.display.security_icon,
    {
        self.display.security_icon
    }

    /// The text of the security label.
    pub fn security_label(&self) -> (text: String)
        ensures
            text@ == self@.display.security_label,
    {
        self.display.security_label.clone()
    }

    /// Whether the action menu is open.
    pub fn is_menu_open(&self) -> (open: bool)
        ensures
            open == self@.popover_open,
    {
        self.popover_open
    }

    /// The live links, in the order in which they were made.
    pub fn bindings(&self) -> (links: Vec<FieldBinding>)
        ensures
            links@ == self@.bindings,
            single_set(links@),
    {
        proof {
            use_type_invariant(self);
        }
        self.bindings.clone()
    }

    /// The number of live links.
    pub fn binding_count(&self) -> (count: usize)
        ensures
            count == self@.bindings.len(),
            count == 0 || count == 5,
    {
        proof {
            use_type_invariant(self);
        }
        self.bindings.len()
    }
}

impl Clone for VMSettings {
    fn clone(&self) -> (copy: VMSettings)
        ensures
            copy@ == self@,
    {
        proof {
            use_type_invariant(self);
        }
        VMSettings {
            display: self.display.clone(),
            popover_open: self.popover_open,
            bindings: self.bindings.clone(),
        }
    }
}

impl Default for VMSettings {
    fn default() -> (panel: VMSettings)
        ensures
            panel@ == fresh(),
    {
        VMSettings::new()
    }
}

} // verus!
