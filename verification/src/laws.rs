//! What holds of every panel, whatever it is bound to.

use vstd::prelude::*;
use crate::binding::{
    field_held_by, single_set, source_property_of, standard_links, Field, FieldBinding,
    Target,
};
use crate::display::{rendered, shown, DisplayView};
use crate::labels::{
    code_of_status, code_of_trust, status_code_of, status_of, status_text_of, trust_code_of,
    trust_of, trust_text_of, TrustLevel, VmStatus,
};
use crate::panel::{bound, fresh, menu_closed, notified, refreshed, unbound, PanelView};
use crate::record::RecordView;

verus! {

/// The status text is "Running" for code 0, "Paused" for code 2 and
/// "Powered off" for every other code.
pub proof fn status_text_by_code(code: u8)
    ensures
        code == 0 ==> status_text_of(code) == "Running"@,
        code == 2 ==> status_text_of(code) == "Paused"@,
        code != 0 && code != 2 ==> status_text_of(code) == "Powered off"@,
{
}

/// The security text is "Security warning!" for code 1, "Security alert!"
/// for code 2 and "Secure!" for every other code.
pub proof fn trust_text_by_code(code: u8)
    ensures
        code == 1 ==> trust_text_of(code) == "Security warning!"@,
        code == 2 ==> trust_text_of(code) == "Security alert!"@,
        code != 1 && code != 2 ==> trust_text_of(code) == "Secure!"@,
{
}

/// A field that holds no number is shown as its default: a status as
/// "Powered off", a trust level as "Secure!". A field that holds a number
/// is shown as that number's text.
pub proof fn missing_codes_show_defaults(code: u8)
    ensures
        status_text_of(status_code_of(None)) == "Powered off"@,
        trust_text_of(trust_code_of(None)) == "Secure!"@,
        status_text_of(status_code_of(Some(code))) == status_text_of(code),
        trust_text_of(trust_code_of(Some(code))) == trust_text_of(code),
{
}

/// A panel bound to a record whose status holds no number shows "Powered
/// off"; one bound to a record whose trust level holds no number shows
/// "Secure!" and the icon of the secure level.
pub proof fn bound_panel_shows_defaults(panel: PanelView, record: RecordView)
    ensures
        record.status is None ==> bound(panel, record).display.status_label == "Powered off"@,
        record.trust_level is None ==> bound(panel, record).display.security_label
            == "Secure!"@,
        record.trust_level is None ==> bound(panel, record).display.security_icon == Some(
            code_of_trust(TrustLevel::Secure),
        ),
{
}

/// Every status and every trust level is found again from its code.
pub proof fn codes_decode_to_their_meaning(status: VmStatus, level: TrustLevel)
    ensures
        status_of(code_of_status(status)) == status,
        trust_of(code_of_trust(level)) == level,
{
}

/// No two fields are held by the same record property, so a property's
/// name tells which field changed: every field is found again from the
/// name of its property, and no other name finds a field.
pub proof fn properties_tell_fields_apart(first: Field, second: Field, name: Seq<char>)
    ensures
        source_property_of(first) == source_property_of(second) ==> first == second,
        field_held_by(source_property_of(first)) == Some(first),
        field_held_by(name) == Some(first) <==> name == source_property_of(first),
{
    reveal_strlit("name");
    reveal_strlit("status");
    reveal_strlit("details");
    reveal_strlit("trust-level");
    assert("name"@.len() == 4);
    assert("status"@.len() == 6);
    assert("details"@.len() == 7);
    assert("trust-level"@.len() == 11);
}

/// Binding a panel and unbinding it at once leaves no link live, while the
/// display keeps what the record held.
pub proof fn bind_then_unbind_leaves_no_binding(panel: PanelView, record: RecordView)
    ensures
        unbound(bound(panel, record)).bindings.len() == 0,
        unbound(bound(panel, record)).display == rendered(record),
{
}

/// Unbinding a panel that has no live link changes nothing.
pub proof fn unbind_without_bindings_changes_nothing(panel: PanelView)
    requires
        panel.bindings.len() == 0,
    ensures
        unbound(panel) == panel,
{
    assert(panel.bindings =~= Seq::empty());
}

/// Unbinding twice is the same as unbinding once.
pub proof fn unbind_is_idempotent(panel: PanelView)
    ensures
        unbound(unbound(panel)) == unbound(panel),
{
}

/// Binding to one record and then to another gives what binding to the
/// second alone gives: only the second record's links are live, and the
/// display shows only what the second record holds.
pub proof fn rebind_shows_only_latest(panel: PanelView, first: RecordView, second: RecordView)
    ensures
        bound(bound(panel, first), second) == bound(panel, second),
        bound(bound(panel, first), second).display == rendered(second),
        bound(bound(panel, first), second).bindings == standard_links(second.id),
{
}

/// A change passes no link that does not listen to it.
pub proof fn unheard_change_shows_nothing(
    display: DisplayView,
    links: Seq<FieldBinding>,
    record: RecordView,
    field: Field,
)
    requires
        forall|i: int| 0 <= i < links.len() ==> !(#[trigger] links[i]).carries(record.id, field),
    ensures
        refreshed(display, links, record, field) == display,
    decreases links.len(),
{
    if links.len() > 0 {
        let front = links.drop_last();
        assert forall|i: int| 0 <= i < front.len() implies !(#[trigger] front[i]).carries(
            record.id,
            field,
        ) by {
            assert(front[i] == links[i]);
        }
        unheard_change_shows_nothing(display, front, record, field);
    }
}

/// After a panel has been rebound from one record to another, no later
/// change of the first record reaches it.
pub proof fn released_record_is_silent(
    panel: PanelView,
    first: RecordView,
    second: RecordView,
    later: RecordView,
    field: Field,
)
    requires
        first.id != second.id,
        later.id == first.id,
    ensures
        notified(bound(bound(panel, first), second), later, field) == bound(
            bound(panel, first),
            second,
        ),
{
    let now = bound(bound(panel, first), second);
    unheard_change_shows_nothing(now.display, now.bindings, later, field);
}

/// An unbound panel shows nothing new, whatever changes.
pub proof fn unbound_panel_is_silent(panel: PanelView, record: RecordView, field: Field)
    ensures
        notified(unbound(panel), record, field) == unbound(panel),
{
    unheard_change_shows_nothing(panel.display, Seq::empty(), record, field);
}

/// What one link does to the display when a change arrives.
pub open spec fn passed(
    display: DisplayView,
    link: FieldBinding,
    record: RecordView,
    field: Field,
) -> DisplayView {
    if link.carries(record.id, field) {
        shown(display, link.target, record)
    } else {
        display
    }
}

/// A change passes the links in the order in which they were made: the
/// last link acts on what the links before it left.
pub proof fn last_link_acts_last(
    display: DisplayView,
    links: Seq<FieldBinding>,
    link: FieldBinding,
    record: RecordView,
    field: Field,
)
    ensures
        refreshed(display, links.push(link), record, field) == passed(
            refreshed(display, links, record, field),
            link,
            record,
            field,
        ),
{
    assert(links.push(link).drop_last() =~= links);
}

/// A bound panel follows its record: when a field of the bound record
/// changes, the elements fed from that field show the new value and all
/// other elements stay as they are.
pub proof fn bound_record_is_followed(
    panel: PanelView,
    record: RecordView,
    later: RecordView,
    field: Field,
)
    requires
        later.id == record.id,
    ensures
        notified(bound(panel, record), later, field).bindings == standard_links(record.id),
        notified(bound(panel, record), later, field).popover_open == panel.popover_open,
        notified(bound(panel, record), later, field).display == match field {
            Field::Name => DisplayView { name_label: later.name, ..rendered(record) },
            Field::Status => DisplayView {
                status_label: status_text_of(status_code_of(later.status)),
                ..rendered(record)
            },
            Field::Details => DisplayView { details_label: later.details, ..rendered(record) },
            Field::TrustLevel => DisplayView {
                security_icon: Some(trust_code_of(later.trust_level)),
                security_label: trust_text_of(trust_code_of(later.trust_level)),
                ..rendered(record)
            },
        },
{
    let d = rendered(record);
    let all = standard_links(record.id);
    let l0 = Seq::<FieldBinding>::empty();
    let l1 = l0.push(all[0]);
    let l2 = l1.push(all[1]);
    let l3 = l2.push(all[2]);
    let l4 = l3.push(all[3]);
    let l5 = l4.push(all[4]);
    assert(l5 =~= all);
    assert(refreshed(d, l0, later, field) == d);
    last_link_acts_last(d, l0, all[0], later, field);
    last_link_acts_last(d, l1, all[1], later, field);
    last_link_acts_last(d, l2, all[2], later, field);
    last_link_acts_last(d, l3, all[3], later, field);
    last_link_acts_last(d, l4, all[4], later, field);
}

/// At most one set of links is ever live: a new panel has none, binding
/// leaves exactly the five links of the record bound to, unbinding leaves
/// none, and nothing else touches the links.
pub proof fn at_most_one_set_is_kept(panel: PanelView, record: RecordView, field: Field)
    ensures
        single_set(fresh().bindings),
        single_set(bound(panel, record).bindings),
        single_set(unbound(panel).bindings),
        notified(panel, record, field).bindings == panel.bindings,
        menu_closed(panel).bindings == panel.bindings,
{
}

/// The five links of a bound panel feed the five display elements, each
/// once, from the record bound to.
pub proof fn standard_links_cover_the_display(source: u64)
    ensures
        standard_links(source).len() == 5,
        forall|i: int|
            0 <= i < 5 ==> (#[trigger] standard_links(source)[i]).source == source,
        standard_links(source)[0].target == Target::NameLabel,
        standard_links(source)[1].target == Target::StatusLabel,
        standard_links(source)[2].target == Target::DetailsLabel,
        standard_links(source)[3].target == Target::SecurityIcon,
        standard_links(source)[4].target == Target::SecurityLabel,
{
}

} // verus!
