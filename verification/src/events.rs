//! The notifications that the panel sends to whoever controls the machines.

use vstd::prelude::*;

verus! {

/// The signals that the panel declares, by their meaning.
#[derive(Clone, Copy, Debug, PartialEq, Eq, Structural)]
pub enum SignalKind {
    VmStart,
    VmPause,
    VmShutdown,
    MicChanged,
    SpeakerChanged,
    MicVolumeChanged,
    SpeakerVolumeChanged,
}

/// The type of the one value that a signal carries.
#[derive(Clone, Copy, Debug, PartialEq, Eq, Structural)]
pub enum ParamType {
    /// A machine's name.
    Text,
    /// The index of an audio device.
    DeviceIndex,
    /// A volume, as a fraction.
    Fraction,
}

/// One signal of the panel: its meaning and the type of its parameter.
#[derive(Clone, Copy, Debug, PartialEq, Eq, Structural)]
pub struct SignalDecl {
    pub kind: SignalKind,
    pub param: ParamType,
}

/// A notification that the panel has emitted.
#[derive(Clone, Debug, PartialEq, Eq)]
pub enum Notification {
    VmStart(String),
    VmShutdown(String),
    VmPause(String),
    MicDeviceChanged(u32),
    SpeakerDeviceChanged(u32),
}

/// The mathematical value of a [`Notification`].
pub enum NotificationView {
    VmStart(Seq<char>),
    VmShutdown(Seq<char>),
    VmPause(Seq<char>),
    MicDeviceChanged(u32),
    SpeakerDeviceChanged(u32),
}

impl View for Notification {
    type V = NotificationView;

    open spec fn view(&self) -> NotificationView {
        match self {
            Notification::VmStart(name) => NotificationView::VmStart(name@),
            Notification::VmShutdown(name) => NotificationView::VmShutdown(name@),
            Notification::VmPause(name) => NotificationView::VmPause(name@),
            Notification::MicDeviceChanged(index) => NotificationView::MicDeviceChanged(*index),
            Notification::SpeakerDeviceChanged(index) => NotificationView::SpeakerDeviceChanged(
                *index,
            ),
        }
    }
}

/// The name under which a signal is registered and emitted.
pub open spec fn signal_name_of(kind: SignalKind) -> Seq<char> {
    match kind {
        SignalKind::VmStart => "vm-start"@,
        SignalKind::VmPause => "vm-pause"@,
        SignalKind::VmShutdown => "vm-shutdown"@,
        SignalKind::MicChanged => "vm-mic-changed"@,
        SignalKind::SpeakerChanged => "vm-speaker-changed"@,
        SignalKind::MicVolumeChanged => "vm-mic-volume-changed"@,
        SignalKind::SpeakerVolumeChanged => "vm-speaker-volume-changed"@,
    }
}

/// The type of the value that a signal carries.
pub open spec fn param_of(kind: SignalKind) -> ParamType {
    match kind {
        SignalKind::VmStart => ParamType::Text,
        SignalKind::VmPause => ParamType::Text,
        SignalKind::VmShutdown => ParamType::Text,
        SignalKind::MicChanged => ParamType::DeviceIndex,
        SignalKind::SpeakerChanged => ParamType::DeviceIndex,
        SignalKind::MicVolumeChanged => ParamType::Fraction,
        SignalKind::SpeakerVolumeChanged => ParamType::Fraction,
    }
}

/// The declaration of one signal.
pub open spec fn declaration_of(kind: SignalKind) -> SignalDecl {
    SignalDecl { kind, param: param_of(kind) }
}

/// The panel's signals in the order in which they are declared.
pub open spec fn signal_table() -> Seq<SignalDecl> {
    seq![
        declaration_of(SignalKind::VmStart),
        declaration_of(SignalKind::VmPause),
        declaration_of(SignalKind::VmShutdown),
        declaration_of(SignalKind::MicChanged),
        declaration_of(SignalKind::SpeakerChanged),
        declaration_of(SignalKind::MicVolumeChanged),
        declaration_of(SignalKind::SpeakerVolumeChanged),
    ]
}

/// The signal through which a notification goes out.
pub open spec fn kind_of(notification: NotificationView) -> SignalKind {
    match notification {
        NotificationView::VmStart(_) => SignalKind::VmStart,
        NotificationView::VmShutdown(_) => SignalKind::VmShutdown,
        NotificationView::VmPause(_) => SignalKind::VmPause,
        NotificationView::MicDeviceChanged(_) => SignalKind::MicChanged,
        NotificationView::SpeakerDeviceChanged(_) => SignalKind::SpeakerChanged,
    }
}

impl SignalKind {
    /// The name under which this signal is registered and emitted.
    pub fn name(self) -> (name: String)
        ensures
            name@ == signal_name_of(self),
    {
        match self {
            SignalKind::VmStart => "vm-start".to_owned(),
            SignalKind::VmPause => "vm-pause".to_owned(),
            SignalKind::VmShutdown => "vm-shutdown".to_owned(),
            SignalKind::MicChanged => "vm-mic-changed".to_owned(),
            SignalKind::SpeakerChanged => "vm-speaker-changed".to_owned(),
            SignalKind::MicVolumeChanged => "vm-mic-volume-changed".to_owned(),
            SignalKind::SpeakerVolumeChanged => "vm-speaker-volume-changed".to_owned(),
        }
    }

    /// The type of the value that this signal carries.
    pub fn param(self) -> (param: ParamType)
        ensures
            param == param_of(self),
    {
        match self {
            SignalKind::VmStart | SignalKind::VmPause | SignalKind::VmShutdown => ParamType::Text,
            SignalKind::MicChanged | SignalKind::SpeakerChanged => ParamType::DeviceIndex,
            SignalKind::MicVolumeChanged | SignalKind::SpeakerVolumeChanged => ParamType::Fraction,
        }
    }

    /// The declaration of this signal.
    pub fn declaration(self) -> (declared: SignalDecl)
        ensures
            declared == declaration_of(self),
    {
        SignalDecl { kind: self, param: self.param() }
    }
}

impl Notification {
    /// The signal through which this notification goes out.
    pub fn kind(&self) -> (kind: SignalKind)
        ensures
            kind == kind_of(self@),
    {
        match self {
            Notification::VmStart(_) => SignalKind::VmStart,
            Notification::VmShutdown(_) => SignalKind::VmShutdown,
            Notification::VmPause(_) => SignalKind::VmPause,
            Notification::MicDeviceChanged(_) => SignalKind::MicChanged,
            Notification::SpeakerDeviceChanged(_) => SignalKind::SpeakerChanged,
        }
    }
}

} // verus!
