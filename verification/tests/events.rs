use vm_settings::events::{Notification, ParamType, SignalDecl, SignalKind};
use vm_settings::panel::VMSettings;

#[test]
fn signal_table_is_in_declaration_order() {
    let table = VMSettings::signals();
    let names: Vec<String> = table.iter().map(|s| s.kind.name()).collect();
    assert_eq!(
        names,
        vec![
            "vm-start",
            "vm-pause",
            "vm-shutdown",
            "vm-mic-changed",
            "vm-speaker-changed",
            "vm-mic-volume-changed",
            "vm-speaker-volume-changed",
        ]
    );
}

#[test]
fn signal_table_parameter_types() {
    let table = VMSettings::signals();
    assert_eq!(table.len(), 7);
    assert_eq!(table[0], SignalDecl { kind: SignalKind::VmStart, param: ParamType::Text });
    assert_eq!(table[1], SignalDecl { kind: SignalKind::VmPause, param: ParamType::Text });
    assert_eq!(table[2], SignalDecl { kind: SignalKind::VmShutdown, param: ParamType::Text });
    assert_eq!(table[3], SignalDecl { kind: SignalKind::MicChanged, param: ParamType::DeviceIndex });
    assert_eq!(
        table[4],
        SignalDecl { kind: SignalKind::SpeakerChanged, param: ParamType::DeviceIndex }
    );
    assert_eq!(
        table[5],
        SignalDecl { kind: SignalKind::MicVolumeChanged, param: ParamType::Fraction }
    );
    assert_eq!(
        table[6],
        SignalDecl { kind: SignalKind::SpeakerVolumeChanged, param: ParamType::Fraction }
    );
}

#[test]
fn notification_kinds() {
    assert_eq!(Notification::VmStart("a".to_string()).kind(), SignalKind::VmStart);
    assert_eq!(Notification::VmShutdown("a".to_string()).kind(), SignalKind::VmShutdown);
    assert_eq!(Notification::VmPause("a".to_string()).kind(), SignalKind::VmPause);
    assert_eq!(Notification::MicDeviceChanged(3).kind(), SignalKind::MicChanged);
    assert_eq!(Notification::SpeakerDeviceChanged(4).kind(), SignalKind::SpeakerChanged);
}

#[test]
fn signal_spec_of_each_kind() {
    assert_eq!(SignalKind::VmStart.declaration().param, ParamType::Text);
    assert_eq!(SignalKind::MicChanged.param(), ParamType::DeviceIndex);
    assert_eq!(SignalKind::SpeakerVolumeChanged.param(), ParamType::Fraction);
    assert_eq!(SignalKind::VmShutdown.name(), "vm-shutdown");
}
