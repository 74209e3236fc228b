use vm_settings::labels::{
    status_code_or_default, status_text, trust_code_or_default, trust_text, TrustLevel, VmStatus,
};

#[test]
fn status_text_of_known_codes() {
    assert_eq!(status_text(0), "Running");
    assert_eq!(status_text(1), "Powered off");
    assert_eq!(status_text(2), "Paused");
}

#[test]
fn status_text_of_unknown_codes_is_powered_off() {
    assert_eq!(status_text(3), "Powered off");
    assert_eq!(status_text(100), "Powered off");
    assert_eq!(status_text(255), "Powered off");
}

#[test]
fn status_text_over_all_codes() {
    for code in 0..=255u8 {
        let expected = match code {
            0 => "Running",
            2 => "Paused",
            _ => "Powered off",
        };
        assert_eq!(status_text(code), expected);
    }
}

#[test]
fn trust_text_of_known_codes() {
    assert_eq!(trust_text(0), "Secure!");
    assert_eq!(trust_text(1), "Security warning!");
    assert_eq!(trust_text(2), "Security alert!");
}

#[test]
fn trust_text_of_unknown_codes_is_secure() {
    assert_eq!(trust_text(3), "Secure!");
    assert_eq!(trust_text(77), "Secure!");
    assert_eq!(trust_text(255), "Secure!");
}

#[test]
fn trust_text_over_all_codes() {
    for code in 0..=255u8 {
        let expected = match code {
            1 => "Security warning!",
            2 => "Security alert!",
            _ => "Secure!",
        };
        assert_eq!(trust_text(code), expected);
    }
}

#[test]
fn status_codes_decode_and_encode() {
    assert_eq!(VmStatus::from_code(0), VmStatus::Running);
    assert_eq!(VmStatus::from_code(1), VmStatus::PoweredOff);
    assert_eq!(VmStatus::from_code(2), VmStatus::Paused);
    assert_eq!(VmStatus::from_code(9), VmStatus::PoweredOff);
    assert_eq!(VmStatus::Running.code(), 0);
    assert_eq!(VmStatus::PoweredOff.code(), 1);
    assert_eq!(VmStatus::Paused.code(), 2);
    assert_eq!(VmStatus::Paused.label(), "Paused");
}

#[test]
fn trust_codes_decode_and_encode() {
    assert_eq!(TrustLevel::from_code(0), TrustLevel::Secure);
    assert_eq!(TrustLevel::from_code(1), TrustLevel::Warning);
    assert_eq!(TrustLevel::from_code(2), TrustLevel::Alert);
    assert_eq!(TrustLevel::from_code(200), TrustLevel::Secure);
    assert_eq!(TrustLevel::Secure.code(), 0);
    assert_eq!(TrustLevel::Warning.code(), 1);
    assert_eq!(TrustLevel::Alert.code(), 2);
    assert_eq!(TrustLevel::Alert.label(), "Security alert!");
}

#[test]
fn missing_status_counts_as_powered_off() {
    assert_eq!(status_code_or_default(None), 1);
    assert_eq!(status_text(status_code_or_default(None)), "Powered off");
    assert_eq!(VmStatus::from_code(status_code_or_default(None)), VmStatus::PoweredOff);
    assert_eq!(status_code_or_default(Some(0)), 0);
    assert_eq!(status_code_or_default(Some(2)), 2);
    assert_eq!(status_code_or_default(Some(255)), 255);
    assert_eq!(status_text(status_code_or_default(Some(0))), "Running");
}

#[test]
fn missing_trust_level_counts_as_secure() {
    assert_eq!(trust_code_or_default(None), 0);
    assert_eq!(trust_text(trust_code_or_default(None)), "Secure!");
    assert_eq!(TrustLevel::from_code(trust_code_or_default(None)), TrustLevel::Secure);
    assert_eq!(trust_code_or_default(Some(1)), 1);
    assert_eq!(trust_code_or_default(Some(2)), 2);
    assert_eq!(trust_code_or_default(Some(255)), 255);
    assert_eq!(trust_text(trust_code_or_default(Some(2))), "Security alert!");
}
