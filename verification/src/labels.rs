//! Display texts for the status and the trust level of a machine.

use vstd::prelude::*;

verus! {

/// The power state of a machine.
#[derive(Clone, Copy, Debug, PartialEq, Eq, Structural)]
pub enum VmStatus {
    Running,
    PoweredOff,
    Paused,
}

/// The security classification of a machine.
#[derive(Clone, Copy, Debug, PartialEq, Eq, Structural)]
pub enum TrustLevel {
    Secure,
    Warning,
    Alert,
}

/// The status that a numeric code stands for: 0 is running, 2 is paused,
/// and 1 as well as every unknown code is powered off.
pub open spec fn status_of(code: u8) -> VmStatus {
    if code == 0 {
        VmStatus::Running
    } else if code == 2 {
        VmStatus::Paused
    } else {
        VmStatus::PoweredOff
    }
}

/// The trust level that a numeric code stands for: 1 is a warning, 2 is an
/// alert, and 0 as well as every unknown code is secure.
pub open spec fn trust_of(code: u8) -> TrustLevel {
    if code == 1 {
        TrustLevel::Warning
    } else if code == 2 {
        TrustLevel::Alert
    } else {
        TrustLevel::Secure
    }
}

/// The numeric code of a status.
pub open spec fn code_of_status(status: VmStatus) -> u8 {
    match status {
        VmStatus::Running => 0,
        VmStatus::PoweredOff => 1,
        VmStatus::Paused => 2,
    }
}

/// The numeric code of a trust level.
pub open spec fn code_of_trust(level: TrustLevel) -> u8 {
    match level {
        TrustLevel::Secure => 0,
        TrustLevel::Warning => 1,
        TrustLevel::Alert => 2,
    }
}

/// The text shown for a status.
pub open spec fn status_label(status: VmStatus) -> Seq<char> {
    match status {
        VmStatus::Running => "Running"@,
        VmStatus::PoweredOff => "Powered off"@,
        VmStatus::Paused => "Paused"@,
    }
}

/// The text shown for a trust level.
pub open spec fn trust_label(level: TrustLevel) -> Seq<char> {
    match level {
        TrustLevel::Secure => "Secure!"@,
        TrustLevel::Warning => "Security warning!"@,
        TrustLevel::Alert => "Security alert!"@,
    }
}

/// The text shown in the status label for a numeric status code.
pub open spec fn status_text_of(code: u8) -> Seq<char> {
    status_label(status_of(code))
}

/// The text shown in the security label for a numeric trust code.
pub open spec fn trust_text_of(code: u8) -> Seq<char> {
    trust_label(trust_of(code))
}

impl VmStatus {
    /// Decodes a numeric status; unknown codes count as powered off.
    pub fn from_code(code: u8) -> (status: VmStatus)
        ensures
            status == status_of(code),
    {
        if code == 0 {
            VmStatus::Running
        } else if code == 2 {
            VmStatus::Paused
        } else {
            VmStatus::PoweredOff
        }
    }

    /// The numeric code of this status.
    pub fn code(self) -> (code: u8)
        ensures
            code == code_of_status(self),
    {
        match self {
            VmStatus::Running => 0,
            VmStatus::PoweredOff => 1,
            VmStatus::Paused => 2,
        }
    }

    /// The text shown for this status.
    pub fn label(self) -> (text: String)
        ensures
            text@ == status_label(self),
    {
        match self {
            VmStatus::Running => "Running".to_owned(),
            VmStatus::PoweredOff => "Powered off".to_owned(),
            VmStatus::Paused => "Paused".to_owned(),
        }
    }
}

impl TrustLevel {
    /// Decodes a numeric trust level; unknown codes count as secure.
    pub fn from_code(code: u8) -> (level: TrustLevel)
        ensures
            level == trust_of(code),
    {
        if code == 1 {
            TrustLevel::Warning
        } else if code == 2 {
            TrustLevel::Alert
        } else {
            TrustLevel::Secure
        }
    }

    /// The numeric code of this trust level.
    pub fn code(self) -> (code: u8)
        ensures
            code == code_of_trust(self),
    {
        match self {
            TrustLevel::Secure => 0,
            TrustLevel::Warning => 1,
            TrustLevel::Alert => 2,
        }
    }

    /// The text shown for this trust level.
    pub fn label(self) -> (text: String)
        ensures
            text@ == trust_label(self),
    {
        match self {
            TrustLevel::Secure => "Secure!".to_owned(),
            TrustLevel::Warning => "Security warning!".to_owned(),
            TrustLevel::Alert => "Security alert!".to_owned(),
        }
    }
}

/// The code that a status field stands for: its number where it holds
/// one, the code of "powered off" where it holds none.
pub open spec fn status_code_of(value: Option<u8>) -> u8 {
    match value {
        Some(code) => code,
        None => code_of_status(VmStatus::PoweredOff),
    }
}

/// The code that a trust field stands for: its number where it holds one,
/// the code of "secure" where it holds none.
pub open spec fn trust_code_of(value: Option<u8>) -> u8 {
    match value {
        Some(code) => code,
        None => code_of_trust(TrustLevel::Secure),
    }
}

/// Reads a status field that may be missing or of another type: such a
/// field counts as powered off.
pub fn status_code_or_default(value: Option<u8>) -> (code: u8)
    ensures
        code == status_code_of(value),
        value is None ==> status_text_of(code) == "Powered off"@,
{
    match value {
        Some(code) => code,
        None => VmStatus::PoweredOff.code(),
    }
}

/// Reads a trust field that may be missing or of another type: such a
/// field counts as secure.
pub fn trust_code_or_default(value: Option<u8>) -> (code: u8)
    ensures
        code == trust_code_of(value),
        value is None ==> trust_text_of(code) == "Secure!"@,
{
    match value {
        Some(code) => code,
        None => TrustLevel::Secure.code(),
    }
}

/// The status label's text for a numeric status code.
pub fn status_text(code: u8) -> (text: String)
    ensures
        text@ == status_text_of(code),
        code == 0 ==> text@ == "Running"@,
        code == 1 ==> text@ == "Powered off"@,
        code == 2 ==> text@ == "Paused"@,
        code > 2 ==> text@ == "Powered off"@,
{
    VmStatus::from_code(code).label()
}

/// The security label's text for a numeric trust code.
pub fn trust_text(code: u8) -> (text: String)
    ensures
        text@ == trust_text_of(code),
        code == 0 ==> text@ == "Secure!"@,
        code == 1 ==> text@ == "Security warning!"@,
        code == 2 ==> text@ == "Security alert!"@,
        code > 2 ==> text@ == "Secure!"@,
{
    TrustLevel::from_code(code).label()
}

} // verus!
