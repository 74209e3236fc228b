//! The display surface of the panel: four labels and the security icon.

use vstd::prelude::*;
use crate::binding::Target;
use crate::labels::{
    status_code_of, status_code_or_default, status_text, status_text_of, trust_code_of,
    trust_code_or_default, trust_text, trust_text_of,
};
use crate::record::{RecordView, VMRecord};

verus! {

/// The texts and the icon that the panel shows.
///
/// The icon is held as the trust code under which its resource is looked
/// up; it is `None` until a link has set it.
#[derive(Debug, PartialEq, Eq)]
pub struct Display {
    pub name_label: String,
    pub status_label: String,
    pub details_label: String,
    pub security_icon: Option<u8>,
    pub security_label: String,
}

/// The mathematical value of a [`Display`].
pub struct DisplayView {
    pub name_label: Seq<char>,
    pub status_label: Seq<char>,
    pub details_label: Seq<char>,
    pub security_icon: Option<u8>,
    pub security_label: Seq<char>,
}

impl View for Display {
    type V = DisplayView;

    open spec fn view(&self) -> DisplayView {
        DisplayView {
            name_label: self.name_label@,
            status_label: self.status_label@,
            details_label: self.details_label@,
            security_icon: self.security_icon,
            security_label: self.security_label@,
        }
    }
}

/// A display on which nothing has been shown yet.
pub open spec fn blank() -> DisplayView {
    DisplayView {
        name_label: Seq::empty(),
        status_label: Seq::empty(),
        details_label: Seq::empty(),
        security_icon: None,
        security_label: Seq::empty(),
    }
}

/// The display after the element `target` has been fed from `record`; the
/// other elements keep what they show. A status or trust field that holds
/// no number is shown as its default: powered off, and secure.
pub open spec fn shown(display: DisplayView, target: Target, record: RecordView) -> DisplayView {
    match target {
        Target::NameLabel => DisplayView { name_label: record.name, ..display },
        Target::StatusLabel => DisplayView {
            status_label: status_text_of(status_code_of(record.status)),
            ..display
        },
        Target::DetailsLabel => DisplayView { details_label: record.details, ..display },
        Target::SecurityIcon => DisplayView {
            security_icon: Some(trust_code_of(record.trust_level)),
            ..display
        },
        Target::SecurityLabel => DisplayView {
            security_label: trust_text_of(trust_code_of(record.trust_level)),
            ..display
        },
    }
}

/// The display with every element fed from `record`.
pub open spec fn rendered(record: RecordView) -> DisplayView {
    DisplayView {
        name_label: record.name,
        status_label: status_text_of(status_code_of(record.status)),
        details_label: record.details,
        security_icon: Some(trust_code_of(record.trust_level)),
        security_label: trust_text_of(trust_code_of(record.trust_level)),
    }
}

impl Clone for Display {
    fn clone(&self) -> (copy: Display)
        ensures
            copy@ == self@,
    {
        Display {
            name_label: self.name_label.clone(),
            status_label: self.status_label.clone(),
            details_label: self.details_label.clone(),
            security_icon: self.security_icon,
            security_label: self.security_label.clone(),
        }
    }
}

impl Display {
    /// A display on which nothing has been shown yet.
    pub fn new() -> (display: Display)
        ensures
            display@ == blank(),
    {
        Display {
            name_label: String::new(),
            status_label: String::new(),
            details_label: String::new(),
            security_icon: None,
            security_label: String::new(),
        }
    }

    /// Feeds the element `target` from `record`.
    pub fn show(&mut self, target: Target, record: &VMRecord)
        ensures
            final(self)@ == shown(old(self)@, target, record@),
    {
        match target {
            Target::NameLabel => {
                self.name_label = record.name.clone();
            },
            Target::StatusLabel => {
                self.status_label = status_text(status_code_or_default(record.status));
            },
            Target::DetailsLabel => {
                self.details_label = record.details.clone();
            },
            Target::SecurityIcon => {
                self.security_icon = Some(trust_code_or_default(record.trust_level));
            },
            Target::SecurityLabel => {
                self.security_label = trust_text(trust_code_or_default(record.trust_level));
            },
        }
    }
}

} // verus!
