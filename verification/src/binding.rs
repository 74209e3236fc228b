//! Links from one field of a machine record to one element of the display.

use vstd::prelude::*;

verus! {

/// An observable field of a machine record.
#[derive(Clone, Copy, Debug, PartialEq, Eq, Structural)]
pub enum Field {
    Name,
    Status,
    Details,
    TrustLevel,
}

/// An element of the panel's display that a link can write to.
#[derive(Clone, Copy, Debug, PartialEq, Eq, Structural)]
pub enum Target {
    NameLabel,
    StatusLabel,
    DetailsLabel,
    SecurityIcon,
    SecurityLabel,
}

/// What a link does to a field's value before showing it.
#[derive(Clone, Copy, Debug, PartialEq, Eq, Structural)]
pub enum Transform {
    /// The value is shown as it is.
    Identity,
    /// A status code becomes its display text.
    StatusText,
    /// A trust code becomes the key under which its icon is looked up.
    IconResource,
    /// A trust code becomes its display text.
    TrustText,
}

/// A live, revocable, one-directional link from a field of the record
/// `source` to a display element.
#[derive(Clone, Copy, Debug, PartialEq, Eq, Structural)]
pub struct FieldBinding {
    pub source: u64,
    pub field: Field,
    pub target: Target,
    pub transform: Transform,
}

/// The record field that feeds a display element.
pub open spec fn field_of(target: Target) -> Field {
    match target {
        Target::NameLabel => Field::Name,
        Target::StatusLabel => Field::Status,
        Target::DetailsLabel => Field::Details,
        Target::SecurityIcon => Field::TrustLevel,
        Target::SecurityLabel => Field::TrustLevel,
    }
}

/// The transform through which a display element is fed.
pub open spec fn transform_of(target: Target) -> Transform {
    match target {
        Target::NameLabel => Transform::Identity,
        Target::StatusLabel => Transform::StatusText,
        Target::DetailsLabel => Transform::Identity,
        Target::SecurityIcon => Transform::IconResource,
        Target::SecurityLabel => Transform::TrustText,
    }
}

/// The name of the record property that holds a field.
pub open spec fn source_property_of(field: Field) -> Seq<char> {
    match field {
        Field::Name => "name"@,
        Field::Status => "status"@,
        Field::Details => "details"@,
        Field::TrustLevel => "trust-level"@,
    }
}

/// The field that the record property `name` holds, if the panel shows it.
pub open spec fn field_held_by(name: Seq<char>) -> Option<Field> {
    if name == source_property_of(Field::Name) {
        Some(Field::Name)
    } else if name == source_property_of(Field::Status) {
        Some(Field::Status)
    } else if name == source_property_of(Field::Details) {
        Some(Field::Details)
    } else if name == source_property_of(Field::TrustLevel) {
        Some(Field::TrustLevel)
    } else {
        None
    }
}

/// The name of the property of a display element that a link writes: the
/// text of a label, the resource of the icon.
pub open spec fn target_property_of(target: Target) -> Seq<char> {
    match target {
        Target::SecurityIcon => "resource"@,
        _ => "label"@,
    }
}

/// The link that feeds `target` from the record `source`.
pub open spec fn link_of(source: u64, target: Target) -> FieldBinding {
    FieldBinding { source, field: field_of(target), target, transform: transform_of(target) }
}

/// The five links of a bound panel, in the order in which they are made.
pub open spec fn standard_links(source: u64) -> Seq<FieldBinding> {
    seq![
        link_of(source, Target::NameLabel),
        link_of(source, Target::StatusLabel),
        link_of(source, Target::DetailsLabel),
        link_of(source, Target::SecurityIcon),
        link_of(source, Target::SecurityLabel),
    ]
}

/// At most one set of links is active: there is none, or there are exactly
/// the five standard links of a single record.
pub open spec fn single_set(links: Seq<FieldBinding>) -> bool {
    links.len() == 0 || links == standard_links(links[0].source)
}

impl Field {
    /// The name of the record property that holds this field.
    pub fn property(self) -> (name: String)
        ensures
            name@ == source_property_of(self),
    {
        match self {
            Field::Name => "name".to_owned(),
            Field::Status => "status".to_owned(),
            Field::Details => "details".to_owned(),
            Field::TrustLevel => "trust-level".to_owned(),
        }
    }

    /// The field that a record property holds, if it holds one that the
    /// panel shows.
    pub fn from_property(name: &String) -> (field: Option<Field>)
        ensures
            field == field_held_by(name@),
    {
        if *name == Field::Name.property() {
            Some(Field::Name)
        } else if *name == Field::Status.property() {
            Some(Field::Status)
        } else if *name == Field::Details.property() {
            Some(Field::Details)
        } else if *name == Field::TrustLevel.property() {
            Some(Field::TrustLevel)
        } else {
            None
        }
    }
}

impl Target {
    /// The name of the property of this element that a link writes.
    pub fn property(self) -> (name: String)
        ensures
            name@ == target_property_of(self),
    {
        match self {
            Target::SecurityIcon => "resource".to_owned(),
            _ => "label".to_owned(),
        }
    }

    /// The record field that feeds this element.
    pub fn field(self) -> (field: Field)
        ensures
            field == field_of(self),
    {
        match self {
            Target::NameLabel => Field::Name,
            Target::StatusLabel => Field::Status,
            Target::DetailsLabel => Field::Details,
            Target::SecurityIcon => Field::TrustLevel,
            Target::SecurityLabel => Field::TrustLevel,
        }
    }

    /// The transform through which this element is fed.
    pub fn transform(self) -> (transform: Transform)
        ensures
            transform == transform_of(self),
    {
        match self {
            Target::NameLabel => Transform::Identity,
            Target::StatusLabel => Transform::StatusText,
            Target::DetailsLabel => Transform::Identity,
            Target::SecurityIcon => Transform::IconResource,
            Target::SecurityLabel => Transform::TrustText,
        }
    }
}

impl FieldBinding {
    /// The link that feeds `target` from the record `source`.
    pub fn link(source: u64, target: Target) -> (binding: FieldBinding)
        ensures
            binding == link_of(source, target),
    {
        FieldBinding { source, field: target.field(), target, transform: target.transform() }
    }

    /// Whether a change of `field` in the record `source` passes through
    /// this link.
    pub open spec fn carries(self, source: u64, field: Field) -> bool {
        self.source == source && self.field == field
    }

    /// Whether a change of `field` in the record `source` passes through
    /// this link.
    pub fn listens_to(&self, source: u64, field: Field) -> (hit: bool)
        ensures
            hit == self.carries(source, field),
    {
        self.source == source && self.field == field
    }
}

} // verus!
