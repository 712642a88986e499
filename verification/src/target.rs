//! Payload types for the target issue tracker, together with their
//! mathematical views.

use vstd::prelude::*;

verus! {

/// The value of a state-bundle custom field: a single status label.
pub struct StateBundleElement {
    pub name: String,
}

impl View for StateBundleElement {
    type V = Seq<char>;

    open spec fn view(&self) -> Seq<char> {
        self.name@
    }
}

/// View of a custom field: its name, its payload type tag, and the status
/// label carried in its value.
#[verifier::ext_equal]
pub struct CustomFieldView {
    pub name: Seq<char>,
    pub type_: Seq<char>,
    pub value: Seq<char>,
}

/// A custom field of the target system's issue payload.
pub struct CustomField {
    pub name: String,
    pub type_: String,
    pub value: StateBundleElement,
}

impl View for CustomField {
    type V = CustomFieldView;

    open spec fn view(&self) -> CustomFieldView {
        CustomFieldView { name: self.name@, type_: self.type_@, value: self.value@ }
    }
}

/// View of an issue payload: summary, optional description, and the custom
/// fields, each reduced to sequences of characters.
#[verifier::ext_equal]
pub struct IssueDataView {
    pub summary: Seq<char>,
    pub description: Option<Seq<char>>,
    pub custom_fields: Seq<CustomFieldView>,
}

/// Data sent to the target system to create or update an issue. Constructed
/// fresh for every call, never stored.
pub struct IssueData {
    pub summary: String,
    pub description: Option<String>,
    pub custom_fields: Vec<CustomField>,
}

impl View for IssueData {
    type V = IssueDataView;

    open spec fn view(&self) -> IssueDataView {
        IssueDataView {
            summary: self.summary@,
            description: match self.description {
                Some(d) => Some(d@),
                None => None,
            },
            custom_fields: Seq::new(
                self.custom_fields@.len(),
                |i: int| self.custom_fields@[i]@,
            ),
        }
    }
}

/// Identifier of an issue in the target system.
pub struct IssueId(String);

impl View for IssueId {
    type V = Seq<char>;

    closed spec fn view(&self) -> Seq<char> {
        self.0@
    }
}

impl IssueId {
    pub fn new(id: String) -> (r: Self)
        ensures
            r@ == id@,
    {
        IssueId(id)
    }

    pub fn as_str(&self) -> (r: &str)
        ensures
            r@ == self@,
    {
        self.0.as_str()
    }
}

impl Clone for IssueId {
    fn clone(&self) -> (r: Self)
        ensures
            r == *self,
    {
        IssueId(self.0.clone())
    }
}

/// Identifier of a project in the target system.
pub struct ProjectId(String);

impl View for ProjectId {
    type V = Seq<char>;

    closed spec fn view(&self) -> Seq<char> {
        self.0@
    }
}

impl ProjectId {
    pub fn new(id: String) -> (r: Self)
        ensures
            r@ == id@,
    {
        ProjectId(id)
    }

    pub fn as_str(&self) -> (r: &str)
        ensures
            r@ == self@,
    {
        self.0.as_str()
    }
}

impl Clone for ProjectId {
    fn clone(&self) -> (r: Self)
        ensures
            r == *self,
    {
        ProjectId(self.0.clone())
    }
}

} // verus!
