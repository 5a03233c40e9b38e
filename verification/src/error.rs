//! Why an expansion is refused, and why a lookup fails.

use vstd::prelude::*;

verus! {

/// The annotated item or the annotation's arguments do not have the shape
/// that the expansion works on.
#[derive(Clone, Copy, Debug, PartialEq, Eq)]
pub enum ExpandError {
    /// The annotation stands on an enum or a union.
    NotAStruct,
    /// The root struct has a field without a name.
    UnnamedField,
    /// The child struct declares fields of its own.
    FieldsPresent,
    /// The `root` argument is more than a single identifier.
    RootNotIdent,
    /// The entry of `fields` at `index` does not name a field: for a child it
    /// is more than a single identifier, for a function it has no segment.
    FieldNotIdent { index: usize },
    /// The function does not take exactly one parameter.
    NotOneParameter,
}

impl ExpandError {
    /// The message of this error.
    pub open spec fn message_text(self) -> Seq<char> {
        match self {
            ExpandError::NotAStruct => "Only structs are supported"@,
            ExpandError::UnnamedField => "Only named fields are supported"@,
            ExpandError::FieldsPresent => "Expected a struct without fields"@,
            ExpandError::RootNotIdent => "Failed to get root struct ident"@,
            ExpandError::FieldNotIdent { .. } => "Expected ident"@,
            ExpandError::NotOneParameter => "Expected a function of one parameter"@,
        }
    }

    /// The message to report this error with.
    pub fn message(&self) -> (text: String)
        ensures
            text@ == self.message_text(),
    {
        match self {
            ExpandError::NotAStruct => "Only structs are supported".to_owned(),
            ExpandError::UnnamedField => "Only named fields are supported".to_owned(),
            ExpandError::FieldsPresent => "Expected a struct without fields".to_owned(),
            ExpandError::RootNotIdent => "Failed to get root struct ident".to_owned(),
            ExpandError::FieldNotIdent { .. } => "Expected ident".to_owned(),
            ExpandError::NotOneParameter => "Expected a function of one parameter".to_owned(),
        }
    }
}

/// A child struct asks for a field that the declarations in scope do not
/// know of its root: the root was not derived there, or it declares no field
/// of this name.
#[derive(Clone, Debug, PartialEq, Eq)]
pub struct LookupError {
    /// The root that was named.
    pub root: String,
    /// The field that was asked for.
    pub field: String,
}

/// A [`LookupError`] with its texts as sequences of characters.
pub struct LookupErrorView {
    pub root: Seq<char>,
    pub field: Seq<char>,
}

impl View for LookupError {
    type V = LookupErrorView;

    open spec fn view(&self) -> LookupErrorView {
        LookupErrorView { root: self.root@, field: self.field@ }
    }
}

impl LookupErrorView {
    /// The message of this error.
    pub open spec fn message_text(self) -> Seq<char> {
        "Unknown field `"@ + self.field + "` on `"@ + self.root + "`"@
    }
}

impl LookupError {
    /// The message to report this error with, which names the field.
    pub fn message(&self) -> (text: String)
        ensures
            text@ == self@.message_text(),
    {
        let mut text = "Unknown field `".to_owned();
        text.append(self.field.as_str());
        text.append("` on `");
        text.append(self.root.as_str());
        text.append("`");
        text
    }
}

/// Why the child struct generator refuses an annotation.
#[derive(Clone, Debug, PartialEq, Eq)]
pub enum ChildError {
    /// The item or the arguments do not have the shape that it works on.
    Shape(ExpandError),
    /// A field that the arguments list is not known of the root.
    Lookup(LookupError),
}

/// A [`ChildError`] with its texts as sequences of characters.
pub enum ChildErrorView {
    Shape(ExpandError),
    Lookup(LookupErrorView),
}

impl View for ChildError {
    type V = ChildErrorView;

    open spec fn view(&self) -> ChildErrorView {
        match *self {
            ChildError::Shape(error) => ChildErrorView::Shape(error),
            ChildError::Lookup(error) => ChildErrorView::Lookup(error@),
        }
    }
}

impl ChildErrorView {
    /// The message of this error.
    pub open spec fn message_text(self) -> Seq<char> {
        match self {
            ChildErrorView::Shape(error) => error.message_text(),
            ChildErrorView::Lookup(error) => error.message_text(),
        }
    }
}

impl ChildError {
    /// The message to report this error with.
    pub fn message(&self) -> (text: String)
        ensures
            text@ == self@.message_text(),
    {
        match self {
            ChildError::Shape(error) => error.message(),
            ChildError::Lookup(error) => error.message(),
        }
    }
}

} // verus!
