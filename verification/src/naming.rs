//! The naming scheme: how the identifiers of the emitted declarations are
//! derived from the identifiers of a root struct, a field or a function.
//!
//! Every expansion runs on its own and shares no state with the others, so
//! the names are the only link between them: a child struct finds the
//! capability of a field by deriving the same name again.

use vstd::prelude::*;

verus! {

/// The two identifier conventions that the scheme converts to.
#[derive(Clone, Copy, Debug, PartialEq, Eq)]
pub enum Case {
    /// `EveryWordCapitalised`, used for trait and type names.
    Pascal,
    /// `lower_case_with_underscores`, used for method names.
    Snake,
}

/// The text that `convert_case` turns `text` into for the convention `case`,
/// splitting words at its default boundaries.
pub uninterp spec fn cased(text: Seq<char>, case: Case) -> Seq<char>;

/// Calls `convert_case::Casing::to_case` on `text`. The conversion is a pure
/// function of the text and the convention (word segmentation followed by a
/// per-word change of letter case), which the contract records by naming its
/// result; nothing is claimed about what the converted text looks like.
#[verifier::external_body]
pub(crate) fn to_case(text: &str, case: Case) -> (out: String)
    ensures
        out@ == cased(text@, case),
{
    let target = match case {
        Case::Pascal => convert_case::Case::Pascal,
        Case::Snake => convert_case::Case::Snake,
    };
    convert_case::Casing::to_case(&text, target)
}

/// Name of a capability trait, from the root and the field's form in Pascal
/// case.
pub open spec fn trait_name_from(root: Seq<char>, pascal: Seq<char>) -> Seq<char> {
    "__"@ + root + "__"@ + pascal
}

/// Name of a type alias, from the root and the field's form in Pascal case.
pub open spec fn type_name_from(root: Seq<char>, pascal: Seq<char>) -> Seq<char> {
    trait_name_from(root, pascal) + "__Type"@
}

/// Name of a requirement trait, from the function's form in Pascal case.
pub open spec fn requirement_name_from(pascal: Seq<char>) -> Seq<char> {
    pascal + "Input"@
}

/// Name of the capability trait of `field` on the struct `root`.
pub open spec fn field_trait_name(root: Seq<char>, field: Seq<char>) -> Seq<char> {
    trait_name_from(root, cased(field, Case::Pascal))
}

/// Name of the type alias that stands for the type of `field` on `root`.
pub open spec fn field_type_name(root: Seq<char>, field: Seq<char>) -> Seq<char> {
    type_name_from(root, cased(field, Case::Pascal))
}

/// Name of the accessor method of `field`.
pub open spec fn accessor_name(field: Seq<char>) -> Seq<char> {
    cased(field, Case::Snake)
}

/// Name of the requirement trait of the function `function`.
pub open spec fn requirement_name(function: Seq<char>) -> Seq<char> {
    requirement_name_from(cased(function, Case::Pascal))
}

/// Puts the name of a capability trait together: two underscores, the root,
/// two underscores, the field in Pascal case.
pub fn join_field_trait_name(root_struct_ident: &str, pascal: &str) -> (name: String)
    ensures
        name@ == trait_name_from(root_struct_ident@, pascal@),
{
    let mut name = "__".to_owned();
    name.append(root_struct_ident);
    name.append("__");
    name.append(pascal);
    name
}

/// Puts the name of a type alias together: the name of the capability trait,
/// then `__Type`.
pub fn join_field_type_name(root_struct_ident: &str, pascal: &str) -> (name: String)
    ensures
        name@ == type_name_from(root_struct_ident@, pascal@),
{
    let mut name = join_field_trait_name(root_struct_ident, pascal);
    name.append("__Type");
    name
}

/// Puts the name of a requirement trait together: the function in Pascal
/// case, then `Input`.
pub fn join_requirement_name(pascal: &str) -> (name: String)
    ensures
        name@ == requirement_name_from(pascal@),
{
    let mut name = pascal.to_owned();
    name.append("Input");
    name
}

/// Derives the name of the capability trait of a field of a root struct.
pub fn create_field_trait_name(root_struct_ident: &str, field_ident: &str) -> (name: String)
    ensures
        name@ == field_trait_name(root_struct_ident@, field_ident@),
{
    let pascal = to_case(field_ident, Case::Pascal);
    join_field_trait_name(root_struct_ident, pascal.as_str())
}

/// Derives the name of the alias for the type of a field of a root struct.
pub fn create_field_type_name(root_struct_ident: &str, field_ident: &str) -> (name: String)
    ensures
        name@ == field_type_name(root_struct_ident@, field_ident@),
{
    let pascal = to_case(field_ident, Case::Pascal);
    join_field_type_name(root_struct_ident, pascal.as_str())
}

/// Derives the name of the accessor method of a field.
pub fn create_accessor_name(field_ident: &str) -> (name: String)
    ensures
        name@ == accessor_name(field_ident@),
{
    to_case(field_ident, Case::Snake)
}

/// Derives the name of the requirement trait of an adapted function.
pub fn create_requirement_name(fn_ident: &str) -> (name: String)
    ensures
        name@ == requirement_name(fn_ident@),
{
    let pascal = to_case(fn_ident, Case::Pascal);
    join_requirement_name(pascal.as_str())
}

} // verus!
