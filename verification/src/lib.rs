//! Substructs: views of one root struct by subsets of its fields.
//!
//! A root struct gets one capability trait per field. A child struct is
//! declared by naming the root and some of its fields, and a function can ask
//! for "any type with these fields" in place of a concrete type. This crate
//! computes the declarations that each of the three annotations stands for,
//! over a plain model of the annotated item, and proves how the declarations
//! of the three fit together.
//!
//! - [`syntax`] models the annotated items and the annotations' arguments,
//!   [`item`] the emitted declarations, and [`render`] writes those out.
//! - [`naming`] derives the names that link the expansions.
//! - [`root`], [`child`] and [`adapter`] are the three expansions.
//! - [`scope`] looks names up among the declarations in scope; the child
//!   generator finds the fields of its root there, and refuses a field that
//!   the root does not declare.
//! - [`laws`] states what holds between the expansions.

pub mod adapter;
pub mod child;
pub mod error;
pub mod item;
pub mod laws;
pub mod naming;
pub mod render;
pub mod root;
pub mod scope;
pub mod syntax;

pub use crate::adapter::parse_substruct_use;
pub use crate::child::parse_substruct_child;
pub use crate::error::{ChildError, ExpandError, LookupError};
pub use crate::item::{Item, Member};
pub use crate::naming::{create_field_trait_name, create_field_type_name};
pub use crate::render::render;
pub use crate::root::parse_substruct_root_macro;
pub use crate::scope::{
    has_capability, has_field, knows_field, lookup_alias, lookup_field_type, meets_requirement,
};
pub use crate::syntax::{
    FieldDecl, FnDecl, ItemKind, Param, Path, PathSegment, Selection, TypeDecl,
};

use vstd::prelude::*;
use crate::adapter::{first_idents, use_accepted, use_expansion, use_refused};
use crate::child::{child_accepted, child_expansion, child_refused, path_idents};
use crate::item::items_view;
use crate::render::render_items;
use crate::root::{root_expansion, root_refused};

verus! {

/// The source text that the root annotation on `input` stands for.
pub fn substruct_root(input: &TypeDecl) -> (result: Result<String, ExpandError>)
    ensures
        match result {
            Ok(text) => {
                &&& input@.is_plain_struct()
                &&& text@ == render_items(root_expansion(input@.ident, input@.fields))
            },
            Err(error) => root_refused(input@, error),
        },
{
    match parse_substruct_root_macro(input) {
        Ok(items) => Ok(render(&items)),
        Err(error) => Err(error),
    }
}

/// The source text that the child annotation with the arguments `args` on
/// the empty struct `input` stands for, among the declarations in scope.
pub fn substruct_child(scope: &Vec<Item>, args: &Selection, input: &TypeDecl) -> (result: Result<
    String,
    ChildError,
>)
    ensures
        match result {
            Ok(text) => {
                &&& child_accepted(items_view(scope@), args@, input@)
                &&& text@ == render_items(
                    child_expansion(
                        args@.root.as_ident()->0,
                        path_idents(args@.fields),
                        input@.ident,
                    ),
                )
            },
            Err(error) => child_refused(items_view(scope@), args@, input@, error@),
        },
{
    match parse_substruct_child(scope, args, input) {
        Ok(items) => Ok(render(&items)),
        Err(error) => Err(error),
    }
}

/// The source text that the function annotation with the arguments `attr` on
/// the function `fn_input` stands for.
pub fn substruct_use(attr: &Selection, fn_input: &FnDecl) -> (result: Result<String, ExpandError>)
    ensures
        match result {
            Ok(text) => {
                &&& use_accepted(attr@, fn_input@)
                &&& text@ == render_items(
                    use_expansion(
                        attr@.root.as_ident()->0,
                        first_idents(attr@.fields),
                        fn_input@,
                    ),
                )
            },
            Err(error) => use_refused(attr@, fn_input@, error),
        },
{
    match parse_substruct_use(attr, fn_input) {
        Ok(items) => Ok(render(&items)),
        Err(error) => Err(error),
    }
}

} // verus!
