//! The child struct generator: a struct made of some fields of a root.
//!
//! The generator is handed the declarations in scope, and generates nothing
//! unless they know every field that is asked for.

use vstd::prelude::*;
use crate::error::{ChildError, ChildErrorView, ExpandError, LookupError};
use crate::item::{items_view, members_view, Item, ItemView, Member, MemberView};
use crate::naming::{
    accessor_name, create_accessor_name, create_field_trait_name, create_field_type_name,
    field_trait_name, field_type_name,
};
use crate::scope::{field_known, knows_field};
use crate::syntax::{ItemKind, PathView, Selection, SelectionView, TypeDecl, TypeDeclView};

verus! {

/// The member that a child struct holds for `field` of `root`. Its type is
/// the root's alias for the field's type.
pub open spec fn child_member(root: Seq<char>, field: Seq<char>) -> MemberView {
    MemberView { ident: field, ty: field_type_name(root, field) }
}

/// The implementation of the capability of `field` of `root` for the child
/// struct `target`.
pub open spec fn child_accessor(root: Seq<char>, field: Seq<char>, target: Seq<char>) -> ItemView {
    ItemView::Accessor {
        capability: field_trait_name(root, field),
        target,
        method: accessor_name(field),
        ty: field_type_name(root, field),
        field,
    }
}

/// What the generator emits for the struct `target` with the fields `fields`
/// of `root`: the struct itself, then one accessor for each field, in the
/// order of the annotation.
pub open spec fn child_expansion(
    root: Seq<char>,
    fields: Seq<Seq<char>>,
    target: Seq<char>,
) -> Seq<ItemView> {
    seq![
        ItemView::Struct {
            name: target,
            members: Seq::new(fields.len(), |j: int| child_member(root, fields[j])),
        },
    ] + Seq::new(fields.len(), |j: int| child_accessor(root, fields[j], target))
}

/// The identifiers that the paths consist of.
pub open spec fn path_idents(paths: Seq<PathView>) -> Seq<Seq<char>> {
    Seq::new(paths.len(), |j: int| paths[j].as_ident()->0)
}

/// The entry at `index` is the first that is more than a single identifier.
pub open spec fn first_not_ident(paths: Seq<PathView>, index: int) -> bool {
    &&& 0 <= index < paths.len()
    &&& paths[index].as_ident() is None
    &&& forall|j: int| 0 <= j < index ==> (#[trigger] paths[j]).as_ident() is Some
}

/// The annotation `args` on the item `input` has the shape that the
/// generator works on: an empty struct, a root and fields that are single
/// identifiers.
pub open spec fn child_shaped(args: SelectionView, input: TypeDeclView) -> bool {
    &&& input.kind == ItemKind::Struct
    &&& input.fields.len() == 0
    &&& args.root.as_ident() is Some
    &&& forall|j: int| 0 <= j < args.fields.len() ==> (#[trigger] args.fields[j]).as_ident() is Some
}

/// The annotation `args` on the item `input` has not that shape, for the
/// reason `error`. The item is looked at before the arguments, and each
/// condition includes that the ones before it do not hold, so at most one
/// error fits.
pub open spec fn shape_refused(args: SelectionView, input: TypeDeclView, error: ExpandError) -> bool {
    match error {
        ExpandError::NotAStruct => input.kind != ItemKind::Struct,
        ExpandError::FieldsPresent => input.kind == ItemKind::Struct && input.fields.len() > 0,
        ExpandError::RootNotIdent => {
            &&& input.kind == ItemKind::Struct
            &&& input.fields.len() == 0
            &&& args.root.as_ident() is None
        },
        ExpandError::FieldNotIdent { index } => {
            &&& input.kind == ItemKind::Struct
            &&& input.fields.len() == 0
            &&& args.root.as_ident() is Some
            &&& first_not_ident(args.fields, index as int)
        },
        _ => false,
    }
}

/// The field at `index` is the first of `fields` that the declarations
/// `scope` do not know of `root`.
pub open spec fn first_unknown(
    scope: Seq<ItemView>,
    root: Seq<char>,
    fields: Seq<Seq<char>>,
    index: int,
) -> bool {
    &&& 0 <= index < fields.len()
    &&& !field_known(scope, root, fields[index])
    &&& forall|j: int| 0 <= j < index ==> field_known(scope, root, #[trigger] fields[j])
}

/// The generator accepts the annotation `args` on the item `input` among the
/// declarations `scope`: the shape is right, and every field that is asked
/// for is known of the root.
pub open spec fn child_accepted(
    scope: Seq<ItemView>,
    args: SelectionView,
    input: TypeDeclView,
) -> bool {
    &&& child_shaped(args, input)
    &&& forall|j: int|
        0 <= j < args.fields.len() ==> field_known(
            scope,
            args.root.as_ident()->0,
            #[trigger] path_idents(args.fields)[j],
        )
}

/// The generator refuses the annotation `args` on the item `input` among the
/// declarations `scope` with `error`: for its shape, or, where the shape is
/// right, for the first field that is not known of the root, which the error
/// names.
pub open spec fn child_refused(
    scope: Seq<ItemView>,
    args: SelectionView,
    input: TypeDeclView,
    error: ChildErrorView,
) -> bool {
    match error {
        ChildErrorView::Shape(shape) => shape_refused(args, input, shape),
        ChildErrorView::Lookup(lookup) => {
            &&& child_shaped(args, input)
            &&& lookup.root == args.root.as_ident()->0
            &&& exists|index: int|
                {
                    &&& #[trigger] first_unknown(
                        scope,
                        args.root.as_ident()->0,
                        path_idents(args.fields),
                        index,
                    )
                    &&& lookup.field == path_idents(args.fields)[index]
                }
        },
    }
}

/// Generates the child struct that `args` asks for in place of the empty
/// struct `input`, with an accessor for each of its fields.
///
/// Every field is looked up among the declarations in scope, by its declared
/// name on the root. Where one is not known, the first such field is
/// reported and nothing is generated, for the other fields either.
pub fn parse_substruct_child(scope: &Vec<Item>, args: &Selection, input: &TypeDecl) -> (result:
    Result<Vec<Item>, ChildError>)
    ensures
        match result {
            Ok(items) => {
                &&& child_accepted(items_view(scope@), args@, input@)
                &&& items_view(items@) == child_expansion(
                    args@.root.as_ident()->0,
                    path_idents(args@.fields),
                    input@.ident,
                )
            },
            Err(error) => child_refused(items_view(scope@), args@, input@, error@),
        },
{
    match input.kind {
        ItemKind::Struct => {},
        _ => {
            return Err(ChildError::Shape(ExpandError::NotAStruct));
        },
    }
    if input.fields.len() > 0 {
        return Err(ChildError::Shape(ExpandError::FieldsPresent));
    }
    let root = match args.root.get_ident() {
        Some(ident) => ident,
        None => {
            return Err(ChildError::Shape(ExpandError::RootNotIdent));
        },
    };
    let mut i: usize = 0;
    while i < args.fields.len()
        invariant
            0 <= i <= args.fields.len(),
            input@.kind == ItemKind::Struct,
            input@.fields.len() == 0,
            args@.root.as_ident() == Some(root@),
            args@.fields.len() == args.fields.len(),
            forall|k: int| 0 <= k < i ==> (#[trigger] args@.fields[k]).as_ident() is Some,
        decreases args.fields.len() - i,
    {
        assert(args@.fields[i as int] == args.fields[i as int]@);
        if args.fields[i].get_ident().is_none() {
            return Err(ChildError::Shape(ExpandError::FieldNotIdent { index: i }));
        }
        i += 1;
    }
    let ghost known = items_view(scope@);
    let ghost idents = path_idents(args@.fields);
    let mut members: Vec<Member> = Vec::new();
    let mut items: Vec<Item> = Vec::new();
    let mut j: usize = 0;
    while j < args.fields.len()
        invariant
            0 <= j <= args.fields.len(),
            child_shaped(args@, input@),
            args@.root.as_ident() == Some(root@),
            known == items_view(scope@),
            idents == path_idents(args@.fields),
            args@.fields.len() == args.fields.len(),
            forall|k: int| 0 <= k < j ==> field_known(known, root@, #[trigger] idents[k]),
            members_view(members@) == Seq::new(j as nat, |k: int| child_member(root@, idents[k])),
            items_view(items@) == Seq::new(
                j as nat,
                |k: int| child_accessor(root@, idents[k], input@.ident),
            ),
        decreases args.fields.len() - j,
    {
        assert(args@.fields[j as int] == args.fields[j as int]@);
        let field = match args.fields[j].get_ident() {
            Some(ident) => ident,
            None => {
                return Err(ChildError::Shape(ExpandError::FieldNotIdent { index: j }));
            },
        };
        assert(idents[j as int] == field@);
        if !knows_field(scope, root.as_str(), field.as_str()) {
            let error = LookupError { root: root.clone(), field: field.clone() };
            assert(first_unknown(known, root@, idents, j as int));
            return Err(ChildError::Lookup(error));
        }
        let alias = create_field_type_name(root.as_str(), field.as_str());
        let method = create_accessor_name(field.as_str());
        let capability = create_field_trait_name(root.as_str(), field.as_str());
        let member = Member { ident: field.clone(), ty: alias.clone() };
        let accessor = Item::Accessor {
            capability,
            target: input.ident.clone(),
            method,
            ty: alias,
            field: field.clone(),
        };
        assert(member@ == child_member(root@, idents[j as int]));
        assert(accessor@ == child_accessor(root@, idents[j as int], input@.ident));
        let ghost members_before = members@;
        let ghost items_before = items@;
        members.push(member);
        items.push(accessor);
        assert(members_view(members@) =~= members_view(members_before).push(member@));
        assert(items_view(items@) =~= items_view(items_before).push(accessor@));
        j += 1;
    }
    let mut out: Vec<Item> = Vec::new();
    out.push(Item::Struct { name: input.ident.clone(), members });
    out.append(&mut items);
    Ok(out)
}

} // verus!
