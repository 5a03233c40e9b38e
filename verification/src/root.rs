//! The root deriver: one capability for each field of a struct.

use vstd::prelude::*;
use crate::error::ExpandError;
use crate::item::{items_view, Item, ItemView};
use crate::naming::{
    accessor_name, create_accessor_name, create_field_trait_name, create_field_type_name,
    field_trait_name, field_type_name,
};
use crate::syntax::{FieldDeclView, ItemKind, TypeDecl, TypeDeclView};

verus! {

/// The capability of the field `field` of `root`: a trait with one method,
/// which returns a reference to a value of the field's type.
pub open spec fn root_capability(root: Seq<char>, field: Seq<char>, ty: Seq<char>) -> ItemView {
    ItemView::Capability {
        name: field_trait_name(root, field),
        method: accessor_name(field),
        ty,
    }
}

/// The implementation of that capability for the root itself, which returns
/// a reference to the field.
pub open spec fn root_accessor(root: Seq<char>, field: Seq<char>, ty: Seq<char>) -> ItemView {
    ItemView::Accessor {
        capability: field_trait_name(root, field),
        target: root,
        method: accessor_name(field),
        ty,
        field,
    }
}

/// The alias under which other expansions find the field's type.
pub open spec fn root_alias(root: Seq<char>, field: Seq<char>, ty: Seq<char>) -> ItemView {
    ItemView::Alias { name: field_type_name(root, field), ty }
}

/// The declaration at position `k` of what the deriver emits for a struct
/// `root` with the fields `fields`: the fields come in declaration order, and
/// each contributes its capability, its accessor and its alias, in this order.
pub open spec fn root_item(root: Seq<char>, fields: Seq<FieldDeclView>, k: int) -> ItemView {
    let field = fields[k / 3];
    if k % 3 == 0 {
        root_capability(root, field.ident->0, field.ty)
    } else if k % 3 == 1 {
        root_accessor(root, field.ident->0, field.ty)
    } else {
        root_alias(root, field.ident->0, field.ty)
    }
}

/// What the deriver emits for a struct `root` with the fields `fields`:
/// three declarations for each field, and nothing for a struct without
/// fields.
pub open spec fn root_expansion(root: Seq<char>, fields: Seq<FieldDeclView>) -> Seq<ItemView> {
    Seq::new(3 * fields.len(), |k: int| root_item(root, fields, k))
}

/// The deriver refuses `input` with `error`: what is no struct at all is
/// refused as such, and a struct for a field without a name.
pub open spec fn root_refused(input: TypeDeclView, error: ExpandError) -> bool {
    match error {
        ExpandError::NotAStruct => input.kind != ItemKind::Struct,
        ExpandError::UnnamedField => input.kind == ItemKind::Struct && !input.is_plain_struct(),
        _ => false,
    }
}

/// Derives the capabilities of the fields of the struct `input`.
pub fn parse_substruct_root_macro(input: &TypeDecl) -> (result: Result<Vec<Item>, ExpandError>)
    ensures
        match result {
            Ok(items) => {
                &&& input@.is_plain_struct()
                &&& items@.len() == 3 * input@.fields.len()
                &&& items_view(items@) == root_expansion(input@.ident, input@.fields)
            },
            Err(error) => root_refused(input@, error),
        },
{
    match input.kind {
        ItemKind::Struct => {},
        _ => {
            return Err(ExpandError::NotAStruct);
        },
    }
    let ghost root = input@.ident;
    let ghost fields = input@.fields;
    let mut items: Vec<Item> = Vec::new();
    let mut i: usize = 0;
    while i < input.fields.len()
        invariant
            0 <= i <= input.fields.len(),
            input@.kind == ItemKind::Struct,
            root == input@.ident,
            fields == input@.fields,
            fields.len() == input.fields.len(),
            forall|k: int| 0 <= k < i ==> (#[trigger] fields[k]).ident is Some,
            items@.len() == 3 * i,
            items_view(items@) == Seq::new(3 * (i as nat), |k: int| root_item(root, fields, k)),
        decreases input.fields.len() - i,
    {
        assert(fields[i as int] == input.fields[i as int]@);
        let field = &input.fields[i];
        let ident = match &field.ident {
            Some(ident) => ident,
            None => {
                return Err(ExpandError::UnnamedField);
            },
        };
        let method = create_accessor_name(ident.as_str());
        let capability = create_field_trait_name(input.ident.as_str(), ident.as_str());
        let alias = create_field_type_name(input.ident.as_str(), ident.as_str());
        let first = Item::Capability {
            name: capability.clone(),
            method: method.clone(),
            ty: field.ty.clone(),
        };
        let second = Item::Accessor {
            capability,
            target: input.ident.clone(),
            method,
            ty: field.ty.clone(),
            field: ident.clone(),
        };
        let third = Item::Alias { name: alias, ty: field.ty.clone() };
        assert(first@ == root_item(root, fields, 3 * i));
        assert(second@ == root_item(root, fields, 3 * i + 1));
        assert(third@ == root_item(root, fields, 3 * i + 2));
        let ghost before = items@;
        items.push(first);
        items.push(second);
        items.push(third);
        assert(items_view(items@) =~= items_view(before).push(first@).push(second@).push(third@));
        i += 1;
    }
    Ok(items)
}

} // verus!
