//! What a list of declarations makes known by name.
//!
//! The expansions never see each other's input. A child struct names the type
//! of a member by the root's alias for it, and a requirement trait names the
//! capabilities of the root; both resolve only among the declarations that
//! are in scope where they stand. This module looks names up in such a list:
//! the fields that a root declares, the aliases, and the capabilities that a
//! type has.

use vstd::prelude::*;
use crate::item::{items_view, texts, Item, ItemView};
use crate::naming::{create_field_type_name, field_type_name};

verus! {

/// The type that `name` stands for among `items`: that of the first alias of
/// this name, if there is one.
pub open spec fn alias_target(items: Seq<ItemView>, name: Seq<char>) -> Option<Seq<char>>
    decreases items.len(),
{
    if items.len() == 0 {
        None
    } else {
        match alias_target(items.drop_last(), name) {
            Some(ty) => Some(ty),
            None => match items.last() {
                ItemView::Alias { name: declared, ty } => if declared == name {
                    Some(ty)
                } else {
                    None
                },
                _ => None,
            },
        }
    }
}

/// `item` is an alias of the name `name`.
pub open spec fn is_alias_named(item: ItemView, name: Seq<char>) -> bool {
    match item {
        ItemView::Alias { name: declared, .. } => declared == name,
        _ => false,
    }
}

/// `item` implements `capability` for the type `target`.
pub open spec fn is_accessor_of(item: ItemView, target: Seq<char>, capability: Seq<char>) -> bool {
    match item {
        ItemView::Accessor { capability: c, target: t, .. } => c == capability && t == target,
        _ => false,
    }
}

/// `item` is the accessor of the type `root` for its own field `field`.
pub open spec fn is_root_accessor(item: ItemView, root: Seq<char>, field: Seq<char>) -> bool {
    match item {
        ItemView::Accessor { target, field: declared, .. } => target == root && declared == field,
        _ => false,
    }
}

/// Among `items` the type `root` has an accessor for its own field `field`:
/// the field is declared on the root, under this very name.
pub open spec fn declares_field(items: Seq<ItemView>, root: Seq<char>, field: Seq<char>) -> bool {
    exists|k: int| 0 <= k < items.len() && is_root_accessor(#[trigger] items[k], root, field)
}

/// Among `items` the field `field` of `root` is known: it is declared on the
/// root, and the alias for its type is there.
pub open spec fn field_known(items: Seq<ItemView>, root: Seq<char>, field: Seq<char>) -> bool {
    &&& declares_field(items, root, field)
    &&& alias_target(items, field_type_name(root, field)) is Some
}

/// Among `items` there is an implementation of `capability` for `target`.
pub open spec fn implements(items: Seq<ItemView>, target: Seq<char>, capability: Seq<char>) -> bool {
    exists|k: int| 0 <= k < items.len() && is_accessor_of(#[trigger] items[k], target, capability)
}

/// Among `items` the type `target` has every capability of `bounds`, which is
/// what makes it meet a requirement trait with these bounds.
pub open spec fn meets(items: Seq<ItemView>, target: Seq<char>, bounds: Seq<Seq<char>>) -> bool {
    forall|j: int| 0 <= j < bounds.len() ==> implements(items, target, #[trigger] bounds[j])
}

/// The first alias of a name in a prefix of a list is the first in the
/// whole list.
pub proof fn lemma_alias_target_prefix(items: Seq<ItemView>, name: Seq<char>, n: int)
    requires
        0 <= n <= items.len(),
        alias_target(items.take(n), name) is Some,
    ensures
        alias_target(items, name) == alias_target(items.take(n), name),
    decreases items.len() - n,
{
    if n == items.len() {
        assert(items.take(n) =~= items);
    } else {
        assert(items.take(n + 1).drop_last() =~= items.take(n));
        lemma_alias_target_prefix(items, name, n + 1);
    }
}

/// A name has a target exactly if some alias of that name is declared, and
/// the target is the type of such an alias.
pub proof fn lemma_alias_target_declared(items: Seq<ItemView>, name: Seq<char>)
    ensures
        alias_target(items, name) matches Some(ty) ==> exists|k: int|
            0 <= k < items.len() && #[trigger] items[k] == (ItemView::Alias { name, ty }),
        alias_target(items, name) is None ==> forall|k: int|
            0 <= k < items.len() ==> !is_alias_named(#[trigger] items[k], name),
    decreases items.len(),
{
    if items.len() > 0 {
        let front = items.drop_last();
        lemma_alias_target_declared(front, name);
        match alias_target(front, name) {
            Some(ty) => {
                let k = choose|k: int|
                    0 <= k < front.len() && #[trigger] front[k] == (ItemView::Alias { name, ty });
                assert(items[k] == front[k]);
            },
            None => {
                if alias_target(items, name) is Some {
                    assert(items[items.len() - 1] == items.last());
                } else {
                    assert forall|k: int| 0 <= k < items.len() implies !is_alias_named(
                        #[trigger] items[k],
                        name,
                    ) by {
                        if k < front.len() {
                            assert(items[k] == front[k]);
                        }
                    }
                }
            },
        }
    }
}

/// Looks up the type that the alias `name` stands for among the declarations
/// in scope. Where several aliases have the name, the first counts.
pub fn lookup_alias(scope: &Vec<Item>, name: &str) -> (found: Option<String>)
    ensures
        match found {
            Some(ty) => alias_target(items_view(scope@), name@) == Some(ty@),
            None => alias_target(items_view(scope@), name@) is None,
        },
{
    let ghost all = items_view(scope@);
    let wanted = name.to_owned();
    let mut i: usize = 0;
    while i < scope.len()
        invariant
            0 <= i <= scope.len(),
            all == items_view(scope@),
            wanted@ == name@,
            alias_target(all.take(i as int), name@) is None,
        decreases scope.len() - i,
    {
        assert(all.take(i + 1).drop_last() =~= all.take(i as int));
        assert(all.take(i + 1).last() == scope[i as int]@);
        match &scope[i] {
            Item::Alias { name: declared, ty } => {
                if *declared == wanted {
                    proof {
                        lemma_alias_target_prefix(all, name@, i + 1);
                    }
                    return Some(ty.clone());
                }
            },
            _ => {},
        }
        i += 1;
    }
    assert(all.take(scope.len() as int) =~= all);
    None
}

/// Looks up the type of `field_ident` of the root `root_struct_ident` among
/// the declarations in scope, by the name of the root's alias for it.
pub fn lookup_field_type(scope: &Vec<Item>, root_struct_ident: &str, field_ident: &str) -> (found:
    Option<String>)
    ensures
        match found {
            Some(ty) => alias_target(
                items_view(scope@),
                field_type_name(root_struct_ident@, field_ident@),
            ) == Some(ty@),
            None => alias_target(
                items_view(scope@),
                field_type_name(root_struct_ident@, field_ident@),
            ) is None,
        },
{
    let name = create_field_type_name(root_struct_ident, field_ident);
    lookup_alias(scope, name.as_str())
}

/// Tells whether the declarations in scope implement `capability` for the
/// type `target`.
pub fn has_capability(scope: &Vec<Item>, target: &str, capability: &str) -> (found: bool)
    ensures
        found == implements(items_view(scope@), target@, capability@),
{
    let ghost all = items_view(scope@);
    let wanted_target = target.to_owned();
    let wanted = capability.to_owned();
    let mut i: usize = 0;
    while i < scope.len()
        invariant
            0 <= i <= scope.len(),
            all == items_view(scope@),
            wanted_target@ == target@,
            wanted@ == capability@,
            forall|k: int| 0 <= k < i ==> !is_accessor_of(#[trigger] all[k], target@, capability@),
        decreases scope.len() - i,
    {
        assert(all[i as int] == scope[i as int]@);
        match &scope[i] {
            Item::Accessor { capability: c, target: t, .. } => {
                if *c == wanted && *t == wanted_target {
                    assert(is_accessor_of(all[i as int], target@, capability@));
                    return true;
                }
            },
            _ => {},
        }
        i += 1;
    }
    false
}

/// Tells whether the type `target` meets a requirement with the bounds
/// `bounds` among the declarations in scope: whether each of the bounds is
/// implemented for it.
pub fn meets_requirement(scope: &Vec<Item>, target: &str, bounds: &Vec<String>) -> (met: bool)
    ensures
        met == meets(items_view(scope@), target@, texts(bounds@)),
{
    let ghost all = texts(bounds@);
    let mut j: usize = 0;
    while j < bounds.len()
        invariant
            0 <= j <= bounds.len(),
            all == texts(bounds@),
            forall|k: int| 0 <= k < j ==> implements(items_view(scope@), target@, #[trigger] all[k]),
        decreases bounds.len() - j,
    {
        assert(all[j as int] == bounds[j as int]@);
        if !has_capability(scope, target, bounds[j].as_str()) {
            return false;
        }
        j += 1;
    }
    true
}

/// Tells whether the declarations in scope hold an accessor of the root for
/// the field `field_ident`, by the field's declared name.
pub fn has_field(scope: &Vec<Item>, root_struct_ident: &str, field_ident: &str) -> (found: bool)
    ensures
        found == declares_field(items_view(scope@), root_struct_ident@, field_ident@),
{
    let ghost all = items_view(scope@);
    let wanted_root = root_struct_ident.to_owned();
    let wanted = field_ident.to_owned();
    let mut i: usize = 0;
    while i < scope.len()
        invariant
            0 <= i <= scope.len(),
            all == items_view(scope@),
            wanted_root@ == root_struct_ident@,
            wanted@ == field_ident@,
            forall|k: int|
                0 <= k < i ==> !is_root_accessor(
                    #[trigger] all[k],
                    root_struct_ident@,
                    field_ident@,
                ),
        decreases scope.len() - i,
    {
        assert(all[i as int] == scope[i as int]@);
        match &scope[i] {
            Item::Accessor { target, field, .. } => {
                if *target == wanted_root && *field == wanted {
                    assert(is_root_accessor(all[i as int], root_struct_ident@, field_ident@));
                    return true;
                }
            },
            _ => {},
        }
        i += 1;
    }
    false
}

/// Tells whether the declarations in scope know the field `field_ident` of
/// the root: whether they hold the root's accessor for a field of this name
/// and the alias for its type.
pub fn knows_field(scope: &Vec<Item>, root_struct_ident: &str, field_ident: &str) -> (known: bool)
    ensures
        known == field_known(items_view(scope@), root_struct_ident@, field_ident@),
{
    has_field(scope, root_struct_ident, field_ident) && lookup_field_type(
        scope,
        root_struct_ident,
        field_ident,
    ).is_some()
}

} // verus!
