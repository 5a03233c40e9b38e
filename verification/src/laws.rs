//! How the declarations of the three expansions fit together.
//!
//! Each law is stated over the declarations that the expansions are proved to
//! emit, and over what a list of declarations makes known by name.

use vstd::prelude::*;
use crate::adapter::{capability_names, use_expansion};
use crate::child::{
    child_accepted, child_accessor, child_expansion, child_member, child_shaped, first_unknown,
    path_idents,
};
use crate::item::ItemView;
use crate::naming::{cased, field_trait_name, field_type_name, Case};
use crate::root::{root_accessor, root_expansion, root_item};
use crate::scope::{
    alias_target, declares_field, field_known, implements, is_accessor_of, is_alias_named,
    is_root_accessor, lemma_alias_target_declared, lemma_alias_target_prefix, meets,
};
use crate::syntax::{FnDeclView, SelectionView, TypeDeclView};

verus! {

/// The value that the method of an accessor yields on an instance of its
/// target, where the instance is given by the values of its fields: the
/// method returns a reference to one field and does nothing else.
pub open spec fn accessor_result<V>(item: ItemView, instance: Map<Seq<char>, V>) -> V
    recommends
        item is Accessor,
{
    instance[item->field]
}

proof fn lemma_same_prefix(prefix: Seq<char>, a: Seq<char>, b: Seq<char>)
    requires
        prefix + a == prefix + b,
    ensures
        a == b,
{
    assert((prefix + a).subrange(prefix.len() as int, (prefix + a).len() as int) =~= a);
    assert((prefix + b).subrange(prefix.len() as int, (prefix + b).len() as int) =~= b);
}

proof fn lemma_same_suffix(a: Seq<char>, b: Seq<char>, suffix: Seq<char>)
    requires
        a + suffix == b + suffix,
    ensures
        a == b,
{
    assert((a + suffix).len() == a.len() + suffix.len());
    assert((b + suffix).len() == b.len() + suffix.len());
    assert((a + suffix).subrange(0, a.len() as int) =~= a);
    assert((b + suffix).subrange(0, b.len() as int) =~= b);
}

/// On one root, two fields share the name of their capability, and the name
/// of their alias, exactly if they share their form in Pascal case. So the
/// scheme is deterministic, and as free of collisions as the conversion to
/// Pascal case.
pub proof fn names_agree_with_pascal_form(root: Seq<char>, a: Seq<char>, b: Seq<char>)
    ensures
        field_trait_name(root, a) == field_trait_name(root, b) <==> cased(a, Case::Pascal) == cased(
            b,
            Case::Pascal,
        ),
        field_type_name(root, a) == field_type_name(root, b) <==> cased(a, Case::Pascal) == cased(
            b,
            Case::Pascal,
        ),
{
    if field_type_name(root, a) == field_type_name(root, b) {
        lemma_same_suffix(field_trait_name(root, a), field_trait_name(root, b), "__Type"@);
    }
    if field_trait_name(root, a) == field_trait_name(root, b) {
        lemma_same_prefix("__"@ + root + "__"@, cased(a, Case::Pascal), cased(b, Case::Pascal));
    }
}

proof fn lemma_roots_agree(r1: Seq<char>, p1: Seq<char>, r2: Seq<char>, p2: Seq<char>)
    requires
        "__"@ + r1 + "__"@ + p1 == "__"@ + r2 + "__"@ + p2,
        r1.len() <= r2.len(),
        !p1.contains('_'),
    ensures
        r1 == r2,
        p1 == p2,
{
    reveal_strlit("__");
    let n1 = "__"@ + r1 + "__"@ + p1;
    let n2 = "__"@ + r2 + "__"@ + p2;
    let l1 = r1.len() as int;
    let l2 = r2.len() as int;
    assert("__"@.len() == 2 && "__"@[1] == '_');
    assert(n1.len() == 4 + l1 + p1.len());
    assert(n2.len() == 4 + l2 + p2.len());
    if l1 < l2 {
        let i = 3 + l2;
        assert(n2[i] == "__"@[1]);
        assert(n1[i] == p1[i - 4 - l1]);
        assert(p1[i - 4 - l1] == '_');
    }
    assert(n1.subrange(2, 2 + l1) =~= r1);
    assert(n2.subrange(2, 2 + l2) =~= r2);
    lemma_same_prefix("__"@ + r1 + "__"@, p1, p2);
}

/// Across roots the names are free of collisions as far as the forms in
/// Pascal case hold no underscore: then two fields share the name of their
/// capability, or of their alias, only on one and the same root.
pub proof fn names_tell_roots_apart(r1: Seq<char>, a: Seq<char>, r2: Seq<char>, b: Seq<char>)
    ensures
        !cased(a, Case::Pascal).contains('_') && !cased(b, Case::Pascal).contains('_')
            && field_trait_name(r1, a) == field_trait_name(r2, b) ==> r1 == r2,
        !cased(a, Case::Pascal).contains('_') && !cased(b, Case::Pascal).contains('_')
            && field_type_name(r1, a) == field_type_name(r2, b) ==> r1 == r2,
{
    if !cased(a, Case::Pascal).contains('_') && !cased(b, Case::Pascal).contains('_') {
        if field_type_name(r1, a) == field_type_name(r2, b) {
            lemma_same_suffix(field_trait_name(r1, a), field_trait_name(r2, b), "__Type"@);
        }
        if field_trait_name(r1, a) == field_trait_name(r2, b) {
            if r1.len() <= r2.len() {
                lemma_roots_agree(r1, cased(a, Case::Pascal), r2, cased(b, Case::Pascal));
            } else {
                lemma_roots_agree(r2, cased(b, Case::Pascal), r1, cased(a, Case::Pascal));
            }
        }
    }
}

/// The accessor that the root deriver emits for a field yields, on every
/// instance of the root, the value of that very field, as a reference of the
/// field's declared type.
pub proof fn root_accessor_reads_its_field<V>(
    root: TypeDeclView,
    i: int,
    instance: Map<Seq<char>, V>,
)
    requires
        root.is_plain_struct(),
        0 <= i < root.fields.len(),
    ensures
        root_expansion(root.ident, root.fields)[3 * i + 1] == root_accessor(
            root.ident,
            root.fields[i].ident->0,
            root.fields[i].ty,
        ),
        root_expansion(root.ident, root.fields)[3 * i + 1]->Accessor_ty == root.fields[i].ty,
        accessor_result(root_expansion(root.ident, root.fields)[3 * i + 1], instance)
            == instance[root.fields[i].ident->0],
{
    assert(root_expansion(root.ident, root.fields)[3 * i + 1] == root_item(
        root.ident,
        root.fields,
        3 * i + 1,
    ));
}

/// A child struct has the capabilities of the fields it was declared with,
/// and no other: among the declarations of the generator, `capability` is
/// implemented for the struct exactly if it is the capability of one of the
/// fields. Nothing is implemented for another type.
pub proof fn child_has_exactly_its_capabilities(
    root: Seq<char>,
    fields: Seq<Seq<char>>,
    target: Seq<char>,
    other: Seq<char>,
    capability: Seq<char>,
)
    ensures
        implements(child_expansion(root, fields, target), target, capability) <==> exists|j: int|
            0 <= j < fields.len() && capability == field_trait_name(root, #[trigger] fields[j]),
        implements(child_expansion(root, fields, target), other, capability) ==> other == target,
{
    let items = child_expansion(root, fields, target);
    if implements(items, target, capability) {
        let k = choose|k: int|
            0 <= k < items.len() && is_accessor_of(#[trigger] items[k], target, capability);
        assert(items[k] == child_accessor(root, fields[k - 1], target));
        assert(capability == field_trait_name(root, fields[k - 1]));
    }
    if exists|j: int|
        0 <= j < fields.len() && capability == field_trait_name(root, #[trigger] fields[j]) {
        let j = choose|j: int|
            0 <= j < fields.len() && capability == field_trait_name(root, #[trigger] fields[j]);
        assert(is_accessor_of(items[j + 1], target, capability));
    }
    if implements(items, other, capability) {
        let k = choose|k: int|
            0 <= k < items.len() && is_accessor_of(#[trigger] items[k], other, capability);
        assert(items[k] == child_accessor(root, fields[k - 1], target));
    }
}

/// The member that a child struct holds for a field of its root has the type
/// that the root declares for the field: the root deriver declares the
/// member's type as an alias of it. Where no earlier field of the root has
/// the same form in Pascal case, this alias is the one that the name resolves
/// to.
pub proof fn child_member_has_root_type(root: TypeDeclView, i: int)
    requires
        root.is_plain_struct(),
        0 <= i < root.fields.len(),
    ensures
        root_expansion(root.ident, root.fields)[3 * i + 2] == (ItemView::Alias {
            name: child_member(root.ident, root.fields[i].ident->0).ty,
            ty: root.fields[i].ty,
        }),
        (forall|h: int|
            0 <= h < i ==> cased((#[trigger] root.fields[h]).ident->0, Case::Pascal) != cased(
                root.fields[i].ident->0,
                Case::Pascal,
            )) ==> alias_target(
            root_expansion(root.ident, root.fields),
            child_member(root.ident, root.fields[i].ident->0).ty,
        ) == Some(root.fields[i].ty),
{
    let items = root_expansion(root.ident, root.fields);
    let field = root.fields[i].ident->0;
    let name = field_type_name(root.ident, field);
    assert(items[3 * i + 2] == root_item(root.ident, root.fields, 3 * i + 2));
    if forall|h: int|
        0 <= h < i ==> cased((#[trigger] root.fields[h]).ident->0, Case::Pascal) != cased(
            field,
            Case::Pascal,
        ) {
        let front = items.take(3 * i + 2);
        lemma_alias_target_declared(front, name);
        if alias_target(front, name) is Some {
            let ty = alias_target(front, name)->0;
            let k = choose|k: int|
                0 <= k < front.len() && #[trigger] front[k] == (ItemView::Alias { name, ty });
            assert(front[k] == root_item(root.ident, root.fields, k));
            assert(k % 3 == 2);
            let h = k / 3;
            assert(0 <= h < i);
            names_agree_with_pascal_form(root.ident, root.fields[h].ident->0, field);
            assert(false);
        }
        assert(items.take(3 * i + 3).drop_last() =~= front);
        assert(items.take(3 * i + 3).last() == items[3 * i + 2]);
        assert(alias_target(items.take(3 * i + 3), name) == Some(root.fields[i].ty));
        lemma_alias_target_prefix(items, name, 3 * i + 3);
    }
}

/// Among the declarations of the root deriver, the alias for the type of
/// `field` is there exactly if the root declares a field of the same form in
/// Pascal case. So the alias alone does not tell whether the root declares
/// the field: it is also there for a field that only reads in Pascal case
/// like a declared one.
pub proof fn alias_known_iff_pascal_form_declared(root: TypeDeclView, field: Seq<char>)
    requires
        root.is_plain_struct(),
    ensures
        alias_target(
            root_expansion(root.ident, root.fields),
            field_type_name(root.ident, field),
        ) is Some <==> exists|i: int|
            0 <= i < root.fields.len() && cased(
                (#[trigger] root.fields[i]).ident->0,
                Case::Pascal,
            ) == cased(field, Case::Pascal),
        root.has_field(field) ==> alias_target(
            root_expansion(root.ident, root.fields),
            field_type_name(root.ident, field),
        ) is Some,
{
    let items = root_expansion(root.ident, root.fields);
    let name = field_type_name(root.ident, field);
    lemma_alias_target_declared(items, name);
    if alias_target(items, name) is Some {
        let ty = alias_target(items, name)->0;
        let k = choose|k: int|
            0 <= k < items.len() && #[trigger] items[k] == (ItemView::Alias { name, ty });
        assert(items[k] == root_item(root.ident, root.fields, k));
        assert(k % 3 == 2);
        let i = k / 3;
        names_agree_with_pascal_form(root.ident, root.fields[i].ident->0, field);
        assert(cased(root.fields[i].ident->0, Case::Pascal) == cased(field, Case::Pascal));
    }
    if exists|i: int|
        0 <= i < root.fields.len() && cased((#[trigger] root.fields[i]).ident->0, Case::Pascal)
            == cased(field, Case::Pascal) {
        let i = choose|i: int|
            0 <= i < root.fields.len() && cased((#[trigger] root.fields[i]).ident->0, Case::Pascal)
                == cased(field, Case::Pascal);
        names_agree_with_pascal_form(root.ident, root.fields[i].ident->0, field);
        assert(items[3 * i + 2] == root_item(root.ident, root.fields, 3 * i + 2));
        assert(is_alias_named(items[3 * i + 2], name));
    }
    if root.has_field(field) {
        let i = choose|i: int|
            0 <= i < root.fields.len() && (#[trigger] root.fields[i]).ident == Some(field);
        assert(cased(root.fields[i].ident->0, Case::Pascal) == cased(field, Case::Pascal));
    }
}

/// Among the declarations of the root deriver, a field is known of the root
/// exactly if the root declares a field of this very name, and no field is
/// declared on another type.
pub proof fn root_knows_exactly_its_fields(root: TypeDeclView, other: Seq<char>, field: Seq<char>)
    requires
        root.is_plain_struct(),
    ensures
        field_known(root_expansion(root.ident, root.fields), root.ident, field) <==> root.has_field(
            field,
        ),
        declares_field(root_expansion(root.ident, root.fields), other, field) ==> other
            == root.ident,
{
    let items = root_expansion(root.ident, root.fields);
    alias_known_iff_pascal_form_declared(root, field);
    if declares_field(items, root.ident, field) {
        let k = choose|k: int|
            0 <= k < items.len() && is_root_accessor(#[trigger] items[k], root.ident, field);
        assert(items[k] == root_item(root.ident, root.fields, k));
        assert(k % 3 == 1);
        assert(root.fields[k / 3].ident == Some(field));
    }
    if root.has_field(field) {
        let i = choose|i: int|
            0 <= i < root.fields.len() && (#[trigger] root.fields[i]).ident == Some(field);
        assert(items[3 * i + 1] == root_item(root.ident, root.fields, 3 * i + 1));
        assert(is_root_accessor(items[3 * i + 1], root.ident, field));
    }
    if declares_field(items, other, field) {
        let k = choose|k: int|
            0 <= k < items.len() && is_root_accessor(#[trigger] items[k], other, field);
        assert(items[k] == root_item(root.ident, root.fields, k));
    }
}

/// Among the declarations of the root deriver, the child struct generator
/// accepts a well-shaped annotation that names the root exactly if the root
/// declares every field that is asked for; and the field that it reports
/// otherwise is the first that the root does not declare.
pub proof fn child_accepted_iff_fields_declared(
    root: TypeDeclView,
    args: SelectionView,
    input: TypeDeclView,
    index: int,
)
    requires
        root.is_plain_struct(),
        child_shaped(args, input),
        args.root.as_ident() == Some(root.ident),
    ensures
        child_accepted(root_expansion(root.ident, root.fields), args, input) <==> forall|j: int|
            0 <= j < args.fields.len() ==> root.has_field(#[trigger] path_idents(args.fields)[j]),
        first_unknown(
            root_expansion(root.ident, root.fields),
            root.ident,
            path_idents(args.fields),
            index,
        ) <==> {
            &&& 0 <= index < args.fields.len()
            &&& !root.has_field(path_idents(args.fields)[index])
            &&& forall|j: int|
                0 <= j < index ==> root.has_field(#[trigger] path_idents(args.fields)[j])
        },
{
    let items = root_expansion(root.ident, root.fields);
    let idents = path_idents(args.fields);
    assert forall|j: int| 0 <= j < idents.len() implies (field_known(
        items,
        root.ident,
        #[trigger] idents[j],
    ) <==> root.has_field(idents[j])) by {
        root_knows_exactly_its_fields(root, root.ident, idents[j]);
    }
}

/// Whatever declares them, a type that has the capability of each of the
/// fields that an adapted function names meets the function's requirement:
/// the requirement trait asks for these capabilities and for nothing else,
/// and it is implemented for every type that has them.
pub proof fn requirement_met_by_capabilities(
    items: Seq<ItemView>,
    target: Seq<char>,
    root: Seq<char>,
    fields: Seq<Seq<char>>,
    function: FnDeclView,
)
    requires
        forall|j: int|
            0 <= j < fields.len() ==> implements(
                items,
                target,
                field_trait_name(root, #[trigger] fields[j]),
            ),
    ensures
        use_expansion(root, fields, function)[0] is Requirement,
        use_expansion(root, fields, function)[1] is Blanket,
        use_expansion(root, fields, function)[0]->Requirement_name == use_expansion(
            root,
            fields,
            function,
        )[1]->Blanket_requirement,
        use_expansion(root, fields, function)[0]->Requirement_bounds == use_expansion(
            root,
            fields,
            function,
        )[1]->Blanket_bounds,
        meets(items, target, use_expansion(root, fields, function)[0]->Requirement_bounds),
{
    let bounds = capability_names(root, fields);
    assert forall|j: int| 0 <= j < bounds.len() implies implements(
        items,
        target,
        #[trigger] bounds[j],
    ) by {
        assert(bounds[j] == field_trait_name(root, fields[j]));
    }
}

/// The root meets the requirement of every function that names fields of
/// the root.
pub proof fn root_meets_requirement(root: TypeDeclView, fields: Seq<Seq<char>>)
    requires
        root.is_plain_struct(),
        forall|j: int| 0 <= j < fields.len() ==> root.has_field(#[trigger] fields[j]),
    ensures
        meets(
            root_expansion(root.ident, root.fields),
            root.ident,
            capability_names(root.ident, fields),
        ),
{
    let items = root_expansion(root.ident, root.fields);
    let bounds = capability_names(root.ident, fields);
    assert forall|j: int| 0 <= j < bounds.len() implies implements(
        items,
        root.ident,
        #[trigger] bounds[j],
    ) by {
        assert(root.has_field(fields[j]));
        let i = choose|i: int|
            0 <= i < root.fields.len() && (#[trigger] root.fields[i]).ident == Some(fields[j]);
        assert(items[3 * i + 1] == root_item(root.ident, root.fields, 3 * i + 1));
        assert(is_accessor_of(items[3 * i + 1], root.ident, bounds[j]));
    }
}

/// A child struct meets the requirement of every function that names, on the
/// same root, fields that the child was declared with.
pub proof fn child_meets_requirement(
    root: Seq<char>,
    child_fields: Seq<Seq<char>>,
    target: Seq<char>,
    fields: Seq<Seq<char>>,
)
    requires
        forall|j: int| 0 <= j < fields.len() ==> child_fields.contains(#[trigger] fields[j]),
    ensures
        meets(child_expansion(root, child_fields, target), target, capability_names(root, fields)),
{
    let items = child_expansion(root, child_fields, target);
    let bounds = capability_names(root, fields);
    assert forall|j: int| 0 <= j < bounds.len() implies implements(
        items,
        target,
        #[trigger] bounds[j],
    ) by {
        assert(child_fields.contains(fields[j]));
        let i = choose|i: int| 0 <= i < child_fields.len() && child_fields[i] == fields[j];
        assert(items[i + 1] == child_accessor(root, child_fields[i], target));
        assert(is_accessor_of(items[i + 1], target, bounds[j]));
    }
}

} // verus!
