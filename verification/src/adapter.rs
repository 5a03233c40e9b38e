//! The function adapter: a function that takes any type with the fields it
//! names.

use vstd::prelude::*;
use crate::error::ExpandError;
use crate::item::{items_view, texts, Item, ItemView};
use crate::naming::{
    create_field_trait_name, create_requirement_name, field_trait_name, requirement_name,
};
use crate::syntax::{FnDecl, FnDeclView, PathView, Selection, SelectionView};

verus! {

/// The identifiers of the first segments of the paths.
pub open spec fn first_idents(paths: Seq<PathView>) -> Seq<Seq<char>> {
    Seq::new(paths.len(), |j: int| paths[j].first_ident()->0)
}

/// The capabilities of the fields `fields` of `root`, in their order.
pub open spec fn capability_names(root: Seq<char>, fields: Seq<Seq<char>>) -> Seq<Seq<char>> {
    Seq::new(fields.len(), |j: int| field_trait_name(root, fields[j]))
}

/// What the adapter emits for `function` with the fields `fields` of `root`:
/// the requirement trait, bounded by the capabilities of the fields; its
/// implementation for every type that has those capabilities; and the
/// function, whose parameter now takes any type that meets the requirement.
/// The parameter's pattern, the return type and the body are kept.
pub open spec fn use_expansion(
    root: Seq<char>,
    fields: Seq<Seq<char>>,
    function: FnDeclView,
) -> Seq<ItemView> {
    seq![
        ItemView::Requirement {
            name: requirement_name(function.ident),
            bounds: capability_names(root, fields),
        },
        ItemView::Blanket {
            requirement: requirement_name(function.ident),
            bounds: capability_names(root, fields),
        },
        ItemView::Function {
            name: function.ident,
            param: function.inputs[0].pat,
            requirement: requirement_name(function.ident),
            output: function.output,
            block: function.block,
        },
    ]
}

/// The entry at `index` is the first without a segment.
pub open spec fn first_without_segment(paths: Seq<PathView>, index: int) -> bool {
    &&& 0 <= index < paths.len()
    &&& paths[index].first_ident() is None
    &&& forall|j: int| 0 <= j < index ==> (#[trigger] paths[j]).first_ident() is Some
}

/// The adapter accepts the annotation `args` on `function`.
pub open spec fn use_accepted(args: SelectionView, function: FnDeclView) -> bool {
    &&& function.inputs.len() == 1
    &&& args.root.as_ident() is Some
    &&& forall|j: int|
        0 <= j < args.fields.len() ==> (#[trigger] args.fields[j]).first_ident() is Some
}

/// The adapter refuses the annotation `args` on `function` with `error`. The
/// function is looked at before the arguments, and each condition includes
/// that the ones before it do not hold, so at most one error fits.
pub open spec fn use_refused(args: SelectionView, function: FnDeclView, error: ExpandError) -> bool {
    match error {
        ExpandError::NotOneParameter => function.inputs.len() != 1,
        ExpandError::RootNotIdent => function.inputs.len() == 1 && args.root.as_ident() is None,
        ExpandError::FieldNotIdent { index } => {
            &&& function.inputs.len() == 1
            &&& args.root.as_ident() is Some
            &&& first_without_segment(args.fields, index as int)
        },
        _ => false,
    }
}

/// Adapts `item_fn` so that it takes any type with the fields that `args`
/// names: any type that has the capability of each of them.
///
/// A field is named by the first segment of its path. Whether the root
/// declares it is not known here.
pub fn parse_substruct_use(args: &Selection, item_fn: &FnDecl) -> (result: Result<
    Vec<Item>,
    ExpandError,
>)
    ensures
        match result {
            Ok(items) => {
                &&& use_accepted(args@, item_fn@)
                &&& items_view(items@) == use_expansion(
                    args@.root.as_ident()->0,
                    first_idents(args@.fields),
                    item_fn@,
                )
            },
            Err(error) => use_refused(args@, item_fn@, error),
        },
{
    if item_fn.inputs.len() != 1 {
        return Err(ExpandError::NotOneParameter);
    }
    let root = match args.root.get_ident() {
        Some(ident) => ident,
        None => {
            return Err(ExpandError::RootNotIdent);
        },
    };
    let ghost idents = first_idents(args@.fields);
    let mut trait_bounds: Vec<String> = Vec::new();
    let mut impl_bounds: Vec<String> = Vec::new();
    let mut j: usize = 0;
    while j < args.fields.len()
        invariant
            0 <= j <= args.fields.len(),
            item_fn@.inputs.len() == 1,
            args@.root.as_ident() == Some(root@),
            idents == first_idents(args@.fields),
            args@.fields.len() == args.fields.len(),
            forall|k: int| 0 <= k < j ==> (#[trigger] args@.fields[k]).first_ident() is Some,
            texts(trait_bounds@) == Seq::new(j as nat, |k: int| field_trait_name(root@, idents[k])),
            texts(impl_bounds@) == texts(trait_bounds@),
        decreases args.fields.len() - j,
    {
        assert(args@.fields[j as int] == args.fields[j as int]@);
        let field = match args.fields[j].first_ident() {
            Some(ident) => ident,
            None => {
                return Err(ExpandError::FieldNotIdent { index: j });
            },
        };
        let capability = create_field_trait_name(root.as_str(), field.as_str());
        let ghost name = capability@;
        let ghost trait_before = trait_bounds@;
        let ghost impl_before = impl_bounds@;
        trait_bounds.push(capability.clone());
        impl_bounds.push(capability);
        assert(texts(trait_bounds@) =~= texts(trait_before).push(name));
        assert(texts(impl_bounds@) =~= texts(impl_before).push(name));
        j += 1;
    }
    assert(texts(trait_bounds@) == capability_names(root@, idents));
    let requirement = create_requirement_name(item_fn.ident.as_str());
    assert(item_fn@.inputs[0] == item_fn.inputs[0]@);
    let mut out: Vec<Item> = Vec::new();
    out.push(Item::Requirement { name: requirement.clone(), bounds: trait_bounds });
    out.push(Item::Blanket { requirement: requirement.clone(), bounds: impl_bounds });
    out.push(
        Item::Function {
            name: item_fn.ident.clone(),
            param: item_fn.inputs[0].pat.clone(),
            requirement,
            output: item_fn.output.clone(),
            block: item_fn.block.clone(),
        },
    );
    assert(items_view(out@) =~= use_expansion(root@, idents, item_fn@));
    Ok(out)
}

} // verus!
