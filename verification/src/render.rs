//! The source text of emitted declarations.

use vstd::prelude::*;
use crate::item::{items_view, members_view, texts, Item, ItemView, Member, MemberView};

verus! {

/// The bounds with ` + ` between them.
pub open spec fn render_bounds(bounds: Seq<Seq<char>>) -> Seq<char>
    decreases bounds.len(),
{
    if bounds.len() == 0 {
        Seq::empty()
    } else if bounds.len() == 1 {
        bounds[0]
    } else {
        render_bounds(bounds.drop_last()) + " + "@ + bounds.last()
    }
}

/// The members as `ident: ty, `, one after the other.
pub open spec fn render_members(members: Seq<MemberView>) -> Seq<char>
    decreases members.len(),
{
    if members.len() == 0 {
        Seq::empty()
    } else {
        render_members(members.drop_last()) + members.last().ident + ": "@ + members.last().ty
            + ", "@
    }
}

/// The return type of a function as it follows the parameters.
pub open spec fn render_output(output: Option<Seq<char>>) -> Seq<char> {
    match output {
        Some(ty) => "-> "@ + ty + " "@,
        None => Seq::empty(),
    }
}

/// The source text of one declaration, ending in a line break.
pub open spec fn render_item(item: ItemView) -> Seq<char> {
    match item {
        ItemView::Capability { name, method, ty } => {
            "trait "@ + name + " { fn "@ + method + "(&self) -> & "@ + ty + "; }\n"@
        },
        ItemView::Accessor { capability, target, method, ty, field } => {
            "impl "@ + capability + " for "@ + target + " { fn "@ + method + "(&self) -> & "@ + ty
                + " { &self."@ + field + " } }\n"@
        },
        ItemView::Alias { name, ty } => "type "@ + name + " = "@ + ty + ";\n"@,
        ItemView::Struct { name, members } => {
            "struct "@ + name + " { "@ + render_members(members) + "}\n"@
        },
        ItemView::Requirement { name, bounds } => {
            "trait "@ + name + ": "@ + render_bounds(bounds) + " {}\n"@
        },
        ItemView::Blanket { requirement, bounds } => {
            "impl<T: "@ + render_bounds(bounds) + "> "@ + requirement + " for T {}\n"@
        },
        ItemView::Function { name, param, requirement, output, block } => {
            "fn "@ + name + "("@ + param + ": impl "@ + requirement + ") "@ + render_output(output)
                + block + "\n"@
        },
    }
}

/// The source text of a list of declarations: that of each, in order.
pub open spec fn render_items(items: Seq<ItemView>) -> Seq<char>
    decreases items.len(),
{
    if items.len() == 0 {
        Seq::empty()
    } else {
        render_items(items.drop_last()) + render_item(items.last())
    }
}

fn push_bounds(text: &mut String, bounds: &Vec<String>)
    ensures
        final(text)@ == old(text)@ + render_bounds(texts(bounds@)),
{
    let ghost start = text@;
    let ghost all = texts(bounds@);
    let mut j: usize = 0;
    while j < bounds.len()
        invariant
            0 <= j <= bounds.len(),
            all == texts(bounds@),
            text@ == start + render_bounds(all.take(j as int)),
        decreases bounds.len() - j,
    {
        assert(all.take(j + 1).drop_last() =~= all.take(j as int));
        assert(all.take(j + 1).last() == bounds[j as int]@);
        if j > 0 {
            text.append(" + ");
        }
        text.append(bounds[j].as_str());
        assert(text@ =~= start + render_bounds(all.take(j + 1)));
        j += 1;
    }
    assert(all.take(bounds.len() as int) =~= all);
}

fn push_members(text: &mut String, members: &Vec<Member>)
    ensures
        final(text)@ == old(text)@ + render_members(members_view(members@)),
{
    let ghost start = text@;
    let ghost all = members_view(members@);
    let mut j: usize = 0;
    while j < members.len()
        invariant
            0 <= j <= members.len(),
            all == members_view(members@),
            text@ == start + render_members(all.take(j as int)),
        decreases members.len() - j,
    {
        assert(all.take(j + 1).drop_last() =~= all.take(j as int));
        assert(all.take(j + 1).last() == members[j as int]@);
        text.append(members[j].ident.as_str());
        text.append(": ");
        text.append(members[j].ty.as_str());
        text.append(", ");
        assert(text@ =~= start + render_members(all.take(j + 1)));
        j += 1;
    }
    assert(all.take(members.len() as int) =~= all);
}

fn push_item(text: &mut String, item: &Item)
    ensures
        final(text)@ == old(text)@ + render_item(item@),
{
    let ghost start = text@;
    match item {
        Item::Capability { name, method, ty } => {
            text.append("trait ");
            text.append(name.as_str());
            text.append(" { fn ");
            text.append(method.as_str());
            text.append("(&self) -> & ");
            text.append(ty.as_str());
            text.append("; }\n");
        },
        Item::Accessor { capability, target, method, ty, field } => {
            text.append("impl ");
            text.append(capability.as_str());
            text.append(" for ");
            text.append(target.as_str());
            text.append(" { fn ");
            text.append(method.as_str());
            text.append("(&self) -> & ");
            text.append(ty.as_str());
            text.append(" { &self.");
            text.append(field.as_str());
            text.append(" } }\n");
        },
        Item::Alias { name, ty } => {
            text.append("type ");
            text.append(name.as_str());
            text.append(" = ");
            text.append(ty.as_str());
            text.append(";\n");
        },
        Item::Struct { name, members } => {
            text.append("struct ");
            text.append(name.as_str());
            text.append(" { ");
            push_members(text, members);
            text.append("}\n");
        },
        Item::Requirement { name, bounds } => {
            text.append("trait ");
            text.append(name.as_str());
            text.append(": ");
            push_bounds(text, bounds);
            text.append(" {}\n");
        },
        Item::Blanket { requirement, bounds } => {
            text.append("impl<T: ");
            push_bounds(text, bounds);
            text.append("> ");
            text.append(requirement.as_str());
            text.append(" for T {}\n");
        },
        Item::Function { name, param, requirement, output, block } => {
            text.append("fn ");
            text.append(name.as_str());
            text.append("(");
            text.append(param.as_str());
            text.append(": impl ");
            text.append(requirement.as_str());
            text.append(") ");
            match output {
                Some(ty) => {
                    text.append("-> ");
                    text.append(ty.as_str());
                    text.append(" ");
                },
                None => {},
            }
            text.append(block.as_str());
            text.append("\n");
        },
    }
    assert(text@ =~= start + render_item(item@));
}

/// Writes the declarations out as source text.
pub fn render(items: &Vec<Item>) -> (text: String)
    ensures
        text@ == render_items(items_view(items@)),
{
    let ghost all = items_view(items@);
    let mut text = String::new();
    let mut i: usize = 0;
    while i < items.len()
        invariant
            0 <= i <= items.len(),
            all == items_view(items@),
            text@ == render_items(all.take(i as int)),
        decreases items.len() - i,
    {
        assert(all.take(i + 1).drop_last() =~= all.take(i as int));
        assert(all.take(i + 1).last() == items[i as int]@);
        push_item(&mut text, &items[i]);
        i += 1;
    }
    assert(all.take(items.len() as int) =~= all);
    text
}

} // verus!
