//! The declarations that the expansions emit.

use vstd::prelude::*;

verus! {

/// One field of an emitted struct.
#[derive(Clone, Debug, PartialEq, Eq)]
pub struct Member {
    pub ident: String,
    pub ty: String,
}

/// A [`Member`] with its texts as sequences of characters.
pub struct MemberView {
    pub ident: Seq<char>,
    pub ty: Seq<char>,
}

impl View for Member {
    type V = MemberView;

    open spec fn view(&self) -> MemberView {
        MemberView { ident: self.ident@, ty: self.ty@ }
    }
}

/// An emitted declaration. Each variant stands for one fixed form of source
/// text, shown here with the variant's fields in angle brackets.
#[derive(Clone, Debug, PartialEq, Eq)]
pub enum Item {
    /// `trait <name> { fn <method>(&self) -> &<ty>; }`
    Capability { name: String, method: String, ty: String },
    /// `impl <capability> for <target> { fn <method>(&self) -> &<ty> { &self.<field> } }`
    Accessor { capability: String, target: String, method: String, ty: String, field: String },
    /// `type <name> = <ty>;`
    Alias { name: String, ty: String },
    /// `struct <name> { <ident>: <ty>, .. }`
    Struct { name: String, members: Vec<Member> },
    /// `trait <name>: <bound> + .. {}`
    Requirement { name: String, bounds: Vec<String> },
    /// `impl<T: <bound> + ..> <requirement> for T {}`
    Blanket { requirement: String, bounds: Vec<String> },
    /// `fn <name>(<param>: impl <requirement>) -> <output> <block>`
    Function {
        name: String,
        param: String,
        requirement: String,
        output: Option<String>,
        block: String,
    },
}

/// An [`Item`] with its texts as sequences of characters.
pub enum ItemView {
    Capability { name: Seq<char>, method: Seq<char>, ty: Seq<char> },
    Accessor {
        capability: Seq<char>,
        target: Seq<char>,
        method: Seq<char>,
        ty: Seq<char>,
        field: Seq<char>,
    },
    Alias { name: Seq<char>, ty: Seq<char> },
    Struct { name: Seq<char>, members: Seq<MemberView> },
    Requirement { name: Seq<char>, bounds: Seq<Seq<char>> },
    Blanket { requirement: Seq<char>, bounds: Seq<Seq<char>> },
    Function {
        name: Seq<char>,
        param: Seq<char>,
        requirement: Seq<char>,
        output: Option<Seq<char>>,
        block: Seq<char>,
    },
}

/// The texts of a list of strings.
pub open spec fn texts(strings: Seq<String>) -> Seq<Seq<char>> {
    strings.map_values(|s: String| s@)
}

/// The views of a list of members.
pub open spec fn members_view(members: Seq<Member>) -> Seq<MemberView> {
    members.map_values(|m: Member| m@)
}

/// The views of a list of declarations.
pub open spec fn items_view(items: Seq<Item>) -> Seq<ItemView> {
    items.map_values(|item: Item| item@)
}

impl View for Item {
    type V = ItemView;

    open spec fn view(&self) -> ItemView {
        match *self {
            Item::Capability { name, method, ty } => ItemView::Capability {
                name: name@,
                method: method@,
                ty: ty@,
            },
            Item::Accessor { capability, target, method, ty, field } => ItemView::Accessor {
                capability: capability@,
                target: target@,
                method: method@,
                ty: ty@,
                field: field@,
            },
            Item::Alias { name, ty } => ItemView::Alias { name: name@, ty: ty@ },
            Item::Struct { name, members } => ItemView::Struct {
                name: name@,
                members: members_view(members@),
            },
            Item::Requirement { name, bounds } => ItemView::Requirement {
                name: name@,
                bounds: texts(bounds@),
            },
            Item::Blanket { requirement, bounds } => ItemView::Blanket {
                requirement: requirement@,
                bounds: texts(bounds@),
            },
            Item::Function { name, param, requirement, output, block } => ItemView::Function {
                name: name@,
                param: param@,
                requirement: requirement@,
                output: match output {
                    Some(output) => Some(output@),
                    None => None,
                },
                block: block@,
            },
        }
    }
}

} // verus!
