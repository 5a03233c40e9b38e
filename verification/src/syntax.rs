//! A plain model of the annotated items and of the annotations' arguments.
//!
//! Identifiers, types and function bodies are held as their source text. The
//! model keeps exactly what the expansions read: the shape of the item and the
//! names in it.

use vstd::prelude::*;

verus! {

/// What kind of type declaration an item is.
#[derive(Clone, Copy, Debug, PartialEq, Eq)]
pub enum ItemKind {
    Struct,
    Enum,
    Union,
}

/// One field of a declared type. A field of a tuple struct has no identifier.
#[derive(Clone, Debug, PartialEq, Eq)]
pub struct FieldDecl {
    pub ident: Option<String>,
    pub ty: String,
}

/// A [`FieldDecl`] with its texts as sequences of characters.
pub struct FieldDeclView {
    pub ident: Option<Seq<char>>,
    pub ty: Seq<char>,
}

impl View for FieldDecl {
    type V = FieldDeclView;

    open spec fn view(&self) -> FieldDeclView {
        FieldDeclView {
            ident: match self.ident {
                Some(ident) => Some(ident@),
                None => None,
            },
            ty: self.ty@,
        }
    }
}

/// A type declaration: its name, its kind and its fields in declaration
/// order. For an enum or a union the fields are not read.
#[derive(Clone, Debug, PartialEq, Eq)]
pub struct TypeDecl {
    pub ident: String,
    pub kind: ItemKind,
    pub fields: Vec<FieldDecl>,
}

/// A [`TypeDecl`] with its texts as sequences of characters.
pub struct TypeDeclView {
    pub ident: Seq<char>,
    pub kind: ItemKind,
    pub fields: Seq<FieldDeclView>,
}

impl View for TypeDecl {
    type V = TypeDeclView;

    open spec fn view(&self) -> TypeDeclView {
        TypeDeclView {
            ident: self.ident@,
            kind: self.kind,
            fields: self.fields@.map_values(|field: FieldDecl| field@),
        }
    }
}

impl TypeDeclView {
    /// A struct whose fields all have a name.
    pub open spec fn is_plain_struct(self) -> bool {
        &&& self.kind == ItemKind::Struct
        &&& forall|i: int| 0 <= i < self.fields.len() ==> (#[trigger] self.fields[i]).ident is Some
    }

    /// Whether a field of this name is declared.
    pub open spec fn has_field(self, ident: Seq<char>) -> bool {
        exists|i: int| 0 <= i < self.fields.len() && (#[trigger] self.fields[i]).ident == Some(ident)
    }
}

/// One segment of a path: an identifier, possibly followed by generic or
/// parenthesised arguments.
#[derive(Clone, Debug, PartialEq, Eq)]
pub struct PathSegment {
    pub ident: String,
    pub has_arguments: bool,
}

/// A [`PathSegment`] with its texts as sequences of characters.
pub struct PathSegmentView {
    pub ident: Seq<char>,
    pub has_arguments: bool,
}

impl View for PathSegment {
    type V = PathSegmentView;

    open spec fn view(&self) -> PathSegmentView {
        PathSegmentView { ident: self.ident@, has_arguments: self.has_arguments }
    }
}

/// A path such as `Query` or `::a::b<T>`.
#[derive(Clone, Debug, PartialEq, Eq)]
pub struct Path {
    pub leading_colon: bool,
    pub segments: Vec<PathSegment>,
}

/// A [`Path`] with its texts as sequences of characters.
pub struct PathView {
    pub leading_colon: bool,
    pub segments: Seq<PathSegmentView>,
}

impl View for Path {
    type V = PathView;

    open spec fn view(&self) -> PathView {
        PathView {
            leading_colon: self.leading_colon,
            segments: self.segments@.map_values(|segment: PathSegment| segment@),
        }
    }
}

impl PathView {
    /// The identifier that the path consists of, if it is nothing more: no
    /// leading colon, one segment, no arguments.
    pub open spec fn as_ident(self) -> Option<Seq<char>> {
        if !self.leading_colon && self.segments.len() == 1 && !self.segments[0].has_arguments {
            Some(self.segments[0].ident)
        } else {
            None
        }
    }

    /// The identifier of the first segment, if there is a segment.
    pub open spec fn first_ident(self) -> Option<Seq<char>> {
        if self.segments.len() > 0 {
            Some(self.segments[0].ident)
        } else {
            None
        }
    }
}

impl Path {
    /// The path of a single identifier.
    pub fn from_ident(ident: &str) -> (path: Path)
        ensures
            path@.as_ident() == Some(ident@),
            path@.first_ident() == Some(ident@),
    {
        let mut segments: Vec<PathSegment> = Vec::new();
        segments.push(PathSegment { ident: ident.to_owned(), has_arguments: false });
        Path { leading_colon: false, segments }
    }

    /// The identifier that the path consists of, if it is a single one.
    pub fn get_ident(&self) -> (ident: Option<&String>)
        ensures
            match ident {
                Some(ident) => self@.as_ident() == Some(ident@),
                None => self@.as_ident() is None,
            },
    {
        if !self.leading_colon && self.segments.len() == 1 && !self.segments[0].has_arguments {
            Some(&self.segments[0].ident)
        } else {
            None
        }
    }

    /// The identifier of the first segment.
    pub fn first_ident(&self) -> (ident: Option<&String>)
        ensures
            match ident {
                Some(ident) => self@.first_ident() == Some(ident@),
                None => self@.first_ident() is None,
            },
    {
        if self.segments.len() > 0 {
            Some(&self.segments[0].ident)
        } else {
            None
        }
    }
}

/// The arguments of a child or function annotation: `root = R, fields(a, b)`.
#[derive(Clone, Debug, PartialEq, Eq)]
pub struct Selection {
    pub root: Path,
    pub fields: Vec<Path>,
}

/// A [`Selection`] with its texts as sequences of characters.
pub struct SelectionView {
    pub root: PathView,
    pub fields: Seq<PathView>,
}

impl View for Selection {
    type V = SelectionView;

    open spec fn view(&self) -> SelectionView {
        SelectionView {
            root: self.root@,
            fields: self.fields@.map_values(|path: Path| path@),
        }
    }
}

/// One parameter of a function: its pattern and its declared type.
#[derive(Clone, Debug, PartialEq, Eq)]
pub struct Param {
    pub pat: String,
    pub ty: String,
}

/// A [`Param`] with its texts as sequences of characters.
pub struct ParamView {
    pub pat: Seq<char>,
    pub ty: Seq<char>,
}

impl View for Param {
    type V = ParamView;

    open spec fn view(&self) -> ParamView {
        ParamView { pat: self.pat@, ty: self.ty@ }
    }
}

/// A function declaration: name, parameters, return type if one is written,
/// and the body with its braces.
#[derive(Clone, Debug, PartialEq, Eq)]
pub struct FnDecl {
    pub ident: String,
    pub inputs: Vec<Param>,
    pub output: Option<String>,
    pub block: String,
}

/// A [`FnDecl`] with its texts as sequences of characters.
pub struct FnDeclView {
    pub ident: Seq<char>,
    pub inputs: Seq<ParamView>,
    pub output: Option<Seq<char>>,
    pub block: Seq<char>,
}

impl View for FnDecl {
    type V = FnDeclView;

    open spec fn view(&self) -> FnDeclView {
        FnDeclView {
            ident: self.ident@,
            inputs: self.inputs@.map_values(|param: Param| param@),
            output: match self.output {
                Some(output) => Some(output@),
                None => None,
            },
            block: self.block@,
        }
    }
}

} // verus!
