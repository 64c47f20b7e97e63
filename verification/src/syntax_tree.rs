//! The part of a parsed Rust syntax tree that the visitors of this library read.
//!
//! The tree comes from the Rust parser (see `parse`); here it is held as plain
//! values: identifiers as `String`, source positions as byte offsets into the
//! parsed text, and child nodes as `Box` or `Vec`.  Function bodies and the
//! inner structure of expressions other than paths, calls, struct literals,
//! method calls and field accesses are not kept.
use vstd::prelude::*;

verus! {

/// One segment of a path, e.g. `vec` in `std::vec::Vec`.
pub struct PathSegment {
    pub identifier: String,
}

/// A path `a::b::C` (type or generic parameters of its segments are not kept).
pub struct AstPath {
    pub segments: Vec<PathSegment>,
}

/// A type.
pub enum TyNode {
    /// A path type such as `Vec<u8>` or `std::string::String`.
    Path(AstPath),
    /// A reference type `&T` / `&'a mut T`, holding `T`.
    Rptr(Box<TyNode>),
    /// Any other type (tuple, slice, pointer, function type, inferred, ...).
    Other,
}

/// A pattern, as far as binding sites go.
pub enum PatNode {
    /// A binding `name` (possibly `ref`/`mut`), with the byte offset of the name.
    Ident { name: String, lo: usize },
    /// Any other pattern.
    Other,
}

/// A function argument.
pub struct ArgNode {
    pub pat: PatNode,
    pub ty: TyNode,
}

/// The header of a function: its arguments and its declared return type.
pub struct FnDeclNode {
    pub inputs: Vec<ArgNode>,
    /// `None` when no return type is written.
    pub output: Option<TyNode>,
}

/// A field of a struct or of a struct-like or tuple-like enum variant.
pub struct FieldNode {
    /// `None` for the fields of a tuple struct or tuple variant.
    pub ident: Option<String>,
    /// Byte offset where the field starts.
    pub lo: usize,
    pub ty: TyNode,
}

/// The shape of a struct or enum variant.
pub enum VariantDataNode {
    Struct(Vec<FieldNode>),
    Tuple(Vec<FieldNode>),
    Unit,
}

/// A variant of an enum.
pub struct Variant {
    pub name: String,
    /// Byte offset where the variant starts.
    pub lo: usize,
    pub data: VariantDataNode,
}

/// A `use` path.
pub enum ViewPath {
    /// `use a::b::c;` or `use a::b::c as d;`: the bound name and the path.
    Simple(String, AstPath),
    /// `use a::b::*;`
    Glob(AstPath),
    /// `use a::b::{c, d};`: the prefix and the names in braces.
    List(AstPath, Vec<String>),
}

/// An item inside a trait.
pub enum TraitItemNode {
    Method { name: String, decl: FnDeclNode, has_body: bool },
    Other,
}

/// An item inside an impl.
pub enum ImplItemNode {
    Method { name: String, decl: FnDeclNode },
    Other,
}

/// What kind of item an item is, with the parts that the visitors read.
pub enum ItemKindNode {
    /// `extern crate name;` or `extern crate orig as name;` (holding `orig`).
    ExternCrate(Option<String>),
    Use(ViewPath),
    /// `type Name = T;`
    TyAlias(TyNode),
    Enum(Vec<Variant>),
    Struct(VariantDataNode),
    Trait(Vec<TraitItemNode>),
    /// `impl [Trait for] TyNode { items }`
    Impl(Option<AstPath>, TyNode, Vec<ImplItemNode>),
    Fn(FnDeclNode),
    /// `mod name { items }` (an out-of-line `mod name;` has no items).
    Mod(Vec<ItemNode>),
    Other,
}

/// An item with its name and the byte offset where it starts.
pub struct ItemNode {
    pub ident: String,
    pub lo: usize,
    pub node: ItemKindNode,
}

/// An expression.
pub enum ExprNode {
    Path(AstPath),
    /// A call `callee(args)`, holding the callee.
    Call(Box<ExprNode>),
    /// A struct literal `Path { .. }`.
    Struct(AstPath),
    /// A method call `receiver.name(args)`.
    MethodCall(String, Box<ExprNode>),
    /// A field access `base.name`.
    Field(Box<ExprNode>, String),
    Other,
}

/// A `let` statement.
pub struct LocalNode {
    pub pat: PatNode,
    pub ty: Option<TyNode>,
    pub init: Option<ExprNode>,
}

/// A statement.
pub enum StmtNode {
    Local(LocalNode),
    Item(ItemNode),
    /// An expression statement, with or without a trailing semicolon.
    Expr(ExprNode),
    /// A macro invocation statement.
    Mac,
}

/// A whole source file: its items in order.
pub struct Crate {
    pub items: Vec<ItemNode>,
}

/// The identifiers of all segments of a path, in order.
pub open spec fn segment_names(p: AstPath) -> Seq<Seq<char>> {
    Seq::new(p.segments@.len(), |i: int| p.segments@[i].identifier@)
}

/// The marker segment that the parser puts first in a path that starts at the
/// crate root (`::a::b`, and every `use` path).
pub open spec fn crate_root_marker() -> Seq<char> {
    "{{root}}"@
}

/// The identifiers of a path, in order, without a leading crate-root marker.
pub open spec fn path_names(p: AstPath) -> Seq<Seq<char>> {
    let names = segment_names(p);
    if names.len() > 0 && names[0] == crate_root_marker() {
        names.drop_first()
    } else {
        names
    }
}

/// The path that a type names, looking through one reference: `T` and `&T` for a
/// path type `T`; empty for any other type.
pub open spec fn type_path(t: TyNode) -> Seq<Seq<char>> {
    match t {
        TyNode::Path(p) => path_names(p),
        TyNode::Rptr(inner) => match *inner {
            TyNode::Path(p) => path_names(p),
            _ => Seq::empty(),
        },
        TyNode::Other => Seq::empty(),
    }
}

/// The identifiers of a path, as owned strings, without a leading crate-root marker.
pub fn path_to_vec(pth: &AstPath) -> (v: Vec<String>)
    ensures
        v.deep_view() == path_names(*pth),
{
    let mut v: Vec<String> = Vec::new();
    let n = pth.segments.len();
    let root = "{{root}}".to_string();
    let start: usize = if n > 0 && pth.segments[0].identifier == root { 1 } else { 0 };
    let ghost names = segment_names(*pth);
    assert(start == 1 <==> names.len() > 0 && names[0] == crate_root_marker());
    for i in start..n
        invariant
            n == pth.segments@.len(),
            start <= n,
            v@.len() == i - start,
            forall|j: int| 0 <= j < i - start ==> #[trigger] v@[j]@ == pth.segments@[j + start].identifier@,
    {
        v.push(pth.segments[i].identifier.clone());
    }
    assert(v.deep_view() =~= path_names(*pth));
    v
}

/// The path that a type names, looking through one reference (see `type_path`).
pub fn type_to_path(t: &TyNode) -> (v: Vec<String>)
    ensures
        v.deep_view() == type_path(*t),
{
    match t {
        TyNode::Path(p) => path_to_vec(p),
        TyNode::Rptr(inner) => match &**inner {
            TyNode::Path(p) => path_to_vec(p),
            _ => {
                let v: Vec<String> = Vec::new();
                assert(v.deep_view() =~= Seq::<Seq<char>>::empty());
                v
            },
        },
        TyNode::Other => {
            let v: Vec<String> = Vec::new();
            assert(v.deep_view() =~= Seq::<Seq<char>>::empty());
            v
        },
    }
}

} // verus!
