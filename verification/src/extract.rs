//! Parsing a text and reading one kind of information out of it.
//!
//! For each kind there is a function on the parsed statement (or file), whose
//! contract is exact, and a function on the text, which parses it first.  Where
//! a text that does not parse is a caller's error, the function on the text asks
//! for a text that parses, and a `try_` function beside it answers `None` for one
//! that does not.
use vstd::prelude::*;

use crate::parse::{parsed_crate, parsed_stmt, string_to_crate, string_to_stmt};
use crate::syntax_tree::{Crate, ItemNode, StmtNode};
use crate::visitors::{
    enum_visit_item, fn_items_walk, impl_visit_item, items_struct_entries, mod_visit_item,
    trait_visit_item, type_visit_item, view_items_walk, EnumVisitor, FnView, FnVisitor,
    ImplVisitor, ModVisitor, StructVisitor, TraitVisitor, TypeVisitor, ViewItemVisitor,
};

verus! {

/// The state of a visitor that has seen nothing.
pub open spec fn empty_view_items() -> (Option<Seq<char>>, Seq<Seq<Seq<char>>>) {
    (None, Seq::empty())
}

/// See `empty_view_items`.
pub open spec fn empty_fn_view() -> FnView {
    (Seq::empty(), Seq::empty(), Seq::empty(), false)
}

/// The `use` and `extern crate` paths of a parsed file (see `view_items_walk`).
pub open spec fn crate_view_items(c: Crate) -> (Option<Seq<char>>, Seq<Seq<Seq<char>>>) {
    view_items_walk(empty_view_items(), c.items@)
}

/// The fields of the struct definitions in a parsed statement.
pub open spec fn stmt_struct_fields(s: StmtNode) -> Seq<(Seq<char>, usize, Seq<Seq<char>>)> {
    match s {
        StmtNode::Item(i) => items_struct_entries(seq![i]),
        _ => Seq::empty(),
    }
}

/// What an impl visitor reads from a parsed statement.
pub open spec fn stmt_impl(s: StmtNode) -> (Seq<Seq<char>>, Seq<Seq<char>>) {
    match s {
        StmtNode::Item(i) => impl_visit_item((Seq::empty(), Seq::empty()), i),
        _ => (Seq::empty(), Seq::empty()),
    }
}

/// What a trait visitor reads from a parsed statement.
pub open spec fn stmt_trait(s: StmtNode) -> Option<Seq<char>> {
    match s {
        StmtNode::Item(i) => trait_visit_item(None, i),
        _ => None,
    }
}

/// What a type visitor reads from a parsed statement.
pub open spec fn stmt_type(s: StmtNode) -> (Option<Seq<char>>, Seq<Seq<char>>) {
    match s {
        StmtNode::Item(i) => type_visit_item((None, Seq::empty()), i),
        _ => (None, Seq::empty()),
    }
}

/// What a function visitor reads from a parsed statement.
pub open spec fn stmt_fn(s: StmtNode) -> FnView {
    match s {
        StmtNode::Item(i) => fn_items_walk(empty_fn_view(), seq![i]),
        _ => empty_fn_view(),
    }
}

/// What a module visitor reads from a parsed statement.
pub open spec fn stmt_mod(s: StmtNode) -> Option<Seq<char>> {
    match s {
        StmtNode::Item(i) => mod_visit_item(None, i),
        _ => None,
    }
}

/// What an enum visitor reads from a parsed statement.
pub open spec fn stmt_enum(s: StmtNode) -> (Seq<char>, Seq<(Seq<char>, usize)>) {
    match s {
        StmtNode::Item(i) => enum_visit_item((Seq::empty(), Seq::empty()), i),
        _ => (Seq::empty(), Seq::empty()),
    }
}

/// The `use` and `extern crate` paths of a parsed file.
pub fn view_items_of(c: &Crate) -> (v: ViewItemVisitor)
    ensures
        v@ == crate_view_items(*c),
{
    let mut v = ViewItemVisitor::new();
    v.walk_items(&c.items);
    v
}

/// The `use` and `extern crate` paths of a source file, and the last name bound
/// by one of them; nothing when the text does not parse.
pub fn parse_view_item(s: String) -> (v: ViewItemVisitor)
    ensures
        v@ == match parsed_crate(s@) {
            Some(c) => crate_view_items(c),
            None => empty_view_items(),
        },
{
    match string_to_crate(s) {
        Some(cr) => view_items_of(&cr),
        None => ViewItemVisitor::new(),
    }
}

fn single_item(i: ItemNode) -> (v: Vec<ItemNode>)
    ensures
        v@ == seq![i],
{
    let mut v: Vec<ItemNode> = Vec::new();
    v.push(i);
    v
}

/// The fields of the struct definitions in a parsed statement.
pub fn struct_fields_of(stmt: StmtNode) -> (fields: Vec<(String, usize, Vec<String>)>)
    ensures
        fields.deep_view() == stmt_struct_fields(stmt),
{
    let mut v = StructVisitor::new();
    match stmt {
        StmtNode::Item(i) => {
            let items = single_item(i);
            v.walk_items(&items);
        },
        _ => {},
    }
    v.fields
}

/// The fields of the struct definitions in a statement: name, start offset and
/// type path of each named field; empty when the text does not parse.
pub fn parse_struct_fields(s: String) -> (fields: Vec<(String, usize, Vec<String>)>)
    ensures
        fields.deep_view() == match parsed_stmt(s@) {
            Some(st) => stmt_struct_fields(st),
            None => Seq::empty(),
        },
{
    match string_to_stmt(s) {
        Some(st) => struct_fields_of(st),
        None => {
            let v: Vec<(String, usize, Vec<String>)> = Vec::new();
            assert(v.deep_view() =~= Seq::<(Seq<char>, usize, Seq<Seq<char>>)>::empty());
            v
        },
    }
}

/// The implementing type and trait of a parsed impl statement.
pub fn impl_of(stmt: &StmtNode) -> (v: ImplVisitor)
    ensures
        v@ == stmt_impl(*stmt),
{
    let mut v = ImplVisitor::new();
    match stmt {
        StmtNode::Item(i) => v.visit_item(i),
        _ => {},
    }
    v
}

/// The implementing type and trait of an impl written as a statement.
pub fn parse_impl(s: String) -> (v: ImplVisitor)
    requires
        parsed_stmt(s@) is Some,
    ensures
        v@ == stmt_impl(parsed_stmt(s@).unwrap()),
{
    let st = string_to_stmt(s);
    impl_of(&st.unwrap())
}

/// `parse_impl` where the text parses, `None` where it does not.
pub fn try_parse_impl(s: String) -> (v: Option<ImplVisitor>)
    ensures
        match parsed_stmt(s@) {
            Some(st) => v matches Some(x) && x@ == stmt_impl(st),
            None => v is None,
        },
{
    if string_to_stmt(s.clone()).is_some() {
        Some(parse_impl(s))
    } else {
        None
    }
}

/// The name of a parsed trait statement.
pub fn trait_of(stmt: &StmtNode) -> (v: TraitVisitor)
    ensures
        v@ == stmt_trait(*stmt),
{
    let mut v = TraitVisitor::new();
    match stmt {
        StmtNode::Item(i) => v.visit_item(i),
        _ => {},
    }
    v
}

/// The name of a trait written as a statement.
pub fn parse_trait(s: String) -> (v: TraitVisitor)
    requires
        parsed_stmt(s@) is Some,
    ensures
        v@ == stmt_trait(parsed_stmt(s@).unwrap()),
{
    let st = string_to_stmt(s);
    trait_of(&st.unwrap())
}

/// `parse_trait` where the text parses, `None` where it does not.
pub fn try_parse_trait(s: String) -> (v: Option<TraitVisitor>)
    ensures
        match parsed_stmt(s@) {
            Some(st) => v matches Some(x) && x@ == stmt_trait(st),
            None => v is None,
        },
{
    if string_to_stmt(s.clone()).is_some() {
        Some(parse_trait(s))
    } else {
        None
    }
}

/// The name and aliased type of a parsed `type` statement.
pub fn type_of_alias(stmt: &StmtNode) -> (v: TypeVisitor)
    ensures
        v@ == stmt_type(*stmt),
{
    let mut v = TypeVisitor::new();
    match stmt {
        StmtNode::Item(i) => v.visit_item(i),
        _ => {},
    }
    v
}

/// The name and aliased type of a `type` item written as a statement.
pub fn parse_type(s: String) -> (v: TypeVisitor)
    requires
        parsed_stmt(s@) is Some,
    ensures
        v@ == stmt_type(parsed_stmt(s@).unwrap()),
{
    let st = string_to_stmt(s);
    type_of_alias(&st.unwrap())
}

/// `parse_type` where the text parses, `None` where it does not.
pub fn try_parse_type(s: String) -> (v: Option<TypeVisitor>)
    ensures
        match parsed_stmt(s@) {
            Some(st) => v matches Some(x) && x@ == stmt_type(st),
            None => v is None,
        },
{
    if string_to_stmt(s.clone()).is_some() {
        Some(parse_type(s))
    } else {
        None
    }
}

/// The functions of a parsed statement.
pub fn fn_of(stmt: StmtNode) -> (v: FnVisitor)
    ensures
        v@ == stmt_fn(stmt),
{
    let mut v = FnVisitor::new();
    match stmt {
        StmtNode::Item(i) => {
            let items = single_item(i);
            v.walk_items(&items);
        },
        _ => {},
    }
    v
}

/// The name, arguments, return type and kind of a function written as a statement.
pub fn parse_fn(s: String) -> (v: FnVisitor)
    requires
        parsed_stmt(s@) is Some,
    ensures
        v@ == stmt_fn(parsed_stmt(s@).unwrap()),
{
    let st = string_to_stmt(s);
    fn_of(st.unwrap())
}

/// `parse_fn` where the text parses, `None` where it does not.
pub fn try_parse_fn(s: String) -> (v: Option<FnVisitor>)
    ensures
        match parsed_stmt(s@) {
            Some(st) => v matches Some(x) && x@ == stmt_fn(st),
            None => v is None,
        },
{
    if string_to_stmt(s.clone()).is_some() {
        Some(parse_fn(s))
    } else {
        None
    }
}

/// The return-type path of a function written as a statement.
pub fn parse_fn_output(s: String) -> (v: Vec<String>)
    requires
        parsed_stmt(s@) is Some,
    ensures
        v.deep_view() == stmt_fn(parsed_stmt(s@).unwrap()).1,
{
    let st = string_to_stmt(s);
    fn_of(st.unwrap()).output
}

/// `parse_fn_output` where the text parses, `None` where it does not.
pub fn try_parse_fn_output(s: String) -> (v: Option<Vec<String>>)
    ensures
        match parsed_stmt(s@) {
            Some(st) => v matches Some(x) && x.deep_view() == stmt_fn(st).1,
            None => v is None,
        },
{
    if string_to_stmt(s.clone()).is_some() {
        Some(parse_fn_output(s))
    } else {
        None
    }
}

/// The name of a parsed module statement.
pub fn mod_of(stmt: &StmtNode) -> (v: ModVisitor)
    ensures
        v@ == stmt_mod(*stmt),
{
    let mut v = ModVisitor::new();
    match stmt {
        StmtNode::Item(i) => v.visit_item(i),
        _ => {},
    }
    v
}

/// The name of a module written as a statement.
pub fn parse_mod(s: String) -> (v: ModVisitor)
    requires
        parsed_stmt(s@) is Some,
    ensures
        v@ == stmt_mod(parsed_stmt(s@).unwrap()),
{
    let st = string_to_stmt(s);
    mod_of(&st.unwrap())
}

/// `parse_mod` where the text parses, `None` where it does not.
pub fn try_parse_mod(s: String) -> (v: Option<ModVisitor>)
    ensures
        match parsed_stmt(s@) {
            Some(st) => v matches Some(x) && x@ == stmt_mod(st),
            None => v is None,
        },
{
    if string_to_stmt(s.clone()).is_some() {
        Some(parse_mod(s))
    } else {
        None
    }
}

/// The name and variants of a parsed enum statement.
pub fn enum_of(stmt: &StmtNode) -> (v: EnumVisitor)
    ensures
        v@ == stmt_enum(*stmt),
{
    let mut v = EnumVisitor::new();
    match stmt {
        StmtNode::Item(i) => v.visit_item(i),
        _ => {},
    }
    v
}

/// The name of an enum written as a statement, and the name and start offset of
/// each of its variants.
pub fn parse_enum(s: String) -> (v: EnumVisitor)
    requires
        parsed_stmt(s@) is Some,
    ensures
        v@ == stmt_enum(parsed_stmt(s@).unwrap()),
{
    let st = string_to_stmt(s);
    enum_of(&st.unwrap())
}

/// `parse_enum` where the text parses, `None` where it does not.
pub fn try_parse_enum(s: String) -> (v: Option<EnumVisitor>)
    ensures
        match parsed_stmt(s@) {
            Some(st) => v matches Some(x) && x@ == stmt_enum(st),
            None => v is None,
        },
{
    if string_to_stmt(s.clone()).is_some() {
        Some(parse_enum(s))
    } else {
        None
    }
}

} // verus!
