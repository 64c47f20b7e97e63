//! Properties of the library that relate several of its functions or inputs.
use vstd::prelude::*;

use crate::extract::{stmt_fn, stmt_impl};
use crate::parse::parsed_stmt;
use crate::syntax_tree::{
    path_names, type_path, AstPath, ExprNode, FnDeclNode, ImplItemNode, ItemKindNode, ItemNode, LocalNode, PatNode,
    StmtNode, TraitItemNode, TyNode, ViewPath,
};
use crate::typeinf::{
    apply_ops_from, as_match, as_matches, as_text, get_type_of_path_spec, get_type_of_spec, impl_body_start,
    let_stmt_spec, parse_let_spec, resolve_ast_path_spec, search_impls, stmt_expr_type, ExprOp, LetResultView,
    MatchType, MatchView, Outcome, QueryView, ReplyView, World,
};
use crate::visitors::{fn_items_walk, impl_visit_item, lemma_leading_ident_args, view_item_visit, view_items_walk, FnView};

verus! {

/// An impl for a reference type `&T` is read as an impl for `T`: the
/// implementing type path is the same.
pub proof fn law_impl_for_reference_is_impl_for_referent(
    st: (Seq<Seq<char>>, Seq<Seq<char>>),
    ident: String,
    lo: usize,
    tr: Option<AstPath>,
    p: AstPath,
    members: Vec<ImplItemNode>,
)
    ensures
        impl_visit_item(st, ItemNode { ident, lo, node: ItemKindNode::Impl(tr, TyNode::Rptr(Box::new(TyNode::Path(p))), members) })
            == impl_visit_item(st, ItemNode { ident, lo, node: ItemKindNode::Impl(tr, TyNode::Path(p), members) }),
{
}

/// The name and position of a `let` binding do not depend on whether its type
/// is wanted: where working out the type gives a binding, not wanting the type
/// gives the same binding with no type.
pub proof fn law_let_binding_without_type(st: StmtNode, fp: Seq<char>, pos: usize, w: World)
    ensures
        let_stmt_spec(st, fp, pos, true, w) matches Some(r) ==> let_stmt_spec(st, fp, pos, false, w)
            == Some(LetResultView { name: r.name, point: r.point, inittype: None }),
        let_stmt_spec(st, fp, pos, false, w) is None ==> let_stmt_spec(st, fp, pos, true, w) is None,
{
}

/// Without its type wanted, a `let` binding is read without asking anything:
/// the answers given do not matter.
pub proof fn law_let_binding_without_type_asks_nothing(st: StmtNode, fp: Seq<char>, pos: usize, w1: World, w2: World)
    ensures
        let_stmt_spec(st, fp, pos, false, w1) == let_stmt_spec(st, fp, pos, false, w2),
{
}

/// The type of the expression of `let pat = e;` is the type of the expression
/// statement `e`.
pub proof fn law_let_initializer_type(pat: PatNode, ty: Option<TyNode>, e: ExprNode, fp: Seq<char>, pos: usize, w: World)
    ensures
        stmt_expr_type(StmtNode::Local(LocalNode { pat, ty, init: Some(e) }), fp, pos, w)
            == stmt_expr_type(StmtNode::Expr(e), fp, pos, w),
{
}

/// Once no type is found for a part of an expression (or working it out
/// fails), the calls, method calls and field accesses done to that part find no
/// type either (or fail), whatever the answers.
pub proof fn law_nothing_found_stays(r: Outcome, ops: Seq<ExprOp>, w: World)
    requires
        !(r matches Some(Some(_))),
    ensures
        apply_ops_from(r, ops, 0, w) == r,
{
    crate::typeinf::lemma_apply_ops_stuck(r, ops, 0, w);
}

/// An impl without a trait leaves the recorded trait path as it was (empty for
/// a fresh visitor); an impl of a trait records the path of that trait, whatever
/// the implementing type.
pub proof fn law_impl_trait_path_is_written_trait(
    st: (Seq<Seq<char>>, Seq<Seq<char>>),
    ident: String,
    lo: usize,
    tr: Option<AstPath>,
    ty: TyNode,
    members: Vec<ImplItemNode>,
)
    ensures
        impl_visit_item(st, ItemNode { ident, lo, node: ItemKindNode::Impl(tr, ty, members) }).1 == match tr {
            Some(p) => path_names(p),
            None => st.1,
        },
        tr is None ==> stmt_impl(StmtNode::Item(ItemNode { ident, lo, node: ItemKindNode::Impl(tr, ty, members) })).1
            == Seq::<Seq<char>>::empty(),
{
}

/// `use P as N;` binds the name `N`: the name recorded is the bound name, whatever
/// the segments of `P`, and `P` is added as one more path.  A braced list or a
/// glob binds no single name and leaves the recorded name as it was.
pub proof fn law_use_records_bound_name(
    st: (Option<Seq<char>>, Seq<Seq<Seq<char>>>),
    items: Seq<ItemNode>,
    ident: String,
    lo: usize,
    bound: String,
    path: AstPath,
    names: Vec<String>,
)
    ensures
        view_item_visit(st, ItemNode { ident, lo, node: ItemKindNode::Use(ViewPath::List(path, names)) }).0 == st.0,
        view_item_visit(st, ItemNode { ident, lo, node: ItemKindNode::Use(ViewPath::Glob(path)) }).0 == st.0,
        view_item_visit(st, ItemNode { ident, lo, node: ItemKindNode::Use(ViewPath::Simple(bound, path)) }).0
            == Some(bound@),
        view_items_walk(st, items.push(ItemNode { ident, lo, node: ItemKindNode::Use(ViewPath::Simple(bound, path)) }))
            == (Some(bound@), view_items_walk(st, items).1.push(path_names(path))),
{
    let item = ItemNode { ident, lo, node: ItemKindNode::Use(ViewPath::Simple(bound, path)) };
    assert(items.push(item).drop_last() =~= items);
}

/// A function met inside a trait (a provided method) or an impl is recorded as a
/// method, a free function item as no method, where its arguments all bind plain
/// names; either way its name is recorded.
pub proof fn law_methods_are_recorded_as_methods(
    st: FnView,
    items: Seq<ItemNode>,
    item: ItemNode,
    name: String,
    decl: FnDeclNode,
)
    requires
        forall|j: int| 0 <= j < decl.inputs@.len() ==> (#[trigger] decl.inputs@[j]).pat is Ident,
    ensures
        item.node matches ItemKindNode::Trait(ms) && ms@.len() > 0
            && ms@.last() == (TraitItemNode::Method { name, decl, has_body: true }) ==> {
            &&& fn_items_walk(st, items.push(item)).0 == name@
            &&& fn_items_walk(st, items.push(item)).3
        },
        item.node matches ItemKindNode::Impl(_, _, ms) && ms@.len() > 0
            && ms@.last() == (ImplItemNode::Method { name, decl }) ==> {
            &&& fn_items_walk(st, items.push(item)).0 == name@
            &&& fn_items_walk(st, items.push(item)).3
        },
        item.node == ItemKindNode::Fn(decl) ==> {
            &&& fn_items_walk(st, items.push(item)).0 == item.ident@
            &&& !fn_items_walk(st, items.push(item)).3
        },
        item.node == ItemKindNode::Fn(decl) ==> {
            &&& stmt_fn(StmtNode::Item(item)).0 == item.ident@
            &&& !stmt_fn(StmtNode::Item(item)).3
        },
{
    lemma_leading_ident_args(decl.inputs@, decl.inputs@.len() as int);
    assert(items.push(item).drop_last() =~= items);
    assert(seq![item] =~= Seq::<ItemNode>::empty().push(item));
    assert(Seq::<ItemNode>::empty().push(item).drop_last() =~= Seq::<ItemNode>::empty());
}

/// Whether the statement is a `let` whose type is worked out from its
/// initializer: no type is written, or the written type is not a path.
pub open spec fn typed_by_initializer(l: LocalNode) -> bool {
    match l.ty {
        Some(t) => type_path(t).len() == 0,
        None => true,
    }
}

/// With its type wanted, a `let` that binds a plain name gives that binding
/// (name and offset) whenever working out the type does not fail, and its
/// type is then exactly what was found, nothing included: the type of the
/// initializer (`get_type_of` of the same statement), or the type of what the
/// written type path names.
pub proof fn law_let_binding_with_type(l: LocalNode, fp: Seq<char>, pos: usize, w: World)
    ensures
        match l.pat {
            PatNode::Ident { name, lo } => let_stmt_spec(StmtNode::Local(l), fp, pos, true, w) == match (
            if typed_by_initializer(l) {
                stmt_expr_type(StmtNode::Local(l), fp, pos, w)
            } else {
                get_type_of_path_spec(type_path(l.ty.unwrap()), fp, pos, w)
            }) {
                Some(t) => Some(LetResultView { name: name@, point: lo, inittype: t }),
                None => None,
            },
            PatNode::Other => true,
        },
{
}

/// For the text of a `let` that binds a plain name and has no type path
/// written, the binding with its type wanted carries the name and offset read
/// without the type and the type that `get_type_of` finds for the same text;
/// it is missing only where `get_type_of` fails.
pub proof fn law_parse_let_agrees_with_get_type_of(src: Seq<char>, fp: Seq<char>, pos: usize, w: World)
    requires
        parsed_stmt(src) matches Some(StmtNode::Local(l)) && l.pat is Ident && typed_by_initializer(l),
    ensures
        parse_let_spec(src, fp, pos, false, w) matches Some(r) && parse_let_spec(src, fp, pos, true, w) == match get_type_of_spec(
            src,
            fp,
            pos,
            w,
        ) {
            Some(t) => Some(LetResultView { name: r.name, point: r.point, inittype: t }),
            None => None,
        },
{
    let st = parsed_stmt(src).unwrap();
    if let StmtNode::Local(l) = st {
        law_let_binding_with_type(l, fp, pos, w);
    }
}

/// The text of the file that holds the impl `im`, as the resolver reads it.
pub open spec fn impl_file_text(im: MatchView, w: World) -> Seq<char> {
    as_text(w(QueryView::ReadFile(im.filepath)))
}

/// Whether the body of the impl `im` can be searched: reading its file and
/// finding where its body starts does not fail.
pub open spec fn impl_searchable(im: MatchView, w: World) -> bool {
    impl_body_start(impl_file_text(im, w), im.point) is Some
}

/// What a scope search for `name` finds in the body of the impl `im` alone:
/// nothing where no `{` follows the impl.
pub open spec fn found_in_impl(im: MatchView, name: Seq<char>, w: World) -> Option<MatchView> {
    match impl_body_start(impl_file_text(im, w), im.point) {
        Some(Some(p)) => as_match(
            w(QueryView::SearchScope(p, impl_file_text(im, w), name, im.filepath, im.local)),
        ),
        _ => None,
    }
}

proof fn lemma_search_impls_nothing_after(
    impls: Seq<MatchView>,
    k: nat,
    name: Seq<char>,
    ctx: Option<MatchView>,
    w: World,
)
    requires
        forall|i: int| k <= i < impls.len() ==> impl_searchable(#[trigger] impls[i], w),
        forall|i: int| k <= i < impls.len() ==> (#[trigger] found_in_impl(impls[i], name, w)) is None,
    ensures
        search_impls(impls, k, name, ctx, w) == Some(ctx),
    decreases impls.len() - k,
{
    if k < impls.len() {
        assert(impl_searchable(impls[k as int], w));
        assert(found_in_impl(impls[k as int], name, w) is None);
        lemma_search_impls_nothing_after(impls, k + 1, name, ctx, w);
    }
}

proof fn lemma_search_impls_last_found(
    impls: Seq<MatchView>,
    k: nat,
    j: int,
    name: Seq<char>,
    ctx: Option<MatchView>,
    w: World,
)
    requires
        k <= j < impls.len(),
        forall|i: int| k <= i < impls.len() ==> impl_searchable(#[trigger] impls[i], w),
        found_in_impl(impls[j], name, w) is Some,
        forall|i: int| j < i < impls.len() ==> (#[trigger] found_in_impl(impls[i], name, w)) is None,
    ensures
        search_impls(impls, k, name, ctx, w) == Some(found_in_impl(impls[j], name, w)),
    decreases j - k,
{
    assert(impl_searchable(impls[k as int], w));
    let r = found_in_impl(impls[k as int], name, w);
    if k == j {
        lemma_search_impls_nothing_after(impls, k + 1, name, r, w);
    } else {
        lemma_search_impls_last_found(impls, k + 1, j, name, if r is Some { r } else { ctx }, w);
    }
}

/// Looking a name up in the impls of a struct searches every impl, in order:
/// where the bodies can be read, the name resolves to what the last impl that
/// holds it gives, whatever its position among the impls; where no impl holds
/// it, the struct itself stays.
pub proof fn law_impl_search_covers_every_impl(
    impls: Seq<MatchView>,
    j: int,
    name: Seq<char>,
    ctx: Option<MatchView>,
    w: World,
)
    requires
        forall|i: int| 0 <= i < impls.len() ==> impl_searchable(#[trigger] impls[i], w),
    ensures
        0 <= j < impls.len() && found_in_impl(impls[j], name, w) is Some && (forall|i: int|
            j < i < impls.len() ==> (#[trigger] found_in_impl(impls[i], name, w)) is None)
            ==> search_impls(impls, 0, name, ctx, w) == Some(found_in_impl(impls[j], name, w)),
        (forall|i: int| 0 <= i < impls.len() ==> (#[trigger] found_in_impl(impls[i], name, w)) is None)
            ==> search_impls(impls, 0, name, ctx, w) == Some(ctx),
{
    if 0 <= j < impls.len() && found_in_impl(impls[j], name, w) is Some && (forall|i: int|
        j < i < impls.len() ==> (#[trigger] found_in_impl(impls[i], name, w)) is None) {
        lemma_search_impls_last_found(impls, 0, j, name, ctx, w);
    }
    if forall|i: int| 0 <= i < impls.len() ==> (#[trigger] found_in_impl(impls[i], name, w)) is None {
        lemma_search_impls_nothing_after(impls, 0, name, ctx, w);
    }
}

/// The path `S::name`, where `S` resolves to a struct, resolves to the match
/// that the last impl of `S` holding `name` gives, whichever of the impls that
/// the resolver returns it is (all of them readable).
pub proof fn law_struct_path_resolves_in_any_impl(
    segs: Seq<Seq<char>>,
    fp: Seq<char>,
    pos: usize,
    w: World,
    s: MatchView,
    impls: Seq<MatchView>,
    j: int,
)
    requires
        segs.len() == 2,
        w(QueryView::ResolveName(segs[0], fp, pos)) == ReplyView::Found(Some(s)),
        s.mtype == MatchType::Struct,
        impls == as_matches(w(QueryView::SearchForImpls(s.point, s.matchstr, s.filepath, s.local))),
        forall|i: int| 0 <= i < impls.len() ==> impl_searchable(#[trigger] impls[i], w),
        0 <= j < impls.len(),
        found_in_impl(impls[j], segs[1], w) is Some,
        forall|i: int| j < i < impls.len() ==> (#[trigger] found_in_impl(impls[i], segs[1], w)) is None,
    ensures
        resolve_ast_path_spec(segs, fp, pos, w) == Some(found_in_impl(impls[j], segs[1], w)),
{
    lemma_search_impls_last_found(impls, 0, j, segs[1], Some(s), w);
    let c = found_in_impl(impls[j], segs[1], w);
    assert(crate::typeinf::resolve_segments(segs, 2, c, w) == Some(c));
}

} // verus!
