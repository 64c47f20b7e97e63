//! Parsing Rust source text with the `syntex_syntax` parser, and reading the
//! parsed tree into the plain values of `syntax_tree`.
//!
//! What the parser returns for a given text is named here (`parsed_stmt`,
//! `parsed_expr`, `parsed_item`, `parsed_crate`) and not written out: the
//! grammar of Rust is the parser's, and nothing in this library restates it.
use vstd::prelude::*;

use syntex_syntax::ast;
use syntex_syntax::codemap::FilePathMapping;
use syntex_syntax::parse::parser::Parser;
use syntex_syntax::parse::ParseSess;

use crate::syntax_tree::{
    ArgNode, AstPath, Crate, ExprNode, FnDeclNode, ImplItemNode, ItemNode, ItemKindNode, LocalNode, PatNode, PathSegment, StmtNode,
    FieldNode, TraitItemNode, TyNode, Variant, VariantDataNode, ViewPath,
};

verus! {

#[verifier::external_type_specification]
#[verifier::external_body]
pub struct ExParseSess(ParseSess);

#[verifier::external_type_specification]
#[verifier::external_body]
pub struct ExParser<'a>(Parser<'a>);

#[verifier::external_type_specification]
#[verifier::external_body]
pub struct ExIdent(ast::Ident);

#[verifier::external_type_specification]
#[verifier::external_body]
pub struct ExPath(ast::Path);

#[verifier::external_type_specification]
#[verifier::external_body]
pub struct ExTy(ast::Ty);

#[verifier::external_type_specification]
#[verifier::external_body]
pub struct ExPat(ast::Pat);

#[verifier::external_type_specification]
#[verifier::external_body]
pub struct ExFnDecl(ast::FnDecl);

#[verifier::external_type_specification]
#[verifier::external_body]
pub struct ExStructField(ast::StructField);

#[verifier::external_type_specification]
#[verifier::external_body]
pub struct ExVariantData(ast::VariantData);

#[verifier::external_type_specification]
#[verifier::external_body]
pub struct ExEnumDef(ast::EnumDef);

#[verifier::external_type_specification]
#[verifier::external_body]
pub struct ExViewPath(ast::ViewPath_);

#[verifier::external_type_specification]
#[verifier::external_body]
pub struct ExTraitItem(ast::TraitItem);

#[verifier::external_type_specification]
#[verifier::external_body]
pub struct ExImplItem(ast::ImplItem);

#[verifier::external_type_specification]
#[verifier::external_body]
pub struct ExItemKind(ast::ItemKind);

#[verifier::external_type_specification]
#[verifier::external_body]
pub struct ExItem(ast::Item);

#[verifier::external_type_specification]
#[verifier::external_body]
pub struct ExExpr(ast::Expr);

#[verifier::external_type_specification]
#[verifier::external_body]
pub struct ExLocal(ast::Local);

#[verifier::external_type_specification]
#[verifier::external_body]
pub struct ExStmt(ast::Stmt);

/// What `syntex_syntax` parses a text into as a statement (`None` when the text
/// does not parse as one statement, or the parser reported an error).
pub uninterp spec fn parsed_stmt(source: Seq<char>) -> Option<StmtNode>;

/// What `syntex_syntax` parses a text into as an expression.
pub uninterp spec fn parsed_expr(source: Seq<char>) -> Option<ExprNode>;

/// What `syntex_syntax` parses a text into as an item.
pub uninterp spec fn parsed_item(source: Seq<char>) -> Option<ItemNode>;

/// What `syntex_syntax` parses a text into as a whole source file.
pub uninterp spec fn parsed_crate(source: Seq<char>) -> Option<Crate>;

/// Makes a parser over `source_str`, under the file name `bogofile`, by
/// `syntex_syntax::parse::new_parser_from_source_str`.  Nothing is stated of it.
#[verifier::external_body]
pub fn string_to_parser<'a>(ps: &'a ParseSess, source_str: String) -> Parser<'a> {
    syntex_syntax::parse::new_parser_from_source_str(ps, "bogofile".to_string(), source_str)
}

/// A fresh parse session (`ParseSess::new` with no path remapping).
#[verifier::external_body]
fn new_parse_sess() -> ParseSess {
    ParseSess::new(FilePathMapping::empty())
}

/// Reads an identifier (`Symbol::as_str`) into a `String`.
#[verifier::external_body]
fn ident_string(i: &ast::Ident) -> String {
    i.name.as_str().to_string()
}

/// Reads a parsed path into its segment identifiers.
#[verifier::external_body]
fn convert_path(p: &ast::Path) -> AstPath {
    AstPath {
        segments: p.segments.iter().map(|s| PathSegment { identifier: ident_string(&s.identifier) }).collect(),
    }
}

/// Reads a parsed type: path types, references, and everything else.
#[verifier::external_body]
fn convert_ty(t: &ast::Ty) -> TyNode {
    match t.node {
        ast::TyKind::Path(_, ref p) => TyNode::Path(convert_path(p)),
        ast::TyKind::Rptr(_, ref mt) => TyNode::Rptr(Box::new(convert_ty(&mt.ty))),
        _ => TyNode::Other,
    }
}

/// Reads a parsed pattern: a binding, with the byte offset of its name, or anything else.
#[verifier::external_body]
fn convert_pat(p: &ast::Pat) -> PatNode {
    match p.node {
        ast::PatKind::Ident(_, ref si, _) => PatNode::Ident { name: ident_string(&si.node), lo: si.span.lo.0 as usize },
        _ => PatNode::Other,
    }
}

/// Reads a parsed function header: its arguments and written return type.
#[verifier::external_body]
fn convert_fn_decl(d: &ast::FnDecl) -> FnDeclNode {
    FnDeclNode {
        inputs: d.inputs.iter().map(|a| ArgNode { pat: convert_pat(&a.pat), ty: convert_ty(&a.ty) }).collect(),
        output: match d.output {
            ast::FunctionRetTy::Ty(ref t) => Some(convert_ty(t)),
            ast::FunctionRetTy::Default(_) => None,
        },
    }
}

/// Reads parsed struct fields: name, start offset and type of each.
#[verifier::external_body]
fn convert_fields(fs: &[ast::StructField]) -> Vec<FieldNode> {
    fs.iter().map(|f| FieldNode {
        ident: f.ident.as_ref().map(ident_string),
        lo: f.span.lo.0 as usize,
        ty: convert_ty(&f.ty),
    }).collect()
}

/// Reads the shape of a parsed struct or variant.
#[verifier::external_body]
fn convert_variant_data(d: &ast::VariantData) -> VariantDataNode {
    match *d {
        ast::VariantData::Struct(ref fs, _) => VariantDataNode::Struct(convert_fields(fs)),
        ast::VariantData::Tuple(ref fs, _) => VariantDataNode::Tuple(convert_fields(fs)),
        ast::VariantData::Unit(_) => VariantDataNode::Unit,
    }
}

/// Reads the variants of a parsed enum: name, start offset and shape of each.
#[verifier::external_body]
fn convert_variants(e: &ast::EnumDef) -> Vec<Variant> {
    e.variants.iter().map(|v| Variant {
        name: ident_string(&v.node.name),
        lo: v.span.lo.0 as usize,
        data: convert_variant_data(&v.node.data),
    }).collect()
}

/// Reads a parsed `use` path.
#[verifier::external_body]
fn convert_view_path(v: &ast::ViewPath_) -> ViewPath {
    match *v {
        ast::ViewPath_::ViewPathSimple(ref i, ref p) => ViewPath::Simple(ident_string(i), convert_path(p)),
        ast::ViewPath_::ViewPathGlob(ref p) => ViewPath::Glob(convert_path(p)),
        ast::ViewPath_::ViewPathList(ref p, ref items) =>
            ViewPath::List(convert_path(p), items.iter().map(|i| ident_string(&i.node.name)).collect()),
    }
}

/// Reads the items of a parsed trait: methods (with whether they have a body), or other.
#[verifier::external_body]
fn convert_trait_items(items: &[ast::TraitItem]) -> Vec<TraitItemNode> {
    items.iter().map(|i| match i.node {
        ast::TraitItemKind::Method(ref sig, ref body) =>
            TraitItemNode::Method { name: ident_string(&i.ident), decl: convert_fn_decl(&sig.decl), has_body: body.is_some() },
        _ => TraitItemNode::Other,
    }).collect()
}

/// Reads the items of a parsed impl: methods, or other.
#[verifier::external_body]
fn convert_impl_items(items: &[ast::ImplItem]) -> Vec<ImplItemNode> {
    items.iter().map(|i| match i.node {
        ast::ImplItemKind::Method(ref sig, _) => ImplItemNode::Method { name: ident_string(&i.ident), decl: convert_fn_decl(&sig.decl) },
        _ => ImplItemNode::Other,
    }).collect()
}

/// Reads the kind of a parsed item and the parts of it that the visitors read
/// (`use`, `extern crate`, type alias, enum, struct; the rest in
/// `convert_item_kind_rest`).
#[verifier::external_body]
fn convert_item_kind(k: &ast::ItemKind) -> ItemKindNode {
    match *k {
        ast::ItemKind::ExternCrate(orig) => ItemKindNode::ExternCrate(orig.map(|n| n.as_str().to_string())),
        ast::ItemKind::Use(ref vp) => ItemKindNode::Use(convert_view_path(&vp.node)),
        ast::ItemKind::Ty(ref t, _) => ItemKindNode::TyAlias(convert_ty(t)),
        ast::ItemKind::Enum(ref d, _) => ItemKindNode::Enum(convert_variants(d)),
        ast::ItemKind::Struct(ref d, _) => ItemKindNode::Struct(convert_variant_data(d)),
        _ => convert_item_kind_rest(k),
    }
}

/// Reads the kind of a parsed trait, impl, function or module item; any other
/// kind is read as `Other`.
#[verifier::external_body]
fn convert_item_kind_rest(k: &ast::ItemKind) -> ItemKindNode {
    match *k {
        ast::ItemKind::Trait(_, _, _, ref items) => ItemKindNode::Trait(convert_trait_items(items)),
        ast::ItemKind::Impl(_, _, _, _, ref tr, ref t, ref items) =>
            ItemKindNode::Impl(tr.as_ref().map(|r| convert_path(&r.path)), convert_ty(t), convert_impl_items(items)),
        ast::ItemKind::Fn(ref d, ..) => ItemKindNode::Fn(convert_fn_decl(d)),
        ast::ItemKind::Mod(ref m) => ItemKindNode::Mod(m.items.iter().map(|i| convert_item(i)).collect()),
        _ => ItemKindNode::Other,
    }
}

/// Reads a parsed item: its name, start offset and kind.
#[verifier::external_body]
fn convert_item(i: &ast::Item) -> ItemNode {
    ItemNode { ident: ident_string(&i.ident), lo: i.span.lo.0 as usize, node: convert_item_kind(&i.node) }
}

/// Reads a parsed expression.  A parsed method call always holds its receiver
/// as the first of its arguments.
#[verifier::external_body]
fn convert_expr(e: &ast::Expr) -> ExprNode {
    match e.node {
        ast::ExprKind::Path(_, ref p) => ExprNode::Path(convert_path(p)),
        ast::ExprKind::Call(ref callee, _) => ExprNode::Call(Box::new(convert_expr(callee))),
        ast::ExprKind::Struct(ref p, _, _) => ExprNode::Struct(convert_path(p)),
        ast::ExprKind::MethodCall(ref si, _, ref args) =>
            ExprNode::MethodCall(ident_string(&si.node), Box::new(convert_expr(&args[0]))),
        ast::ExprKind::Field(ref base, ref si) => ExprNode::Field(Box::new(convert_expr(base)), ident_string(&si.node)),
        _ => ExprNode::Other,
    }
}

/// Reads a parsed `let` statement.
#[verifier::external_body]
fn convert_local(l: &ast::Local) -> LocalNode {
    LocalNode {
        pat: convert_pat(&l.pat),
        ty: l.ty.as_ref().map(|t| convert_ty(t)),
        init: l.init.as_ref().map(|e| convert_expr(e)),
    }
}

/// Reads a parsed statement.
#[verifier::external_body]
fn convert_stmt(s: &ast::Stmt) -> StmtNode {
    match s.node {
        ast::StmtKind::Local(ref l) => StmtNode::Local(convert_local(l)),
        ast::StmtKind::Item(ref i) => StmtNode::Item(convert_item(i)),
        ast::StmtKind::Expr(ref e) | ast::StmtKind::Semi(ref e) => StmtNode::Expr(convert_expr(e)),
        ast::StmtKind::Mac(_) => StmtNode::Mac,
    }
}

/// Parses `source_str` as one statement with `Parser::parse_stmt` in a fresh
/// session; `None` when the parser fails, finds no statement, or reports an
/// error.  The result is `parsed_stmt` of the text.  The lexer of
/// `syntex_syntax` panics on some malformed texts (for example an unterminated
/// string literal); which texts those are is not stated.
#[verifier::external_body]
pub fn string_to_stmt(source_str: String) -> (r: Option<StmtNode>)
    ensures
        r == parsed_stmt(source_str@),
{
    let ps = new_parse_sess();
    let res = string_to_parser(&ps, source_str).parse_stmt();
    match res {
        Ok(Some(s)) if !ps.span_diagnostic.has_errors() => Some(convert_stmt(&s)),
        Ok(_) => None,
        Err(mut e) => { e.cancel(); None },
    }
}

/// Parses `source_str` as an expression with `Parser::parse_expr` in a fresh
/// session; the result is `parsed_expr` of the text (see `string_to_stmt`).
#[verifier::external_body]
pub fn string_to_expr(source_str: String) -> (r: Option<ExprNode>)
    ensures
        r == parsed_expr(source_str@),
{
    let ps = new_parse_sess();
    let res = string_to_parser(&ps, source_str).parse_expr();
    match res {
        Ok(e) if !ps.span_diagnostic.has_errors() => Some(convert_expr(&e)),
        Ok(_) => None,
        Err(mut e) => { e.cancel(); None },
    }
}

/// Parses `source_str` as an item with `Parser::parse_item` in a fresh
/// session; the result is `parsed_item` of the text (see `string_to_stmt`).
#[verifier::external_body]
pub fn string_to_item(source_str: String) -> (r: Option<ItemNode>)
    ensures
        r == parsed_item(source_str@),
{
    let ps = new_parse_sess();
    let res = string_to_parser(&ps, source_str).parse_item();
    match res {
        Ok(Some(i)) if !ps.span_diagnostic.has_errors() => Some(convert_item(&i)),
        Ok(_) => None,
        Err(mut e) => { e.cancel(); None },
    }
}

/// Parses `source_str` as a whole source file with `Parser::parse_crate_mod`
/// in a fresh session; the result is `parsed_crate` of the text (see
/// `string_to_stmt`).
#[verifier::external_body]
pub fn string_to_crate(source_str: String) -> (r: Option<Crate>)
    ensures
        r == parsed_crate(source_str@),
{
    let ps = new_parse_sess();
    let res = string_to_parser(&ps, source_str).parse_crate_mod();
    match res {
        Ok(c) if !ps.span_diagnostic.has_errors() => Some(Crate { items: c.module.items.iter().map(|i| convert_item(i)).collect() }),
        Ok(_) => None,
        Err(mut e) => { e.cancel(); None },
    }
}

} // verus!
