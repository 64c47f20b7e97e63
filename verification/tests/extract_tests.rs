use racer_ast::extract::{
    parse_enum, parse_fn, parse_fn_output, parse_impl, parse_mod, parse_struct_fields,
    parse_trait, parse_type, parse_view_item, try_parse_enum, try_parse_fn, try_parse_fn_output,
    try_parse_impl, try_parse_mod, try_parse_trait, try_parse_type,
};
use racer_ast::syntax_tree::{ExprNode, ItemKindNode, StmtNode};
use racer_ast::{string_to_crate, string_to_expr, string_to_item, string_to_stmt};

fn strs(v: &[&str]) -> Vec<String> {
    v.iter().map(|s| s.to_string()).collect()
}

#[test]
fn ast_sandbox() {}

#[test]
fn view_item_simple_use() {
    let v = parse_view_item("use bar::baz;".to_string());
    assert_eq!(v.ident, Some("baz".to_string()));
    assert_eq!(v.paths, vec![strs(&["bar", "baz"])]);
}

#[test]
fn view_item_list_and_extern_crate() {
    let v = parse_view_item("use bar::{baz, blah, self};\nextern crate core_collections;".to_string());
    assert_eq!(v.ident, Some("core_collections".to_string()));
    assert_eq!(v.paths, vec![strs(&["bar", "baz"]), strs(&["bar", "blah"])]);
}

#[test]
fn view_item_renamed_extern_crate() {
    let v = parse_view_item("extern crate collections as core_collections;".to_string());
    assert_eq!(v.ident, Some("core_collections".to_string()));
    assert_eq!(v.paths, vec![strs(&["collections"])]);
}

#[test]
fn struct_fields() {
    let f = parse_struct_fields("struct Foo { a: Bar, b: &std::string::String, c: (u8, u8) }".to_string());
    assert_eq!(f.len(), 3);
    assert_eq!(f[0], ("a".to_string(), 13, strs(&["Bar"])));
    assert_eq!(f[1].0, "b".to_string());
    assert_eq!(f[1].2, strs(&["std", "string", "String"]));
    assert_eq!(f[2].2, Vec::<String>::new());
}

#[test]
fn impl_paths() {
    let v = parse_impl("impl visit::Visitor<()> for ExprTypeVisitor {}".to_string());
    assert_eq!(v.name_path, strs(&["ExprTypeVisitor"]));
    assert_eq!(v.trait_path, strs(&["visit", "Visitor"]));
    let v = parse_impl("impl<'a> StrSlice<'a> for &'a str {}".to_string());
    assert_eq!(v.name_path, strs(&["str"]));
    assert!(try_parse_impl("impl {".to_string()).is_none());
}

#[test]
fn fn_signature() {
    let v = parse_fn("fn myfn(a: uint, b: &Foo) -> Foo {}".to_string());
    assert_eq!(v.name, "myfn".to_string());
    assert_eq!(v.output, strs(&["Foo"]));
    assert_eq!(v.args, vec![("a".to_string(), 8, strs(&["uint"])), ("b".to_string(), 17, strs(&["Foo"]))]);
    assert!(!v.is_method);
    assert_eq!(parse_fn_output("fn foo() -> (a,b) {}".to_string()), Vec::<String>::new());
}

#[test]
fn other_items() {
    assert_eq!(parse_trait("trait Foo { fn a(&self); }".to_string()).name, Some("Foo".to_string()));
    let t = parse_type("type Blah = Vec<u8>;".to_string());
    assert_eq!(t.name, Some("Blah".to_string()));
    assert_eq!(t.type_, strs(&["Vec"]));
    assert_eq!(parse_mod("mod foo { }".to_string()).name, Some("foo".to_string()));
    let e = parse_enum("enum E { A, B(u8) }".to_string());
    assert_eq!(e.name, "E".to_string());
    assert_eq!(e.values, vec![("A".to_string(), 9), ("B".to_string(), 12)]);
}

#[test]
fn view_items_in_nested_modules() {
    let v = parse_view_item("use a::b;\nmod m { use c::d as e; mod n { extern crate f; } }\nuse g::*;".to_string());
    assert_eq!(v.ident, Some("f".to_string()));
    assert_eq!(v.paths, vec![strs(&["a", "b"]), strs(&["c", "d"])]);
}

#[test]
fn view_item_of_unparsable_text() {
    let v = parse_view_item("use a::{;".to_string());
    assert_eq!(v.ident, None);
    assert!(v.paths.is_empty());
}

#[test]
fn struct_fields_of_enums_and_modules() {
    let f = parse_struct_fields("mod m { struct A(u8); enum E { X { p: &P }, Y(Q) } struct B { q: Q } }".to_string());
    let names: Vec<(String, Vec<String>)> = f.into_iter().map(|(n, _, t)| (n, t)).collect();
    assert_eq!(names, vec![("p".to_string(), strs(&["P"])), ("q".to_string(), strs(&["Q"]))]);
    assert!(parse_struct_fields("struct {".to_string()).is_empty());
    assert!(parse_struct_fields("let x = 1;".to_string()).is_empty());
}

#[test]
fn fn_visitor_over_impls_and_traits() {
    let v = parse_fn("impl Foo { fn a(&self, x: X) -> A {} fn b(y: Y) {} }".to_string());
    assert_eq!(v.name, "b".to_string());
    assert_eq!(v.output, strs(&["A"]));
    assert_eq!(v.args.iter().map(|a| a.0.clone()).collect::<Vec<_>>(), strs(&["self", "x", "y"]));
    assert_eq!(v.args[0].2, Vec::<String>::new());
    assert!(v.is_method);
    let t = parse_fn("trait T { fn req(&self) -> R; fn prov(&self) -> P {} }".to_string());
    assert_eq!(t.name, "prov".to_string());
    assert_eq!(t.output, strs(&["P"]));
}

#[test]
fn fn_visitor_stops_at_a_pattern_argument() {
    let v = parse_fn("fn f(a: A, (b, c): (B, C), d: D) -> R {}".to_string());
    assert_eq!(v.name, "f".to_string());
    assert_eq!(v.args, vec![("a".to_string(), 5, strs(&["A"]))]);
    assert!(v.output.is_empty());
}

#[test]
fn visitors_of_other_statements() {
    assert_eq!(parse_trait("struct S;".to_string()).name, None);
    assert_eq!(parse_mod("fn f() {}".to_string()).name, None);
    let t = parse_type("type R = &'a [u8];".to_string());
    assert_eq!(t.name, Some("R".to_string()));
    assert!(t.type_.is_empty());
    let i = parse_impl("impl Foo for (A, B) {}".to_string());
    assert!(i.name_path.is_empty());
    assert_eq!(i.trait_path, strs(&["Foo"]));
    let e = parse_enum("struct S;".to_string());
    assert_eq!(e.name, String::new());
    assert!(e.values.is_empty());
}

#[test]
fn try_parse_of_unparsable_text() {
    assert!(try_parse_trait("trait {".to_string()).is_none());
    assert!(try_parse_type("type = ;".to_string()).is_none());
    assert!(try_parse_fn("fn (".to_string()).is_none());
    assert!(try_parse_fn_output("fn (".to_string()).is_none());
    assert!(try_parse_mod("mod {".to_string()).is_none());
    assert!(try_parse_enum("enum {".to_string()).is_none());
    assert!(try_parse_mod("mod a;".to_string()).is_some());
}

#[test]
fn parsing_into_the_tree() {
    match string_to_expr("a.b(c).d".to_string()) {
        Some(ExprNode::Field(base, name)) => {
            assert_eq!(name, "d");
            assert!(matches!(*base, ExprNode::MethodCall(ref m, _) if m == "b"));
        }
        _ => panic!("not a field access"),
    }
    match string_to_item("pub mod m { fn f() {} }".to_string()) {
        Some(i) => {
            assert_eq!(i.ident, "m");
            assert!(matches!(i.node, ItemKindNode::Mod(ref items) if items.len() == 1));
        }
        None => panic!("not an item"),
    }
    assert_eq!(string_to_crate("use a; use b;".to_string()).map(|c| c.items.len()), Some(2));
    assert!(matches!(string_to_stmt("let x = 1;".to_string()), Some(StmtNode::Local(_))));
    assert!(string_to_stmt("".to_string()).is_none());
    assert!(string_to_expr("a +".to_string()).is_none());
}
