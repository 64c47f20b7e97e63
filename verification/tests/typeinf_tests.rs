use racer_ast::typeinf::{
    find_impl_body_start, get_type_of, parse_let, slice_bytes, slice_bytes_from, ExprTask,
    LetResult, LetStep, LetTask, Match, MatchType, Query, Reply, Step,
};

fn m(name: &str, file: &str, point: usize, mtype: MatchType) -> Match {
    Match {
        matchstr: name.to_string(),
        filepath: file.to_string(),
        point,
        linetxt: String::new(),
        local: true,
        mtype,
    }
}

fn strs(v: &[&str]) -> Vec<String> {
    v.iter().map(|s| s.to_string()).collect()
}

/// Runs an expression machine, answering with `answer`; `None` where it fails.
fn run_expr(start: (ExprTask, Step), answer: &dyn Fn(&Query) -> Reply) -> Option<Option<Match>> {
    let (mut t, mut s) = start;
    for _ in 0..100 {
        match s {
            Step::Ask(q) => s = t.resume(answer(&q)),
            Step::Done(r) => return Some(r),
            Step::Failed => return None,
        }
    }
    panic!("machine did not stop");
}

fn run_let(start: (LetTask, LetStep), answer: &dyn Fn(&Query) -> Reply) -> Option<LetResult> {
    let (mut t, mut s) = start;
    for _ in 0..100 {
        match s {
            LetStep::Ask(q) => s = t.resume(answer(&q)),
            LetStep::Done(r) => return r,
        }
    }
    panic!("machine did not stop");
}

const IMPL_FILE: &str = "struct Foo;\nimpl Foo { fn new() -> Foo { Foo } }\n";

fn world(q: &Query) -> Reply {
    match q {
        Query::ResolveName { name, .. } if name == "Foo" => Reply::Found(Some(m("Foo", "a.rs", 7, MatchType::Struct))),
        Query::ResolveName { name, .. } if name == "a" => Reply::Found(Some(m("a", "a.rs", 3, MatchType::Let))),
        Query::ResolveName { name, .. } if name == "foo" => Reply::Found(Some(m("foo", "m.rs", 0, MatchType::Module))),
        Query::ResolveName { .. } => Reply::Found(None),
        Query::SearchNextScope { name, .. } if name == "bar" => Reply::Found(Some(m("bar", "m.rs", 20, MatchType::Let))),
        Query::SearchNextScope { .. } => Reply::Found(None),
        Query::SearchForImpls { name, .. } if name == "Foo" => Reply::Matches(vec![m("Foo", "a.rs", 12, MatchType::Impl)]),
        Query::SearchForImpls { .. } => Reply::Matches(vec![]),
        Query::ReadFile { filepath } if filepath == "a.rs" => Reply::Text(IMPL_FILE.to_string()),
        Query::ReadFile { .. } => Reply::Text(String::new()),
        Query::SearchScope { point, name, .. } => {
            assert_eq!(*point, 22);
            if name == "new" {
                Reply::Found(Some(m("new", "a.rs", 26, MatchType::Function)))
            } else {
                Reply::Found(None)
            }
        }
        Query::LoadMasked { filepath } if filepath == "t.rs" => Reply::Text("// x\ntype Bar = Baz;\n".to_string()),
        Query::LoadMasked { .. } => Reply::Text(String::new()),
        Query::TypeOfMatch { m: x, .. } => match x.matchstr.as_str() {
            "a" => Reply::Found(Some(m("S", "s.rs", 1, MatchType::Struct))),
            "bar" => Reply::Found(Some(m("Q", "q.rs", 2, MatchType::Struct))),
            "Foo" => Reply::Found(Some(m("Foo", "a.rs", 7, MatchType::Struct))),
            _ => Reply::Found(Some(x.duplicate())),
        },
        Query::ReturnType { m: x } => match x.matchstr.as_str() {
            "new" => Reply::Path(strs(&["Foo"])),
            "len" => Reply::Path(strs(&["usize"])),
            _ => Reply::Path(vec![]),
        },
        Query::ResolvePath { fqn, .. } => match fqn.join("::").as_str() {
            "Foo" => Reply::Found(Some(m("Foo", "a.rs", 7, MatchType::Struct))),
            "usize" => Reply::Found(Some(m("usize", "core.rs", 9, MatchType::Struct))),
            "Bar" => Reply::Found(Some(m("Bar", "t.rs", 10, MatchType::Type))),
            "Baz" => Reply::Found(Some(m("Baz", "t.rs", 40, MatchType::Struct))),
            "Short" => Reply::Found(Some(m("Short", "t.rs", 3, MatchType::Type))),
            _ => Reply::Found(None),
        },
        Query::FirstStmt { text } => {
            assert_eq!(text, "type Bar = Baz;\n");
            Reply::Range(Some((0, 15)))
        }
        Query::ImplMethod { method, .. } if method == "len" => Reply::Found(Some(m("len", "s.rs", 30, MatchType::Function))),
        Query::ImplMethod { .. } => Reply::Found(None),
        Query::FieldType { field, .. } if field == "b" => Reply::Found(Some(m("T", "t2.rs", 4, MatchType::Struct))),
        Query::FieldType { .. } => Reply::Found(None),
    }
}

fn name_of(r: Option<Option<Match>>) -> Option<Option<String>> {
    r.map(|o| o.map(|x| x.matchstr))
}

#[test]
fn call_of_associated_function() {
    let r = run_expr(get_type_of("Foo::new()".to_string(), "main.rs".to_string(), 0), &world);
    assert_eq!(name_of(r), Some(Some("Foo".to_string())));
}

#[test]
fn field_access_and_method_call() {
    let r = run_expr(get_type_of("a.b".to_string(), "main.rs".to_string(), 0), &world);
    assert_eq!(name_of(r), Some(Some("T".to_string())));
    let r = run_expr(get_type_of("a.len()".to_string(), "main.rs".to_string(), 0), &world);
    assert_eq!(name_of(r), Some(Some("usize".to_string())));
    let r = run_expr(get_type_of("a.missing().len()".to_string(), "main.rs".to_string(), 0), &world);
    assert_eq!(name_of(r), Some(None));
}

#[test]
fn path_through_module() {
    let r = run_expr(get_type_of("foo::bar".to_string(), "main.rs".to_string(), 0), &world);
    assert_eq!(name_of(r), Some(Some("Q".to_string())));
}

#[test]
fn struct_literal_through_type_alias() {
    let r = run_expr(get_type_of("Bar { x: 1 }".to_string(), "main.rs".to_string(), 0), &world);
    assert_eq!(name_of(r), Some(Some("Baz".to_string())));
    let r = run_expr(get_type_of("Short { }".to_string(), "main.rs".to_string(), 0), &world);
    assert_eq!(name_of(r), None);
}

#[test]
fn statements_without_a_type() {
    let r = run_expr(get_type_of("1 + 2".to_string(), "main.rs".to_string(), 0), &world);
    assert_eq!(name_of(r), Some(None));
    let r = run_expr(get_type_of("let x = a.b;".to_string(), "main.rs".to_string(), 0), &world);
    assert_eq!(name_of(r), Some(Some("T".to_string())));
    let r = run_expr(get_type_of("let x;".to_string(), "main.rs".to_string(), 0), &world);
    assert_eq!(name_of(r), Some(None));
}

#[test]
fn unparsable_statement_fails() {
    assert!(run_expr(get_type_of("let = ;".to_string(), "main.rs".to_string(), 0), &world).is_none());
}

#[test]
fn let_bindings() {
    let r = run_let(parse_let("let v = Foo::new();".to_string(), "main.rs".to_string(), 0, true), &world).unwrap();
    assert_eq!(r.name, "v");
    assert_eq!(r.point, 4);
    assert_eq!(r.inittype.unwrap().matchstr, "Foo");
    let r = run_let(parse_let("let v: &Foo = 3;".to_string(), "main.rs".to_string(), 0, true), &world).unwrap();
    assert_eq!(r.inittype.unwrap().matchstr, "Foo");
    let r = run_let(parse_let("let abc = a.b;".to_string(), "main.rs".to_string(), 0, false), &world).unwrap();
    assert_eq!((r.name.as_str(), r.point), ("abc", 4));
    assert!(r.inittype.is_none());
    assert!(run_let(parse_let("let (a, b) = c;".to_string(), "main.rs".to_string(), 0, true), &world).is_none());
    assert!(run_let(parse_let("foo();".to_string(), "main.rs".to_string(), 0, true), &world).is_none());
    assert!(run_let(parse_let("let = ;".to_string(), "main.rs".to_string(), 0, true), &world).is_none());
}

#[test]
fn byte_offsets() {
    let s = "é{x}".to_string();
    assert_eq!(find_impl_body_start(&s, 0), Some(Some(3)));
    assert_eq!(find_impl_body_start(&s, 1), None);
    assert_eq!(find_impl_body_start(&s, 3), Some(None));
    assert_eq!(slice_bytes(&s, 2, 4), Some("{x".to_string()));
    assert_eq!(slice_bytes(&s, 1, 4), None);
    assert_eq!(slice_bytes(&s, 3, 2), None);
    assert_eq!(slice_bytes_from(&s, 3), Some("x}".to_string()));
}
