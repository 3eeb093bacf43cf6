use std::sync::Arc;
use swc_common::sync::Lrc;
use swc_common::{FileName, SourceMap, Spanned, DUMMY_SP};
use swc_ecma_ast::{Decl, ModuleItem, Stmt};
use swc_ecma_parser::{Parser, StringInput, Syntax};
use swc_helpers::cache::{build_body, build_helper, BuildError, HelperCache};
use swc_helpers::flags::{HelperFlags, Helpers};
use swc_helpers::inject::{inject_body, mk_preamble, prepend_stmts, InjectHelpers};
use swc_helpers::kind::{HelperKind, HELPER_KIND_COUNT};

fn all_kinds() -> Vec<HelperKind> {
    (0..HELPER_KIND_COUNT).map(HelperKind::from_index).collect()
}

fn user_body(src: &str) -> Vec<ModuleItem> {
    let cm = SourceMap::default();
    let fm = cm.new_source_file(Lrc::new(FileName::Anon), src.to_string());
    Parser::new(Syntax::default(), StringInput::from(&*fm), None)
        .parse_module()
        .unwrap()
        .body
}

fn fn_name(s: &Stmt) -> Option<String> {
    match s {
        Stmt::Decl(Decl::Fn(f)) => Some(f.ident.sym.as_str().to_string()),
        Stmt::Decl(Decl::Var(v)) => match &v.decls[0].name {
            swc_ecma_ast::Pat::Ident(i) => Some(i.id.sym.as_str().to_string()),
            _ => None,
        },
        _ => None,
    }
}

fn body(kind: HelperKind) -> Vec<Stmt> {
    build_helper(kind).unwrap()
}

#[test]
fn catalog_order_round_trips() {
    for i in 0..HELPER_KIND_COUNT {
        assert_eq!(HelperKind::from_index(i).index(), i);
    }
    assert_eq!(HelperKind::Extends.index(), 0);
    assert_eq!(HelperKind::Inherits.index(), 3);
    assert_eq!(HelperKind::ObjectSpread.index(), 17);
}

#[test]
fn every_catalog_entry_builds_and_defines_its_helper() {
    for kind in all_kinds() {
        let stmts = build_helper(kind).unwrap();
        assert_eq!(stmts.len(), 1, "{:?}", kind);
        assert_eq!(fn_name(&stmts[0]).as_deref(), Some(kind.name()));
    }
}

#[test]
fn cached_bodies_carry_no_position() {
    let mut cache = HelperCache::new();
    for kind in all_kinds() {
        let stmts = cache.get_or_build(kind).unwrap();
        for s in &stmts {
            assert_eq!(s.span(), DUMMY_SP);
        }
        assert!(swc_ecma_utils::drop_span(stmts.clone()) == stmts);
    }
}

#[test]
fn positions_are_dropped_from_a_parsed_text() {
    let stmts = build_body(HelperKind::Throw, "\n\n  function _throw(e) { throw e; }").unwrap();
    assert_eq!(stmts.len(), 1);
    assert_eq!(stmts[0].span(), DUMMY_SP);
}

#[test]
fn malformed_entry_fails_naming_its_kind() {
    let r = build_body(HelperKind::Inherits, "function _inherits(a, {");
    assert_eq!(r, Err(BuildError { kind: HelperKind::Inherits }));
    let r = build_body(HelperKind::Extends, "var = ;");
    assert_eq!(r.unwrap_err().kind, HelperKind::Extends);
}

#[test]
fn cache_returns_identical_bodies() {
    let mut cache = HelperCache::new();
    let a = cache.get_or_build(HelperKind::CreateClass).unwrap();
    let b = cache.get_or_build(HelperKind::CreateClass).unwrap();
    assert!(a == b);
    assert!(a == body(HelperKind::CreateClass));
}

#[test]
fn flags_start_empty_and_mark_independently() {
    let mut flags = HelperFlags::new();
    for kind in all_kinds() {
        assert!(!flags.is_marked(kind));
    }
    flags.mark(HelperKind::Get);
    flags.mark(HelperKind::Get);
    assert!(flags.is_marked(HelperKind::Get));
    assert!(!flags.is_marked(HelperKind::SetProperty));
    let flags = HelperFlags::from_kinds(&vec![HelperKind::Throw, HelperKind::TypeOf]);
    assert!(flags.is_marked(HelperKind::Throw));
    assert!(flags.is_marked(HelperKind::TypeOf));
    assert!(!flags.is_marked(HelperKind::Extends));
}

#[test]
fn no_marks_leave_the_module_unchanged() {
    let mut cache = HelperCache::new();
    let original = user_body("let a = 1; a + 2;");
    let out = inject_body(&HelperFlags::new(), &mut cache, original.clone()).unwrap();
    assert!(out == original);
}

#[test]
fn single_inherits_prepends_its_body() {
    let mut cache = HelperCache::new();
    let flags = HelperFlags::from_kinds(&vec![HelperKind::Inherits]);
    let original = user_body("class A {}\nconsole.log(new A());");
    let out = inject_body(&flags, &mut cache, original.clone()).unwrap();
    let helper = body(HelperKind::Inherits);
    assert_eq!(fn_name(&helper[0]).as_deref(), Some("_inherits"));
    let mut expected: Vec<ModuleItem> = helper.into_iter().map(ModuleItem::Stmt).collect();
    expected.extend(original);
    assert!(out == expected);
}

#[test]
fn two_helpers_are_injected_once_each() {
    let mut cache = HelperCache::new();
    let flags = HelperFlags::from_kinds(&vec![HelperKind::ClassCallCheck, HelperKind::Inherits]);
    let original = user_body("var x = 1;\nfunction f() { return x; }");
    let out = inject_body(&flags, &mut cache, original.clone()).unwrap();
    assert_eq!(out.len(), 2 + original.len());
    let names: Vec<Option<String>> = out[..2]
        .iter()
        .map(|i| match i {
            ModuleItem::Stmt(s) => fn_name(s),
            _ => None,
        })
        .collect();
    assert_eq!(
        names,
        vec![Some("_classCallCheck".to_string()), Some("_inherits".to_string())]
    );
    assert!(out[2..] == original[..]);
}

#[test]
fn preamble_follows_catalog_order_not_marking_order() {
    let mut cache = HelperCache::new();
    let mut first = HelperFlags::new();
    first.mark(HelperKind::ObjectSpread);
    first.mark(HelperKind::Extends);
    let mut second = HelperFlags::new();
    second.mark(HelperKind::Extends);
    second.mark(HelperKind::ObjectSpread);
    let a = mk_preamble(&first, &mut cache).unwrap();
    let b = mk_preamble(&second, &mut cache).unwrap();
    assert!(a == b);
    assert_eq!(fn_name(&a[0]).as_deref(), Some("_extends"));
    assert_eq!(fn_name(&a[1]).as_deref(), Some("_objectSpread"));
}

#[test]
fn every_helper_in_catalog_order() {
    let mut cache = HelperCache::new();
    let mut kinds = all_kinds();
    kinds.reverse();
    let out = mk_preamble(&HelperFlags::from_kinds(&kinds), &mut cache).unwrap();
    let names: Vec<String> = out.iter().map(|s| fn_name(s).unwrap()).collect();
    let expected: Vec<String> = all_kinds().iter().map(|k| k.name().to_string()).collect();
    assert_eq!(names, expected);
}

#[test]
fn prepend_keeps_order_of_both_parts() {
    let stmts = body(HelperKind::Throw);
    let original = user_body("a(); b();");
    let out = prepend_stmts(stmts.clone(), original.clone());
    assert_eq!(out.len(), 3);
    assert!(out[0] == ModuleItem::Stmt(stmts[0].clone()));
    assert!(out[1..] == original[..]);
    assert!(prepend_stmts(vec![], original.clone()) == original);
}

#[test]
fn shared_flags_drive_the_pass() {
    let helpers = Arc::new(Helpers::new());
    helpers.mark(HelperKind::TaggedTemplateLiteral);
    helpers.mark(HelperKind::ToConsumableArray);
    assert!(helpers.is_marked(HelperKind::ToConsumableArray));
    assert!(!helpers.is_marked(HelperKind::Extends));
    let snapshot = helpers.snapshot();
    assert!(snapshot.is_marked(HelperKind::TaggedTemplateLiteral));
    assert!(!snapshot.is_marked(HelperKind::Throw));
    let pass = InjectHelpers::new(helpers.clone());
    let mut cache = HelperCache::new();
    let stmts = pass.mk_helpers(&mut cache).unwrap();
    let names: Vec<String> = stmts.iter().map(|s| fn_name(s).unwrap()).collect();
    assert_eq!(names, vec!["_toConsumableArray", "_taggedTemplateLiteral"]);
    let original = user_body("f();");
    let out = pass.fold_body(&mut cache, original.clone()).unwrap();
    assert_eq!(out.len(), 3);
    assert!(out[2..] == original[..]);
}
