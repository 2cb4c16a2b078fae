use deno_doc::pattern::{
    ArrayPat, AssignPatProp, BindingIdent, DeclSite, Expr, IdentRef, KeyValuePatProp, ObjectPat,
    ObjectPatProp, Pat, RestPat, VarDecl, VarDeclKind, VarDeclarator,
};
use deno_doc::ts_type::{LiteralProperty, TypeDef};
use deno_doc::variable::{
    alias_type_of, array_pattern_entries, element_type_of, get_docs_for_var_declarator,
    object_pattern_entries, pattern_type_ann, property_type_of, resolve_top_type, VariableDef,
};

fn named(s: &str) -> TypeDef {
    TypeDef::Named(s.to_string())
}

fn ident(name: &str, type_ann: Option<TypeDef>) -> Pat {
    Pat::Ident(BindingIdent { sym: name.to_string(), type_ann })
}

fn literal(props: &[(&str, Option<TypeDef>)]) -> TypeDef {
    let mut out = Vec::new();
    for (name, t) in props {
        out.push(LiteralProperty { name: name.to_string(), ts_type: t.as_ref().map(|t| t.duplicate()) });
    }
    TypeDef::TypeLiteral(out)
}

fn shorthand(key: &str) -> ObjectPatProp {
    ObjectPatProp::Assign(AssignPatProp { key: key.to_string() })
}

fn key_value(key: &str, value: Pat) -> ObjectPatProp {
    ObjectPatProp::KeyValue(KeyValuePatProp { key: key.to_string(), value: Box::new(value) })
}

fn rest(name: &str, type_ann: Option<TypeDef>) -> RestPat {
    RestPat { arg: Box::new(ident(name, None)), type_ann }
}

fn declarator(name: Pat, init: Option<Expr>, inferred: Option<TypeDef>) -> VarDeclarator {
    VarDeclarator { name, init, inferred }
}

fn decl(kind: VarDeclKind) -> VarDecl {
    VarDecl { kind }
}

fn entry(name: &str, t: Option<TypeDef>, kind: VarDeclKind) -> (String, VariableDef) {
    (name.to_string(), VariableDef { ts_type: t, kind })
}

fn other_init() -> Option<Expr> {
    Some(Expr::Other)
}

fn alias(name: &str, decls: Vec<DeclSite>) -> Option<Expr> {
    Some(Expr::Ident(IdentRef { sym: name.to_string(), decls }))
}

#[test]
fn plain_identifier_with_annotation() {
    let d = declarator(ident("x", Some(named("number"))), other_init(), Some(named("1")));
    let out = get_docs_for_var_declarator(&decl(VarDeclKind::Const), &d);
    assert_eq!(out, vec![entry("x", Some(named("number")), VarDeclKind::Const)]);
}

#[test]
fn alias_chase_takes_annotation_of_referenced_binding() {
    let site = DeclSite {
        var_declarator: Some(ident("y", Some(named("string")))),
        inferred: Some(named("\"hi\"")),
    };
    let d = declarator(ident("z", None), alias("y", vec![site]), None);
    let out = get_docs_for_var_declarator(&decl(VarDeclKind::Const), &d);
    assert_eq!(out, vec![entry("z", Some(named("string")), VarDeclKind::Const)]);
}

#[test]
fn alias_chase_falls_back_to_site_inference_then_next_site() {
    let first = DeclSite { var_declarator: None, inferred: None };
    let second = DeclSite { var_declarator: Some(ident("y", None)), inferred: Some(named("number")) };
    let d = declarator(ident("z", None), alias("y", vec![first, second]), Some(named("local")));
    let out = get_docs_for_var_declarator(&decl(VarDeclKind::Let), &d);
    assert_eq!(out, vec![entry("z", Some(named("number")), VarDeclKind::Let)]);
}

#[test]
fn unresolved_alias_uses_local_inference() {
    let d = declarator(ident("z", None), alias("y", vec![]), Some(named("local")));
    let out = get_docs_for_var_declarator(&decl(VarDeclKind::Var), &d);
    assert_eq!(out, vec![entry("z", Some(named("local")), VarDeclKind::Var)]);
}

#[test]
fn no_source_gives_no_type() {
    let d = declarator(ident("z", None), other_init(), None);
    let out = get_docs_for_var_declarator(&decl(VarDeclKind::Var), &d);
    assert_eq!(out, vec![entry("z", None, VarDeclKind::Var)]);
}

#[test]
fn own_annotation_wins_over_alias_and_inference() {
    let site = DeclSite { var_declarator: Some(ident("y", Some(named("string")))), inferred: None };
    let d = declarator(ident("z", Some(named("boolean"))), alias("y", vec![site]), Some(named("local")));
    assert_eq!(resolve_top_type(&d), Some(named("boolean")));
    assert_eq!(pattern_type_ann(&d.name), Some(named("boolean")));
}

#[test]
fn object_destructure_with_type_literal() {
    let top = literal(&[("a", Some(named("number"))), ("b", Some(named("string")))]);
    let pat = Pat::Object(ObjectPat {
        props: vec![shorthand("a"), key_value("b", ident("bb", None))],
        type_ann: Some(top),
    });
    let d = declarator(pat, Some(Expr::Ident(IdentRef { sym: "obj".to_string(), decls: vec![] })), None);
    let out = get_docs_for_var_declarator(&decl(VarDeclKind::Let), &d);
    assert_eq!(
        out,
        vec![
            entry("a", Some(named("number")), VarDeclKind::Let),
            entry("bb", Some(named("string")), VarDeclKind::Let),
        ]
    );
}

#[test]
fn object_rest_with_own_annotation() {
    let top = literal(&[("a", Some(named("number"))), ("b", Some(named("string")))]);
    let pat = Pat::Object(ObjectPat {
        props: vec![
            shorthand("a"),
            ObjectPatProp::Rest(rest("rest", Some(named("Record<string, string>")))),
        ],
        type_ann: Some(top),
    });
    let d = declarator(pat, other_init(), None);
    let out = get_docs_for_var_declarator(&decl(VarDeclKind::Const), &d);
    assert_eq!(
        out,
        vec![
            entry("a", Some(named("number")), VarDeclKind::Const),
            entry("rest", Some(named("Record<string, string>")), VarDeclKind::Const),
        ]
    );
}

#[test]
fn object_rest_without_annotation_has_no_type() {
    let top = literal(&[("a", Some(named("number")))]);
    let pat = Pat::Object(ObjectPat {
        props: vec![shorthand("a"), ObjectPatProp::Rest(rest("others", None))],
        type_ann: Some(top),
    });
    let out = get_docs_for_var_declarator(&decl(VarDeclKind::Const), &declarator(pat, other_init(), None));
    assert_eq!(
        out,
        vec![
            entry("a", Some(named("number")), VarDeclKind::Const),
            entry("others", None, VarDeclKind::Const),
        ]
    );
}

#[test]
fn object_rest_with_non_identifier_target_is_skipped() {
    let nested = RestPat { arg: Box::new(Pat::Other), type_ann: Some(named("X")) };
    let pat = Pat::Object(ObjectPat {
        props: vec![shorthand("a"), ObjectPatProp::Rest(nested)],
        type_ann: None,
    });
    let out = get_docs_for_var_declarator(&decl(VarDeclKind::Let), &declarator(pat, other_init(), None));
    assert_eq!(out, vec![entry("a", None, VarDeclKind::Let)]);
}

#[test]
fn key_value_with_nested_pattern_emits_key_without_type() {
    let top = literal(&[("a", Some(named("number")))]);
    let nested = Pat::Object(ObjectPat { props: vec![shorthand("b")], type_ann: None });
    let pat = Pat::Object(ObjectPat { props: vec![key_value("a", nested)], type_ann: Some(top) });
    let out = get_docs_for_var_declarator(&decl(VarDeclKind::Const), &declarator(pat, other_init(), None));
    assert_eq!(out, vec![entry("a", None, VarDeclKind::Const)]);
}

#[test]
fn rename_projects_by_key() {
    let top = literal(&[("a", Some(named("number"))), ("b", Some(named("string")))]);
    let pat = ObjectPat { props: vec![key_value("a", ident("b", None))], type_ann: None };
    let out = object_pattern_entries(&pat, &Some(top), VarDeclKind::Const);
    assert_eq!(out, vec![entry("b", Some(named("number")), VarDeclKind::Const)]);
}

#[test]
fn missing_property_and_non_literal_top_give_no_type() {
    let top = literal(&[("a", Some(named("number")))]);
    let pat = ObjectPat { props: vec![shorthand("z")], type_ann: None };
    let out = object_pattern_entries(&pat, &Some(top), VarDeclKind::Var);
    assert_eq!(out, vec![entry("z", None, VarDeclKind::Var)]);
    let pat = ObjectPat { props: vec![shorthand("a")], type_ann: None };
    let out = object_pattern_entries(&pat, &Some(named("Foo")), VarDeclKind::Var);
    assert_eq!(out, vec![entry("a", None, VarDeclKind::Var)]);
}

#[test]
fn first_literal_property_of_a_name_decides() {
    let top = Some(literal(&[("a", None), ("a", Some(named("number")))]));
    assert_eq!(property_type_of(&top, &"a".to_string()), None);
    let top = Some(literal(&[("b", Some(named("string"))), ("a", Some(named("number"))), ("a", Some(named("boolean")))]));
    assert_eq!(property_type_of(&top, &"a".to_string()), Some(named("number")));
}

#[test]
fn array_destructure_over_tuple_with_hole() {
    let top = TypeDef::Tuple(vec![named("number"), named("boolean"), named("string")]);
    let pat = Pat::Array(ArrayPat {
        elems: vec![Some(ident("p", None)), None, Some(ident("q", None))],
        type_ann: Some(top),
    });
    let out = get_docs_for_var_declarator(&decl(VarDeclKind::Const), &declarator(pat, other_init(), None));
    assert_eq!(
        out,
        vec![
            entry("p", Some(named("number")), VarDeclKind::Const),
            entry("q", Some(named("string")), VarDeclKind::Const),
        ]
    );
}

#[test]
fn tuple_shorter_than_pattern_gives_no_type() {
    let top = Some(TypeDef::Tuple(vec![named("number")]));
    let pat = ArrayPat { elems: vec![Some(ident("a", None)), Some(ident("b", None))], type_ann: None };
    let out = array_pattern_entries(&pat, &top, VarDeclKind::Let);
    assert_eq!(
        out,
        vec![entry("a", Some(named("number")), VarDeclKind::Let), entry("b", None, VarDeclKind::Let)]
    );
    assert_eq!(element_type_of(&top, 5), None);
}

#[test]
fn array_rest_without_annotation_over_array_type() {
    let top = TypeDef::Array(Box::new(named("number")));
    let pat = Pat::Array(ArrayPat {
        elems: vec![Some(ident("first", None)), Some(Pat::Rest(rest("tail", None)))],
        type_ann: Some(top),
    });
    let out = get_docs_for_var_declarator(&decl(VarDeclKind::Const), &declarator(pat, other_init(), None));
    assert_eq!(
        out,
        vec![
            entry("first", Some(named("number")), VarDeclKind::Const),
            entry("tail", Some(TypeDef::Array(Box::new(named("number")))), VarDeclKind::Const),
        ]
    );
}

#[test]
fn array_rest_own_annotation_wins() {
    let top = Some(TypeDef::Array(Box::new(named("number"))));
    let pat = ArrayPat {
        elems: vec![Some(Pat::Rest(rest("tail", Some(named("unknown[]")))))],
        type_ann: None,
    };
    let out = array_pattern_entries(&pat, &top, VarDeclKind::Const);
    assert_eq!(out, vec![entry("tail", Some(named("unknown[]")), VarDeclKind::Const)]);
}

#[test]
fn array_rest_over_tuple_has_no_type_and_other_elements_skip() {
    let top = Some(TypeDef::Tuple(vec![named("number"), named("string")]));
    let pat = ArrayPat {
        elems: vec![Some(Pat::Other), Some(ident("b", None)), Some(Pat::Rest(rest("tail", None)))],
        type_ann: None,
    };
    let out = array_pattern_entries(&pat, &top, VarDeclKind::Var);
    assert_eq!(
        out,
        vec![entry("b", Some(named("string")), VarDeclKind::Var), entry("tail", None, VarDeclKind::Var)]
    );
}

#[test]
fn unsupported_top_pattern_binds_nothing() {
    let d = declarator(Pat::Other, other_init(), Some(named("number")));
    assert!(get_docs_for_var_declarator(&decl(VarDeclKind::Const), &d).is_empty());
    let d = declarator(Pat::Rest(rest("r", None)), other_init(), None);
    assert!(get_docs_for_var_declarator(&decl(VarDeclKind::Const), &d).is_empty());
}

#[test]
fn every_entry_carries_the_declaration_kind() {
    let top = TypeDef::Tuple(vec![named("number"), named("string")]);
    for kind in [VarDeclKind::Var, VarDeclKind::Let, VarDeclKind::Const] {
        let pat = Pat::Array(ArrayPat {
            elems: vec![Some(ident("a", None)), Some(ident("b", None))],
            type_ann: Some(top.duplicate()),
        });
        let out = get_docs_for_var_declarator(&decl(kind), &declarator(pat, other_init(), None));
        assert_eq!(out.len(), 2);
        assert!(out.iter().all(|(_, def)| def.kind == kind));
    }
}

#[test]
fn alias_sites_in_order() {
    let a = DeclSite { var_declarator: Some(ident("y", Some(named("A")))), inferred: None };
    let b = DeclSite { var_declarator: Some(ident("y", Some(named("B")))), inferred: None };
    assert_eq!(alias_type_of(&vec![a, b]), Some(named("A")));
    assert_eq!(alias_type_of(&vec![]), None);
}

#[test]
fn duplicate_keeps_nested_structure() {
    let t = TypeDef::Tuple(vec![
        TypeDef::Array(Box::new(named("number"))),
        literal(&[("k", Some(named("string"))), ("m", None)]),
    ]);
    assert_eq!(t.duplicate(), t);
}
