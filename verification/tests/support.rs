//! Tests of the helpers around the synthesizers: the annotation parser
//! with its path grammar, the symbols, the layout helpers, and the
//! classifier's mode decision.

use ref_cast::assert_trivial;
use ref_cast::ast::{
    Attr, AttrArgs, DataShape, Declaration, Field, Lit, MetaItem, PathExpr, TrivialityMode,
    TypeExpr, Vis,
};
use ref_cast::attr::Container;
use ref_cast::classify::{decide_trivial, is_explicit_trivial, is_implicit_trivial};
use ref_cast::diag::ErrorKind;
use ref_cast::layout::{assert_layout, Layout};
use ref_cast::paths::{parse_path_str, path_join, str_eq};
use ref_cast::symbols::{crate_symbol, ref_cast_symbol};

fn ident_path(name: &str) -> PathExpr {
    PathExpr { leading_colon: false, segments: vec![name.to_string()] }
}

fn decl_with_attrs(attrs: Vec<Attr>) -> Declaration {
    Declaration {
        name: "Thing".to_string(),
        vis: Vis::Pub,
        generics: vec![],
        attrs,
        shape: DataShape::Struct,
        fields: vec![],
        span: 0,
    }
}

fn ref_cast_attr(items: Vec<MetaItem>, span: usize) -> Attr {
    Attr { path: ident_path("ref_cast"), args: AttrArgs::List { items }, span }
}

fn crate_assign(text: &str, span: usize) -> MetaItem {
    MetaItem::Assign {
        path: ident_path("crate"),
        value: Lit::Str { value: text.to_string(), span },
        span,
    }
}

#[test]
fn parse_accepts_plain_paths() {
    let p = parse_path_str("::ref_cast").expect("a leading-colon path parses");
    assert!(p.leading_colon);
    assert_eq!(p.segments, vec!["ref_cast".to_string()]);

    let p = parse_path_str("my_crate::reexport::ref_cast").expect("a nested path parses");
    assert!(!p.leading_colon);
    assert_eq!(
        p.segments,
        vec!["my_crate".to_string(), "reexport".to_string(), "ref_cast".to_string()]
    );

    let p = parse_path_str("_x1").expect("an identifier path parses");
    assert_eq!(p.segments, vec!["_x1".to_string()]);
}

#[test]
fn parse_rejects_other_texts() {
    for bad in ["", "::", "a::", "::a::", "a:::b", "a b", "1abc", "a::2b", "a-b", "a::b!"] {
        assert!(parse_path_str(bad).is_none(), "{bad:?} is not a plain path");
    }
}

#[test]
fn join_renders_paths() {
    let p = parse_path_str("::a::bc::d").unwrap();
    assert_eq!(path_join(&p), "::a::bc::d");
    let q = parse_path_str("a").unwrap();
    assert_eq!(path_join(&q), "a");
}

#[test]
fn symbols_name_the_annotations() {
    assert_eq!(ref_cast_symbol().value(), "ref_cast");
    assert_eq!(crate_symbol().value(), "crate");
    assert!(str_eq("crate", crate_symbol().value()));
}

#[test]
fn container_takes_the_default_path() {
    let c = Container::from_ast(&decl_with_attrs(vec![])).expect("no annotation, no failure");
    assert!(c.crate_ref_cast_path.leading_colon);
    assert_eq!(c.crate_ref_cast_path.segments, vec!["ref_cast".to_string()]);
}

#[test]
fn container_takes_an_override() {
    let d = decl_with_attrs(vec![ref_cast_attr(vec![crate_assign("::alias::ref_cast", 3)], 2)]);
    let c = Container::from_ast(&d).expect("a well-formed override");
    assert!(c.crate_ref_cast_path.leading_colon);
    assert_eq!(
        c.crate_ref_cast_path.segments,
        vec!["alias".to_string(), "ref_cast".to_string()]
    );
}

#[test]
fn container_rejects_bad_arguments() {
    // an override that does not parse as a path: the diagnostic shows
    // the text that failed.
    let d = decl_with_attrs(vec![ref_cast_attr(vec![crate_assign("not a path", 3)], 2)]);
    let diags = Container::from_ast(&d).expect_err("a malformed override");
    assert_eq!(diags.len(), 1);
    assert_eq!(diags[0].kind, ErrorKind::MalformedAnnotation);
    assert_eq!(diags[0].span, 3);
    assert_eq!(diags[0].detail, "not a path");

    // an override that is not a string literal: the diagnostic names
    // the argument.
    let d = decl_with_attrs(vec![ref_cast_attr(
        vec![MetaItem::Assign {
            path: ident_path("crate"),
            value: Lit::Other { span: 4 },
            span: 4,
        }],
        2,
    )]);
    let diags = Container::from_ast(&d).expect_err("a non-string override");
    assert_eq!(diags[0].kind, ErrorKind::MalformedAnnotation);
    assert_eq!(diags[0].detail, "crate");

    // an unknown argument, named in the diagnostic.
    let d = decl_with_attrs(vec![ref_cast_attr(
        vec![MetaItem::Word { path: ident_path("wobble"), span: 5 }],
        2,
    )]);
    let diags = Container::from_ast(&d).expect_err("an unknown argument");
    assert_eq!(diags[0].kind, ErrorKind::MalformedAnnotation);
    assert_eq!(diags[0].detail, "wobble");

    // a bare literal in the argument list.
    let d = decl_with_attrs(vec![ref_cast_attr(
        vec![MetaItem::Literal { lit: Lit::Other { span: 6 }, span: 6 }],
        2,
    )]);
    let diags = Container::from_ast(&d).expect_err("a bare literal");
    assert_eq!(diags[0].kind, ErrorKind::MalformedAnnotation);
    assert_eq!(diags[0].span, 6);

    // the annotation without a parenthesized list.
    let d = decl_with_attrs(vec![Attr {
        path: ident_path("ref_cast"),
        args: AttrArgs::Assign { value: Lit::Other { span: 7 } },
        span: 7,
    }]);
    let diags = Container::from_ast(&d).expect_err("not a list");
    assert_eq!(diags[0].kind, ErrorKind::MalformedAnnotation);
}

#[test]
fn container_ignores_unrelated_attributes() {
    let d = decl_with_attrs(vec![Attr {
        path: ident_path("derive"),
        args: AttrArgs::List {
            items: vec![MetaItem::Word { path: ident_path("Clone"), span: 1 }],
        },
        span: 1,
    }]);
    Container::from_ast(&d).expect("unrelated annotations pass through untouched");
}

#[test]
fn last_override_wins() {
    let d = decl_with_attrs(vec![ref_cast_attr(
        vec![crate_assign("first", 1), crate_assign("second", 2)],
        1,
    )]);
    let c = Container::from_ast(&d).expect("both overrides are well-formed");
    assert_eq!(c.crate_ref_cast_path.segments, vec!["second".to_string()]);
}

fn unmarked_unit_field() -> Field {
    Field {
        attrs: vec![],
        vis: Vis::Inherited,
        ty: TypeExpr::Tuple { elems: 0, span: 1 },
        span: 1,
    }
}

fn marked_field() -> Field {
    Field {
        attrs: vec![Attr { path: ident_path("trivial"), args: AttrArgs::Empty, span: 2 }],
        vis: Vis::Inherited,
        ty: TypeExpr::Path { path: ident_path("Marker"), span: 2 },
        span: 2,
    }
}

#[test]
fn mode_is_decided_once_per_declaration() {
    assert_eq!(decide_trivial(&vec![unmarked_unit_field()]), TrivialityMode::Implicit);
    assert_eq!(
        decide_trivial(&vec![unmarked_unit_field(), marked_field()]),
        TrivialityMode::Explicit
    );
    assert!(is_implicit_trivial(&unmarked_unit_field()));
    assert!(!is_explicit_trivial(&unmarked_unit_field()).unwrap());
    assert!(is_explicit_trivial(&marked_field()).unwrap());
}

#[test]
fn layout_is_queried_per_instantiation() {
    // two instantiations of one generic wrapper have independent
    // layouts, and the debug check compares each on its own.
    assert_eq!(Layout::<u8>::size(), 1);
    assert_eq!(Layout::<u8>::align(), 1);
    assert_eq!(Layout::<u64>::size(), 8);
    assert_ne!(Layout::<u8>::size(), Layout::<u64>::size());
    assert_layout::<u8, u8>(
        Layout::<u8>::size(),
        Layout::<u8>::size(),
        Layout::<u8>::align(),
        Layout::<u8>::align(),
    );
}

#[test]
fn trivial_types_are_accepted() {
    assert_trivial::<()>();
    assert_trivial::<std::marker::PhantomData<u8>>();
    assert_trivial::<std::marker::PhantomPinned>();
}
