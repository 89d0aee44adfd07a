use ref_cast::ast::{
    Attr, AttrArgs, DataShape, Declaration, Field, FunctionStub, MetaItem, Param, PathExpr,
    TypeExpr, Vis,
};
use ref_cast::diag::ErrorKind;
use ref_cast::expand::{expand_ref_cast, expand_ref_cast_custom, ref_cast_custom};

fn ident_path(name: &str) -> PathExpr {
    PathExpr { leading_colon: false, segments: vec![name.to_string()] }
}

fn word(name: &str, span: usize) -> MetaItem {
    MetaItem::Word { path: ident_path(name), span }
}

fn repr_attr(items: Vec<MetaItem>, span: usize) -> Attr {
    Attr { path: ident_path("repr"), args: AttrArgs::List { items }, span }
}

fn repr_transparent(span: usize) -> Attr {
    repr_attr(vec![word("transparent", span)], span)
}

fn trivial_attr(span: usize) -> Attr {
    Attr { path: ident_path("trivial"), args: AttrArgs::Empty, span }
}

fn path_ty(name: &str, span: usize) -> TypeExpr {
    TypeExpr::Path { path: ident_path(name), span }
}

fn plain_field(ty: TypeExpr, span: usize) -> Field {
    Field { attrs: vec![], vis: Vis::Inherited, ty, span }
}

fn marked_field(ty: TypeExpr, span: usize) -> Field {
    Field { attrs: vec![trivial_attr(span)], vis: Vis::Inherited, ty, span }
}

fn struct_decl(name: &str, attrs: Vec<Attr>, fields: Vec<Field>) -> Declaration {
    Declaration {
        name: name.to_string(),
        vis: Vis::Pub,
        generics: vec![],
        attrs,
        shape: DataShape::Struct,
        fields,
        span: 0,
    }
}

fn simple_stub(name: &str, param_ty: TypeExpr, ret: TypeExpr) -> FunctionStub {
    FunctionStub {
        attrs: vec![],
        vis: Vis::Pub,
        is_const: false,
        is_async: false,
        is_unsafe: false,
        has_abi: false,
        name: name.to_string(),
        generics: vec![],
        params: vec![Param { name: "s".to_string(), ty: param_ty, span: 7 }],
        ret,
        span: 1,
    }
}

#[test]
fn test_private_type() {
    let d = struct_decl(
        "WrapPrivateType",
        vec![repr_transparent(3)],
        vec![plain_field(path_ty("PrivateType", 4), 4)],
    );
    let plan = expand_ref_cast(&d).expect("a transparent single-field wrapper is accepted");
    assert_eq!(*plan.name, "WrapPrivateType".to_string());
    assert_eq!(*plan.from, path_ty("PrivateType", 4));
    assert!(plan.trivial.is_empty());
    assert!(plan.debug_layout_check);
}

#[test]
fn test_trivial() {
    // value: usize beside an unmarked unit field: the unit field is
    // implicitly trivial.
    let implicit_unit = struct_decl(
        "ImplicitUnit",
        vec![repr_transparent(1)],
        vec![
            plain_field(path_ty("usize", 2), 2),
            plain_field(TypeExpr::Tuple { elems: 0, span: 3 }, 3),
        ],
    );
    let plan = expand_ref_cast(&implicit_unit).expect("unit field is implicitly trivial");
    assert_eq!(*plan.from, path_ty("usize", 2));
    assert_eq!(plan.trivial.len(), 1);
    assert_eq!(*plan.trivial[0], TypeExpr::Tuple { elems: 0, span: 3 });

    // value: T beside PhantomData<T>: the marker type is recognized by
    // name.
    let implicit_phantom = struct_decl(
        "ImplicitPhantomData",
        vec![repr_transparent(1)],
        vec![
            plain_field(path_ty("T", 2), 2),
            plain_field(path_ty("PhantomData", 3), 3),
        ],
    );
    let plan = expand_ref_cast(&implicit_phantom).expect("PhantomData is implicitly trivial");
    assert_eq!(*plan.from, path_ty("T", 2));

    // an explicit marker on an aliased marker type the heuristic would
    // not recognize.
    let explicit = struct_decl(
        "ExplicitTrivial",
        vec![repr_transparent(1)],
        vec![
            plain_field(path_ty("usize", 2), 2),
            marked_field(path_ty("Marker", 3), 3),
        ],
    );
    let plan = expand_ref_cast(&explicit).expect("explicitly marked field is trivial");
    assert_eq!(*plan.from, path_ty("usize", 2));
    assert_eq!(*plan.trivial[0], path_ty("Marker", 3));

    // the C marker, an explicitly marked first field, and an unmarked
    // field the heuristic would call trivial: explicit marking wins and
    // the unmarked field is the significant one.
    let override_decl = struct_decl(
        "Override",
        vec![repr_attr(vec![word("C", 1)], 1)],
        vec![
            marked_field(path_ty("PhantomData", 2), 2),
            plain_field(path_ty("PhantomData", 3), 3),
        ],
    );
    let plan = expand_ref_cast(&override_decl).expect("explicit marking disables the heuristic");
    assert_eq!(*plan.from, path_ty("PhantomData", 3));
    assert_eq!(plan.trivial.len(), 1);
    assert_eq!(*plan.trivial[0], path_ty("PhantomData", 2));

    // an unsized significant field after an implicitly trivial one.
    let unsized_decl = struct_decl(
        "Unsized",
        vec![repr_transparent(1)],
        vec![
            plain_field(path_ty("PhantomData", 2), 2),
            plain_field(path_ty("str", 3), 3),
        ],
    );
    let plan = expand_ref_cast(&unsized_decl).expect("unsized field is the significant one");
    assert_eq!(*plan.from, path_ty("str", 3));

    // the custom path on a transparent wrapper, and its stub.
    let custom = struct_decl(
        "Custom",
        vec![repr_transparent(1)],
        vec![plain_field(path_ty("str", 2), 2)],
    );
    let plan = expand_ref_cast_custom(&custom).expect("custom path accepts the wrapper");
    assert_eq!(*plan.from, path_ty("str", 2));
    let stub = simple_stub(
        "new",
        TypeExpr::Reference { mutable: false, inner: Box::new(path_ty("str", 5)), span: 5 },
        TypeExpr::Reference { mutable: false, inner: Box::new(path_ty("Custom", 6)), span: 6 },
    );
    let f = ref_cast_custom(&vec![], &stub).expect("a single-parameter stub expands");
    assert!(f.add_inline);
    assert!(!f.allow_unused_unsafe);
}

#[test]
fn test_forbid_unsafe() {
    // a stub that is not declared unsafe gets no unused-unsafe
    // tolerance, and an explicit inline annotation suppresses the added
    // one.
    let custom = struct_decl(
        "Custom",
        vec![repr_transparent(1)],
        vec![Field {
            attrs: vec![Attr {
                path: ident_path("allow"),
                args: AttrArgs::List { items: vec![word("dead_code", 2)] },
                span: 2,
            }],
            vis: Vis::Inherited,
            ty: path_ty("str", 2),
            span: 2,
        }],
    );
    expand_ref_cast_custom(&custom).expect("an unrelated field attribute is passed through");

    let mut stub = simple_stub(
        "new",
        TypeExpr::Reference { mutable: false, inner: Box::new(path_ty("str", 5)), span: 5 },
        TypeExpr::Reference { mutable: false, inner: Box::new(path_ty("Custom", 6)), span: 6 },
    );
    let f = ref_cast_custom(&vec![], &stub).expect("stub expands");
    assert!(f.add_inline);
    assert!(!f.allow_unused_unsafe);

    stub.attrs.push(Attr { path: ident_path("inline"), args: AttrArgs::Empty, span: 9 });
    stub.is_unsafe = true;
    let f = ref_cast_custom(&vec![], &stub).expect("stub expands");
    assert!(!f.add_inline);
    assert!(f.allow_unused_unsafe);
}

#[test]
fn wrapper_over_text_buffer_expands() {
    // a single-field wrapper over a text-buffer type with the
    // transparent marker: the accessor plan casts from exactly that
    // field's type, with no copy described anywhere in the plan.
    let d = struct_decl(
        "Bytes",
        vec![repr_transparent(1)],
        vec![plain_field(path_ty("String", 2), 2)],
    );
    let plan = expand_ref_cast(&d).expect("the wrapper is accepted");
    assert_eq!(*plan.from, path_ty("String", 2));
    assert!(plan.trivial.is_empty());
    assert!(plan.debug_layout_check);
}

#[test]
fn missing_marker_is_rejected_last() {
    // no representation marker at all, whatever the field count.
    for fields in [
        vec![plain_field(path_ty("usize", 2), 2)],
        vec![plain_field(path_ty("usize", 2), 2), plain_field(path_ty("u8", 3), 3)],
        vec![],
    ] {
        let d = struct_decl("NoRepr", vec![], fields);
        let diags = expand_ref_cast(&d).expect_err("no layout marker");
        assert!(diags.iter().any(|g| g.kind == ErrorKind::MissingLayoutGuarantee));
    }

    // among the shape failures themselves the marker-presence failure
    // comes last, so marker-detail failures are not masked by it.
    let d = struct_decl("NoRepr", vec![], vec![plain_field(path_ty("usize", 2), 2)]);
    let diags = expand_ref_cast(&d).expect_err("no layout marker");
    assert_eq!(diags.last().unwrap().kind, ErrorKind::MissingLayoutGuarantee);
}

#[test]
fn two_significant_fields_are_rejected() {
    let d = struct_decl(
        "TwoFields",
        vec![repr_transparent(1)],
        vec![plain_field(path_ty("u8", 2), 2), plain_field(path_ty("u16", 3), 3)],
    );
    let diags = expand_ref_cast(&d).expect_err("two significant fields");
    assert_eq!(diags.len(), 1);
    assert_eq!(diags[0].kind, ErrorKind::RequiresSingleField);

    let zero = struct_decl(
        "AllTrivial",
        vec![repr_transparent(1)],
        vec![plain_field(TypeExpr::Tuple { elems: 0, span: 2 }, 2)],
    );
    let diags = expand_ref_cast(&zero).expect_err("no significant field");
    assert_eq!(diags[0].kind, ErrorKind::RequiresSingleField);
}

#[test]
fn independent_failures_are_collected_together() {
    // a declaration with an alignment override, an unrecognized value
    // and no recognized marker: every defect is reported at once, the
    // marker-presence failure last.
    let d = struct_decl(
        "Bad",
        vec![repr_attr(
            vec![
                MetaItem::Group { path: ident_path("align"), span: 11 },
                word("wobbly", 12),
            ],
            10,
        )],
        vec![plain_field(path_ty("u8", 2), 2)],
    );
    let diags = expand_ref_cast(&d).expect_err("several defects");
    assert_eq!(diags.len(), 3);
    assert_eq!(diags[0].kind, ErrorKind::UnsupportedAlignment);
    assert_eq!(diags[0].span, 11);
    assert_eq!(diags[1].kind, ErrorKind::MissingLayoutGuarantee);
    assert_eq!(diags[1].detail, "wobbly");
    assert_eq!(diags[2].kind, ErrorKind::MissingLayoutGuarantee);
    assert_eq!(diags[2].span, 0);
}

#[test]
fn packed_override_is_tolerated() {
    let d = struct_decl(
        "Packed",
        vec![repr_attr(
            vec![word("transparent", 1), MetaItem::Group { path: ident_path("packed"), span: 2 }],
            1,
        )],
        vec![plain_field(path_ty("u8", 2), 2)],
    );
    expand_ref_cast(&d).expect("packed does not affect a single-field layout argument");
}

#[test]
fn enum_and_union_are_rejected() {
    for shape in [DataShape::Enum, DataShape::Union] {
        let d = Declaration {
            name: "Sum".to_string(),
            vis: Vis::Pub,
            generics: vec![],
            attrs: vec![repr_transparent(1)],
            shape,
            fields: vec![],
            span: 9,
        };
        let diags = expand_ref_cast(&d).expect_err("not a struct");
        assert_eq!(diags.len(), 1);
        assert_eq!(diags[0].kind, ErrorKind::UnsupportedShape);
        assert_eq!(diags[0].span, 9);
    }
}

#[test]
fn unit_struct_is_rejected() {
    let d = struct_decl("Unit", vec![repr_transparent(1)], vec![]);
    let diags = expand_ref_cast(&d).expect_err("a unit struct has no field to cast from");
    assert_eq!(diags.len(), 1);
    assert_eq!(diags[0].kind, ErrorKind::EmptyShape);
}

#[test]
fn marker_with_arguments_is_rejected() {
    let mut f = plain_field(path_ty("usize", 2), 2);
    f.attrs.push(Attr {
        path: ident_path("trivial"),
        args: AttrArgs::List { items: vec![word("x", 3)] },
        span: 3,
    });
    let d = struct_decl(
        "BadMarker",
        vec![repr_transparent(1)],
        vec![plain_field(path_ty("u8", 1), 1), f],
    );
    let diags = expand_ref_cast(&d).expect_err("the trivial marker takes no arguments");
    assert_eq!(diags.len(), 1);
    assert_eq!(diags[0].kind, ErrorKind::UnexpectedArguments);
    assert_eq!(diags[0].span, 3);
}

#[test]
fn stub_with_extra_parameter_is_rejected() {
    let mut stub = simple_stub(
        "ref_cast",
        TypeExpr::Reference { mutable: false, inner: Box::new(path_ty("String", 5)), span: 5 },
        TypeExpr::Reference { mutable: false, inner: Box::new(path_ty("Thing", 6)), span: 6 },
    );
    stub.params.push(Param { name: "wat".to_string(), ty: path_ty("i32", 8), span: 8 });
    let diags = ref_cast_custom(&vec![], &stub).expect_err("a second parameter is rejected");
    assert_eq!(diags.len(), 1);
    assert_eq!(diags[0].kind, ErrorKind::TooManyArguments);
    assert_eq!(diags[0].span, 8);
}

#[test]
fn stub_with_opaque_parameter_is_rejected() {
    // `impl AsRef<str>` bare and behind a reference.
    for ty in [
        TypeExpr::ImplTrait { span: 5 },
        TypeExpr::Reference {
            mutable: false,
            inner: Box::new(TypeExpr::ImplTrait { span: 5 }),
            span: 5,
        },
    ] {
        let stub = simple_stub(
            "ref_cast",
            ty,
            TypeExpr::Reference { mutable: false, inner: Box::new(path_ty("Thing", 6)), span: 6 },
        );
        let diags = ref_cast_custom(&vec![], &stub).expect_err("an opaque bound is rejected");
        assert_eq!(diags.len(), 1);
        assert_eq!(diags[0].kind, ErrorKind::UnsupportedParameterForm);
    }
}

#[test]
fn stub_annotation_arguments_are_rejected() {
    let stub = simple_stub(
        "new",
        TypeExpr::Reference { mutable: false, inner: Box::new(path_ty("str", 5)), span: 5 },
        TypeExpr::Reference { mutable: false, inner: Box::new(path_ty("Custom", 6)), span: 6 },
    );
    let args = vec![word("oops", 4)];
    let diags = ref_cast_custom(&args, &stub).expect_err("the annotation takes no arguments");
    assert_eq!(diags.len(), 1);
    assert_eq!(diags[0].kind, ErrorKind::MalformedAnnotation);
    assert_eq!(diags[0].span, 4);
}

#[test]
fn stub_without_parameters_is_rejected() {
    let mut stub = simple_stub(
        "new",
        TypeExpr::Reference { mutable: false, inner: Box::new(path_ty("str", 5)), span: 5 },
        TypeExpr::Reference { mutable: false, inner: Box::new(path_ty("Custom", 6)), span: 6 },
    );
    stub.params.clear();
    let diags = ref_cast_custom(&vec![], &stub).expect_err("a stub must name one parameter");
    assert_eq!(diags.len(), 1);
    assert_eq!(diags[0].kind, ErrorKind::MalformedAnnotation);
}
