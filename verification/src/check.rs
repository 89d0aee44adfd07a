//! The shape validator: demands a representation marker that guarantees
//! the container's layout, and a non-unit struct shape. All failures for
//! one declaration are collected and reported together, the
//! marker-presence failure last, so marker-detail errors are not masked.

use vstd::prelude::*;

use crate::ast::{Attr, AttrArgs, DataShape, Declaration, Field, MetaItem};
use crate::diag::{diag_views, plain_diag, DiagView, Diagnostic, ErrorKind};
use crate::paths::{path_is_ident_str, path_join, path_text};

verus! {

/// The attribute is the representation marker annotation.
pub open spec fn attr_is_repr(a: Attr) -> bool {
    a.path.is_ident("repr"@)
}

/// The argument is one of the two recognized layout guarantees: the
/// transparent marker or the C marker, standing bare.
pub open spec fn repr_item_is_marker(m: MetaItem) -> bool {
    match m {
        MetaItem::Word { path, .. } => path.is_ident("transparent"@) || path.is_ident("C"@),
        _ => false,
    }
}

/// The argument is a packed override, in any shape; it does not affect a
/// single-field layout argument and is tolerated silently.
pub open spec fn repr_item_is_packed(m: MetaItem) -> bool {
    match m {
        MetaItem::Word { path, .. } => path.is_ident("packed"@),
        MetaItem::Group { path, .. } => path.is_ident("packed"@),
        MetaItem::Assign { path, .. } => path.is_ident("packed"@),
        _ => false,
    }
}

/// The argument is an explicit alignment override, in any shape.
pub open spec fn repr_item_is_align(m: MetaItem) -> bool {
    match m {
        MetaItem::Word { path, .. } => path.is_ident("align"@),
        MetaItem::Group { path, .. } => path.is_ident("align"@),
        MetaItem::Assign { path, .. } => path.is_ident("align"@),
        _ => false,
    }
}

/// What one representation-marker argument contributes to the report:
/// nothing for a marker or a packed override, a dedicated failure for an
/// alignment override, and an unrecognized-value failure, showing the
/// offending text, for everything else.
pub open spec fn repr_item_diags(m: MetaItem) -> Seq<DiagView> {
    if repr_item_is_marker(m) || repr_item_is_packed(m) {
        Seq::empty()
    } else if repr_item_is_align(m) {
        seq![plain_diag(ErrorKind::UnsupportedAlignment, m.spec_span())]
    } else {
        match m {
            MetaItem::Word { path, span } => seq![
                DiagView {
                    kind: ErrorKind::MissingLayoutGuarantee,
                    span: span as nat,
                    detail: path_text(path),
                },
            ],
            MetaItem::Group { path, span } => seq![
                DiagView {
                    kind: ErrorKind::MissingLayoutGuarantee,
                    span: span as nat,
                    detail: path_text(path),
                },
            ],
            MetaItem::Assign { path, span, .. } => seq![
                DiagView {
                    kind: ErrorKind::MissingLayoutGuarantee,
                    span: span as nat,
                    detail: path_text(path),
                },
            ],
            _ => seq![plain_diag(ErrorKind::MissingLayoutGuarantee, m.spec_span())],
        }
    }
}

pub open spec fn repr_items_diags_upto(items: Seq<MetaItem>, n: int) -> Seq<DiagView>
    decreases n,
{
    if n <= 0 {
        Seq::empty()
    } else {
        repr_items_diags_upto(items, n - 1) + repr_item_diags(items[n - 1])
    }
}

pub open spec fn items_have_marker_upto(items: Seq<MetaItem>, n: int) -> bool
    decreases n,
{
    if n <= 0 {
        false
    } else {
        items_have_marker_upto(items, n - 1) || repr_item_is_marker(items[n - 1])
    }
}

/// What one attribute contributes to the marker-detail report: nothing
/// unless it is a representation marker; a malformed-annotation failure
/// for a marker not written as a parenthesized list; the per-argument
/// report otherwise.
pub open spec fn attr_repr_diags(a: Attr) -> Seq<DiagView> {
    if !attr_is_repr(a) {
        Seq::empty()
    } else {
        match a.args {
            AttrArgs::List { items } => repr_items_diags_upto(items@, items@.len() as int),
            _ => seq![plain_diag(ErrorKind::MalformedAnnotation, a.span as nat)],
        }
    }
}

/// The attribute supplies a recognized layout guarantee.
pub open spec fn attr_has_marker(a: Attr) -> bool {
    &&& attr_is_repr(a)
    &&& match a.args {
        AttrArgs::List { items } => items_have_marker_upto(items@, items@.len() as int),
        _ => false,
    }
}

pub open spec fn repr_detail_diags_upto(attrs: Seq<Attr>, n: int) -> Seq<DiagView>
    decreases n,
{
    if n <= 0 {
        Seq::empty()
    } else {
        repr_detail_diags_upto(attrs, n - 1) + attr_repr_diags(attrs[n - 1])
    }
}

/// All marker-detail failures of a declaration's attributes, in source
/// order.
pub open spec fn repr_detail_diags(attrs: Seq<Attr>) -> Seq<DiagView> {
    repr_detail_diags_upto(attrs, attrs.len() as int)
}

pub open spec fn attrs_have_marker_upto(attrs: Seq<Attr>, n: int) -> bool
    decreases n,
{
    if n <= 0 {
        false
    } else {
        attrs_have_marker_upto(attrs, n - 1) || attr_has_marker(attrs[n - 1])
    }
}

/// Some attribute of the declaration supplies a recognized layout
/// guarantee.
pub open spec fn has_layout_marker(attrs: Seq<Attr>) -> bool {
    attrs_have_marker_upto(attrs, attrs.len() as int)
}

/// The structural failures of the declaration itself: a sum type or a
/// union is unsupported, and a struct must have at least one field.
pub open spec fn data_shape_diags(d: Declaration) -> Seq<DiagView> {
    match d.shape {
        DataShape::Struct => {
            if d.fields@.len() == 0 {
                seq![plain_diag(ErrorKind::EmptyShape, d.span as nat)]
            } else {
                Seq::empty()
            }
        },
        DataShape::Enum => seq![plain_diag(ErrorKind::UnsupportedShape, d.span as nat)],
        DataShape::Union => seq![plain_diag(ErrorKind::UnsupportedShape, d.span as nat)],
    }
}

/// The marker-presence failure, reported when no attribute supplies a
/// recognized layout guarantee.
pub open spec fn marker_missing_diags(d: Declaration) -> Seq<DiagView> {
    if has_layout_marker(d.attrs@) {
        Seq::empty()
    } else {
        seq![plain_diag(ErrorKind::MissingLayoutGuarantee, d.span as nat)]
    }
}

/// Everything the shape validator reports for one declaration: marker
/// details, then structural failures, then the marker-presence failure.
pub open spec fn shape_diags(d: Declaration) -> Seq<DiagView> {
    repr_detail_diags(d.attrs@) + data_shape_diags(d) + marker_missing_diags(d)
}

/// Classifies one representation-marker argument: its contribution to
/// the report, and whether it is a recognized layout guarantee.
fn check_repr_item(m: &MetaItem) -> (r: (Option<Diagnostic>, bool))
    ensures
        r.1 == repr_item_is_marker(*m),
        match r.0 {
            Some(d) => seq![d@] == repr_item_diags(*m),
            None => repr_item_diags(*m) == Seq::<DiagView>::empty(),
        },
{
    match m {
        MetaItem::Word { path, span } => {
            if path_is_ident_str(path, "transparent") || path_is_ident_str(path, "C") {
                (None, true)
            } else if path_is_ident_str(path, "packed") {
                (None, false)
            } else if path_is_ident_str(path, "align") {
                (
                    Some(
                        Diagnostic {
                            kind: ErrorKind::UnsupportedAlignment,
                            span: *span,
                            detail: String::new(),
                        },
                    ),
                    false,
                )
            } else {
                (
                    Some(
                        Diagnostic {
                            kind: ErrorKind::MissingLayoutGuarantee,
                            span: *span,
                            detail: path_join(path),
                        },
                    ),
                    false,
                )
            }
        },
        MetaItem::Group { path, span } => {
            if path_is_ident_str(path, "packed") {
                (None, false)
            } else if path_is_ident_str(path, "align") {
                (
                    Some(
                        Diagnostic {
                            kind: ErrorKind::UnsupportedAlignment,
                            span: *span,
                            detail: String::new(),
                        },
                    ),
                    false,
                )
            } else {
                (
                    Some(
                        Diagnostic {
                            kind: ErrorKind::MissingLayoutGuarantee,
                            span: *span,
                            detail: path_join(path),
                        },
                    ),
                    false,
                )
            }
        },
        MetaItem::Assign { path, span, .. } => {
            if path_is_ident_str(path, "packed") {
                (None, false)
            } else if path_is_ident_str(path, "align") {
                (
                    Some(
                        Diagnostic {
                            kind: ErrorKind::UnsupportedAlignment,
                            span: *span,
                            detail: String::new(),
                        },
                    ),
                    false,
                )
            } else {
                (
                    Some(
                        Diagnostic {
                            kind: ErrorKind::MissingLayoutGuarantee,
                            span: *span,
                            detail: path_join(path),
                        },
                    ),
                    false,
                )
            }
        },
        MetaItem::Literal { span, .. } => {
            (
                Some(
                    Diagnostic {
                        kind: ErrorKind::MissingLayoutGuarantee,
                        span: *span,
                        detail: String::new(),
                    },
                ),
                false,
            )
        },
        MetaItem::Opaque { span } => {
            (
                Some(
                    Diagnostic {
                        kind: ErrorKind::MissingLayoutGuarantee,
                        span: *span,
                        detail: String::new(),
                    },
                ),
                false,
            )
        },
    }
}

/// Examines every representation-marker attribute: collects the detail
/// failures in source order, and reports whether any attribute supplies
/// a recognized layout guarantee.
pub fn check_repr(d: &Declaration) -> (r: (Vec<Diagnostic>, bool))
    ensures
        diag_views(r.0@) == repr_detail_diags(d.attrs@),
        r.1 == has_layout_marker(d.attrs@),
{
    let n = d.attrs.len();
    let mut out: Vec<Diagnostic> = Vec::new();
    let mut has: bool = false;
    let mut i: usize = 0;
    while i < n
        invariant
            n == d.attrs@.len(),
            i <= n,
            diag_views(out@) == repr_detail_diags_upto(d.attrs@, i as int),
            has == attrs_have_marker_upto(d.attrs@, i as int),
        decreases n - i,
    {
        let a = &d.attrs[i];
        if path_is_ident_str(&a.path, "repr") {
            match &a.args {
                AttrArgs::List { items } => {
                    let m = items.len();
                    let mut k: usize = 0;
                    while k < m
                        invariant
                            m == items@.len(),
                            k <= m,
                            attr_is_repr(d.attrs@[i as int]),
                            d.attrs@[i as int].args == (AttrArgs::List { items: *items }),
                            i < n == d.attrs@.len(),
                            diag_views(out@) == repr_detail_diags_upto(d.attrs@, i as int)
                                + repr_items_diags_upto(items@, k as int),
                            has == (attrs_have_marker_upto(d.attrs@, i as int)
                                || items_have_marker_upto(items@, k as int)),
                        decreases m - k,
                    {
                        let ghost prev = diag_views(out@);
                        let (dg, mk) = check_repr_item(&items[k]);
                        match dg {
                            Some(diag) => {
                                out.push(diag);
                            },
                            None => {
                            },
                        }
                        if mk {
                            has = true;
                        }
                        proof {
                            assert(repr_items_diags_upto(items@, k + 1) == repr_items_diags_upto(
                                items@,
                                k as int,
                            ) + repr_item_diags(items@[k as int]));
                            assert(diag_views(out@) =~= prev + repr_item_diags(
                                items@[k as int],
                            ));
                            assert(diag_views(out@) =~= repr_detail_diags_upto(d.attrs@, i as int)
                                + repr_items_diags_upto(items@, k + 1));
                        }
                        k += 1;
                    }
                    proof {
                        assert(attr_has_marker(d.attrs@[i as int]) == items_have_marker_upto(
                            items@,
                            m as int,
                        ));
                        assert(attrs_have_marker_upto(d.attrs@, i + 1) == (attrs_have_marker_upto(
                            d.attrs@,
                            i as int,
                        ) || attr_has_marker(d.attrs@[i as int])));
                    }
                },
                _ => {
                    let diag = Diagnostic {
                        kind: ErrorKind::MalformedAnnotation,
                        span: a.span,
                        detail: String::new(),
                    };
                    out.push(diag);
                },
            }
        }
        assert(diag_views(out@) =~= repr_detail_diags_upto(d.attrs@, i + 1));
        i += 1;
    }
    (out, has)
}

/// Confirms the declaration is a struct with at least one field and
/// hands its field list on.
pub fn fields<'a>(d: &'a Declaration) -> (r: Result<&'a Vec<Field>, Vec<Diagnostic>>)
    ensures
        r.is_ok() <==> data_shape_diags(*d).len() == 0,
        r matches Ok(f) ==> *f == d.fields,
        r matches Err(e) ==> diag_views(e@) == data_shape_diags(*d) && e@.len() > 0,
{
    let reject: bool = match d.shape {
        DataShape::Struct => d.fields.len() == 0,
        DataShape::Enum => true,
        DataShape::Union => true,
    };
    if reject {
        let kind = match d.shape {
            DataShape::Struct => ErrorKind::EmptyShape,
            DataShape::Enum => ErrorKind::UnsupportedShape,
            DataShape::Union => ErrorKind::UnsupportedShape,
        };
        let mut out: Vec<Diagnostic> = Vec::new();
        out.push(Diagnostic { kind, span: d.span, detail: String::new() });
        assert(diag_views(out@) =~= data_shape_diags(*d));
        Err(out)
    } else {
        Ok(&d.fields)
    }
}

/// The whole shape validation of one declaration: marker details, the
/// structural checks, and the marker-presence demand, collected together
/// with the marker-presence failure last.
pub fn validate_shape(d: &Declaration) -> (r: Result<(), Vec<Diagnostic>>)
    ensures
        r.is_ok() <==> shape_diags(*d).len() == 0,
        r matches Err(e) ==> diag_views(e@) == shape_diags(*d) && e@.len() > 0,
{
    let repr_report = check_repr(d);
    let mut out = repr_report.0;
    let has = repr_report.1;
    match fields(d) {
        Ok(_) => {
        },
        Err(mut e) => {
            out.append(&mut e);
        },
    }
    if !(has) {
        let diag = Diagnostic {
            kind: ErrorKind::MissingLayoutGuarantee,
            span: d.span,
            detail: String::new(),
        };
        out.push(diag);
    }
    assert(diag_views(out@) =~= shape_diags(*d));
    if out.len() > 0 {
        Err(out)
    } else {
        Ok(())
    }
}

} // verus!
