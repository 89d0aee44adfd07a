//! Parsing of the tool's own container annotation. The entry point is
//! `Container::from_ast`: it extracts the recognized arguments — today a
//! support-library path override — and passes every unrelated annotation
//! through untouched.

use vstd::prelude::*;

use crate::ast::{Attr, AttrArgs, Declaration, Lit, MetaItem, PathExpr};
use crate::diag::{diag_views, plain_diag, DiagView, Diagnostic, ErrorKind};
use crate::paths::{
    has_leading_colons, parse_path_str, path_body, path_is_ident_str, path_join, path_text,
    spec_segments, valid_path_text,
};
use crate::symbols::{crate_symbol, ref_cast_symbol, Symbol};

verus! {

/// The container attribute information a declaration carries: the path
/// of the support library the generated code will reference.
#[derive(Debug)]
pub struct Container {
    pub crate_ref_cast_path: PathExpr,
}

/// The view of a path override: its leading-colon flag and segment
/// texts.
pub type PathOverride = (bool, Seq<Seq<char>>);

pub open spec fn opt_path_view(p: Option<PathExpr>) -> Option<PathOverride> {
    match p {
        Some(q) => Some((q.leading_colon, q.segments.deep_view())),
        None => None,
    }
}

/// The attribute belongs to this tool.
pub open spec fn attr_is_ref_cast(a: Attr) -> bool {
    a.path.is_ident("ref_cast"@)
}

/// The argument assigns the support-library override.
pub open spec fn item_is_crate_assign(m: MetaItem) -> bool {
    match m {
        MetaItem::Assign { path, .. } => path.is_ident("crate"@),
        _ => false,
    }
}

/// What one recognized-annotation argument contributes to the report: a
/// malformed-annotation failure naming the bad argument and showing the
/// text that failed to parse, or nothing for a well-formed override.
pub open spec fn crate_item_diags(m: MetaItem) -> Seq<DiagView> {
    match m {
        MetaItem::Assign { path, value, span } => {
            if path.is_ident("crate"@) {
                match value {
                    Lit::Str { value: text, span: lspan } => {
                        if valid_path_text(text@) {
                            Seq::empty()
                        } else {
                            seq![
                                DiagView {
                                    kind: ErrorKind::MalformedAnnotation,
                                    span: lspan as nat,
                                    detail: text@,
                                },
                            ]
                        }
                    },
                    Lit::Other { span: lspan } => seq![
                        DiagView {
                            kind: ErrorKind::MalformedAnnotation,
                            span: lspan as nat,
                            detail: "crate"@,
                        },
                    ],
                }
            } else {
                seq![
                    DiagView {
                        kind: ErrorKind::MalformedAnnotation,
                        span: span as nat,
                        detail: path_text(path),
                    },
                ]
            }
        },
        MetaItem::Word { path, span } => seq![
            DiagView {
                kind: ErrorKind::MalformedAnnotation,
                span: span as nat,
                detail: path_text(path),
            },
        ],
        MetaItem::Group { path, span } => seq![
            DiagView {
                kind: ErrorKind::MalformedAnnotation,
                span: span as nat,
                detail: path_text(path),
            },
        ],
        MetaItem::Literal { span, .. } => seq![plain_diag(ErrorKind::MalformedAnnotation, span as nat)],
        MetaItem::Opaque { span } => seq![plain_diag(ErrorKind::MalformedAnnotation, span as nat)],
    }
}

/// The override one argument sets, if it is a well-formed assignment.
pub open spec fn crate_item_path(m: MetaItem) -> Option<PathOverride> {
    match m {
        MetaItem::Assign { path, value, .. } => {
            if path.is_ident("crate"@) {
                match value {
                    Lit::Str { value: text, .. } => {
                        if valid_path_text(text@) {
                            Some((has_leading_colons(text@), spec_segments(path_body(text@))))
                        } else {
                            None
                        }
                    },
                    _ => None,
                }
            } else {
                None
            }
        },
        _ => None,
    }
}

pub open spec fn items_diags_upto(items: Seq<MetaItem>, n: int) -> Seq<DiagView>
    decreases n,
{
    if n <= 0 {
        Seq::empty()
    } else {
        items_diags_upto(items, n - 1) + crate_item_diags(items[n - 1])
    }
}

/// The last override set among the first `n` arguments, if any.
pub open spec fn items_path_upto(items: Seq<MetaItem>, n: int) -> Option<PathOverride>
    decreases n,
{
    if n <= 0 {
        None
    } else {
        match crate_item_path(items[n - 1]) {
            Some(p) => Some(p),
            None => items_path_upto(items, n - 1),
        }
    }
}

/// What one attribute contributes to the report: nothing unless it is
/// the tool's own; a malformed-annotation failure when its arguments are
/// not a parenthesized list; the per-argument report otherwise.
pub open spec fn attr_container_diags(a: Attr) -> Seq<DiagView> {
    if !attr_is_ref_cast(a) {
        Seq::empty()
    } else {
        match a.args {
            AttrArgs::List { items } => items_diags_upto(items@, items@.len() as int),
            _ => seq![plain_diag(ErrorKind::MalformedAnnotation, a.span as nat)],
        }
    }
}

/// The override one attribute sets, if any.
pub open spec fn attr_crate_path(a: Attr) -> Option<PathOverride> {
    if !attr_is_ref_cast(a) {
        None
    } else {
        match a.args {
            AttrArgs::List { items } => items_path_upto(items@, items@.len() as int),
            _ => None,
        }
    }
}

pub open spec fn container_diags_upto(attrs: Seq<Attr>, n: int) -> Seq<DiagView>
    decreases n,
{
    if n <= 0 {
        Seq::empty()
    } else {
        container_diags_upto(attrs, n - 1) + attr_container_diags(attrs[n - 1])
    }
}

/// Everything the annotation parser reports for one declaration.
pub open spec fn container_diags(d: Declaration) -> Seq<DiagView> {
    container_diags_upto(d.attrs@, d.attrs@.len() as int)
}

pub open spec fn attrs_path_upto(attrs: Seq<Attr>, n: int) -> Option<PathOverride>
    decreases n,
{
    if n <= 0 {
        None
    } else {
        match attr_crate_path(attrs[n - 1]) {
            Some(p) => Some(p),
            None => attrs_path_upto(attrs, n - 1),
        }
    }
}

/// The support-library override the declaration sets, if any: the last
/// well-formed assignment wins.
pub open spec fn container_crate_path(d: Declaration) -> Option<PathOverride> {
    attrs_path_upto(d.attrs@, d.attrs@.len() as int)
}

/// Extracts the argument list of one of the tool's own attributes;
/// unrelated attributes yield nothing and are passed through untouched.
pub fn parse_meta_items<'a>(a: &'a Attr) -> (r: Result<Option<&'a Vec<MetaItem>>, Diagnostic>)
    ensures
        match r {
            Ok(items) => match items {
                Some(v) => attr_is_ref_cast(*a) && a.args == (AttrArgs::List { items: *v }),
                None => !attr_is_ref_cast(*a),
            },
            Err(e) => attr_is_ref_cast(*a) && !(a.args is List) && e@ == plain_diag(
                ErrorKind::MalformedAnnotation,
                a.span as nat,
            ),
        },
{
    let sym = ref_cast_symbol();
    if !(path_is_ident_str(&a.path, sym.value())) {
        return Ok(None);
    }
    match &a.args {
        AttrArgs::List { items } => Ok(Some(items)),
        _ => Err(
            Diagnostic { kind: ErrorKind::MalformedAnnotation, span: a.span, detail: String::new() },
        ),
    }
}

/// Demands that a recognized argument's literal be a string; the
/// diagnostic names the argument the string was expected for.
pub fn get_lit_str<'a>(attr_name: Symbol, lit: &'a Lit) -> (r: Result<&'a String, Diagnostic>)
    ensures
        match r {
            Ok(t) => lit matches Lit::Str { value, .. } && *t == value,
            Err(e) => lit is Other && e@ == (DiagView {
                kind: ErrorKind::MalformedAnnotation,
                span: lit.spec_span(),
                detail: attr_name@,
            }),
        },
{
    match lit {
        Lit::Str { value, .. } => Ok(value),
        Lit::Other { span } => Err(
            Diagnostic {
                kind: ErrorKind::MalformedAnnotation,
                span: *span,
                detail: attr_name.value().to_owned(),
            },
        ),
    }
}

/// Parses a string literal as a support-library path; the diagnostic
/// shows the literal text that failed to parse.
pub fn parse_lit_into_path(attr_name: Symbol, lit: &Lit) -> (r: Result<PathExpr, Diagnostic>)
    ensures
        r.is_ok() <==> (lit matches Lit::Str { value, .. } && valid_path_text(value@)),
        r matches Ok(p) ==> (lit matches Lit::Str { value, .. } && {
            &&& p.leading_colon == has_leading_colons(value@)
            &&& p.segments.deep_view() == spec_segments(path_body(value@))
        }),
        r matches Err(e) ==> match *lit {
            Lit::Str { value, span } => !valid_path_text(value@) && e@ == (DiagView {
                kind: ErrorKind::MalformedAnnotation,
                span: span as nat,
                detail: value@,
            }),
            Lit::Other { .. } => e@ == (DiagView {
                kind: ErrorKind::MalformedAnnotation,
                span: lit.spec_span(),
                detail: attr_name@,
            }),
        },
{
    let text = match get_lit_str(attr_name, lit) {
        Ok(t) => t,
        Err(e) => {
            return Err(e);
        },
    };
    match parse_path_str(text.as_str()) {
        Some(p) => Ok(p),
        None => {
            let span = match lit {
                Lit::Str { span, .. } => *span,
                Lit::Other { span } => *span,
            };
            Err(
                Diagnostic {
                    kind: ErrorKind::MalformedAnnotation,
                    span,
                    detail: text.clone(),
                },
            )
        },
    }
}

impl Container {
    /// Extracts the tool's own annotations from a declaration: the
    /// support-library override when one is set, the tool's default
    /// path otherwise; every failure found is collected and reported.
    pub fn from_ast(item: &Declaration) -> (r: Result<Container, Vec<Diagnostic>>)
        ensures
            r.is_ok() <==> container_diags(*item).len() == 0,
            r matches Ok(c) ==> match container_crate_path(*item) {
                Some(pv) => c.crate_ref_cast_path.leading_colon == pv.0
                    && c.crate_ref_cast_path.segments.deep_view() == pv.1,
                None => c.crate_ref_cast_path.leading_colon
                    && c.crate_ref_cast_path.segments.deep_view() == seq!["ref_cast"@],
            },
            r matches Err(e) ==> diag_views(e@) == container_diags(*item) && e@.len() > 0,
    {
        let mut diags: Vec<Diagnostic> = Vec::new();
        let mut crate_path: Option<PathExpr> = None;
        let n = item.attrs.len();
        let mut i: usize = 0;
        while i < n
            invariant
                n == item.attrs@.len(),
                i <= n,
                diag_views(diags@) == container_diags_upto(item.attrs@, i as int),
                opt_path_view(crate_path) == attrs_path_upto(item.attrs@, i as int),
            decreases n - i,
        {
            let a = &item.attrs[i];
            match parse_meta_items(a) {
                Err(e) => {
                    diags.push(e);
                },
                Ok(None) => {
                },
                Ok(Some(items)) => {
                    let m = items.len();
                    let mut k: usize = 0;
                    while k < m
                        invariant
                            m == items@.len(),
                            i < n == item.attrs@.len(),
                            k <= m,
                            attr_is_ref_cast(item.attrs@[i as int]),
                            item.attrs@[i as int].args == (AttrArgs::List { items: *items }),
                            diag_views(diags@) == container_diags_upto(item.attrs@, i as int)
                                + items_diags_upto(items@, k as int),
                            opt_path_view(crate_path) == (match items_path_upto(
                                items@,
                                k as int,
                            ) {
                                Some(p) => Some(p),
                                None => attrs_path_upto(item.attrs@, i as int),
                            }),
                        decreases m - k,
                    {
                        let ghost prev = diag_views(diags@);
                        match &items[k] {
                            MetaItem::Assign { path, value, span } => {
                                if path_is_ident_str(path, "crate") {
                                    match parse_lit_into_path(crate_symbol(), value) {
                                        Ok(p) => {
                                            crate_path = Some(p);
                                        },
                                        Err(e) => {
                                            diags.push(e);
                                        },
                                    }
                                } else {
                                    let d = Diagnostic {
                                        kind: ErrorKind::MalformedAnnotation,
                                        span: *span,
                                        detail: path_join(path),
                                    };
                                    diags.push(d);
                                }
                            },
                            MetaItem::Word { path, span } => {
                                let d = Diagnostic {
                                    kind: ErrorKind::MalformedAnnotation,
                                    span: *span,
                                    detail: path_join(path),
                                };
                                diags.push(d);
                            },
                            MetaItem::Group { path, span } => {
                                let d = Diagnostic {
                                    kind: ErrorKind::MalformedAnnotation,
                                    span: *span,
                                    detail: path_join(path),
                                };
                                diags.push(d);
                            },
                            MetaItem::Literal { span, .. } => {
                                let d = Diagnostic {
                                    kind: ErrorKind::MalformedAnnotation,
                                    span: *span,
                                    detail: String::new(),
                                };
                                diags.push(d);
                            },
                            MetaItem::Opaque { span } => {
                                let d = Diagnostic {
                                    kind: ErrorKind::MalformedAnnotation,
                                    span: *span,
                                    detail: String::new(),
                                };
                                diags.push(d);
                            },
                        }
                        proof {
                            assert(items_diags_upto(items@, k + 1) == items_diags_upto(
                                items@,
                                k as int,
                            ) + crate_item_diags(items@[k as int]));
                            assert(diag_views(diags@) =~= prev + crate_item_diags(
                                items@[k as int],
                            ));
                        }
                        k += 1;
                    }
                },
            }
            assert(diag_views(diags@) =~= container_diags_upto(item.attrs@, i + 1));
            i += 1;
        }
        if diags.len() > 0 {
            return Err(diags);
        }
        match crate_path {
            Some(p) => Ok(Container { crate_ref_cast_path: p }),
            None => {
                let mut segments: Vec<String> = Vec::new();
                segments.push("ref_cast".to_owned());
                assert(segments.deep_view() =~= seq!["ref_cast"@]);
                Ok(Container { crate_ref_cast_path: PathExpr { leading_colon: true, segments } })
            },
        }
    }
}

} // verus!
