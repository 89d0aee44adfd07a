//! The two code-synthesis paths. The standard path turns a validated
//! declaration into the accessor pair; the custom path re-emits a
//! headerless function stub as a full casting function. Each synthesizer
//! returns a plan — the structured description of the code to emit — or
//! the collected diagnostics of a rejected input.

use vstd::prelude::*;

use crate::ast::{Attr, Declaration, Field, FunctionStub, MetaItem, TypeExpr, Vis};
use crate::check::{data_shape_diags, fields, shape_diags, validate_shape};
use crate::classify::{
    classifier_diags, count_significant, defect_diags, only_field_ty, spec_mode, spec_trivial,
    trivial_fields, trivial_tys,
};
use crate::diag::{diag_views, plain_diag, DiagView, Diagnostic, ErrorKind};

verus! {

/// Everything reported for one declaration: the shape validator's
/// failures, then — when the declaration is a non-unit struct, so the
/// classifier can run at all — the classifier's failures.
pub open spec fn decl_diags(d: Declaration) -> Seq<DiagView> {
    shape_diags(d) + if data_shape_diags(d).len() == 0 {
        classifier_diags(d.fields@, d.span as nat)
    } else {
        Seq::empty()
    }
}

/// The accessor pair to emit for an accepted declaration: a trait
/// implementation whose two functions reinterpret a reference to the
/// significant field's type as a reference to the container, and back
/// for the mutable form. Both accessors carry a debug-build assertion
/// comparing the container's size and alignment against the field's,
/// and a never-executed demand that every trivial field's type be known
/// trivial.
#[derive(Debug)]
pub struct RefCastPlan<'a> {
    /// The container's name.
    pub name: &'a String,
    /// The container's generic parameters, preserved verbatim.
    pub generics: &'a Vec<String>,
    /// The significant field's type: the source of the cast.
    pub from: &'a TypeExpr,
    /// The trivial fields' types, in field order, for the compile-time
    /// triviality demand; never used for the cast itself.
    pub trivial: Vec<&'a TypeExpr>,
    /// Both accessors compare the two types' sizes and alignments in
    /// debug builds, a fatal check; always emitted.
    pub debug_layout_check: bool,
}

/// The custom-path eligibility to emit for an accepted declaration: a
/// capability-seal marker type scoped to the declaring compilation unit,
/// and the witness implementation tying the container to its field's
/// type. No callable accessor is produced by this path itself.
#[derive(Debug)]
pub struct CustomPlan<'a> {
    /// The marker type's visibility: the declaration's own.
    pub vis: Vis,
    /// The container's name.
    pub name: &'a String,
    /// The container's generic parameters, preserved verbatim.
    pub generics: &'a Vec<String>,
    /// The significant field's type.
    pub from: &'a TypeExpr,
    /// The trivial fields' types, for the triviality demand.
    pub trivial: Vec<&'a TypeExpr>,
}

/// The standard synthesizer: validates the declaration's shape,
/// classifies its fields, and describes the accessor pair; or reports
/// every failure found, together.
pub fn expand_ref_cast<'a>(d: &'a Declaration) -> (r: Result<RefCastPlan<'a>, Vec<Diagnostic>>)
    ensures
        r.is_ok() <==> decl_diags(*d).len() == 0,
        r matches Ok(p) ==> {
            &&& *p.name == d.name
            &&& *p.generics == d.generics
            &&& count_significant(d.fields@, spec_mode(d.fields@)) == 1
            &&& exists|k: int|
                0 <= k < d.fields@.len() && !spec_trivial(spec_mode(d.fields@), d.fields@[k])
                    && *p.from == d.fields@[k].ty
            &&& p.trivial@.map_values(|t: &TypeExpr| *t) == trivial_tys(
                d.fields@,
                spec_mode(d.fields@),
            )
            &&& p.debug_layout_check
        },
        r matches Err(e) ==> diag_views(e@) == decl_diags(*d) && e@.len() > 0,
{
    let mut diags: Vec<Diagnostic> = match validate_shape(d) {
        Ok(()) => Vec::new(),
        Err(e) => e,
    };
    assert(diag_views(diags@) =~= shape_diags(*d));
    match fields(d) {
        Err(_) => {
            assert(decl_diags(*d) =~= shape_diags(*d));
            Err(diags)
        },
        Ok(f) => {
            match only_field_ty(f, d.span) {
                Err(mut e) => {
                    diags.append(&mut e);
                    assert(diag_views(diags@) =~= decl_diags(*d));
                    Err(diags)
                },
                Ok(t) => {
                    assert(decl_diags(*d) =~= shape_diags(*d));
                    if diags.len() > 0 {
                        Err(diags)
                    } else {
                        let triv = match trivial_fields(f) {
                            Ok(v) => v,
                            Err(_) => {
                                proof {
                                    assert(false);
                                }
                                Vec::new()
                            },
                        };
                        Ok(
                            RefCastPlan {
                                name: &d.name,
                                generics: &d.generics,
                                from: t,
                                trivial: triv,
                                debug_layout_check: true,
                            },
                        )
                    }
                },
            }
        },
    }
}

/// The custom-path synthesizer: the same validation and classification
/// as the standard path, describing the capability seal and witness
/// implementation instead of an accessor pair.
pub fn expand_ref_cast_custom<'a>(d: &'a Declaration) -> (r: Result<CustomPlan<'a>, Vec<Diagnostic>>)
    ensures
        r.is_ok() <==> decl_diags(*d).len() == 0,
        r matches Ok(p) ==> {
            &&& p.vis == d.vis
            &&& *p.name == d.name
            &&& *p.generics == d.generics
            &&& count_significant(d.fields@, spec_mode(d.fields@)) == 1
            &&& exists|k: int|
                0 <= k < d.fields@.len() && !spec_trivial(spec_mode(d.fields@), d.fields@[k])
                    && *p.from == d.fields@[k].ty
            &&& p.trivial@.map_values(|t: &TypeExpr| *t) == trivial_tys(
                d.fields@,
                spec_mode(d.fields@),
            )
        },
        r matches Err(e) ==> diag_views(e@) == decl_diags(*d) && e@.len() > 0,
{
    let mut diags: Vec<Diagnostic> = match validate_shape(d) {
        Ok(()) => Vec::new(),
        Err(e) => e,
    };
    assert(diag_views(diags@) =~= shape_diags(*d));
    match fields(d) {
        Err(_) => {
            assert(decl_diags(*d) =~= shape_diags(*d));
            Err(diags)
        },
        Ok(f) => {
            match only_field_ty(f, d.span) {
                Err(mut e) => {
                    diags.append(&mut e);
                    assert(diag_views(diags@) =~= decl_diags(*d));
                    Err(diags)
                },
                Ok(t) => {
                    assert(decl_diags(*d) =~= shape_diags(*d));
                    if diags.len() > 0 {
                        Err(diags)
                    } else {
                        let triv = match trivial_fields(f) {
                            Ok(v) => v,
                            Err(_) => {
                                proof {
                                    assert(false);
                                }
                                Vec::new()
                            },
                        };
                        Ok(
                            CustomPlan {
                                vis: d.vis,
                                name: &d.name,
                                generics: &d.generics,
                                from: t,
                                trivial: triv,
                            },
                        )
                    }
                },
            }
        },
    }
}

/// The parameter type hides behind an opaque `impl` bound, possibly
/// under references, rather than being a concrete reference type.
pub open spec fn opaque_param_ty(t: TypeExpr) -> bool
    decreases t,
{
    match t {
        TypeExpr::ImplTrait { .. } => true,
        TypeExpr::Reference { inner, .. } => opaque_param_ty(*inner),
        _ => false,
    }
}

/// The attribute is an inlining annotation.
pub open spec fn attr_is_inline(a: Attr) -> bool {
    a.path.is_ident("inline"@)
}

pub open spec fn has_inline_upto(attrs: Seq<Attr>, n: int) -> bool
    decreases n,
{
    if n <= 0 {
        false
    } else {
        has_inline_upto(attrs, n - 1) || attr_is_inline(attrs[n - 1])
    }
}

/// The stub carries an explicit inlining annotation of its own.
pub open spec fn stub_has_inline(stub: FunctionStub) -> bool {
    has_inline_upto(stub.attrs@, stub.attrs@.len() as int)
}

/// Everything reported for one function stub: unexpected annotation
/// arguments, a parameter count other than one, and an opaque parameter
/// type, collected together.
pub open spec fn stub_diags(stub: FunctionStub, args: Seq<MetaItem>) -> Seq<DiagView> {
    (if args.len() > 0 {
        seq![plain_diag(ErrorKind::MalformedAnnotation, args[0].spec_span())]
    } else {
        Seq::empty()
    }) + (if stub.params@.len() == 0 {
        seq![plain_diag(ErrorKind::MalformedAnnotation, stub.span as nat)]
    } else if stub.params@.len() > 1 {
        seq![plain_diag(ErrorKind::TooManyArguments, stub.params@[1].span as nat)]
    } else {
        Seq::empty()
    }) + (if stub.params@.len() == 1 && opaque_param_ty(stub.params@[0].ty) {
        seq![plain_diag(ErrorKind::UnsupportedParameterForm, stub.params@[0].ty.spec_span())]
    } else {
        Seq::empty()
    })
}

/// The full function to emit for an accepted stub. The stub's own
/// attributes, visibility, qualifiers, name and generics are preserved
/// verbatim; the generated body performs the reinterpretation and embeds
/// two compile-time checks, a lifetime check and a capability check,
/// both over the `(from, to)` pair and both free of runtime cost.
#[derive(Debug)]
pub struct ExpandedFn<'a> {
    /// The stub, every part of which reappears on the generated function.
    pub stub: &'a FunctionStub,
    /// An inlining annotation is added exactly when the stub carries
    /// none of its own.
    pub add_inline: bool,
    /// The generated block tolerates a redundant `unsafe` exactly when
    /// the stub itself is declared unsafe.
    pub allow_unused_unsafe: bool,
    /// The parameter's type: the source of the cast and the first
    /// argument of both embedded checks.
    pub from: &'a TypeExpr,
    /// The declared return type: the target of the cast, whose
    /// capability seal the embedded check demands in this compilation
    /// unit.
    pub to: &'a TypeExpr,
}

/// Whether the stub carries an explicit inlining annotation.
fn stub_inline_attr(stub: &FunctionStub) -> (r: bool)
    ensures
        r == stub_has_inline(*stub),
{
    let n = stub.attrs.len();
    let mut i: usize = 0;
    let mut found: bool = false;
    while i < n
        invariant
            n == stub.attrs@.len(),
            i <= n,
            found == has_inline_upto(stub.attrs@, i as int),
        decreases n - i,
    {
        if crate::paths::path_is_ident_str(&stub.attrs[i].path, "inline") {
            found = true;
        }
        i += 1;
    }
    found
}

/// Whether a type expression hides behind an opaque `impl` bound.
fn is_opaque_param_ty(t: &TypeExpr) -> (r: bool)
    ensures
        r == opaque_param_ty(*t),
    decreases *t,
{
    match t {
        TypeExpr::ImplTrait { .. } => true,
        TypeExpr::Reference { inner, .. } => is_opaque_param_ty(inner),
        _ => false,
    }
}

/// Re-emits a well-formed stub as a full function: everything preserved
/// verbatim, an inlining annotation added only when the stub has none,
/// and the cast plus its two compile-time checks over the stub's own
/// `(from, to)` pair.
pub fn expand_function_body<'a>(stub: &'a FunctionStub) -> (r: ExpandedFn<'a>)
    requires
        stub.params@.len() == 1,
    ensures
        r.stub == stub,
        r.add_inline == !stub_has_inline(*stub),
        r.allow_unused_unsafe == stub.is_unsafe,
        *r.from == stub.params@[0].ty,
        *r.to == stub.ret,
{
    let has_inline = stub_inline_attr(stub);
    ExpandedFn {
        stub,
        add_inline: !(has_inline),
        allow_unused_unsafe: stub.is_unsafe,
        from: &stub.params[0].ty,
        to: &stub.ret,
    }
}

/// The custom-path entry point: validates the annotation's arguments and
/// the stub, and re-emits the stub as a full casting function; or
/// reports every failure found, together.
pub fn ref_cast_custom<'a>(args: &Vec<MetaItem>, stub: &'a FunctionStub) -> (r: Result<
    ExpandedFn<'a>,
    Vec<Diagnostic>,
>)
    ensures
        r.is_ok() <==> stub_diags(*stub, args@).len() == 0,
        r matches Ok(f) ==> {
            &&& f.stub == stub
            &&& f.add_inline == !stub_has_inline(*stub)
            &&& f.allow_unused_unsafe == stub.is_unsafe
            &&& stub.params@.len() == 1
            &&& *f.from == stub.params@[0].ty
            &&& *f.to == stub.ret
        },
        r matches Err(e) ==> diag_views(e@) == stub_diags(*stub, args@) && e@.len() > 0,
{
    let mut diags: Vec<Diagnostic> = Vec::new();
    if args.len() > 0 {
        let d = Diagnostic {
            kind: ErrorKind::MalformedAnnotation,
            span: meta_item_span(&args[0]),
            detail: String::new(),
        };
        diags.push(d);
    }
    let ok_arity: bool = if stub.params.len() == 0 {
        let d = Diagnostic {
            kind: ErrorKind::MalformedAnnotation,
            span: stub.span,
            detail: String::new(),
        };
        diags.push(d);
        false
    } else if stub.params.len() > 1 {
        let d = Diagnostic {
            kind: ErrorKind::TooManyArguments,
            span: stub.params[1].span,
            detail: String::new(),
        };
        diags.push(d);
        false
    } else {
        true
    };
    if ok_arity && is_opaque_param_ty(&stub.params[0].ty) {
        let d = Diagnostic {
            kind: ErrorKind::UnsupportedParameterForm,
            span: type_expr_span(&stub.params[0].ty),
            detail: String::new(),
        };
        diags.push(d);
    }
    assert(diag_views(diags@) =~= stub_diags(*stub, args@));
    if diags.len() > 0 {
        Err(diags)
    } else {
        Ok(expand_function_body(stub))
    }
}

/// The span a meta item carries.
fn meta_item_span(m: &MetaItem) -> (r: usize)
    ensures
        r as nat == m.spec_span(),
{
    match m {
        MetaItem::Word { span, .. } => *span,
        MetaItem::Group { span, .. } => *span,
        MetaItem::Assign { span, .. } => *span,
        MetaItem::Literal { span, .. } => *span,
        MetaItem::Opaque { span } => *span,
    }
}

/// The span a type expression carries.
fn type_expr_span(t: &TypeExpr) -> (r: usize)
    ensures
        r as nat == t.spec_span(),
{
    match t {
        TypeExpr::Tuple { span, .. } => *span,
        TypeExpr::Path { span, .. } => *span,
        TypeExpr::Reference { span, .. } => *span,
        TypeExpr::ImplTrait { span } => *span,
        TypeExpr::Other { span } => *span,
    }
}

/// A declaration with exactly one significant field, a recognized
/// layout marker and no annotation defects is accepted: the standard
/// synthesizer reports nothing and emits the accessor pair.
pub proof fn lemma_valid_declaration_accepted(d: Declaration)
    requires
        crate::check::repr_detail_diags(d.attrs@).len() == 0,
        crate::check::has_layout_marker(d.attrs@),
        d.shape is Struct,
        d.fields@.len() > 0,
        defect_diags(d.fields@).len() == 0,
        count_significant(d.fields@, spec_mode(d.fields@)) == 1,
    ensures
        decl_diags(d).len() == 0,
{
}

/// A declaration lacking any recognized layout marker is rejected with
/// the marker-presence failure, whatever its fields look like.
pub proof fn lemma_missing_marker_rejected(d: Declaration)
    requires
        !crate::check::has_layout_marker(d.attrs@),
    ensures
        decl_diags(d).len() > 0,
        exists|i: int|
            0 <= i < decl_diags(d).len() && decl_diags(d)[i].kind
                == ErrorKind::MissingLayoutGuarantee,
{
    let details = crate::check::repr_detail_diags(d.attrs@);
    let shape = data_shape_diags(d);
    let missing = crate::check::marker_missing_diags(d);
    let i = details.len() + shape.len();
    assert(shape_diags(d)[i as int] == missing[0]);
    assert(decl_diags(d)[i as int] == shape_diags(d)[i as int]);
}

/// A declaration in which two or more fields are classified significant
/// is rejected with the single-field failure.
pub proof fn lemma_multiple_significant_rejected(d: Declaration)
    requires
        d.shape is Struct,
        d.fields@.len() > 0,
        defect_diags(d.fields@).len() == 0,
        count_significant(d.fields@, spec_mode(d.fields@)) >= 2,
    ensures
        decl_diags(d).len() > 0,
        exists|i: int|
            0 <= i < decl_diags(d).len() && decl_diags(d)[i].kind
                == ErrorKind::RequiresSingleField,
{
    let shape = shape_diags(d);
    let cls = classifier_diags(d.fields@, d.span as nat);
    assert(cls[0].kind == ErrorKind::RequiresSingleField);
    assert(decl_diags(d)[shape.len() as int] == cls[0]);
}

} // verus!
