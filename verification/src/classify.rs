//! The trivial-field classifier: decides, once per declaration, whether
//! fields are classified by explicit markers or by the structural
//! heuristic, classifies every field under that one mode, and finds the
//! single significant field.

use vstd::prelude::*;

use crate::ast::{Attr, AttrArgs, Field, TrivialityMode, TypeExpr};
use crate::diag::{diag_views, plain_diag, DiagView, Diagnostic, ErrorKind};
use crate::paths::path_is_ident_str;

verus! {

/// The attribute names the per-field trivial marker.
pub open spec fn attr_names_trivial(a: Attr) -> bool {
    a.path.is_ident("trivial"@)
}

/// Index of the first attribute naming the trivial marker; the list's
/// length when none does.
pub open spec fn first_trivial_idx(attrs: Seq<Attr>) -> int
    decreases attrs.len(),
{
    if attrs.len() == 0 {
        0
    } else if attr_names_trivial(attrs[0]) {
        0
    } else {
        1 + first_trivial_idx(attrs.skip(1))
    }
}

pub proof fn lemma_first_trivial_idx(attrs: Seq<Attr>)
    ensures
        0 <= first_trivial_idx(attrs) <= attrs.len(),
        first_trivial_idx(attrs) < attrs.len() ==> attr_names_trivial(
            attrs[first_trivial_idx(attrs)],
        ),
        forall|j: int| 0 <= j < first_trivial_idx(attrs) ==> !attr_names_trivial(attrs[j]),
    decreases attrs.len(),
{
    if attrs.len() == 0 {
    } else if attr_names_trivial(attrs[0]) {
    } else {
        lemma_first_trivial_idx(attrs.skip(1));
        let rest = attrs.skip(1);
        let k = first_trivial_idx(attrs);
        assert(k == 1 + first_trivial_idx(rest));
        if k < attrs.len() {
            assert(attrs[k] == rest[k - 1]);
        }
        assert forall|j: int| 0 <= j < k implies !attr_names_trivial(attrs[j]) by {
            if j > 0 {
                assert(attrs[j] == rest[j - 1]);
            }
        }
    }
}

/// Some attribute of the field names the trivial marker.
pub open spec fn field_names_trivial(f: Field) -> bool {
    first_trivial_idx(f.attrs@) < f.attrs@.len()
}

/// The field carries a well-formed explicit trivial marker: its first
/// marker attribute stands bare, with no arguments.
pub open spec fn explicit_trivial(f: Field) -> bool {
    &&& field_names_trivial(f)
    &&& f.attrs@[first_trivial_idx(f.attrs@)].args is Empty
}

/// The field's first trivial marker carries arguments, which the marker
/// does not take.
pub open spec fn marker_defect(f: Field) -> bool {
    &&& field_names_trivial(f)
    &&& !(f.attrs@[first_trivial_idx(f.attrs@)].args is Empty)
}

/// The span of the field's first trivial marker.
pub open spec fn marker_span(f: Field) -> nat {
    f.attrs@[first_trivial_idx(f.attrs@)].span as nat
}

/// The structural heuristic: a type looks trivial when it is the unit
/// type, or a path whose final segment names one of the known zero-size
/// marker types. This is a name-based judgement over unresolved syntax,
/// not type resolution: an unrelated type sharing such a name is treated
/// as trivial all the same.
pub open spec fn spec_implicit_trivial(t: TypeExpr) -> bool {
    match t {
        TypeExpr::Tuple { elems, .. } => elems == 0,
        TypeExpr::Path { path, .. } => {
            &&& path.segments@.len() > 0
            &&& {
                ||| path.segments@.last()@ == "PhantomData"@
                ||| path.segments@.last()@ == "PhantomPinned"@
            }
        },
        _ => false,
    }
}

/// The classification mode of a declaration: explicit as soon as any
/// field names the trivial marker, implicit otherwise.
pub open spec fn spec_mode(fields: Seq<Field>) -> TrivialityMode {
    if exists|i: int| 0 <= i < fields.len() && field_names_trivial(fields[i]) {
        TrivialityMode::Explicit
    } else {
        TrivialityMode::Implicit
    }
}

/// Whether one field is trivial under the declaration's mode. In
/// explicit mode the marker alone decides; the heuristic is disabled.
pub open spec fn spec_trivial(mode: TrivialityMode, f: Field) -> bool {
    match mode {
        TrivialityMode::Explicit => explicit_trivial(f),
        TrivialityMode::Implicit => spec_implicit_trivial(f.ty),
    }
}

/// How many of the first `n` fields are significant (not trivial).
pub open spec fn count_significant_upto(fields: Seq<Field>, mode: TrivialityMode, n: int) -> int
    decreases n,
{
    if n <= 0 {
        0
    } else {
        count_significant_upto(fields, mode, n - 1) + if !spec_trivial(mode, fields[n - 1]) {
            1int
        } else {
            0int
        }
    }
}

pub open spec fn count_significant(fields: Seq<Field>, mode: TrivialityMode) -> int {
    count_significant_upto(fields, mode, fields.len() as int)
}

/// The marker-defect diagnostics of the first `n` fields, in field order.
pub open spec fn defect_diags_upto(fields: Seq<Field>, n: int) -> Seq<DiagView>
    decreases n,
{
    if n <= 0 {
        Seq::empty()
    } else {
        defect_diags_upto(fields, n - 1) + if marker_defect(fields[n - 1]) {
            seq![plain_diag(ErrorKind::UnexpectedArguments, marker_span(fields[n - 1]))]
        } else {
            Seq::<DiagView>::empty()
        }
    }
}

pub open spec fn defect_diags(fields: Seq<Field>) -> Seq<DiagView> {
    defect_diags_upto(fields, fields.len() as int)
}

pub proof fn lemma_defects_empty(fields: Seq<Field>, n: int)
    requires
        0 <= n <= fields.len(),
    ensures
        defect_diags_upto(fields, n).len() == 0 <==> (forall|j: int|
            0 <= j < n ==> !marker_defect(fields[j])),
    decreases n,
{
    if n > 0 {
        lemma_defects_empty(fields, n - 1);
    }
}

/// Everything the classifier reports for one declaration's field list:
/// every malformed marker, else a single-field count failure, else
/// nothing.
pub open spec fn classifier_diags(fields: Seq<Field>, decl_span: nat) -> Seq<DiagView> {
    if defect_diags(fields).len() > 0 {
        defect_diags(fields)
    } else if count_significant(fields, spec_mode(fields)) != 1 {
        seq![plain_diag(ErrorKind::RequiresSingleField, decl_span)]
    } else {
        Seq::empty()
    }
}

/// The types of the trivial fields among the first `n`, in field order.
pub open spec fn trivial_tys_upto(fields: Seq<Field>, mode: TrivialityMode, n: int) -> Seq<
    TypeExpr,
>
    decreases n,
{
    if n <= 0 {
        Seq::empty()
    } else {
        trivial_tys_upto(fields, mode, n - 1) + if spec_trivial(mode, fields[n - 1]) {
            seq![fields[n - 1].ty]
        } else {
            Seq::<TypeExpr>::empty()
        }
    }
}

pub open spec fn trivial_tys(fields: Seq<Field>, mode: TrivialityMode) -> Seq<TypeExpr> {
    trivial_tys_upto(fields, mode, fields.len() as int)
}

/// Index of the field's first trivial-marker attribute, if any.
fn first_trivial_attr_idx(f: &Field) -> (r: Option<usize>)
    ensures
        match r {
            Some(k) => k == first_trivial_idx(f.attrs@) && k < f.attrs@.len(),
            None => first_trivial_idx(f.attrs@) == f.attrs@.len(),
        },
{
    proof {
        lemma_first_trivial_idx(f.attrs@);
    }
    let n = f.attrs.len();
    let mut i: usize = 0;
    while i < n
        invariant
            n == f.attrs@.len(),
            i <= n,
            forall|j: int| 0 <= j < i ==> !attr_names_trivial(f.attrs@[j]),
            0 <= first_trivial_idx(f.attrs@) <= f.attrs@.len(),
            first_trivial_idx(f.attrs@) < f.attrs@.len() ==> attr_names_trivial(
                f.attrs@[first_trivial_idx(f.attrs@)],
            ),
            forall|j: int|
                0 <= j < first_trivial_idx(f.attrs@) ==> !attr_names_trivial(f.attrs@[j]),
        decreases n - i,
    {
        if path_is_ident_str(&f.attrs[i].path, "trivial") {
            return Some(i);
        }
        i += 1;
    }
    None
}

/// Examines one field for the explicit trivial marker. The first marker
/// attribute decides; a marker carrying arguments is rejected.
pub fn is_explicit_trivial(f: &Field) -> (r: Result<bool, Diagnostic>)
    ensures
        match r {
            Ok(b) => !marker_defect(*f) && b == field_names_trivial(*f) && b == explicit_trivial(
                *f,
            ),
            Err(e) => marker_defect(*f) && e@ == plain_diag(
                ErrorKind::UnexpectedArguments,
                marker_span(*f),
            ),
        },
{
    match first_trivial_attr_idx(f) {
        None => Ok(false),
        Some(k) => {
            if matches!(f.attrs[k].args, AttrArgs::Empty) {
                Ok(true)
            } else {
                Err(
                    Diagnostic {
                        kind: ErrorKind::UnexpectedArguments,
                        span: f.attrs[k].span,
                        detail: String::new(),
                    },
                )
            }
        },
    }
}

/// The structural heuristic on one field's type.
pub fn is_implicit_trivial(f: &Field) -> (r: bool)
    ensures
        r == spec_implicit_trivial(f.ty),
{
    match &f.ty {
        TypeExpr::Tuple { elems, .. } => *elems == 0,
        TypeExpr::Path { path, .. } => {
            let n = path.segments.len();
            if n == 0 {
                false
            } else {
                let last = &path.segments[n - 1];
                crate::paths::str_eq(last.as_str(), "PhantomData") || crate::paths::str_eq(
                    last.as_str(),
                    "PhantomPinned",
                )
            }
        },
        _ => false,
    }
}

/// Chooses the declaration's classification mode: explicit as soon as
/// any field names the trivial marker, implicit otherwise. The choice is
/// made once and governs every field uniformly.
pub fn decide_trivial(fields: &Vec<Field>) -> (r: TrivialityMode)
    ensures
        r == spec_mode(fields@),
{
    let n = fields.len();
    let mut i: usize = 0;
    while i < n
        invariant
            n == fields@.len(),
            i <= n,
            forall|j: int| 0 <= j < i ==> !field_names_trivial(fields@[j]),
        decreases n - i,
    {
        let found = first_trivial_attr_idx(&fields[i]);
        if found.is_some() {
            assert(field_names_trivial(fields@[i as int]));
            return TrivialityMode::Explicit;
        }
        i += 1;
    }
    TrivialityMode::Implicit
}

/// Classifies one field under the given mode.
pub fn is_trivial(mode: TrivialityMode, f: &Field) -> (r: Result<bool, Diagnostic>)
    ensures
        match r {
            Ok(b) => b == spec_trivial(mode, *f) && (mode is Explicit ==> !marker_defect(*f)),
            Err(e) => mode is Explicit && marker_defect(*f) && e@ == plain_diag(
                ErrorKind::UnexpectedArguments,
                marker_span(*f),
            ),
        },
{
    match mode {
        TrivialityMode::Explicit => is_explicit_trivial(f),
        TrivialityMode::Implicit => Ok(is_implicit_trivial(f)),
    }
}

/// Collects a diagnostic for every field whose trivial marker carries
/// arguments, in field order.
pub fn marker_defects(fields: &Vec<Field>) -> (r: Vec<Diagnostic>)
    ensures
        diag_views(r@) == defect_diags(fields@),
{
    let n = fields.len();
    let mut out: Vec<Diagnostic> = Vec::new();
    let mut i: usize = 0;
    while i < n
        invariant
            n == fields@.len(),
            i <= n,
            diag_views(out@) == defect_diags_upto(fields@, i as int),
        decreases n - i,
    {
        match first_trivial_attr_idx(&fields[i]) {
            None => {
            },
            Some(k) => {
                if !matches!(fields[i].attrs[k].args, AttrArgs::Empty) {
                    let d = Diagnostic {
                        kind: ErrorKind::UnexpectedArguments,
                        span: fields[i].attrs[k].span,
                        detail: String::new(),
                    };
                    out.push(d);
                }
            },
        }
        assert(diag_views(out@) =~= defect_diags_upto(fields@, i + 1));
        i += 1;
    }
    out
}

/// Finds the single significant field and returns a reference to its
/// type; reports every malformed marker, or the field count, otherwise.
pub fn only_field_ty<'a>(fields: &'a Vec<Field>, decl_span: usize) -> (r: Result<
    &'a TypeExpr,
    Vec<Diagnostic>,
>)
    ensures
        r.is_ok() <==> classifier_diags(fields@, decl_span as nat).len() == 0,
        r matches Ok(t) ==> {
            &&& count_significant(fields@, spec_mode(fields@)) == 1
            &&& exists|k: int|
                0 <= k < fields@.len() && !spec_trivial(spec_mode(fields@), fields@[k]) && *t
                    == fields@[k].ty
        },
        r matches Err(e) ==> diag_views(e@) == classifier_diags(fields@, decl_span as nat)
            && e@.len() > 0,
{
    let mode = decide_trivial(fields);
    let defects = marker_defects(fields);
    if defects.len() > 0 {
        return Err(defects);
    }
    proof {
        lemma_defects_empty(fields@, fields@.len() as int);
    }
    let n = fields.len();
    let mut found: Option<usize> = None;
    let mut count: usize = 0;
    let mut i: usize = 0;
    while i < n
        invariant
            n == fields@.len(),
            i <= n,
            count <= i,
            mode == spec_mode(fields@),
            forall|j: int| 0 <= j < n ==> !marker_defect(fields@[j]),
            count == count_significant_upto(fields@, mode, i as int),
            match found {
                Some(k) => k < i && !spec_trivial(mode, fields@[k as int]),
                None => count == 0,
            },
        decreases n - i,
    {
        match is_trivial(mode, &fields[i]) {
            Ok(b) => {
                if !b {
                    if found.is_none() {
                        found = Some(i);
                    }
                    count += 1;
                }
            },
            Err(_) => {
                proof {
                    assert(false);
                }
            },
        }
        i += 1;
    }
    if count == 1 {
        match found {
            Some(k) => Ok(&fields[k].ty),
            None => {
                proof {
                    assert(false);
                }
                Err(Vec::new())
            },
        }
    } else {
        let d = Diagnostic {
            kind: ErrorKind::RequiresSingleField,
            span: decl_span,
            detail: String::new(),
        };
        let mut out: Vec<Diagnostic> = Vec::new();
        out.push(d);
        assert(diag_views(out@) =~= classifier_diags(fields@, decl_span as nat));
        Err(out)
    }
}

/// Collects references to the trivial fields' types, in field order;
/// reports every malformed marker otherwise.
pub fn trivial_fields<'a>(fields: &'a Vec<Field>) -> (r: Result<Vec<&'a TypeExpr>, Vec<Diagnostic>>)
    ensures
        r.is_ok() <==> defect_diags(fields@).len() == 0,
        r matches Ok(v) ==> v@.map_values(|t: &TypeExpr| *t) == trivial_tys(
            fields@,
            spec_mode(fields@),
        ),
        r matches Err(e) ==> diag_views(e@) == defect_diags(fields@) && e@.len() > 0,
{
    let mode = decide_trivial(fields);
    let defects = marker_defects(fields);
    if defects.len() > 0 {
        return Err(defects);
    }
    proof {
        lemma_defects_empty(fields@, fields@.len() as int);
    }
    let n = fields.len();
    let mut out: Vec<&'a TypeExpr> = Vec::new();
    let mut i: usize = 0;
    while i < n
        invariant
            n == fields@.len(),
            i <= n,
            mode == spec_mode(fields@),
            forall|j: int| 0 <= j < n ==> !marker_defect(fields@[j]),
            out@.map_values(|t: &TypeExpr| *t) == trivial_tys_upto(fields@, mode, i as int),
        decreases n - i,
    {
        match is_trivial(mode, &fields[i]) {
            Ok(b) => {
                if b {
                    out.push(&fields[i].ty);
                }
            },
            Err(_) => {
                proof {
                    assert(false);
                }
            },
        }
        assert(out@.map_values(|t: &TypeExpr| *t) =~= trivial_tys_upto(fields@, mode, i + 1));
        i += 1;
    }
    Ok(out)
}

/// Explicit marking on any field disables the structural heuristic for
/// the whole declaration: an unmarked field is significant even when its
/// type looks trivial to the heuristic.
pub proof fn lemma_explicit_disables_implicit(fields: Seq<Field>, i: int, j: int)
    requires
        0 <= i < fields.len(),
        0 <= j < fields.len(),
        field_names_trivial(fields[i]),
        !field_names_trivial(fields[j]),
        spec_implicit_trivial(fields[j].ty),
    ensures
        spec_mode(fields) == TrivialityMode::Explicit,
        !spec_trivial(spec_mode(fields), fields[j]),
{
    assert(exists|k: int| 0 <= k < fields.len() && field_names_trivial(fields[k]));
}

} // verus!
