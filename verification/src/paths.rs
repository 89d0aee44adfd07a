//! Text helpers for paths: comparing identifiers, rendering a path for a
//! diagnostic, and parsing a plain path out of a string literal.

use vstd::prelude::*;

use crate::ast::PathExpr;

verus! {

/// Whether two string slices hold the same characters.
pub fn str_eq(a: &str, b: &str) -> (r: bool)
    ensures
        r == (a@ == b@),
{
    let a1: String = a.to_owned();
    let b1: String = b.to_owned();
    a1 == b1
}

/// Whether `p` is the single bare identifier `name`.
pub fn path_is_ident_str(p: &PathExpr, name: &str) -> (r: bool)
    ensures
        r == p.is_ident(name@),
{
    if p.leading_colon {
        return false;
    }
    if p.segments.len() != 1 {
        return false;
    }
    str_eq(p.segments[0].as_str(), name)
}

/// The text of the first `n` segments, joined with `::`.
pub open spec fn join_upto(segs: Seq<Seq<char>>, n: int) -> Seq<char>
    decreases n,
{
    if n <= 0 {
        Seq::empty()
    } else if n == 1 {
        segs[0]
    } else {
        join_upto(segs, n - 1) + "::"@ + segs[n - 1]
    }
}

/// The rendered text of a path: its segments joined with `::`, prefixed
/// with `::` when the path carries a leading colon.
pub open spec fn path_text(p: PathExpr) -> Seq<char> {
    if p.leading_colon {
        "::"@ + join_upto(p.segments.deep_view(), p.segments@.len() as int)
    } else {
        join_upto(p.segments.deep_view(), p.segments@.len() as int)
    }
}

/// Renders a path as source text, for showing it inside a diagnostic.
pub fn path_join(p: &PathExpr) -> (r: String)
    ensures
        r@ == path_text(*p),
{
    let mut out = String::new();
    if p.leading_colon {
        out.append("::");
    }
    let ghost lead: Seq<char> = out@;
    let mut i: usize = 0;
    while i < p.segments.len()
        invariant
            i <= p.segments@.len(),
            out@ == lead + join_upto(p.segments.deep_view(), i as int),
        decreases p.segments@.len() - i,
    {
        if i > 0 {
            out.append("::");
        }
        out.append(p.segments[i].as_str());
        assert(p.segments.deep_view()[i as int] == p.segments@[i as int]@);
        i += 1;
    }
    assert(out@ == lead + join_upto(p.segments.deep_view(), p.segments@.len() as int));
    out
}

/// A character that may open an identifier.
pub open spec fn is_ident_start(c: char) -> bool {
    ||| ('a' <= c && c <= 'z')
    ||| ('A' <= c && c <= 'Z')
    ||| c == '_'
}

/// A character that may continue an identifier.
pub open spec fn is_ident_continue(c: char) -> bool {
    is_ident_start(c) || ('0' <= c && c <= '9')
}

/// Length of the longest identifier-character prefix of `s`.
pub open spec fn seg_len(s: Seq<char>) -> int
    decreases s.len(),
{
    if s.len() > 0 && is_ident_continue(s[0]) {
        1 + seg_len(s.skip(1))
    } else {
        0
    }
}

pub proof fn lemma_seg_len_bounds(s: Seq<char>)
    ensures
        0 <= seg_len(s) <= s.len(),
    decreases s.len(),
{
    if s.len() > 0 && is_ident_continue(s[0]) {
        lemma_seg_len_bounds(s.skip(1));
    }
}

/// When the first `m` characters continue an identifier and the next
/// one, if any, does not, the longest identifier prefix is exactly `m`.
pub proof fn lemma_seg_len_scan(s: Seq<char>, m: int)
    requires
        0 <= m <= s.len(),
        forall|t: int| 0 <= t < m ==> is_ident_continue(s[t]),
        m == s.len() || !is_ident_continue(s[m]),
    ensures
        seg_len(s) == m,
    decreases m,
{
    if m == 0 {
    } else {
        let rest = s.skip(1);
        assert forall|t: int| 0 <= t < m - 1 implies is_ident_continue(rest[t]) by {
            assert(rest[t] == s[t + 1]);
        }
        if m - 1 < rest.len() {
            assert(rest[m - 1] == s[m]);
        }
        lemma_seg_len_scan(rest, m - 1);
    }
}

/// The plain-path grammar, after any leading `::`: identifier segments
/// separated by `::`, each read as the longest identifier prefix and
/// required to open with an identifier-start character.
pub open spec fn valid_segments_text(s: Seq<char>) -> bool
    decreases s.len(),
{
    let k = seg_len(s);
    if k <= 0 {
        false
    } else if !is_ident_start(s[0]) {
        false
    } else if k == s.len() {
        true
    } else if k + 2 <= s.len() && s[k] == ':' && s[k + 1] == ':' {
        valid_segments_text(s.skip(k + 2))
    } else {
        false
    }
}

/// The segments such a text denotes, in order.
pub open spec fn spec_segments(s: Seq<char>) -> Seq<Seq<char>>
    decreases s.len(),
{
    let k = seg_len(s);
    if k <= 0 {
        Seq::empty()
    } else if k == s.len() {
        seq![s]
    } else if k + 2 <= s.len() && s[k] == ':' && s[k + 1] == ':' {
        seq![s.take(k)] + spec_segments(s.skip(k + 2))
    } else {
        seq![s.take(k)]
    }
}

/// The text opens with a leading `::`.
pub open spec fn has_leading_colons(s: Seq<char>) -> bool {
    s.len() >= 2 && s[0] == ':' && s[1] == ':'
}

/// The text after any leading `::`.
pub open spec fn path_body(s: Seq<char>) -> Seq<char> {
    if has_leading_colons(s) {
        s.skip(2)
    } else {
        s
    }
}

/// The plain-path grammar over a whole string: an optional leading `::`
/// followed by `::`-separated identifier segments.
pub open spec fn valid_path_text(s: Seq<char>) -> bool {
    valid_segments_text(path_body(s))
}

fn ident_start_char(c: char) -> (r: bool)
    ensures
        r == is_ident_start(c),
{
    ('a' <= c && c <= 'z') || ('A' <= c && c <= 'Z') || c == '_'
}

fn ident_continue_char(c: char) -> (r: bool)
    ensures
        r == is_ident_continue(c),
{
    ident_start_char(c) || ('0' <= c && c <= '9')
}

/// Parses a string as a plain path: an optional leading `::`, then
/// identifier segments separated by `::`. Exactly the texts of the
/// plain-path grammar are accepted; paths with generic arguments or
/// other decorations are not plain paths and are rejected.
pub fn parse_path_str(s: &str) -> (r: Option<PathExpr>)
    ensures
        r.is_some() <==> valid_path_text(s@),
        r matches Some(p) ==> {
            &&& p.leading_colon == has_leading_colons(s@)
            &&& p.segments.deep_view() == spec_segments(path_body(s@))
        },
{
    let n = s.unicode_len();
    let leading: bool = n >= 2 && s.get_char(0) == ':' && s.get_char(1) == ':';
    let mut i: usize = if leading {
        2
    } else {
        0
    };
    let ghost body_start = i as int;
    proof {
        if !leading {
            assert(s@.skip(0) =~= s@);
        }
    }
    let mut segs: Vec<String> = Vec::new();
    loop
        invariant
            n == s@.len(),
            body_start <= i as int <= n,
            leading == has_leading_colons(s@),
            body_start == if leading {
                2int
            } else {
                0int
            },
            s@.skip(body_start) == if has_leading_colons(s@) {
                s@.skip(2)
            } else {
                s@
            },
            valid_path_text(s@) == valid_segments_text(s@.skip(body_start)),
            valid_segments_text(s@.skip(body_start)) == valid_segments_text(s@.skip(i as int)),
            valid_segments_text(s@.skip(i as int)) ==> spec_segments(s@.skip(body_start))
                == segs.deep_view() + spec_segments(s@.skip(i as int)),
        decreases n - i,
    {
        let ghost u = s@.skip(i as int);
        if i >= n {
            assert(seg_len(u) == 0);
            return None;
        }
        let c0 = s.get_char(i);
        assert(c0 == u[0]);
        if !(ident_start_char(c0)) {
            proof {
                lemma_seg_len_bounds(u);
                if seg_len(u) > 0 {
                    assert(!valid_segments_text(u));
                }
            }
            return None;
        }
        let start = i;
        let mut j: usize = i + 1;
        let mut stopped: bool = false;
        while !(stopped) && j < n
            invariant
                n == s@.len(),
                start < j <= n,
                start == i,
                i < n,
                u == s@.skip(i as int),
                forall|t: int| 0 <= t < j - start ==> is_ident_continue(u[t]),
                stopped ==> j < n && !is_ident_continue(u[j - start]),
            decreases n - j + if stopped {
                0int
            } else {
                1int
            },
        {
            let c = s.get_char(j);
            assert(c == u[j - start]);
            if ident_continue_char(c) {
                j += 1;
            } else {
                stopped = true;
            }
        }
        let seg = s.substring_char(start, j).to_owned();
        proof {
            lemma_seg_len_scan(u, j - start);
            assert(seg@ =~= u.take(j - start));
        }
        segs.push(seg);
        if j >= n {
            // the final segment fills the text: the suffix is one valid segment
            proof {
                assert(seg_len(u) == u.len());
                assert(valid_segments_text(u));
                assert(spec_segments(u) =~= seq![u]);
                assert(seg@ =~= u);
                assert(segs.deep_view() =~= spec_segments(s@.skip(body_start)));
            }
            return Some(PathExpr { leading_colon: leading, segments: segs });
        }
        if j + 1 < n && s.get_char(j) == ':' && s.get_char(j + 1) == ':' {
            proof {
                let k = seg_len(u);
                assert(u[k] == s@[j as int]);
                assert(u[k + 1] == s@[j + 1]);
                assert(u.skip(k + 2) =~= s@.skip(j + 2));
                assert(valid_segments_text(u) == valid_segments_text(s@.skip(j + 2)));
                assert(valid_segments_text(u) ==> spec_segments(u) =~= seq![u.take(k)]
                    + spec_segments(s@.skip(j + 2)));
                assert(valid_segments_text(s@.skip(j + 2)) ==> segs.deep_view()
                    + spec_segments(s@.skip(j + 2)) =~= spec_segments(s@.skip(body_start)));
            }
            i = j + 2;
        } else {
            proof {
                let k = seg_len(u);
                assert(k < u.len());
                if k + 2 <= u.len() && u[k] == ':' && u[k + 1] == ':' {
                    assert(u[k] == s@[j as int]);
                    assert(u[k + 1] == s@[j + 1]);
                    assert(false);
                }
                assert(!valid_segments_text(u));
            }
            return None;
        }
    }
}

} // verus!
