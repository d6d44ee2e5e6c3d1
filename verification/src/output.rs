//! Classification of captured compiler output.
//!
//! The external tools report problems through their standard output, one
//! line per diagnostic, marked by a fixed prefix: the primary compiler
//! starts error lines with `!`, the bibliography resolver starts them
//! with `ERROR` and starts warnings with `WARN`. The logic here splits
//! captured output into lines and classifies each line, so that success
//! or failure of an invocation is decided in one place.
//!
//! A line ends at a newline byte; one carriage return immediately before
//! the line end is dropped, and a final empty line after a trailing
//! newline is ignored.

use vstd::prelude::*;

use crate::events::{copy_bytes, copy_prefix};

verus! {

/// Raw split of a byte string at newline bytes: always one more segment
/// than there are newline bytes, with no trimming at all.
pub open spec fn spec_split_raw(s: Seq<u8>) -> Seq<Seq<u8>>
    decreases s.len(),
{
    if s.len() == 0 {
        seq![Seq::<u8>::empty()]
    } else {
        let pre = spec_split_raw(s.drop_last());
        if s.last() == 10u8 {
            pre.push(Seq::<u8>::empty())
        } else {
            pre.update(pre.len() - 1, pre.last().push(s.last()))
        }
    }
}

/// Drops a single trailing carriage return, if present.
pub open spec fn spec_strip_cr(l: Seq<u8>) -> Seq<u8> {
    if l.len() > 0 && l.last() == 13u8 {
        l.drop_last()
    } else {
        l
    }
}

/// The lines of a byte string: the raw newline split, without a final
/// empty segment left by a trailing newline, each segment stripped of a
/// trailing carriage return.
pub open spec fn spec_lines(s: Seq<u8>) -> Seq<Seq<u8>> {
    let raw = spec_split_raw(s);
    let kept = if raw.last().len() == 0 {
        raw.drop_last()
    } else {
        raw
    };
    kept.map_values(|l: Seq<u8>| spec_strip_cr(l))
}

/// Whether `p` is a prefix of `s`.
pub open spec fn spec_starts_with(s: Seq<u8>, p: Seq<u8>) -> bool {
    p.len() <= s.len() && s.take(p.len() as int) == p
}

/// An error line of the primary compiler: it starts with `!`.
pub open spec fn spec_is_tex_error_line(l: Seq<u8>) -> bool {
    spec_starts_with(l, seq![33u8])
}

/// An error line of the bibliography resolver: it starts with `ERROR`.
pub open spec fn spec_is_bib_error_line(l: Seq<u8>) -> bool {
    spec_starts_with(l, seq![69u8, 82u8, 82u8, 79u8, 82u8])
}

/// A warning line of the bibliography resolver: it starts with `WARN`.
pub open spec fn spec_is_bib_warn_line(l: Seq<u8>) -> bool {
    spec_starts_with(l, seq![87u8, 65u8, 82u8, 78u8])
}

/// Splits captured output into its lines.
pub fn split_lines(out: &Vec<u8>) -> (r: Vec<Vec<u8>>)
    ensures
        r.deep_view() == spec_lines(out@),
{
    let mut done: Vec<Vec<u8>> = Vec::new();
    let mut cur: Vec<u8> = Vec::new();
    let mut i: usize = 0;
    while i < out.len()
        invariant
            i <= out@.len(),
            spec_split_raw(out@.take(i as int)) == done.deep_view().push(cur@),
        decreases out@.len() - i,
    {
        let b = out[i];
        proof {
            assert(out@.take(i as int + 1).drop_last() =~= out@.take(i as int));
            assert(out@.take(i as int + 1).last() == out@[i as int]);
        }
        if b == 10u8 {
            let ghost pre_dv = done.deep_view();
            done.push(cur);
            cur = Vec::new();
            proof {
                assert(done.deep_view() =~~= pre_dv.push(done@.last()@));
                assert(spec_split_raw(out@.take(i as int + 1)) =~= done.deep_view().push(
                    cur@,
                ));
            }
        } else {
            let ghost pre = done.deep_view().push(cur@);
            cur.push(b);
            proof {
                assert(pre.last() == cur@.drop_last());
                assert(pre.update(pre.len() - 1, pre.last().push(b)) =~= done.deep_view().push(
                    cur@,
                ));
            }
        }
        i = i + 1;
    }
    proof {
        assert(out@.take(out@.len() as int) =~= out@);
    }
    let ghost done_dv = done.deep_view();
    let mut kept = done;
    let n: usize = if cur.len() == 0 {
        kept.len()
    } else {
        kept.push(cur);
        kept.len()
    };
    let ghost kept_spec = (if spec_split_raw(out@).last().len() == 0 {
        spec_split_raw(out@).drop_last()
    } else {
        spec_split_raw(out@)
    });
    proof {
        assert(spec_split_raw(out@).last() == cur@);
        if cur@.len() == 0 {
            assert(spec_split_raw(out@).drop_last() =~= done_dv);
        }
        assert(kept.deep_view() =~~= kept_spec);
    }
    let mut r: Vec<Vec<u8>> = Vec::new();
    let mut j: usize = 0;
    while j < n
        invariant
            j <= n,
            n == kept@.len(),
            kept.deep_view() == kept_spec,
            r.deep_view() == kept_spec.map_values(|l: Seq<u8>| spec_strip_cr(l)).take(j as int),
        decreases n - j,
    {
        let line = strip_cr(&kept[j]);
        r.push(line);
        proof {
            let m = kept_spec.map_values(|l: Seq<u8>| spec_strip_cr(l));
            assert(m.take(j as int + 1) =~= m.take(j as int).push(m[j as int]));
            assert(kept@[j as int].deep_view() =~= kept@[j as int]@);
            assert(line@ == m[j as int]);
            assert(r.deep_view() =~~= m.take(j as int).push(m[j as int]));
        }
        j = j + 1;
    }
    proof {
        let m = kept_spec.map_values(|l: Seq<u8>| spec_strip_cr(l));
        assert(m.take(n as int) =~= m);
    }
    r
}

/// Drops one trailing carriage return from a line, copying it.
fn strip_cr(l: &Vec<u8>) -> (r: Vec<u8>)
    ensures
        r@ == spec_strip_cr(l@),
{
    if l.len() > 0 && l[l.len() - 1] == 13u8 {
        let r = copy_prefix(l, l.len() - 1);
        proof {
            assert(l@.take(l@.len() - 1) =~= l@.drop_last());
        }
        r
    } else {
        copy_bytes(l)
    }
}

/// Whether a line is an error line of the primary compiler.
pub fn line_is_tex_error(l: &Vec<u8>) -> (r: bool)
    ensures
        r == spec_is_tex_error_line(l@),
{
    let r = l.len() >= 1 && l[0] == 33u8;
    proof {
        if r {
            assert(l@.take(1) =~= seq![33u8]);
        }
        if spec_is_tex_error_line(l@) {
            assert(l@.take(1)[0] == 33u8);
        }
    }
    r
}

/// Whether a line is an error line of the bibliography resolver.
pub fn line_is_bib_error(l: &Vec<u8>) -> (r: bool)
    ensures
        r == spec_is_bib_error_line(l@),
{
    let r = l.len() >= 5 && l[0] == 69u8 && l[1] == 82u8 && l[2] == 82u8
        && l[3] == 79u8 && l[4] == 82u8;
    proof {
        let p = seq![69u8, 82u8, 82u8, 79u8, 82u8];
        if r {
            assert(l@.take(5) =~= p);
        }
        if spec_is_bib_error_line(l@) {
            assert forall|k: int| 0 <= k < 5 implies l@[k] == p[k] by {
                assert(l@.take(5)[k] == p[k]);
            }
        }
    }
    r
}

/// Whether a line is a warning line of the bibliography resolver.
pub fn line_is_bib_warn(l: &Vec<u8>) -> (r: bool)
    ensures
        r == spec_is_bib_warn_line(l@),
{
    let r = l.len() >= 4 && l[0] == 87u8 && l[1] == 65u8 && l[2] == 82u8
        && l[3] == 78u8;
    proof {
        let p = seq![87u8, 65u8, 82u8, 78u8];
        if r {
            assert(l@.take(4) =~= p);
        }
        if spec_is_bib_warn_line(l@) {
            assert forall|k: int| 0 <= k < 4 implies l@[k] == p[k] by {
                assert(l@.take(4)[k] == p[k]);
            }
        }
    }
    r
}

/// The verdict on one primary-compiler invocation: whether it succeeded
/// and the error lines it reported.
pub struct TexReport {
    pub ok: bool,
    pub error_lines: Vec<Vec<u8>>,
}

/// The verdict on one bibliography-resolver invocation: whether it
/// succeeded, the error lines, and the warning lines it reported.
pub struct BibReport {
    pub ok: bool,
    pub error_lines: Vec<Vec<u8>>,
    pub warn_lines: Vec<Vec<u8>>,
}

/// Classifies the captured output of the primary compiler. The
/// invocation succeeded exactly when no line starts with the error
/// sigil; the error lines are returned in order of appearance.
pub fn classify_tex_output(out: &Vec<u8>) -> (r: TexReport)
    ensures
        r.error_lines.deep_view() == spec_lines(out@).filter(
            |l: Seq<u8>| spec_is_tex_error_line(l),
        ),
        r.ok <==> (forall|i: int|
            0 <= i < spec_lines(out@).len() ==> !spec_is_tex_error_line(
                #[trigger] spec_lines(out@)[i],
            )),
{
    let lines = split_lines(out);
    let ghost ls = spec_lines(out@);
    let ghost pred = |l: Seq<u8>| spec_is_tex_error_line(l);
    let mut error_lines: Vec<Vec<u8>> = Vec::new();
    let mut ok = true;
    let mut i: usize = 0;
    proof {
        reveal(Seq::filter);
        assert(ls.take(0) =~= Seq::<Seq<u8>>::empty());
    }
    while i < lines.len()
        invariant
            i <= lines@.len(),
            lines.deep_view() == ls,
            error_lines.deep_view() == ls.take(i as int).filter(pred),
            ok <==> (forall|k: int| 0 <= k < i ==> !pred(#[trigger] ls[k])),
            pred == (|l: Seq<u8>| spec_is_tex_error_line(l)),
        decreases lines@.len() - i,
    {
        let ghost pre_err = error_lines.deep_view();
        let is_err = line_is_tex_error(&lines[i]);
        if is_err {
            error_lines.push(copy_bytes(&lines[i]));
            ok = false;
        }
        proof {
            reveal(Seq::filter);
            assert(lines@[i as int].deep_view() =~= lines@[i as int]@);
            assert(ls[i as int] == lines@[i as int]@);
            assert(ls.take(i as int + 1).drop_last() =~= ls.take(i as int));
            assert(ls.take(i as int + 1).last() == ls[i as int]);
            if is_err {
                assert(error_lines.deep_view() =~~= pre_err.push(ls[i as int]));
            }
        }
        i = i + 1;
    }
    proof {
        assert(ls.take(ls.len() as int) =~= ls);
    }
    TexReport { ok, error_lines }
}

/// Classifies the captured output of the bibliography resolver. The
/// invocation succeeded exactly when no line starts with the error
/// marker; error and warning lines are each returned in order of
/// appearance.
pub fn classify_bib_output(out: &Vec<u8>) -> (r: BibReport)
    ensures
        r.error_lines.deep_view() == spec_lines(out@).filter(
            |l: Seq<u8>| spec_is_bib_error_line(l),
        ),
        r.warn_lines.deep_view() == spec_lines(out@).filter(
            |l: Seq<u8>| spec_is_bib_warn_line(l),
        ),
        r.ok <==> (forall|i: int|
            0 <= i < spec_lines(out@).len() ==> !spec_is_bib_error_line(
                #[trigger] spec_lines(out@)[i],
            )),
{
    let lines = split_lines(out);
    let ghost ls = spec_lines(out@);
    let ghost epred = |l: Seq<u8>| spec_is_bib_error_line(l);
    let ghost wpred = |l: Seq<u8>| spec_is_bib_warn_line(l);
    let mut error_lines: Vec<Vec<u8>> = Vec::new();
    let mut warn_lines: Vec<Vec<u8>> = Vec::new();
    let mut ok = true;
    let mut i: usize = 0;
    proof {
        reveal(Seq::filter);
        assert(ls.take(0) =~= Seq::<Seq<u8>>::empty());
    }
    while i < lines.len()
        invariant
            i <= lines@.len(),
            lines.deep_view() == ls,
            error_lines.deep_view() == ls.take(i as int).filter(epred),
            warn_lines.deep_view() == ls.take(i as int).filter(wpred),
            ok <==> (forall|k: int| 0 <= k < i ==> !epred(#[trigger] ls[k])),
            epred == (|l: Seq<u8>| spec_is_bib_error_line(l)),
            wpred == (|l: Seq<u8>| spec_is_bib_warn_line(l)),
        decreases lines@.len() - i,
    {
        let ghost pre_err = error_lines.deep_view();
        let ghost pre_warn = warn_lines.deep_view();
        let is_err = line_is_bib_error(&lines[i]);
        let is_warn = line_is_bib_warn(&lines[i]);
        if is_err {
            error_lines.push(copy_bytes(&lines[i]));
            ok = false;
        }
        if is_warn {
            warn_lines.push(copy_bytes(&lines[i]));
        }
        proof {
            reveal(Seq::filter);
            assert(lines@[i as int].deep_view() =~= lines@[i as int]@);
            assert(ls[i as int] == lines@[i as int]@);
            assert(ls.take(i as int + 1).drop_last() =~= ls.take(i as int));
            assert(ls.take(i as int + 1).last() == ls[i as int]);
            if is_err {
                assert(error_lines.deep_view() =~~= pre_err.push(ls[i as int]));
            }
            if is_warn {
                assert(warn_lines.deep_view() =~~= pre_warn.push(ls[i as int]));
            }
        }
        i = i + 1;
    }
    proof {
        assert(ls.take(ls.len() as int) =~= ls);
    }
    BibReport { ok, error_lines, warn_lines }
}

} // verus!
