//! Template expansion: substitute every `{}` placeholder with the job's input
//! line and every `{out}` placeholder with the job's derived output name, in a
//! single left-to-right pass. A substituted value is never rescanned, so a
//! placeholder inside an input line stays literal.

use vstd::prelude::*;
use crate::job::Job;
use crate::naming::{sanitize_filename, spec_out_name};
use crate::text::{brace_pat, match_at, matches_at, out_pat};

verus! {

/// One left-to-right pass over `t`: each `{}` becomes `input`, each `{out}`
/// becomes `out`, every other character is kept; substituted text is not
/// rescanned. The two placeholders cannot overlap, so scanning for `{}` first
/// and `{out}` second at each position replaces every occurrence of both.
pub open spec fn spec_expand(t: Seq<char>, input: Seq<char>, out: Seq<char>) -> Seq<char>
    decreases t.len(),
{
    if match_at(t, brace_pat(), 0) {
        input + spec_expand(t.skip(2), input, out)
    } else if match_at(t, out_pat(), 0) {
        out + spec_expand(t.skip(5), input, out)
    } else if t.len() == 0 {
        Seq::empty()
    } else {
        seq![t[0]] + spec_expand(t.skip(1), input, out)
    }
}

/// The command line that a template expands to for one job: `{}` replaced by
/// the job's input, `{out}` by the output name derived from the job's index.
pub open spec fn spec_expanded(t: Seq<char>, index: nat, input: Seq<char>) -> Seq<char> {
    spec_expand(t, input, spec_out_name(index))
}

proof fn lemma_expand_step(t: Seq<char>, input: Seq<char>, out: Seq<char>, i: int)
    requires
        0 <= i <= t.len(),
    ensures
        match_at(t, brace_pat(), i) ==> spec_expand(t.skip(i), input, out) == input + spec_expand(
            t.skip(i + 2),
            input,
            out,
        ),
        !match_at(t, brace_pat(), i) && match_at(t, out_pat(), i) ==> spec_expand(
            t.skip(i),
            input,
            out,
        ) == out + spec_expand(t.skip(i + 5), input, out),
        i < t.len() && !match_at(t, brace_pat(), i) && !match_at(t, out_pat(), i) ==> spec_expand(
            t.skip(i),
            input,
            out,
        ) == seq![t[i]] + spec_expand(t.skip(i + 1), input, out),
{
    let s = t.skip(i);
    assert(s.len() == t.len() - i);
    if match_at(t, brace_pat(), i) {
        assert(s.subrange(0, 2) =~= t.subrange(i, i + 2));
        assert(match_at(s, brace_pat(), 0));
        assert(s.skip(2) =~= t.skip(i + 2));
    } else if match_at(t, out_pat(), i) {
        assert(!match_at(s, brace_pat(), 0)) by {
            if match_at(s, brace_pat(), 0) {
                assert(t.subrange(i, i + 2) =~= s.subrange(0, 2));
            }
        }
        assert(s.subrange(0, 5) =~= t.subrange(i, i + 5));
        assert(match_at(s, out_pat(), 0));
        assert(s.skip(5) =~= t.skip(i + 5));
    } else if i < t.len() {
        assert(!match_at(s, brace_pat(), 0)) by {
            if match_at(s, brace_pat(), 0) {
                assert(t.subrange(i, i + 2) =~= s.subrange(0, 2));
            }
        }
        assert(!match_at(s, out_pat(), 0)) by {
            if match_at(s, out_pat(), 0) {
                assert(t.subrange(i, i + 5) =~= s.subrange(0, 5));
            }
        }
        assert(s[0] == t[i]);
        assert(s.skip(1) =~= t.skip(i + 1));
    }
}

/// Expansion is deterministic: the expanded command is a function of the
/// template and the job alone, so expanding the same template for the same
/// job a second time yields the identical command line.
pub proof fn lemma_expand_deterministic(
    t1: Seq<char>,
    index1: nat,
    input1: Seq<char>,
    t2: Seq<char>,
    index2: nat,
    input2: Seq<char>,
)
    requires
        t1 == t2,
        index1 == index2,
        input1 == input2,
    ensures
        spec_expanded(t1, index1, input1) == spec_expanded(t2, index2, input2),
{
}

/// Expand a template for one job: replace every `{}` with the job's input and
/// every `{out}` with the output name derived from the job's index, left to
/// right, never rescanning substituted text.
pub fn expand(template: &str, job: &Job) -> (r: String)
    ensures
        r@ == spec_expanded(template@, job.index as nat, job.input@),
{
    let out = sanitize_filename(job.index);
    let n = template.unicode_len();
    let mut r = String::new();
    let mut i: usize = 0;
    assert(template@.skip(0) =~= template@);
    assert(Seq::<char>::empty() + spec_expand(template@, job.input@, out@) =~= spec_expand(
        template@,
        job.input@,
        out@,
    ));
    while i < n
        invariant
            i <= n,
            n == template@.len(),
            out@ == spec_out_name(job.index as nat),
            r@ + spec_expand(template@.skip(i as int), job.input@, out@) == spec_expand(
                template@,
                job.input@,
                out@,
            ),
        decreases n - i,
    {
        proof {
            reveal_strlit("{}");
            reveal_strlit("{out}");
            assert("{}"@ =~= brace_pat());
            assert("{out}"@ =~= out_pat());
            lemma_expand_step(template@, job.input@, out@, i as int);
        }
        let ghost prev = r@;
        if matches_at(template, "{}", i) {
            r.append(job.input.as_str());
            assert(prev + (job.input@ + spec_expand(template@.skip(i + 2), job.input@, out@)) =~= (
            prev + job.input@) + spec_expand(template@.skip(i + 2), job.input@, out@));
            i += 2;
        } else if matches_at(template, "{out}", i) {
            r.append(out.as_str());
            assert(prev + (out@ + spec_expand(template@.skip(i + 5), job.input@, out@)) =~= (prev
                + out@) + spec_expand(template@.skip(i + 5), job.input@, out@));
            i += 5;
        } else {
            r.append(template.substring_char(i, i + 1));
            assert(template@.subrange(i as int, i as int + 1) =~= seq![template@[i as int]]);
            assert(prev + (seq![template@[i as int]] + spec_expand(
                template@.skip(i as int + 1),
                job.input@,
                out@,
            )) =~= (prev + seq![template@[i as int]]) + spec_expand(
                template@.skip(i as int + 1),
                job.input@,
                out@,
            ));
            i += 1;
        }
    }
    assert(template@.skip(n as int) =~= Seq::<char>::empty());
    assert(r@ + Seq::<char>::empty() =~= r@);
    r
}

} // verus!
