//! Filename sanitization: turn an arbitrary input line into a safe filename
//! by keeping alphanumeric characters and replacing everything else with `_`.

use vstd::prelude::*;

verus! {

/// What `char::is_alphanumeric` returns for `c`; it depends on the character alone.
pub uninterp spec fn alphanumeric_char(c: char) -> bool;

/// Relies on char::is_alphanumeric from std: whether a character counts as
/// alphanumeric, a fixed classification of the character alone.
#[verifier::external_body]
fn char_is_alphanumeric(c: char) -> (r: bool)
    ensures
        r == alphanumeric_char(c),
{
    c.is_alphanumeric()
}

/// What sanitizing does: every character that is not alphanumeric becomes `_`.
pub open spec fn spec_sanitize(s: Seq<char>) -> Seq<char> {
    s.map(|_i: int, c: char| if alphanumeric_char(c) { c } else { '_' })
}

/// Sanitize a string to make a safe filename.
pub fn sanitize_filename(input: &str) -> (r: String)
    ensures
        r@ == spec_sanitize(input@),
{
    let n = input.unicode_len();
    let mut r = String::new();
    let mut i: usize = 0;
    while i < n
        invariant
            i <= n,
            n == input@.len(),
            r@ =~= spec_sanitize(input@.subrange(0, i as int)),
        decreases n - i,
    {
        let c = input.get_char(i);
        if char_is_alphanumeric(c) {
            r.append(input.substring_char(i, i + 1));
        } else {
            proof { reveal_strlit("_"); }
            r.append("_");
            assert("_"@ =~= seq!['_']);
        }
        assert(r@ =~= spec_sanitize(input@.subrange(0, i as int + 1))) by {
            assert(input@.subrange(i as int, i as int + 1) =~= seq![input@[i as int]]);
            assert forall|k: int| 0 <= k < i as int + 1 implies r@[k] == spec_sanitize(
                input@.subrange(0, i as int + 1),
            )[k] by {
                assert(input@.subrange(0, i as int + 1)[k] == input@[k]);
                if k < i {
                    assert(input@.subrange(0, i as int)[k] == input@[k]);
                }
            }
        }
        i += 1;
    }
    assert(input@.subrange(0, n as int) =~= input@);
    r
}

} // verus!
