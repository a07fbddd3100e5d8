//! The template engine: literal substitution of the placeholder token in a
//! resource's static content.
use vstd::prelude::*;
use vstd::string::*;

verus! {

/// The placeholder token that templates carry where a matched
/// impression's identifier belongs.
pub open spec fn spec_macro_token() -> Seq<char> {
    "$[XX_IMP_ID]"@
}

/// `pat` occurs in `t` starting at position `i`.
pub open spec fn spec_occurs_at(t: Seq<char>, pat: Seq<char>, i: int) -> bool {
    0 <= i && i + pat.len() <= t.len() && t.subrange(i, i + pat.len() as int) == pat
}

/// `pat` occurs somewhere in `t`.
pub open spec fn spec_contains(t: Seq<char>, pat: Seq<char>) -> bool {
    exists|i: int| spec_occurs_at(t, pat, i)
}

/// `t` with every occurrence of `pat` replaced by `sub`, scanning left to
/// right and never rescanning substituted text, exactly as
/// `str::replace` does.
pub open spec fn spec_replace_all(t: Seq<char>, pat: Seq<char>, sub: Seq<char>) -> Seq<char>
    decreases t.len(),
{
    if pat.len() == 0 || t.len() < pat.len() {
        t
    } else if t.subrange(0, pat.len() as int) == pat {
        sub + spec_replace_all(t.skip(pat.len() as int), pat, sub)
    } else {
        seq![t[0]] + spec_replace_all(t.drop_first(), pat, sub)
    }
}

/// A template without the token renders unchanged: substitution touches
/// nothing but occurrences of the token.
pub proof fn lemma_replace_all_absent(t: Seq<char>, pat: Seq<char>, sub: Seq<char>)
    requires
        !spec_contains(t, pat),
    ensures
        spec_replace_all(t, pat, sub) == t,
    decreases t.len(),
{
    if pat.len() == 0 || t.len() < pat.len() {
    } else {
        assert(!spec_occurs_at(t, pat, 0));
        assert(t.subrange(0, pat.len() as int) != pat);
        assert forall|i: int| !spec_occurs_at(t.drop_first(), pat, i) by {
            if spec_occurs_at(t.drop_first(), pat, i) {
                assert(t.subrange(i + 1, i + 1 + pat.len() as int) =~= t.drop_first().subrange(
                    i,
                    i + pat.len() as int,
                ));
                assert(spec_occurs_at(t, pat, i + 1));
            }
        }
        lemma_replace_all_absent(t.drop_first(), pat, sub);
        assert(seq![t[0]] + t.drop_first() =~= t);
    }
}

/// `pat` matches `content` at position `i`.
fn matches_at(content: &str, pat: &str, i: usize) -> (r: bool)
    requires
        i + pat@.len() <= content@.len(),
    ensures
        r == (content@.subrange(i as int, i as int + pat@.len() as int) == pat@),
{
    let ghost window = content@.subrange(i as int, i as int + pat@.len() as int);
    let clen = content.unicode_len();
    let plen = pat.unicode_len();
    let mut j: usize = 0;
    while j < plen
        invariant
            j <= plen,
            plen == pat@.len(),
            i + plen <= content@.len(),
            clen == content@.len(),
            window == content@.subrange(i as int, i as int + plen as int),
            forall|k: int| 0 <= k < j ==> window[k] == pat@[k],
        decreases plen - j,
    {
        let c = content.get_char(i + j);
        let p = pat.get_char(j);
        if c != p {
            proof {
                assert(window[j as int] != pat@[j as int]);
            }
            return false;
        }
        j += 1;
    }
    proof {
        assert(window =~= pat@);
    }
    true
}

/// Replaces every occurrence of `pat` in `content` with `sub`, left to
/// right, without rescanning substituted text.
pub(crate) fn replace_all(content: &str, pat: &str, sub: &str) -> (r: String)
    requires
        pat@.len() > 0,
    ensures
        r@ == spec_replace_all(content@, pat@, sub@),
{
    let tlen = content.unicode_len();
    let plen = pat.unicode_len();
    let mut out = String::new();
    let mut i: usize = 0;
    proof {
        assert(content@.skip(0) =~= content@);
    }
    while i < tlen
        invariant
            i <= tlen,
            tlen == content@.len(),
            plen == pat@.len(),
            plen > 0,
            out@ + spec_replace_all(content@.skip(i as int), pat@, sub@) == spec_replace_all(
                content@,
                pat@,
                sub@,
            ),
        decreases tlen - i,
    {
        let ghost rest = content@.skip(i as int);
        if plen <= tlen - i && matches_at(content, pat, i) {
            proof {
                assert(rest.subrange(0, plen as int) =~= content@.subrange(
                    i as int,
                    i as int + plen as int,
                ));
                assert(rest.skip(plen as int) =~= content@.skip(i as int + plen as int));
                assert(spec_replace_all(rest, pat@, sub@) == sub@ + spec_replace_all(
                    content@.skip(i as int + plen as int),
                    pat@,
                    sub@,
                ));
                assert((out@ + sub@) + spec_replace_all(
                    content@.skip(i as int + plen as int),
                    pat@,
                    sub@,
                ) =~= out@ + (sub@ + spec_replace_all(
                    content@.skip(i as int + plen as int),
                    pat@,
                    sub@,
                )));
            }
            out.append(sub);
            i += plen;
        } else {
            let ch = content.substring_char(i, i + 1);
            proof {
                if plen <= tlen - i {
                    assert(rest.subrange(0, plen as int) =~= content@.subrange(
                        i as int,
                        i as int + plen as int,
                    ));
                } else {
                    assert(rest.len() < plen);
                }
                assert(rest.drop_first() =~= content@.skip(i as int + 1));
                assert(spec_replace_all(rest, pat@, sub@) == seq![rest[0]] + spec_replace_all(
                    content@.skip(i as int + 1),
                    pat@,
                    sub@,
                ));
                assert(ch@ =~= seq![rest[0]]);
                assert((out@ + ch@) + spec_replace_all(content@.skip(i as int + 1), pat@, sub@)
                    =~= out@ + (ch@ + spec_replace_all(content@.skip(i as int + 1), pat@, sub@)));
            }
            out.append(ch);
            i += 1;
        }
    }
    proof {
        assert(content@.skip(tlen as int).len() == 0);
        assert(out@ + spec_replace_all(content@.skip(tlen as int), pat@, sub@) =~= out@);
    }
    out
}

} // verus!
