//! Substitution of `${NAME}` placeholders in command text: each pair of
//! the environment replaces every occurrence of its braced name, pairs
//! applied in the order given, scanning left to right without rescanning
//! what a substitution produced. The text is handled as bytes; the
//! placeholder delimiters are plain ASCII, so this agrees with the same
//! substitution on the decoded text.

use vstd::prelude::*;

verus! {

/// `text` with every occurrence of `pat` replaced by `sub`: scan from
/// the left, replace a match and continue after it, keep a non-matching
/// byte. An empty pattern replaces nothing.
pub open spec fn replaced(text: Seq<u8>, pat: Seq<u8>, sub: Seq<u8>) -> Seq<u8>
    decreases text.len(),
{
    if pat.len() == 0 || text.len() < pat.len() {
        text
    } else if text.take(pat.len() as int) == pat {
        sub + replaced(text.skip(pat.len() as int), pat, sub)
    } else {
        seq![text[0]] + replaced(text.drop_first(), pat, sub)
    }
}

/// The placeholder a named variable stands behind: `${`, the name, `}`.
pub open spec fn env_pattern(key: Seq<u8>) -> Seq<u8> {
    seq![36u8, 123u8] + key + seq![125u8]
}

/// `text` after substituting the pairs one by one, in order.
pub open spec fn replaced_all_pairs(text: Seq<u8>, pairs: Seq<(Seq<u8>, Seq<u8>)>) -> Seq<u8>
    decreases pairs.len(),
{
    if pairs.len() == 0 {
        text
    } else {
        replaced_all_pairs(
            replaced(text, env_pattern(pairs.first().0), pairs.first().1),
            pairs.drop_first(),
        )
    }
}

/// The key/value views of an environment.
pub open spec fn pairs_view(env: Seq<(Vec<u8>, Vec<u8>)>) -> Seq<(Seq<u8>, Seq<u8>)> {
    env.map_values(|p: (Vec<u8>, Vec<u8>)| (p.0@, p.1@))
}

/// Replace every occurrence of `pat` in `text` by `sub`.
pub fn replace_all_bytes(text: &Vec<u8>, pat: &Vec<u8>, sub: &Vec<u8>) -> (r: Vec<u8>)
    ensures
        r@ == replaced(text@, pat@, sub@),
    decreases text@.len(),
{
    let mut out: Vec<u8> = Vec::new();
    if pat.len() == 0 {
        let mut i: usize = 0;
        while i < text.len()
            invariant
                0 <= i <= text@.len(),
                out@ =~= text@.take(i as int),
            decreases text@.len() - i,
        {
            out.push(text[i]);
            i = i + 1;
        }
        proof {
            assert(out@ =~= text@);
        }
        return out;
    }
    let mut i: usize = 0;
    proof {
        assert(text@.skip(0) =~= text@);
        assert(out@ + replaced(text@, pat@, sub@) =~= replaced(text@, pat@, sub@));
    }
    while i < text.len()
        invariant
            0 <= i <= text@.len(),
            pat@.len() > 0,
            replaced(text@, pat@, sub@) == out@ + replaced(text@.skip(i as int), pat@, sub@),
        decreases text@.len() - i,
    {
        let ghost rest = text@.skip(i as int);
        let mut matched = false;
        if pat.len() <= text.len() - i {
            let mut j: usize = 0;
            matched = true;
            while j < pat.len()
                invariant
                    0 <= j <= pat@.len(),
                    0 <= i,
                    i + pat@.len() <= text@.len(),
                    text@.len() <= usize::MAX,
                    matched == (forall|k: int| 0 <= k < j ==> text@[i + k] == pat@[k]),
                    !matched ==> j == pat@.len(),
                decreases pat@.len() - j,
            {
                if text[i + j] != pat[j] {
                    matched = false;
                    j = pat.len();
                } else {
                    proof {
                        assert(forall|k: int| 0 <= k < j ==> text@[i + k] == pat@[k]);
                        assert(text@[i + j] == pat@[j as int]);
                    }
                    j = j + 1;
                }
            }
        }
        if matched {
            proof {
                assert(rest.len() >= pat@.len());
                assert(rest.take(pat@.len() as int) =~= pat@);
                assert(replaced(rest, pat@, sub@) == sub@ + replaced(
                    rest.skip(pat@.len() as int),
                    pat@,
                    sub@,
                ));
                assert(rest.skip(pat@.len() as int) =~= text@.skip(i + pat@.len()));
            }
            let mut j: usize = 0;
            let ghost out0 = out@;
            while j < sub.len()
                invariant
                    0 <= j <= sub@.len(),
                    out@ =~= out0 + sub@.take(j as int),
                decreases sub@.len() - j,
            {
                out.push(sub[j]);
                j = j + 1;
            }
            proof {
                assert(out@ =~= out0 + sub@);
            }
            i = i + pat.len();
        } else {
            proof {
                if rest.len() >= pat@.len() {
                    let k = choose|k: int|
                        0 <= k < pat@.len() && text@[i + k] != pat@[k];
                    assert(rest.take(pat@.len() as int)[k] == text@[i + k]);
                    assert(rest.take(pat@.len() as int) != pat@);
                }
                assert(replaced(rest, pat@, sub@) == seq![rest[0]] + replaced(
                    rest.drop_first(),
                    pat@,
                    sub@,
                ));
                assert(rest.drop_first() =~= text@.skip(i + 1));
                assert(rest[0] == text@[i as int]);
            }
            out.push(text[i]);
            i = i + 1;
        }
    }
    proof {
        assert(text@.skip(text@.len() as int) =~= Seq::<u8>::empty());
        assert(replaced(text@, pat@, sub@) =~= out@);
    }
    out
}

/// Substitute every `${NAME}` of the environment into `text`, pair by
/// pair in the order given.
pub fn replace_env_variable(text: &Vec<u8>, env: &Vec<(Vec<u8>, Vec<u8>)>) -> (r: Vec<u8>)
    ensures
        r@ == replaced_all_pairs(text@, pairs_view(env@)),
{
    let mut cur: Vec<u8> = Vec::new();
    let mut i: usize = 0;
    while i < text.len()
        invariant
            0 <= i <= text@.len(),
            cur@ =~= text@.take(i as int),
        decreases text@.len() - i,
    {
        cur.push(text[i]);
        i = i + 1;
    }
    proof {
        assert(cur@ =~= text@);
    }
    let mut k: usize = 0;
    proof {
        assert(pairs_view(env@).skip(0) =~= pairs_view(env@));
    }
    while k < env.len()
        invariant
            0 <= k <= env@.len(),
            replaced_all_pairs(text@, pairs_view(env@)) == replaced_all_pairs(
                cur@,
                pairs_view(env@).skip(k as int),
            ),
        decreases env@.len() - k,
    {
        let ghost pv = pairs_view(env@);
        let mut pat: Vec<u8> = Vec::new();
        pat.push(36u8);
        pat.push(123u8);
        let mut j: usize = 0;
        let key = &env[k].0;
        while j < key.len()
            invariant
                0 <= j <= key@.len(),
                pat@ =~= seq![36u8, 123u8] + key@.take(j as int),
            decreases key@.len() - j,
        {
            pat.push(key[j]);
            j = j + 1;
        }
        pat.push(125u8);
        proof {
            assert(pat@ =~= env_pattern(env@[k as int].0@));
            assert(pv.skip(k as int).first() == pv[k as int]);
            assert(pv.skip(k as int).drop_first() =~= pv.skip(k + 1));
        }
        cur = replace_all_bytes(&cur, &pat, &env[k].1);
        k = k + 1;
    }
    proof {
        assert(pairs_view(env@).skip(env@.len() as int) =~= Seq::<(Seq<u8>, Seq<u8>)>::empty());
    }
    cur
}

} // verus!
