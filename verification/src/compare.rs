//! Output comparator: decides whether a target's output matches the
//! reference output, either byte for byte (strict mode) or token-wise,
//! where runs of whitespace count as a single separator and leading or
//! trailing whitespace is ignored.

use vstd::prelude::*;

verus! {

/// Outcome of comparing two output files.
#[derive(Clone, Copy, Debug, PartialEq, Eq, Structural)]
pub enum Comparison {
    Match,
    Mismatch,
}

/// The whitespace bytes that separate tokens: space, tab, line feed,
/// carriage return.
pub open spec fn is_ws(b: u8) -> bool {
    b == 32u8 || b == 9u8 || b == 10u8 || b == 13u8
}

/// The sequence of whitespace-separated tokens of an output, in order.
/// Defined by how one more trailing byte changes the token list: a
/// whitespace byte changes nothing, a non-whitespace byte either extends
/// the last token (when the byte before it was also non-whitespace) or
/// starts a new one.
pub open spec fn tokens(s: Seq<u8>) -> Seq<Seq<u8>>
    decreases s.len(),
{
    if s.len() == 0 {
        Seq::empty()
    } else {
        let prefix = s.drop_last();
        let t = tokens(prefix);
        let b = s.last();
        if is_ws(b) {
            t
        } else if prefix.len() > 0 && !is_ws(prefix.last()) {
            t.update(t.len() - 1, t.last().push(b))
        } else {
            t.push(seq![b])
        }
    }
}

/// A word: what a token must be, something non-empty with no whitespace
/// byte inside.
pub open spec fn is_word(t: Seq<u8>) -> bool {
    t.len() > 0 && forall|j: int| 0 <= j < t.len() ==> !is_ws(#[trigger] t[j])
}

/// Every token of any output is a word: tokenization never yields an
/// empty token and never lets a whitespace byte into one.
pub proof fn lemma_tokens_are_words(s: Seq<u8>)
    ensures
        forall|i: int| 0 <= i < tokens(s).len() ==> is_word(#[trigger] tokens(s)[i]),
        s.len() > 0 && !is_ws(s.last()) ==> tokens(s).len() > 0,
    decreases s.len(),
{
    if s.len() > 0 {
        let prefix = s.drop_last();
        let t = tokens(prefix);
        let b = s.last();
        lemma_tokens_are_words(prefix);
        if is_ws(b) {
        } else if prefix.len() > 0 && !is_ws(prefix.last()) {
            assert(t.len() > 0);
            assert(is_word(t.last().push(b)));
            assert forall|i: int| 0 <= i < tokens(s).len() implies is_word(
                #[trigger] tokens(s)[i],
            ) by {
                if i < t.len() - 1 {
                    assert(tokens(s)[i] == t[i]);
                }
            }
        } else {
            assert(is_word(seq![b]));
        }
    }
}

/// Two outputs are equivalent when they are byte-identical (strict mode)
/// or when their token sequences agree (whitespace-insensitive mode).
pub open spec fn outputs_equivalent(expected: Seq<u8>, actual: Seq<u8>, strict: bool) -> bool {
    if strict {
        expected == actual
    } else {
        tokens(expected) == tokens(actual)
    }
}

/// Split an output into its whitespace-separated tokens.
pub fn tokenize(s: &Vec<u8>) -> (r: Vec<Vec<u8>>)
    ensures
        r.deep_view() == tokens(s@),
{
    let mut out: Vec<Vec<u8>> = Vec::new();
    let mut cur: Vec<u8> = Vec::new();
    let mut i: usize = 0;
    while i < s.len()
        invariant
            0 <= i <= s@.len(),
            cur@.len() == 0 ==> tokens(s@.take(i as int)) == out.deep_view(),
            cur@.len() == 0 ==> i == 0 || is_ws(s@[i - 1]),
            cur@.len() > 0 ==> tokens(s@.take(i as int)) == out.deep_view().push(cur@),
            cur@.len() > 0 ==> i > 0 && !is_ws(s@[i - 1]),
        decreases s@.len() - i,
    {
        let b = s[i];
        let ghost pre = s@.take(i as int);
        let ghost t = tokens(pre);
        proof {
            assert(s@.take(i + 1).drop_last() =~= pre);
            assert(s@.take(i + 1).last() == s@[i as int]);
            if i > 0 {
                assert(pre.last() == s@[i - 1]);
            }
        }
        if b == 32u8 || b == 9u8 || b == 10u8 || b == 13u8 {
            proof {
                assert(tokens(s@.take(i + 1)) == t);
            }
            if cur.len() > 0 {
                let ghost out0 = out.deep_view();
                let ghost cur0 = cur@;
                out.push(cur);
                cur = Vec::new();
                proof {
                    assert(out.deep_view() =~~= out0.push(cur0));
                }
            }
        } else {
            if cur.len() > 0 {
                // the previous byte was not whitespace: the last token grows
                let ghost cur0 = cur@;
                cur.push(b);
                proof {
                    assert(pre.len() > 0 && !is_ws(pre.last()));
                    assert(tokens(s@.take(i + 1)) == t.update(
                        t.len() - 1,
                        t.last().push(s@[i as int]),
                    ));
                    assert(t == out.deep_view().push(cur0));
                    assert(t.last() == cur0);
                    assert(t.update(t.len() - 1, t.last().push(s@[i as int])) =~~= out.deep_view()
                        .push(cur@));
                }
            } else {
                // a fresh token starts here
                cur.push(b);
                proof {
                    assert(pre.len() == 0 || is_ws(pre.last()));
                    assert(tokens(s@.take(i + 1)) == t.push(seq![s@[i as int]]));
                    assert(t == out.deep_view());
                    assert(cur@ =~= seq![s@[i as int]]);
                }
            }
        }
        i = i + 1;
    }
    proof {
        assert(s@.take(s@.len() as int) =~= s@);
    }
    if cur.len() > 0 {
        let ghost out0 = out.deep_view();
        let ghost cur0 = cur@;
        out.push(cur);
        proof {
            assert(out.deep_view() =~~= out0.push(cur0));
        }
    }
    out
}

/// Byte-for-byte equality of two outputs.
pub fn bytes_equal(a: &Vec<u8>, b: &Vec<u8>) -> (r: bool)
    ensures
        r == (a@ == b@),
{
    if a.len() != b.len() {
        return false;
    }
    let mut i: usize = 0;
    while i < a.len()
        invariant
            a@.len() == b@.len(),
            0 <= i <= a@.len(),
            forall|j: int| 0 <= j < i ==> a@[j] == b@[j],
        decreases a@.len() - i,
    {
        if a[i] != b[i] {
            return false;
        }
        i = i + 1;
    }
    proof {
        assert(a@ =~= b@);
    }
    true
}

/// Compare two outputs. In strict mode the files must agree byte for
/// byte; otherwise they match exactly when their token sequences agree,
/// so that differences in the amount of whitespace between tokens, and
/// leading or trailing whitespace, never count as a mismatch.
pub fn compare_outputs(expected: &Vec<u8>, actual: &Vec<u8>, strict: bool) -> (r: Comparison)
    ensures
        (r == Comparison::Match) == outputs_equivalent(expected@, actual@, strict),
{
    if strict {
        if bytes_equal(expected, actual) {
            Comparison::Match
        } else {
            Comparison::Mismatch
        }
    } else {
        let te = tokenize(expected);
        let ta = tokenize(actual);
        if te.len() != ta.len() {
            proof {
                assert(te.deep_view().len() == te@.len());
                assert(ta.deep_view().len() == ta@.len());
            }
            return Comparison::Mismatch;
        }
        let mut i: usize = 0;
        while i < te.len()
            invariant
                te.deep_view() == tokens(expected@),
                ta.deep_view() == tokens(actual@),
                te@.len() == ta@.len(),
                0 <= i <= te@.len(),
                forall|j: int| 0 <= j < i ==> te.deep_view()[j] == ta.deep_view()[j],
            decreases te@.len() - i,
        {
            if !bytes_equal(&te[i], &ta[i]) {
                proof {
                    assert(te.deep_view()[i as int] =~= te@[i as int]@);
                    assert(ta.deep_view()[i as int] =~= ta@[i as int]@);
                }
                return Comparison::Mismatch;
            }
            proof {
                assert(te.deep_view()[i as int] =~= te@[i as int]@);
                assert(ta.deep_view()[i as int] =~= ta@[i as int]@);
            }
            i = i + 1;
        }
        proof {
            assert(tokens(expected@) =~= tokens(actual@));
        }
        Comparison::Match
    }
}

/// Where two outputs first disagree, token by token: nothing when their
/// token sequences agree; otherwise the index of the first differing
/// token, which is the point where one output runs out when one token
/// list is a prefix of the other. This is what a diff on a mismatch
/// points at.
pub fn first_token_difference(expected: &Vec<u8>, actual: &Vec<u8>) -> (r: Option<usize>)
    ensures
        r is None <==> tokens(expected@) == tokens(actual@),
        r matches Some(i) ==> {
            let te = tokens(expected@);
            let ta = tokens(actual@);
            &&& forall|j: int| 0 <= j < i ==> j < te.len() && j < ta.len() && te[j] == ta[j]
            &&& (i < te.len() && i < ta.len() ==> te[i as int] != ta[i as int])
            &&& (i >= te.len() || i >= ta.len() ==> te.len() != ta.len() && (i == te.len() || i
                == ta.len()))
        },
{
    let te = tokenize(expected);
    let ta = tokenize(actual);
    let shorter: usize = if te.len() <= ta.len() {
        te.len()
    } else {
        ta.len()
    };
    let mut i: usize = 0;
    while i < shorter
        invariant
            te.deep_view() == tokens(expected@),
            ta.deep_view() == tokens(actual@),
            shorter <= te@.len() && shorter <= ta@.len(),
            shorter == te@.len() || shorter == ta@.len(),
            0 <= i <= shorter,
            forall|j: int|
                0 <= j < i ==> j < te.deep_view().len() && j < ta.deep_view().len()
                    && te.deep_view()[j] == ta.deep_view()[j],
        decreases shorter - i,
    {
        if !bytes_equal(&te[i], &ta[i]) {
            proof {
                assert(te.deep_view()[i as int] =~= te@[i as int]@);
                assert(ta.deep_view()[i as int] =~= ta@[i as int]@);
            }
            return Some(i);
        }
        proof {
            assert(te.deep_view()[i as int] =~= te@[i as int]@);
            assert(ta.deep_view()[i as int] =~= ta@[i as int]@);
        }
        i = i + 1;
    }
    if te.len() == ta.len() {
        proof {
            assert(tokens(expected@) =~= tokens(actual@));
        }
        None
    } else {
        proof {
            assert(tokens(expected@).len() != tokens(actual@).len());
        }
        Some(shorter)
    }
}

/// Comparing any output with itself yields a match, in either mode.
pub proof fn lemma_compare_reflexive(s: Seq<u8>, strict: bool)
    ensures
        outputs_equivalent(s, s, strict),
{
}

} // verus!
