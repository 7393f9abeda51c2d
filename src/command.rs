use vstd::prelude::*;

verus! {

/// Whether `c` has Unicode's White_Space property.
pub uninterp spec fn is_space(c: char) -> bool;

/// Relies on `char::is_whitespace`: whether a character is white space
/// depends on the character alone.
#[verifier::external_body]
fn char_is_space(c: char) -> (r: bool)
    ensures
        r == is_space(c),
{
    c.is_whitespace()
}

/// The words of `s`, where `cur` is a word already begun before `s`.
pub open spec fn words_from(cur: Seq<char>, s: Seq<char>) -> Seq<Seq<char>>
    decreases s.len(),
{
    if s.len() == 0 {
        if cur.len() == 0 {
            seq![]
        } else {
            seq![cur]
        }
    } else if is_space(s[0]) {
        if cur.len() == 0 {
            words_from(cur, s.drop_first())
        } else {
            seq![cur] + words_from(seq![], s.drop_first())
        }
    } else {
        words_from(cur.push(s[0]), s.drop_first())
    }
}

/// The maximal runs of non-space characters of `s`, in order.
pub open spec fn words(s: Seq<char>) -> Seq<Seq<char>> {
    words_from(seq![], s)
}

/// Every character of `s` is white space (the empty string included).
pub open spec fn is_blank(s: Seq<char>) -> bool {
    forall|i: int| 0 <= i < s.len() ==> is_space(#[trigger] s[i])
}

proof fn lemma_words_from_empty(cur: Seq<char>, s: Seq<char>)
    ensures
        words_from(cur, s).len() == 0 <==> (cur.len() == 0 && is_blank(s)),
    decreases s.len(),
{
    if s.len() > 0 {
        let rest = s.drop_first();
        lemma_words_from_empty(seq![], rest);
        lemma_words_from_empty(cur.push(s[0]), rest);
        lemma_words_from_empty(cur, rest);
        assert(is_blank(s) <==> (is_space(s[0]) && is_blank(rest))) by {
            if is_space(s[0]) && is_blank(rest) {
                assert forall|i: int| 0 <= i < s.len() implies is_space(#[trigger] s[i]) by {
                    if i > 0 {
                        assert(s[i] == rest[i - 1]);
                    }
                }
            }
            if is_blank(s) {
                assert forall|i: int| 0 <= i < rest.len() implies is_space(#[trigger] rest[i]) by {
                    assert(rest[i] == s[i + 1]);
                }
            }
        }
    }
}

/// A command has no words exactly when it is blank.
pub proof fn lemma_words_empty_iff_blank(s: Seq<char>)
    ensures
        words(s).len() == 0 <==> is_blank(s),
{
    lemma_words_from_empty(seq![], s);
}

/// Splits `s` into its whitespace-separated words.
pub fn split_command(s: &str) -> (r: Vec<String>)
    ensures
        r@.map_values(|t: String| t@) == words(s@),
{
    let n = s.unicode_len();
    let mut out: Vec<String> = Vec::new();
    let mut start: usize = 0;
    let mut in_word = false;
    let mut i: usize = 0;
    proof {
        assert(s@.skip(0) =~= s@);
        assert(out@.map_values(|t: String| t@) + words(s@) =~= words(s@));
    }
    while i < n
        invariant
            n == s@.len(),
            start <= i <= n,
            out@.map_values(|t: String| t@) + words_from(
                if in_word { s@.subrange(start as int, i as int) } else { seq![] },
                s@.skip(i as int),
            ) == words(s@),
            in_word ==> start < i,
        decreases n - i,
    {
        let c = s.get_char(i);
        let ghost rest = s@.skip(i as int);
        let ghost cur = if in_word { s@.subrange(start as int, i as int) } else { seq![] };
        proof {
            assert(rest[0] == c);
            assert(rest.drop_first() =~= s@.skip(i + 1));
        }
        if char_is_space(c) {
            if in_word {
                let w = s.substring_char(start, i).to_owned();
                let ghost before = out@;
                out.push(w);
                in_word = false;
                proof {
                    assert(out@.map_values(|t: String| t@) =~= before.map_values(|t: String| t@)
                        + seq![cur]);
                }
            }
        } else {
            if !in_word {
                in_word = true;
                start = i;
            }
            proof {
                assert(cur.push(c) =~= s@.subrange(start as int, i + 1));
            }
        }
        i = i + 1;
    }
    proof {
        assert(s@.skip(n as int).len() == 0);
    }
    if in_word {
        let w = s.substring_char(start, n).to_owned();
        let ghost before = out@;
        out.push(w);
        proof {
            assert(out@.map_values(|t: String| t@) =~= before.map_values(|t: String| t@) + seq![
                s@.subrange(start as int, n as int)]);
        }
    }
    proof {
        assert(out@.map_values(|t: String| t@) =~= words(s@));
    }
    out
}

} // verus!
