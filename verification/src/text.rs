use vstd::prelude::*;

verus! {

/// The result of replacing, left to right, every non-overlapping occurrence
/// of `pat` in `s` by `rep`. An empty pattern leaves the text unchanged.
pub open spec fn spec_replace(s: Seq<char>, pat: Seq<char>, rep: Seq<char>) -> Seq<char>
    decreases s.len(),
{
    if pat.len() == 0 || s.len() < pat.len() {
        s
    } else if s.subrange(0, pat.len() as int) == pat {
        rep + spec_replace(s.skip(pat.len() as int), pat, rep)
    } else {
        seq![s[0]] + spec_replace(s.skip(1), pat, rep)
    }
}

/// `pat` occurs in `s` starting at position `i`.
pub open spec fn spec_match_at(s: Seq<char>, pat: Seq<char>, i: int) -> bool {
    0 <= i && i + pat.len() <= s.len() && s.subrange(i, i + pat.len() as int) == pat
}

/// `pat` occurs somewhere in `s`.
pub open spec fn spec_contains(s: Seq<char>, pat: Seq<char>) -> bool {
    exists|i: int| spec_match_at(s, pat, i)
}

/// Character-for-character string equality, decided without any assumption
/// on the encoding.
pub fn str_eq(a: &str, b: &str) -> (r: bool)
    ensures
        r == (a@ == b@),
{
    let a_len = a.unicode_len();
    let b_len = b.unicode_len();
    if a_len != b_len {
        return false;
    }
    let mut j: usize = 0;
    while j < a_len
        invariant
            j <= a_len,
            a_len == a@.len(),
            a_len == b@.len(),
            forall|k: int| 0 <= k < j ==> a@[k] == b@[k],
        decreases a_len - j,
    {
        if a.get_char(j) != b.get_char(j) {
            return false;
        }
        j = j + 1;
    }
    proof {
        assert(a@ =~= b@);
    }
    true
}

/// Whether `pat` matches the text of `s` starting at character position `i`.
fn match_at(s: &str, pat: &str, i: usize) -> (r: bool)
    requires
        i + pat@.len() <= s@.len(),
    ensures
        r == spec_match_at(s@, pat@, i as int),
{
    let s_len = s.unicode_len();
    let pat_len = pat.unicode_len();
    let mut j: usize = 0;
    while j < pat_len
        invariant
            j <= pat_len,
            s_len == s@.len(),
            pat_len == pat@.len(),
            i + pat@.len() <= s@.len(),
            forall|k: int| 0 <= k < j ==> s@[i + k] == pat@[k],
        decreases pat_len - j,
    {
        if s.get_char(i + j) != pat.get_char(j) {
            proof {
                assert(s@.subrange(i as int, i + pat@.len() as int)[j as int] != pat@[j as int]);
            }
            return false;
        }
        j = j + 1;
    }
    proof {
        assert(s@.subrange(i as int, i + pat@.len() as int) =~= pat@);
    }
    true
}

/// Replaces, left to right, every non-overlapping occurrence of `pat` in `s`
/// by `rep`, exactly as `spec_replace` describes.
pub fn replace_all(s: &str, pat: &str, rep: &str) -> (r: String)
    requires
        pat@.len() >= 1,
    ensures
        r@ == spec_replace(s@, pat@, rep@),
{
    let s_len = s.unicode_len();
    let pat_len = pat.unicode_len();
    let mut out = String::new();
    let mut i: usize = 0;
    proof {
        assert(s@.skip(0) =~= s@);
        assert(Seq::<char>::empty() + spec_replace(s@, pat@, rep@) =~= spec_replace(s@, pat@, rep@));
    }
    while pat_len <= s_len - i
        invariant
            i <= s_len,
            s_len == s@.len(),
            pat_len == pat@.len(),
            pat@.len() >= 1,
            spec_replace(s@, pat@, rep@) == out@ + spec_replace(s@.skip(i as int), pat@, rep@),
        decreases s_len - i,
    {
        let ghost tail = s@.skip(i as int);
        let ghost prev = out@;
        proof {
            assert(tail.len() == s@.len() - i);
            assert(tail.subrange(0, pat@.len() as int) =~= s@.subrange(
                i as int,
                i + pat@.len() as int,
            ));
        }
        if match_at(s, pat, i) {
            out.append(rep);
            proof {
                assert(tail.skip(pat@.len() as int) =~= s@.skip(i + pat@.len()));
                assert(spec_replace(tail, pat@, rep@) == rep@ + spec_replace(
                    s@.skip(i + pat@.len()),
                    pat@,
                    rep@,
                ));
                assert(prev + (rep@ + spec_replace(s@.skip(i + pat@.len()), pat@, rep@)) =~= (prev
                    + rep@) + spec_replace(s@.skip(i + pat@.len()), pat@, rep@));
            }
            i = i + pat_len;
        } else {
            out.append(s.substring_char(i, i + 1));
            proof {
                assert(tail.skip(1) =~= s@.skip(i + 1));
                assert(s@.subrange(i as int, i + 1) =~= seq![s@[i as int]]);
                assert(spec_replace(tail, pat@, rep@) == seq![tail[0]] + spec_replace(
                    s@.skip(i + 1),
                    pat@,
                    rep@,
                ));
                assert(tail[0] == s@[i as int]);
                assert(prev + (seq![s@[i as int]] + spec_replace(s@.skip(i + 1), pat@, rep@)) =~= (
                prev + s@.subrange(i as int, i + 1)) + spec_replace(s@.skip(i + 1), pat@, rep@));
            }
            i = i + 1;
        }
    }
    let rest = s.substring_char(i, s_len);
    out.append(rest);
    proof {
        assert(s@.subrange(i as int, s_len as int) =~= s@.skip(i as int));
        assert(spec_replace(s@.skip(i as int), pat@, rep@) == s@.skip(i as int));
    }
    out
}

/// A pattern that occurs nowhere in the text is a no-op: the replacement
/// leaves the text unchanged.
pub proof fn lemma_replace_absent(s: Seq<char>, pat: Seq<char>, rep: Seq<char>)
    requires
        pat.len() >= 1,
        !spec_contains(s, pat),
    ensures
        spec_replace(s, pat, rep) == s,
    decreases s.len(),
{
    if s.len() < pat.len() {
    } else {
        assert(!spec_match_at(s, pat, 0));
        assert(s.subrange(0, pat.len() as int) != pat);
        assert forall|i: int| !spec_match_at(s.skip(1), pat, i) by {
            if spec_match_at(s.skip(1), pat, i) {
                assert(s.subrange(i + 1, i + 1 + pat.len()) =~= s.skip(1).subrange(
                    i,
                    i + pat.len() as int,
                ));
                assert(spec_match_at(s, pat, i + 1));
            }
        }
        lemma_replace_absent(s.skip(1), pat, rep);
        assert(seq![s[0]] + s.skip(1) =~= s);
    }
}

/// Replacement skips over a leading stretch of text in which no match
/// starts, and goes on in the rest.
pub proof fn lemma_replace_after_prefix(a: Seq<char>, t: Seq<char>, pat: Seq<char>, rep: Seq<char>)
    requires
        pat.len() >= 1,
        forall|i: int| 0 <= i < a.len() ==> !spec_match_at(a + t, pat, i),
    ensures
        spec_replace(a + t, pat, rep) == a + spec_replace(t, pat, rep),
    decreases a.len(),
{
    let s = a + t;
    if a.len() == 0 {
        assert(s =~= t);
        assert(a + spec_replace(t, pat, rep) =~= spec_replace(t, pat, rep));
    } else {
        assert(!spec_match_at(s, pat, 0));
        if s.len() < pat.len() {
            assert(t.len() < pat.len());
            assert(spec_replace(t, pat, rep) == t);
        } else {
            assert(s.subrange(0, pat.len() as int) != pat);
            let a1 = a.skip(1);
            assert(s.skip(1) =~= a1 + t);
            assert forall|i: int| 0 <= i < a1.len() implies !spec_match_at(a1 + t, pat, i) by {
                if spec_match_at(a1 + t, pat, i) {
                    assert(s.subrange(i + 1, i + 1 + pat.len()) =~= (a1 + t).subrange(
                        i,
                        i + pat.len() as int,
                    ));
                    assert(spec_match_at(s, pat, i + 1));
                }
            }
            lemma_replace_after_prefix(a1, t, pat, rep);
            assert(s[0] == a[0]);
            assert(seq![a[0]] + (a1 + spec_replace(t, pat, rep)) =~= a + spec_replace(
                t,
                pat,
                rep,
            ));
        }
    }
}

/// Replacement of a text that starts with the pattern replaces that
/// occurrence and goes on after it.
pub proof fn lemma_replace_at_match(t: Seq<char>, pat: Seq<char>, rep: Seq<char>)
    requires
        pat.len() >= 1,
    ensures
        spec_replace(pat + t, pat, rep) == rep + spec_replace(t, pat, rep),
{
    let s = pat + t;
    assert(s.subrange(0, pat.len() as int) =~= pat);
    assert(s.skip(pat.len() as int) =~= t);
}

/// A text holding exactly two occurrences of a pattern has both replaced.
/// The text is given decomposed as `a + pat + b + pat + c`, with the side
/// conditions that say that the left-to-right scan finds no occurrence
/// before those two: none starts inside `a` or inside `b`, and none lies in
/// `c`.
pub proof fn lemma_replace_two_occurrences(
    a: Seq<char>,
    b: Seq<char>,
    c: Seq<char>,
    pat: Seq<char>,
    rep: Seq<char>,
)
    requires
        pat.len() >= 1,
        forall|i: int| 0 <= i < a.len() ==> !spec_match_at(a + pat + b + pat + c, pat, i),
        forall|i: int| 0 <= i < b.len() ==> !spec_match_at(b + pat + c, pat, i),
        !spec_contains(c, pat),
    ensures
        spec_replace(a + pat + b + pat + c, pat, rep) == a + rep + b + rep + c,
{
    let inner = b + pat + c;
    let whole = a + pat + b + pat + c;
    assert(whole =~= a + (pat + inner));
    assert forall|i: int| 0 <= i < a.len() implies !spec_match_at(a + (pat + inner), pat, i) by {
        assert(!spec_match_at(whole, pat, i));
    }
    lemma_replace_after_prefix(a, pat + inner, pat, rep);
    lemma_replace_at_match(inner, pat, rep);
    assert(inner =~= b + (pat + c));
    lemma_replace_after_prefix(b, pat + c, pat, rep);
    lemma_replace_at_match(c, pat, rep);
    lemma_replace_absent(c, pat, rep);
    assert(a + (rep + (b + (rep + c))) =~= a + rep + b + rep + c);
}

/// The character standing for one decimal digit.
pub open spec fn spec_digit(d: int) -> char {
    if d == 0 {
        '0'
    } else if d == 1 {
        '1'
    } else if d == 2 {
        '2'
    } else if d == 3 {
        '3'
    } else if d == 4 {
        '4'
    } else if d == 5 {
        '5'
    } else if d == 6 {
        '6'
    } else if d == 7 {
        '7'
    } else if d == 8 {
        '8'
    } else {
        '9'
    }
}

/// The decimal writing of a non-negative number, most significant digit
/// first and without leading zeros.
pub open spec fn spec_dec_nat(n: int) -> Seq<char>
    decreases n,
{
    if n < 10 {
        seq![spec_digit(n)]
    } else {
        spec_dec_nat(n / 10).push(spec_digit(n % 10))
    }
}

/// The decimal writing of a signed number: a minus sign before the digits
/// when it is negative.
pub open spec fn spec_dec_int(n: int) -> Seq<char> {
    if n < 0 {
        seq!['-'] + spec_dec_nat(-n)
    } else {
        spec_dec_nat(n)
    }
}

fn digit_str(d: u64) -> (r: &'static str)
    requires
        d < 10,
    ensures
        r@ == seq![spec_digit(d as int)],
{
    let r: &'static str = match d {
        0 => "0",
        1 => "1",
        2 => "2",
        3 => "3",
        4 => "4",
        5 => "5",
        6 => "6",
        7 => "7",
        8 => "8",
        _ => "9",
    };
    proof {
        reveal_strlit("0");
        reveal_strlit("1");
        reveal_strlit("2");
        reveal_strlit("3");
        reveal_strlit("4");
        reveal_strlit("5");
        reveal_strlit("6");
        reveal_strlit("7");
        reveal_strlit("8");
        reveal_strlit("9");
        assert(r@ =~= seq![spec_digit(d as int)]);
    }
    r
}

/// Writes a number in decimal.
pub fn u64_to_string(n: u64) -> (r: String)
    ensures
        r@ == spec_dec_nat(n as int),
    decreases n,
{
    if n < 10 {
        String::from_str(digit_str(n))
    } else {
        let mut r = u64_to_string(n / 10);
        r.append(digit_str(n % 10));
        proof {
            assert(spec_dec_nat((n / 10) as int).push(spec_digit((n % 10) as int)) =~= spec_dec_nat(
                (n / 10) as int,
            ) + seq![spec_digit((n % 10) as int)]);
        }
        r
    }
}

/// Writes a signed number in decimal, with a minus sign when it is
/// negative.
pub fn i64_to_string(n: i64) -> (r: String)
    ensures
        r@ == spec_dec_int(n as int),
{
    if n < 0 {
        let mag: u64 = ((-(n + 1)) as u64) + 1;
        assert(mag == -(n as int));
        let mut r = String::from_str("-");
        let digits = u64_to_string(mag);
        r.append(digits.as_str());
        proof {
            reveal_strlit("-");
            assert(("-")@ =~= seq!['-']);
        }
        r
    } else {
        u64_to_string(n as u64)
    }
}

} // verus!
