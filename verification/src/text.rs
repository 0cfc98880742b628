//! Verified text utilities: reading a string slice out into its characters,
//! contiguous-run search, blank detection, and decimal rendering of numbers.

use vstd::prelude::*;
use vstd::string::StringExecFns;
use vstd::std_specs::iter::IteratorSpec;

verus! {

broadcast use vstd::string::axiom_spec_iter, vstd::string::next_postcondition;

/// The characters of `s`, collected into a vector.
pub fn chars_of(s: &str) -> (v: Vec<char>)
    ensures
        v@ == s@,
{
    let mut it = s.chars();
    let mut v: Vec<char> = Vec::new();
    loop
        invariant
            it.obeys_prophetic_iter_laws(),
            it.decrease() is Some,
            v@ + it.remaining() == s@,
        ensures
            v@ == s@,
        decreases it.decrease()->0,
    {
        match it.next() {
            Some(c) => v.push(c),
            None => {
                proof {
                    assert(v@ =~= s@);
                }
                break;
            },
        }
    }
    v
}

/// `needle` occurs somewhere in `hay` as a contiguous run.
pub open spec fn contains_seq(hay: Seq<char>, needle: Seq<char>) -> bool {
    exists|k: int|
        0 <= k && k + needle.len() <= hay.len() && #[trigger] hay.subrange(k, k + needle.len())
            == needle
}

/// Whether `needle` starts at position `k` of `hay`.
fn match_at(hay: &Vec<char>, needle: &Vec<char>, k: usize) -> (r: bool)
    requires
        k + needle@.len() <= hay@.len(),
    ensures
        r == (hay@.subrange(k as int, k + needle@.len()) == needle@),
{
    let n = needle.len();
    let hl = hay.len();
    let mut i: usize = 0;
    while i < n
        invariant
            i <= n,
            n == needle@.len(),
            hl == hay@.len(),
            k + n <= hl,
            forall|j: int| 0 <= j < i ==> hay@[k + j] == needle@[j],
        decreases n - i,
    {
        if hay[k + i] != needle[i] {
            proof {
                assert(hay@.subrange(k as int, k + needle@.len())[i as int] == hay@[k + i]);
            }
            return false;
        }
        i += 1;
    }
    proof {
        assert(hay@.subrange(k as int, k + needle@.len()) =~= needle@);
    }
    true
}

/// Whether `needle` occurs contiguously in `hay`.
pub fn contains_chars(hay: &Vec<char>, needle: &Vec<char>) -> (r: bool)
    ensures
        r == contains_seq(hay@, needle@),
{
    let h = hay.len();
    let n = needle.len();
    if n > h {
        return false;
    }
    if n == 0 {
        proof {
            assert(contains_seq(hay@, needle@)) by {
                assert(hay@.subrange(0, 0 + needle@.len() as int) =~= needle@);
            }
        }
        return true;
    }
    let mut k: usize = 0;
    while k <= h - n
        invariant
            0 < n <= h,
            h == hay@.len(),
            n == needle@.len(),
            k <= h - n + 1,
            forall|j: int| 0 <= j < k ==> #[trigger] hay@.subrange(j, j + n) != needle@,
        decreases h - k,
    {
        if match_at(hay, needle, k) {
            proof {
                assert(hay@.subrange(k as int, k + n) == needle@);
            }
            return true;
        }
        k += 1;
    }
    false
}

/// The characters this crate treats as blank: space, tab, carriage return,
/// line feed.
pub open spec fn is_blank_char(c: char) -> bool {
    c == ' ' || c == '\t' || c == '\r' || c == '\n'
}

/// Nothing but blank characters (vacuously true of the empty sequence).
pub open spec fn all_blank(s: Seq<char>) -> bool {
    forall|i: int| 0 <= i < s.len() ==> is_blank_char(s[i])
}

/// Whether `s` holds nothing but blank characters.
pub fn is_all_blank(s: &Vec<char>) -> (r: bool)
    ensures
        r == all_blank(s@),
{
    let mut i: usize = 0;
    while i < s.len()
        invariant
            i <= s@.len(),
            forall|j: int| 0 <= j < i ==> is_blank_char(s@[j]),
        decreases s@.len() - i,
    {
        let c = s[i];
        if !(c == ' ' || c == '\t' || c == '\r' || c == '\n') {
            return false;
        }
        i += 1;
    }
    true
}

/// How many of the first `i` characters of `s` are `c`.
pub open spec fn count_prefix(s: Seq<char>, c: char, i: int) -> nat
    decreases i,
{
    if i <= 0 {
        0
    } else {
        count_prefix(s, c, i - 1) + if s[i - 1] == c {
            1nat
        } else {
            0nat
        }
    }
}

/// `s` has an `n`-th occurrence of `c` (counted from 0).
pub open spec fn has_nth(s: Seq<char>, c: char, n: nat) -> bool {
    exists|i: int| 0 <= i < s.len() && s[i] == c && #[trigger] count_prefix(s, c, i) == n
}

/// The position of the `n`-th occurrence of `c` in `s` (counted from 0), or
/// the length of `s` when there are not that many.
pub open spec fn nth_position(s: Seq<char>, c: char, n: nat) -> int {
    if has_nth(s, c, n) {
        choose|i: int| 0 <= i < s.len() && s[i] == c && #[trigger] count_prefix(s, c, i) == n
    } else {
        s.len() as int
    }
}

/// Counting a prefix never counts less than counting a shorter prefix.
proof fn lemma_count_prefix_monotone(s: Seq<char>, c: char, i: int, j: int)
    requires
        i <= j,
    ensures
        count_prefix(s, c, i) <= count_prefix(s, c, j),
    decreases j - i,
{
    if i < j {
        lemma_count_prefix_monotone(s, c, i, j - 1);
    }
}

/// The `n`-th occurrence of `c` is the only position holding `c` with `n`
/// occurrences before it.
proof fn lemma_nth_position_unique(s: Seq<char>, c: char, n: nat, i: int)
    requires
        0 <= i < s.len(),
        s[i] == c,
        count_prefix(s, c, i) == n,
    ensures
        has_nth(s, c, n),
        nth_position(s, c, n) == i,
{
    assert(has_nth(s, c, n));
    let k = nth_position(s, c, n);
    assert(0 <= k < s.len() && s[k] == c && count_prefix(s, c, k) == n);
    if k < i {
        assert(count_prefix(s, c, k + 1) == n + 1);
        lemma_count_prefix_monotone(s, c, k + 1, i);
    }
    if k > i {
        assert(count_prefix(s, c, i + 1) == n + 1);
        lemma_count_prefix_monotone(s, c, i + 1, k);
    }
}

/// Ahead of any prefix counting `n + 1` occurrences of `c` sits one counting
/// exactly `n` of them, ending at an occurrence.
proof fn lemma_previous_occurrence(s: Seq<char>, c: char, k: int)
    requires
        0 <= k <= s.len(),
        count_prefix(s, c, k) > 0,
    ensures
        exists|j: int|
            0 <= j < k && s[j] == c && #[trigger] count_prefix(s, c, j) == count_prefix(s, c, k)
                - 1,
    decreases k,
{
    if k > 0 {
        if s[k - 1] == c {
            assert(count_prefix(s, c, k - 1) == count_prefix(s, c, k) - 1);
        } else {
            lemma_previous_occurrence(s, c, k - 1);
        }
    }
}

/// When the `n`-th occurrence of `c` exists, every earlier-numbered
/// occurrence exists too and sits strictly before it.
pub proof fn lemma_nth_positions_ordered(s: Seq<char>, c: char, m: nat, n: nat)
    requires
        m < n,
        nth_position(s, c, n) < s.len(),
    ensures
        has_nth(s, c, m),
        nth_position(s, c, m) < nth_position(s, c, n),
    decreases n - m,
{
    assert(has_nth(s, c, n));
    let k = nth_position(s, c, n);
    assert(0 <= k < s.len() && s[k] == c && count_prefix(s, c, k) == n);
    lemma_previous_occurrence(s, c, k);
    let j = choose|j: int|
        0 <= j < k && s[j] == c && #[trigger] count_prefix(s, c, j) == (n - 1) as nat;
    lemma_nth_position_unique(s, c, (n - 1) as nat, j);
    if m < (n - 1) as nat {
        lemma_nth_positions_ordered(s, c, m, (n - 1) as nat);
    }
}

/// Find the position of the `n`-th occurrence of `c` in `s` (counted from
/// 0), or `s.len()` when there are not that many.
pub fn find_nth(s: &Vec<char>, c: char, n: usize) -> (pos: usize)
    ensures
        pos == nth_position(s@, c, n as nat),
        pos <= s@.len(),
        pos < s@.len() ==> s@[pos as int] == c,
{
    let mut i: usize = 0;
    let mut seen: usize = 0;
    while i < s.len()
        invariant
            i <= s@.len(),
            seen == count_prefix(s@, c, i as int),
            seen <= n,
        decreases s@.len() - i,
    {
        if s[i] == c {
            if seen == n {
                proof {
                    lemma_nth_position_unique(s@, c, n as nat, i as int);
                }
                return i;
            }
            seen += 1;
        }
        i += 1;
    }
    proof {
        assert(!has_nth(s@, c, n as nat)) by {
            if has_nth(s@, c, n as nat) {
                let k = choose|k: int|
                    0 <= k < s@.len() && s@[k] == c && #[trigger] count_prefix(s@, c, k)
                        == n as nat;
                assert(count_prefix(s@, c, k + 1) == n + 1);
                lemma_count_prefix_monotone(s@, c, k + 1, s@.len() as int);
            }
        }
    }
    s.len()
}

/// The character for one decimal digit.
pub open spec fn digit_char(d: nat) -> char {
    if d == 0 {
        '0'
    } else if d == 1 {
        '1'
    } else if d == 2 {
        '2'
    } else if d == 3 {
        '3'
    } else if d == 4 {
        '4'
    } else if d == 5 {
        '5'
    } else if d == 6 {
        '6'
    } else if d == 7 {
        '7'
    } else if d == 8 {
        '8'
    } else {
        '9'
    }
}

/// The decimal digits of `n`, most significant first, no sign and no
/// leading zero (except for `n == 0` itself).
pub open spec fn dec_digits(n: nat) -> Seq<char>
    decreases n,
{
    if n < 10 {
        seq![digit_char(n)]
    } else {
        dec_digits(n / 10).push(digit_char(n % 10))
    }
}

/// One decimal digit as text.
fn digit_str(d: u64) -> (r: &'static str)
    requires
        d < 10,
    ensures
        r@ == seq![digit_char(d as nat)],
{
    if d == 0 {
        proof {
            reveal_strlit("0");
        }
        return "0";
    }
    if d == 1 {
        proof {
            reveal_strlit("1");
        }
        return "1";
    }
    if d == 2 {
        proof {
            reveal_strlit("2");
        }
        return "2";
    }
    if d == 3 {
        proof {
            reveal_strlit("3");
        }
        return "3";
    }
    if d == 4 {
        proof {
            reveal_strlit("4");
        }
        return "4";
    }
    if d == 5 {
        proof {
            reveal_strlit("5");
        }
        return "5";
    }
    if d == 6 {
        proof {
            reveal_strlit("6");
        }
        return "6";
    }
    if d == 7 {
        proof {
            reveal_strlit("7");
        }
        return "7";
    }
    if d == 8 {
        proof {
            reveal_strlit("8");
        }
        return "8";
    }
    proof {
        reveal_strlit("9");
    }
    "9"
}

/// Append the decimal rendering of `n` to `s`.
fn push_decimal(s: &mut String, n: u64)
    ensures
        final(s)@ == old(s)@ + dec_digits(n as nat),
    decreases n,
{
    if n >= 10 {
        push_decimal(s, n / 10);
    }
    s.append(digit_str(n % 10));
    proof {
        assert(s@ =~= old(s)@ + dec_digits(n as nat));
    }
}

/// The decimal rendering of `n`.
pub fn u64_to_string(n: u64) -> (s: String)
    ensures
        s@ == dec_digits(n as nat),
{
    let mut s = String::new();
    push_decimal(&mut s, n);
    proof {
        assert(s@ =~= dec_digits(n as nat));
    }
    s
}

} // verus!
