//! Text primitives over the character view of strings: containment,
//! occurrence counting, splitting and decimal rendering.

use vstd::prelude::*;
use vstd::std_specs::iter::IteratorSpec;

verus! {

/// The characters of `s`, in order.
pub fn chars_of(s: &str) -> (r: Vec<char>)
    ensures
        r@ == s@,
{
    let mut it = s.chars();
    let mut r: Vec<char> = Vec::new();
    loop
        invariant
            r@ + it.remaining() == s@,
            it.obeys_prophetic_iter_laws(),
            it.decrease() is Some,
        ensures
            r@ == s@,
        decreases it.decrease()->0,
    {
        match it.next() {
            Some(c) => {
                r.push(c);
            },
            None => {
                assert(r@ =~= r@ + it.remaining());
                break;
            },
        }
    }
    r
}


/// `p` occurs in `t` starting at position `i`.
pub open spec fn occurs_at(t: Seq<char>, p: Seq<char>, i: int) -> bool {
    0 <= i && i + p.len() <= t.len() && t.subrange(i, i + p.len()) == p
}

/// `p` occurs somewhere in `t`.
pub open spec fn has_substring(t: Seq<char>, p: Seq<char>) -> bool {
    exists|i: int| occurs_at(t, p, i)
}

/// Number of non-overlapping occurrences of a non-empty `p` in `t` at or
/// after position `i`, taken leftmost first.
pub open spec fn count_from(t: Seq<char>, p: Seq<char>, i: int) -> nat
    decreases t.len() - i,
{
    if p.len() == 0 || i < 0 || i + p.len() > t.len() {
        0
    } else if t.subrange(i, i + p.len()) == p {
        1 + count_from(t, p, i + p.len())
    } else {
        count_from(t, p, i + 1)
    }
}

/// Number of non-overlapping occurrences of `p` in `t`, leftmost first.
/// An empty pattern is counted nowhere.
pub open spec fn count_matches(t: Seq<char>, p: Seq<char>) -> nat {
    count_from(t, p, 0)
}

/// The pieces of `t[start..]` between non-overlapping occurrences of `sep`,
/// scanning for the next occurrence from position `i`.
pub open spec fn split_scan(t: Seq<char>, sep: Seq<char>, start: int, i: int) -> Seq<Seq<char>>
    decreases t.len() - i,
{
    if sep.len() == 0 || i < start || start < 0 || i + sep.len() > t.len() {
        seq![t.subrange(start, t.len() as int)]
    } else if t.subrange(i, i + sep.len()) == sep {
        seq![t.subrange(start, i)] + split_scan(t, sep, i + sep.len(), i + sep.len())
    } else {
        split_scan(t, sep, start, i + 1)
    }
}

/// `t` cut at every non-overlapping occurrence of `sep`, leftmost first;
/// `n` occurrences give `n + 1` pieces.
pub open spec fn split_parts(t: Seq<char>, sep: Seq<char>) -> Seq<Seq<char>> {
    split_scan(t, sep, 0, 0)
}

/// The decimal digit character for `d < 10`.
pub open spec fn digit_char(d: nat) -> char {
    if d == 0 {
        '0'
    } else if d == 1 {
        '1'
    } else if d == 2 {
        '2'
    } else if d == 3 {
        '3'
    } else if d == 4 {
        '4'
    } else if d == 5 {
        '5'
    } else if d == 6 {
        '6'
    } else if d == 7 {
        '7'
    } else if d == 8 {
        '8'
    } else {
        '9'
    }
}

/// The decimal rendering of `n`, without sign or leading zeros.
pub open spec fn decimal(n: nat) -> Seq<char>
    decreases n,
{
    if n < 10 {
        seq![digit_char(n)]
    } else {
        decimal(n / 10).push(digit_char(n % 10))
    }
}

/// Whether `p` occurs in `t` at position `i`.
pub fn matches_at(t: &Vec<char>, p: &Vec<char>, i: usize) -> (r: bool)
    ensures
        r == occurs_at(t@, p@, i as int),
{
    if i > t.len() || p.len() > t.len() - i {
        return false;
    }
    let tl = t.len();
    let mut k: usize = 0;
    while k < p.len()
        invariant
            tl == t@.len(),
            i + p@.len() <= t@.len(),
            0 <= k <= p@.len(),
            forall|j: int| 0 <= j < k ==> t@[i + j] == p@[j],
        decreases p@.len() - k,
    {
        if t[i + k] != p[k] {
            assert(t@.subrange(i as int, i + p@.len())[k as int] != p@[k as int]);
            return false;
        }
        k = k + 1;
    }
    assert(t@.subrange(i as int, i + p@.len()) =~= p@);
    true
}

/// Whether `p` occurs in `t`.
pub fn contains(t: &str, p: &str) -> (r: bool)
    ensures
        r == has_substring(t@, p@),
{
    let tv = chars_of(t);
    let pv = chars_of(p);
    if pv.len() == 0 {
        assert(t@.subrange(0, 0) =~= p@);
        assert(occurs_at(t@, p@, 0));
        return true;
    }
    if pv.len() > tv.len() {
        return false;
    }
    let mut i: usize = 0;
    while i <= tv.len() - pv.len()
        invariant
            0 < pv@.len() <= tv@.len(),
            i <= tv@.len() - pv@.len() + 1,
            tv@ == t@,
            pv@ == p@,
            forall|j: int| 0 <= j < i ==> !occurs_at(t@, p@, j),
        decreases tv@.len() - i,
    {
        if matches_at(&tv, &pv, i) {
            return true;
        }
        i = i + 1;
    }
    false
}

/// Number of non-overlapping occurrences of `marker` in `text`, leftmost
/// first; an empty marker is counted nowhere.
pub fn count_occurrences(text: &str, marker: &str) -> (r: usize)
    ensures
        r == count_matches(text@, marker@),
{
    let tv = chars_of(text);
    let pv = chars_of(marker);
    if pv.len() == 0 {
        return 0;
    }
    let mut i: usize = 0;
    let mut n: usize = 0;
    while pv.len() <= tv.len() - i
        invariant
            tv@ == text@,
            pv@ == marker@,
            pv@.len() > 0,
            i <= tv@.len(),
            n <= i,
            n + count_from(text@, marker@, i as int) == count_matches(text@, marker@),
        decreases tv@.len() - i,
    {
        if matches_at(&tv, &pv, i) {
            n = n + 1;
            i = i + pv.len();
        } else {
            i = i + 1;
        }
    }
    n
}

/// `text` cut at every non-overlapping occurrence of `sep`, leftmost first.
pub fn split_on(text: &str, sep: &str) -> (r: Vec<String>)
    ensures
        r@.map_values(|s: String| s@) == split_parts(text@, sep@),
{
    let tv = chars_of(text);
    let pv = chars_of(sep);
    let mut r: Vec<String> = Vec::new();
    let mut start: usize = 0;
    let mut i: usize = 0;
    if pv.len() > 0 {
        while pv.len() <= tv.len() - i
            invariant
                tv@ == text@,
                pv@ == sep@,
                pv@.len() > 0,
                start <= i <= tv@.len(),
                r@.map_values(|s: String| s@) + split_scan(text@, sep@, start as int, i as int)
                    == split_parts(text@, sep@),
            decreases tv@.len() - i,
        {
            if matches_at(&tv, &pv, i) {
                let piece = text.substring_char(start, i).to_owned();
                proof {
                    let old_r = r@.map_values(|s: String| s@);
                    assert(old_r + split_scan(text@, sep@, start as int, i as int) =~= old_r.push(
                        piece@,
                    ) + split_scan(text@, sep@, (i + pv@.len()) as int, (i + pv@.len()) as int));
                }
                r.push(piece);
                proof {
                    assert(r@.map_values(|s: String| s@) =~= r@.drop_last().map_values(
                        |s: String| s@,
                    ).push(r@.last()@));
                }
                i = i + pv.len();
                start = i;
            } else {
                i = i + 1;
            }
        }
    }
    let last = text.substring_char(start, tv.len()).to_owned();
    proof {
        let old_r = r@.map_values(|s: String| s@);
        assert(split_scan(text@, sep@, start as int, i as int) == seq![last@]);
    }
    r.push(last);
    proof {
        assert(r@.map_values(|s: String| s@) =~= r@.drop_last().map_values(|s: String| s@).push(
            r@.last()@,
        ));
    }
    r
}

/// The one-character string of the decimal digit `d`.
fn digit_string(d: u64) -> (r: String)
    requires
        d < 10,
    ensures
        r@ == seq![digit_char(d as nat)],
{
    let s = if d == 0 {
        "0"
    } else if d == 1 {
        "1"
    } else if d == 2 {
        "2"
    } else if d == 3 {
        "3"
    } else if d == 4 {
        "4"
    } else if d == 5 {
        "5"
    } else if d == 6 {
        "6"
    } else if d == 7 {
        "7"
    } else if d == 8 {
        "8"
    } else {
        "9"
    };
    proof {
        reveal_strlit("0");
        reveal_strlit("1");
        reveal_strlit("2");
        reveal_strlit("3");
        reveal_strlit("4");
        reveal_strlit("5");
        reveal_strlit("6");
        reveal_strlit("7");
        reveal_strlit("8");
        reveal_strlit("9");
    }
    let r = s.to_owned();
    assert(r@ =~= seq![digit_char(d as nat)]);
    r
}

/// The decimal rendering of `n`.
pub fn render_decimal(n: u64) -> (r: String)
    ensures
        r@ == decimal(n as nat),
{
    let mut m: u64 = n;
    let mut r = String::new();
    while m >= 10
        invariant
            decimal(n as nat) == decimal(m as nat) + r@,
        decreases m,
    {
        let d = digit_string(m % 10);
        proof {
            assert(decimal(m as nat) == decimal((m / 10) as nat).push(digit_char((m % 10) as nat)));
            assert(decimal(m as nat) + r@ =~= decimal((m / 10) as nat) + (d@ + r@));
        }
        r = d.concat(r.as_str());
        m = m / 10;
    }
    let d = digit_string(m);
    d.concat(r.as_str())
}

/// Whether `a` and `b` hold the same characters.
pub fn same_text(a: &str, b: &str) -> (r: bool)
    ensures
        r == (a@ == b@),
{
    let av = chars_of(a);
    let bv = chars_of(b);
    if av.len() != bv.len() {
        return false;
    }
    let mut i: usize = 0;
    while i < av.len()
        invariant
            av@ == a@,
            bv@ == b@,
            av@.len() == bv@.len(),
            i <= av@.len(),
            forall|j: int| 0 <= j < i ==> av@[j] == bv@[j],
        decreases av@.len() - i,
    {
        if av[i] != bv[i] {
            return false;
        }
        i = i + 1;
    }
    assert(av@ =~= bv@);
    true
}

} // verus!
