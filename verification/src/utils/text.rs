use vstd::prelude::*;
use vstd::string::{StrSliceExecFns, StringExecFns};

verus! {

/// The character of a decimal digit.
pub open spec fn digit_char(d: nat) -> char
    recommends
        d < 10,
{
    if d == 0 {
        '0'
    } else if d == 1 {
        '1'
    } else if d == 2 {
        '2'
    } else if d == 3 {
        '3'
    } else if d == 4 {
        '4'
    } else if d == 5 {
        '5'
    } else if d == 6 {
        '6'
    } else if d == 7 {
        '7'
    } else if d == 8 {
        '8'
    } else {
        '9'
    }
}

/// The decimal numeral of `n`, without leading zeros.
pub open spec fn decimal_text(n: nat) -> Seq<char>
    decreases n,
{
    if n < 10 {
        seq![digit_char(n)]
    } else {
        decimal_text(n / 10).push(digit_char(n % 10))
    }
}

fn digit_str(d: usize) -> (s: &'static str)
    requires
        d < 10,
    ensures
        s@ == seq![digit_char(d as nat)],
{
    proof {
        reveal_strlit("0");
        reveal_strlit("1");
        reveal_strlit("2");
        reveal_strlit("3");
        reveal_strlit("4");
        reveal_strlit("5");
        reveal_strlit("6");
        reveal_strlit("7");
        reveal_strlit("8");
        reveal_strlit("9");
    }
    let s = match d {
        0 => "0",
        1 => "1",
        2 => "2",
        3 => "3",
        4 => "4",
        5 => "5",
        6 => "6",
        7 => "7",
        8 => "8",
        _ => "9",
    };
    assert(s@ =~= seq![digit_char(d as nat)]);
    s
}

/// Writes `n` as a decimal numeral.
pub fn decimal(n: usize) -> (s: String)
    ensures
        s@ == decimal_text(n as nat),
{
    let mut rest: usize = n / 10;
    let mut s = String::from_str(digit_str(n % 10));
    while rest > 0
        invariant
            decimal_text(n as nat) == if rest == 0 {
                s@
            } else {
                decimal_text(rest as nat) + s@
            },
        decreases rest,
    {
        let d = digit_str(rest % 10);
        proof {
            let r = rest as nat;
            if r < 10 {
                assert(decimal_text(r) =~= d@);
            } else {
                assert(decimal_text(r) + s@ =~= decimal_text(r / 10) + (d@ + s@));
            }
        }
        s = String::from_str(d).concat(s.as_str());
        rest = rest / 10;
    }
    s
}

/// Whether `needle` occurs in `text` at position `at`.
pub open spec fn occurs_at(text: Seq<char>, needle: Seq<char>, at: int) -> bool {
    &&& 0 <= at
    &&& at + needle.len() <= text.len()
    &&& text.subrange(at, at + needle.len()) == needle
}

/// Whether `needle` occurs somewhere in `text`.
pub open spec fn contains_text(text: Seq<char>, needle: Seq<char>) -> bool {
    exists|at: int| occurs_at(text, needle, at)
}

/// The position of the first `x` in `items`, or the length of `items` if there is none.
pub open spec fn first_index_of<T>(items: Seq<T>, x: T) -> int
    decreases items.len(),
{
    if items.len() == 0 {
        0
    } else if items[0] == x {
        0
    } else {
        1 + first_index_of(items.drop_first(), x)
    }
}

/// `first_index_of` is within the sequence, points at `x` when inside it, and
/// nothing before it is `x`.
pub proof fn lemma_first_index_of<T>(items: Seq<T>, x: T)
    ensures
        0 <= first_index_of(items, x) <= items.len(),
        first_index_of(items, x) < items.len() ==> items[first_index_of(items, x)] == x,
        forall|j: int| 0 <= j < first_index_of(items, x) ==> items[j] != x,
    decreases items.len(),
{
    if items.len() > 0 && items[0] != x {
        let tail = items.drop_first();
        lemma_first_index_of(tail, x);
        assert forall|j: int| 0 <= j < first_index_of(items, x) implies items[j] != x by {
            if j > 0 {
                assert(items[j] == tail[j - 1]);
            }
        }
    }
}

/// A position that holds `x`, with no `x` before it, is the first index of `x`;
/// so is the length of a sequence without `x`.
pub proof fn lemma_first_index_is<T>(items: Seq<T>, x: T, i: int)
    requires
        0 <= i <= items.len(),
        i < items.len() ==> items[i] == x,
        forall|j: int| 0 <= j < i ==> items[j] != x,
    ensures
        first_index_of(items, x) == i,
{
    lemma_first_index_of(items, x);
    let k = first_index_of(items, x);
    if k < i {
        assert(items[k] != x);
    } else if k > i {
        assert(items[i] != x);
    }
}

/// Tells whether `needle` occurs at position `at` of `text`.
pub fn has_at(text: &str, needle: &str, at: usize) -> (b: bool)
    ensures
        b == occurs_at(text@, needle@, at as int),
{
    let n = text.unicode_len();
    let m = needle.unicode_len();
    if at > n || m > n - at {
        return false;
    }
    let mut k: usize = 0;
    while k < m
        invariant
            0 <= k <= m,
            m == needle@.len(),
            n == text@.len(),
            at + m <= n,
            forall|j: int| 0 <= j < k ==> text@[at + j] == needle@[j],
        decreases m - k,
    {
        if text.get_char(at + k) != needle.get_char(k) {
            proof {
                assert(text@.subrange(at as int, at + m)[k as int] != needle@[k as int]);
            }
            return false;
        }
        k = k + 1;
    }
    proof {
        assert(text@.subrange(at as int, at + m) =~= needle@);
    }
    true
}

/// Tells whether `needle` occurs somewhere in `text`.
pub fn contains(text: &str, needle: &str) -> (b: bool)
    ensures
        b == contains_text(text@, needle@),
{
    let n = text.unicode_len();
    let mut at: usize = 0;
    while at < n
        invariant
            0 <= at <= n,
            n == text@.len(),
            forall|j: int| 0 <= j < at ==> !occurs_at(text@, needle@, j),
        decreases n - at,
    {
        if has_at(text, needle, at) {
            return true;
        }
        at = at + 1;
    }
    has_at(text, needle, n)
}

/// Finds the first `c` in `text`; gives the length of `text` if there is none.
pub fn find_char(text: &str, c: char) -> (i: usize)
    ensures
        i == first_index_of(text@, c),
        i <= text@.len(),
{
    let n = text.unicode_len();
    let mut i: usize = 0;
    while i < n
        invariant
            0 <= i <= n,
            n == text@.len(),
            forall|j: int| 0 <= j < i ==> text@[j] != c,
        decreases n - i,
    {
        if text.get_char(i) == c {
            proof {
                lemma_first_index_is(text@, c, i as int);
            }
            return i;
        }
        i = i + 1;
    }
    proof {
        lemma_first_index_is(text@, c, i as int);
    }
    i
}

/// Tells whether two texts are the same.
pub fn same_text(a: &str, b: &str) -> (same: bool)
    ensures
        same == (a@ == b@),
{
    let n = a.unicode_len();
    if n != b.unicode_len() {
        return false;
    }
    let same = has_at(a, b, 0);
    proof {
        assert(a@.subrange(0, n as int) =~= a@);
    }
    same
}

} // verus!
