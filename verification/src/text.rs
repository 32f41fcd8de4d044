//! Searching and slicing of character sequences.
//!
//! Host names are handled as sequences of characters. The specification
//! functions here say where a character or a separator stands in such a
//! sequence; the executable functions find those places in a `Vec<char>`.

use vstd::prelude::*;
use vstd::string::*;

verus! {

/// Whether `c` is one of the ASCII decimal digits `0` to `9`.
pub open spec fn is_digit(c: char) -> bool {
    '0' <= c && c <= '9'
}

/// Whether `s` is a non-empty run of ASCII decimal digits.
pub open spec fn is_decimal(s: Seq<char>) -> bool {
    s.len() > 0 && forall|i: int| 0 <= i < s.len() ==> is_digit(#[trigger] s[i])
}

/// `c` stands at index `i` of `s` and nowhere before it.
pub open spec fn first_at(s: Seq<char>, c: char, i: int) -> bool {
    &&& 0 <= i < s.len()
    &&& s[i] == c
    &&& forall|j: int| 0 <= j < i ==> s[j] != c
}

/// `c` stands at index `i` of `s` and nowhere after it.
pub open spec fn last_at(s: Seq<char>, c: char, i: int) -> bool {
    &&& 0 <= i < s.len()
    &&& s[i] == c
    &&& forall|j: int| i < j < s.len() ==> s[j] != c
}

/// Two hyphens stand at indices `i` and `i + 1` of `s`.
pub open spec fn dashes_at(s: Seq<char>, i: int) -> bool {
    0 <= i && i + 1 < s.len() && s[i] == '-' && s[i + 1] == '-'
}

/// The leftmost pair of adjacent hyphens in `s` starts at index `i`.
pub open spec fn first_dashes_at(s: Seq<char>, i: int) -> bool {
    dashes_at(s, i) && forall|j: int| 0 <= j < i ==> !dashes_at(s, j)
}

/// The index of the first `c` in `s`, if `s` holds one.
pub open spec fn first_index_of(s: Seq<char>, c: char) -> Option<int> {
    if exists|i: int| first_at(s, c, i) {
        Some(choose|i: int| first_at(s, c, i))
    } else {
        None
    }
}

/// The index of the last `c` in `s`, if `s` holds one.
pub open spec fn last_index_of(s: Seq<char>, c: char) -> Option<int> {
    if exists|i: int| last_at(s, c, i) {
        Some(choose|i: int| last_at(s, c, i))
    } else {
        None
    }
}

/// The index at which the leftmost `--` in `s` starts, if `s` holds one.
pub open spec fn first_dashes(s: Seq<char>) -> Option<int> {
    if exists|i: int| first_dashes_at(s, i) {
        Some(choose|i: int| first_dashes_at(s, i))
    } else {
        None
    }
}

/// An index found by executable code, as a mathematical integer.
pub open spec fn as_index(found: Option<usize>) -> Option<int> {
    match found {
        Some(i) => Some(i as int),
        None => None,
    }
}

/// A first occurrence is unique, so `first_index_of` names it.
pub proof fn lemma_first_index_of(s: Seq<char>, c: char, i: int)
    requires
        first_at(s, c, i),
    ensures
        first_index_of(s, c) == Some(i),
        s.contains(c),
{
    let k = choose|k: int| first_at(s, c, k);
    assert(k == i);
}

/// A sequence without `c` has no first index of it, and the other way round.
pub proof fn lemma_first_index_of_none(s: Seq<char>, c: char)
    ensures
        first_index_of(s, c) is None <==> !s.contains(c),
{
    if s.contains(c) {
        let w = choose|w: int| 0 <= w < s.len() && s[w] == c;
        lemma_least_occurrence(s, c, w);
    }
}

/// Below any occurrence of `c` there is a first one.
proof fn lemma_least_occurrence(s: Seq<char>, c: char, w: int)
    requires
        0 <= w < s.len(),
        s[w] == c,
    ensures
        exists|i: int| first_at(s, c, i),
    decreases w,
{
    if forall|j: int| 0 <= j < w ==> s[j] != c {
        assert(first_at(s, c, w));
    } else {
        let j = choose|j: int| 0 <= j < w && s[j] == c;
        lemma_least_occurrence(s, c, j);
    }
}

/// A last occurrence is unique, so `last_index_of` names it.
pub proof fn lemma_last_index_of(s: Seq<char>, c: char, i: int)
    requires
        last_at(s, c, i),
    ensures
        last_index_of(s, c) == Some(i),
        s.contains(c),
{
    let k = choose|k: int| last_at(s, c, k);
    assert(k == i);
}

/// A leftmost `--` is unique, so `first_dashes` names it.
pub proof fn lemma_first_dashes(s: Seq<char>, i: int)
    requires
        first_dashes_at(s, i),
    ensures
        first_dashes(s) == Some(i),
{
    let k = choose|k: int| first_dashes_at(s, k);
    assert(k == i);
}

/// Collects the characters of `s` into a vector, in order.
pub fn to_chars(s: &str) -> (chars: Vec<char>)
    ensures
        chars@ == s@,
{
    let mut chars: Vec<char> = Vec::new();
    for c in it: s.chars()
        invariant
            chars@ == it.seq().take(it.index() as int),
            it.seq() == s@,
    {
        chars.push(c);
    }
    chars
}

/// Finds the first `c` in `s`.
pub fn find_char(s: &Vec<char>, c: char) -> (found: Option<usize>)
    ensures
        as_index(found) == first_index_of(s@, c),
        found matches Some(i) ==> first_at(s@, c, i as int),
        found is None ==> !s@.contains(c),
{
    let mut i: usize = 0;
    while i < s.len()
        invariant
            i <= s.len(),
            forall|j: int| 0 <= j < i ==> s@[j] != c,
        decreases s.len() - i,
    {
        if s[i] == c {
            proof {
                lemma_first_index_of(s@, c, i as int);
            }
            return Some(i);
        }
        i += 1;
    }
    proof {
        lemma_first_index_of_none(s@, c);
    }
    None
}

/// Finds the last `c` in `s`.
pub fn rfind_char(s: &Vec<char>, c: char) -> (found: Option<usize>)
    ensures
        as_index(found) == last_index_of(s@, c),
        found matches Some(i) ==> last_at(s@, c, i as int),
        found is None ==> !s@.contains(c),
{
    let mut i: usize = s.len();
    while i > 0
        invariant
            i <= s.len(),
            forall|j: int| i <= j < s.len() ==> s@[j] != c,
        decreases i,
    {
        i -= 1;
        if s[i] == c {
            proof {
                lemma_last_index_of(s@, c, i as int);
            }
            return Some(i);
        }
    }
    None
}

/// Finds the leftmost `--` in `s`.
pub fn find_dashes(s: &Vec<char>) -> (found: Option<usize>)
    ensures
        as_index(found) == first_dashes(s@),
        found matches Some(i) ==> first_dashes_at(s@, i as int),
        found is None ==> forall|j: int| 0 <= j < s.len() ==> !dashes_at(s@, j),
{
    let mut i: usize = 0;
    while i < s.len() && s.len() - i >= 2
        invariant
            i <= s.len(),
            forall|j: int| 0 <= j < i ==> !dashes_at(s@, j),
        decreases s.len() - i,
    {
        if s[i] == '-' && s[i + 1] == '-' {
            proof {
                lemma_first_dashes(s@, i as int);
            }
            return Some(i);
        }
        i += 1;
    }
    None
}

/// Tells whether `s` ends with `suffix`.
pub fn ends_with(s: &Vec<char>, suffix: &Vec<char>) -> (b: bool)
    ensures
        b == suffix@.is_suffix_of(s@),
{
    if suffix.len() > s.len() {
        return false;
    }
    let start: usize = s.len() - suffix.len();
    let mut i: usize = 0;
    while i < suffix.len()
        invariant
            i <= suffix.len(),
            start + suffix.len() == s.len(),
            forall|j: int| 0 <= j < i ==> s@[start + j] == suffix@[j],
        decreases suffix.len() - i,
    {
        if s[start + i] != suffix[i] {
            return false;
        }
        i += 1;
    }
    true
}

/// Tells whether `a` and `b` are the same text.
pub fn same_text(a: &str, b: &str) -> (same: bool)
    ensures
        same == (a@ == b@),
{
    let x = to_chars(a);
    let y = to_chars(b);
    if x.len() != y.len() {
        return false;
    }
    let mut i: usize = 0;
    while i < x.len()
        invariant
            i <= x.len(),
            x@ == a@,
            y@ == b@,
            x.len() == y.len(),
            forall|j: int| 0 <= j < i ==> x@[j] == y@[j],
        decreases x.len() - i,
    {
        if x[i] != y[i] {
            return false;
        }
        i += 1;
    }
    assert(x@ =~= y@);
    true
}

/// The decimal digit for `d`, which is less than ten.
pub open spec fn digit_of(d: nat) -> char {
    "0123456789"@[d as int]
}

/// The decimal numeral for `n`, without leading zeros.
pub open spec fn decimal(n: nat) -> Seq<char>
    decreases n,
{
    if n < 10 {
        seq![digit_of(n)]
    } else {
        decimal(n / 10).push(digit_of(n % 10))
    }
}

/// A numeral is a non-empty run of digits.
pub proof fn lemma_decimal_is_decimal(n: nat)
    ensures
        is_decimal(decimal(n)),
    decreases n,
{
    reveal_strlit("0123456789");
    if n >= 10 {
        lemma_decimal_is_decimal(n / 10);
    }
}

/// The text of one decimal digit.
fn digit_text(d: u16) -> (text: &'static str)
    requires
        d < 10,
    ensures
        text@ == seq![digit_of(d as nat)],
{
    proof {
        reveal_strlit("0123456789");
        reveal_strlit("0");
        reveal_strlit("1");
        reveal_strlit("2");
        reveal_strlit("3");
        reveal_strlit("4");
        reveal_strlit("5");
        reveal_strlit("6");
        reveal_strlit("7");
        reveal_strlit("8");
        reveal_strlit("9");
    }
    match d {
        0 => "0",
        1 => "1",
        2 => "2",
        3 => "3",
        4 => "4",
        5 => "5",
        6 => "6",
        7 => "7",
        8 => "8",
        _ => "9",
    }
}

/// Appends the decimal numeral for `n` to `out`.
pub fn push_decimal(out: &mut String, n: u16)
    ensures
        final(out)@ == old(out)@ + decimal(n as nat),
    decreases n,
{
    if n >= 10 {
        push_decimal(out, n / 10);
    }
    out.append(digit_text(n % 10));
}

} // verus!
