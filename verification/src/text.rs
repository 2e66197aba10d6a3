//! Small text operations that the rest of the library is stated over.

use vstd::prelude::*;

verus! {

/// The character that writes a single decimal digit.
pub open spec fn digit_char(d: nat) -> char {
    if d == 0 {
        '0'
    } else if d == 1 {
        '1'
    } else if d == 2 {
        '2'
    } else if d == 3 {
        '3'
    } else if d == 4 {
        '4'
    } else if d == 5 {
        '5'
    } else if d == 6 {
        '6'
    } else if d == 7 {
        '7'
    } else if d == 8 {
        '8'
    } else {
        '9'
    }
}

/// A number written in base ten, most significant digit first, without
/// leading zeros.
pub open spec fn decimal_text(n: nat) -> Seq<char>
    decreases n,
{
    if n < 10 {
        seq![digit_char(n)]
    } else {
        decimal_text(n / 10).push(digit_char(n % 10))
    }
}

fn digit_str(d: u64) -> (r: &'static str)
    requires
        d < 10,
    ensures
        r@ == seq![digit_char(d as nat)],
{
    proof {
        reveal_strlit("0");
        reveal_strlit("1");
        reveal_strlit("2");
        reveal_strlit("3");
        reveal_strlit("4");
        reveal_strlit("5");
        reveal_strlit("6");
        reveal_strlit("7");
        reveal_strlit("8");
        reveal_strlit("9");
    }
    let r: &'static str = if d == 0 {
        "0"
    } else if d == 1 {
        "1"
    } else if d == 2 {
        "2"
    } else if d == 3 {
        "3"
    } else if d == 4 {
        "4"
    } else if d == 5 {
        "5"
    } else if d == 6 {
        "6"
    } else if d == 7 {
        "7"
    } else if d == 8 {
        "8"
    } else {
        "9"
    };
    assert(r@ =~= seq![digit_char(d as nat)]);
    r
}

/// Writes `n` in base ten.
pub fn decimal(n: u64) -> (r: String)
    ensures
        r@ == decimal_text(n as nat),
    decreases n,
{
    if n < 10 {
        String::from_str(digit_str(n))
    } else {
        let head: String = decimal(n / 10);
        let r: String = head.concat(digit_str(n % 10));
        assert(r@ =~= decimal_text((n / 10) as nat).push(digit_char((n % 10) as nat)));
        r
    }
}

/// `i` is where `c` first occurs in `s`, or the length of `s` if it does not
/// occur.
pub open spec fn is_first_index(s: Seq<char>, c: char, i: int) -> bool {
    &&& 0 <= i <= s.len()
    &&& forall|j: int| 0 <= j < i ==> s[j] != c
    &&& i < s.len() ==> s[i] == c
}

/// Where `c` first occurs in `s`, or the length of `s`.
pub open spec fn first_index(s: Seq<char>, c: char) -> int {
    choose|i: int| is_first_index(s, c, i)
}

/// At most one position is the first occurrence.
pub proof fn lemma_first_index_unique(s: Seq<char>, c: char, i: int, k: int)
    requires
        is_first_index(s, c, i),
        is_first_index(s, c, k),
    ensures
        i == k,
{
    if i < k {
        assert(s[i] == c);
    } else if k < i {
        assert(s[k] == c);
    }
}

/// Finds the first occurrence of `c` in `s`.
pub fn find_first(s: &str, c: char) -> (i: usize)
    ensures
        i as int == first_index(s@, c),
        is_first_index(s@, c, i as int),
{
    let n: usize = s.unicode_len();
    let mut i: usize = 0;
    let mut found: bool = false;
    while i < n && !found
        invariant
            n == s@.len(),
            i <= n,
            forall|j: int| 0 <= j < i ==> s@[j] != c,
            found ==> i < n && s@[i as int] == c,
        decreases n - i + (if found { 0int } else { 1int }),
    {
        if s.get_char(i) == c {
            found = true;
        } else {
            i += 1;
        }
    }
    proof {
        assert(is_first_index(s@, c, i as int));
        lemma_first_index_unique(s@, c, i as int, first_index(s@, c));
    }
    i
}

/// The text before the first space, or the whole text if it has none.
pub open spec fn before_space(s: Seq<char>) -> Seq<char> {
    s.subrange(0, first_index(s, ' '))
}

/// The text after the first space, or nothing if it has none.
pub open spec fn after_space(s: Seq<char>) -> Seq<char> {
    if first_index(s, ' ') < s.len() {
        s.subrange(first_index(s, ' ') + 1, s.len() as int)
    } else {
        Seq::empty()
    }
}

/// Splits a text at its first space into what stands before and after it.
pub fn split_at_space(s: &str) -> (r: (String, String))
    ensures
        r.0@ == before_space(s@),
        r.1@ == after_space(s@),
{
    let i: usize = find_first(s, ' ');
    let n: usize = s.unicode_len();
    let head: String = String::from_str(s.substring_char(0, i));
    if i < n {
        let tail: String = String::from_str(s.substring_char(i + 1, n));
        (head, tail)
    } else {
        (head, String::new())
    }
}

/// The views of a sequence of strings.
pub open spec fn texts(v: Seq<String>) -> Seq<Seq<char>> {
    Seq::new(v.len(), |i: int| v[i]@)
}

} // verus!
