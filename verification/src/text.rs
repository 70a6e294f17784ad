//! Character-level helpers on strings, with contracts over `Seq<char>`.

use vstd::prelude::*;
use vstd::string::*;

verus! {

/// `p` occurs in `s` starting at position `at`.
pub open spec fn occurs_at(s: Seq<char>, at: int, p: Seq<char>) -> bool {
    &&& 0 <= at
    &&& at + p.len() <= s.len()
    &&& s.subrange(at, at + p.len()) == p
}

/// `s` with every leading repetition of `p` removed.
pub open spec fn strip_leading(s: Seq<char>, p: Seq<char>) -> Seq<char>
    decreases s.len(),
{
    if p.len() > 0 && occurs_at(s, 0, p) {
        strip_leading(s.skip(p.len() as int), p)
    } else {
        s
    }
}

/// The characters of a string, in order.
pub fn chars_of(s: &str) -> (v: Vec<char>)
    ensures
        v@ == s@,
{
    let n: usize = s.unicode_len();
    let mut v: Vec<char> = Vec::new();
    let mut i: usize = 0;
    while i < n
        invariant
            n == s@.len(),
            i <= n,
            v@ == s@.take(i as int),
        decreases n - i,
    {
        v.push(s.get_char(i));
        i = i + 1;
        assert(v@ =~= s@.take(i as int));
    }
    assert(s@.take(n as int) =~= s@);
    v
}

/// Whether `p` occurs in `s` at position `at`.
pub fn occurs_at_exec(s: &Vec<char>, at: usize, p: &Vec<char>) -> (r: bool)
    ensures
        r == occurs_at(s@, at as int, p@),
{
    if at > s.len() || p.len() > s.len() - at {
        return false;
    }
    let mut i: usize = 0;
    while i < p.len()
        invariant
            at + p.len() <= s.len(),
            i <= p.len(),
            forall|k: int| 0 <= k < i ==> s@[at + k] == p@[k],
        decreases p.len() - i,
    {
        if s[at + i] != p[i] {
            assert(s@.subrange(at as int, at + p.len())[i as int] == s@[at + i]);
            return false;
        }
        i = i + 1;
    }
    assert(s@.subrange(at as int, at + p.len()) =~= p@);
    true
}

/// Whether two strings hold the same characters.
pub fn same_text(a: &str, b: &str) -> (r: bool)
    ensures
        r == (a@ == b@),
{
    let x = chars_of(a);
    let y = chars_of(b);
    if x.len() != y.len() {
        return false;
    }
    assert(x@.subrange(0, x@.len() as int) =~= x@);
    occurs_at_exec(&x, 0, &y)
}

/// Whether `s` begins with `p`.
pub fn starts_with(s: &str, p: &str) -> (r: bool)
    ensures
        r == occurs_at(s@, 0, p@),
{
    let x = chars_of(s);
    let y = chars_of(p);
    occurs_at_exec(&x, 0, &y)
}

/// `s` without the repetitions of `p` that it begins with.
pub fn strip_leading_exec(s: &str, p: &str) -> (r: String)
    ensures
        r@ == strip_leading(s@, p@),
{
    let x = chars_of(s);
    let y = chars_of(p);
    let n: usize = x.len();
    let mut start: usize = 0;
    if y.len() > 0 {
        assert(x@.skip(0) =~= x@);
        let mut again: bool = occurs_at_exec(&x, start, &y);
        while again
            invariant
                again == occurs_at(x@, start as int, y@),
                n == x@.len(),
                x@ == s@,
                y@ == p@,
                y@.len() > 0,
                start <= x@.len(),
                strip_leading(s@, p@) == strip_leading(x@.skip(start as int), p@),
            decreases x@.len() - start,
        {
            proof {
                let rest = x@.skip(start as int);
                assert(rest.subrange(0, y@.len() as int) =~= x@.subrange(
                    start as int,
                    start + y@.len(),
                ));
                assert(rest.skip(y@.len() as int) =~= x@.skip(start + y@.len()));
            }
            start = start + y.len();
            again = occurs_at_exec(&x, start, &y);
        }
        proof {
            let rest = x@.skip(start as int);
            if start + y@.len() <= x@.len() {
                assert(rest.subrange(0, y@.len() as int) =~= x@.subrange(
                    start as int,
                    start + y@.len(),
                ));
            }
        }
    }
    assert(x@.skip(start as int) =~= s@.subrange(start as int, s@.len() as int));
    String::from_str(s.substring_char(start, n))
}

/// The texts of a list of strings.
pub open spec fn texts(v: Seq<String>) -> Seq<Seq<char>> {
    v.map_values(|s: String| s@)
}

/// The character that writes a digit.
pub open spec fn digit(d: nat) -> char {
    if d == 0 {
        '0'
    } else if d == 1 {
        '1'
    } else if d == 2 {
        '2'
    } else if d == 3 {
        '3'
    } else if d == 4 {
        '4'
    } else if d == 5 {
        '5'
    } else if d == 6 {
        '6'
    } else if d == 7 {
        '7'
    } else if d == 8 {
        '8'
    } else {
        '9'
    }
}

/// A number in decimal, without leading zeros.
pub open spec fn decimal(n: nat) -> Seq<char>
    decreases n,
{
    if n < 10 {
        seq![digit(n)]
    } else {
        decimal(n / 10).push(digit(n % 10))
    }
}

/// A number in decimal, with a leading zero where it has one digit.
pub open spec fn two_digits(n: nat) -> Seq<char> {
    if n < 10 {
        seq!['0', digit(n)]
    } else {
        decimal(n)
    }
}

/// The text of one digit.
fn digit_text(d: u64) -> (r: &'static str)
    requires
        d < 10,
    ensures
        r@ == seq![digit(d as nat)],
{
    proof {
        reveal_strlit("0");
        reveal_strlit("1");
        reveal_strlit("2");
        reveal_strlit("3");
        reveal_strlit("4");
        reveal_strlit("5");
        reveal_strlit("6");
        reveal_strlit("7");
        reveal_strlit("8");
        reveal_strlit("9");
    }
    let r = if d == 0 {
        "0"
    } else if d == 1 {
        "1"
    } else if d == 2 {
        "2"
    } else if d == 3 {
        "3"
    } else if d == 4 {
        "4"
    } else if d == 5 {
        "5"
    } else if d == 6 {
        "6"
    } else if d == 7 {
        "7"
    } else if d == 8 {
        "8"
    } else {
        "9"
    };
    assert(r@ =~= seq![digit(d as nat)]);
    r
}

/// Writes a number in decimal.
pub fn decimal_text(n: u64) -> (r: String)
    ensures
        r@ == decimal(n as nat),
    decreases n,
{
    if n < 10 {
        String::from_str(digit_text(n))
    } else {
        let mut r = decimal_text(n / 10);
        r.append(digit_text(n % 10));
        assert(r@ =~= decimal(n as nat));
        r
    }
}

/// Writes a number in decimal, with at least two digits.
pub fn two_digits_text(n: u64) -> (r: String)
    ensures
        r@ == two_digits(n as nat),
{
    if n < 10 {
        proof {
            reveal_strlit("0");
        }
        let mut r = String::from_str("0");
        r.append(digit_text(n));
        assert(r@ =~= two_digits(n as nat));
        r
    } else {
        decimal_text(n)
    }
}

/// A copy of a list of strings.
pub fn clone_texts(v: &Vec<String>) -> (r: Vec<String>)
    ensures
        texts(r@) == texts(v@),
{
    let mut r: Vec<String> = Vec::new();
    let mut i: usize = 0;
    while i < v.len()
        invariant
            i <= v@.len(),
            texts(r@) == texts(v@).take(i as int),
        decreases v@.len() - i,
    {
        let item = v[i].clone();
        let ghost before = texts(r@);
        r.push(item);
        assert(texts(r@) =~= before.push(v@[i as int]@));
        i = i + 1;
        assert(texts(r@) =~= texts(v@).take(i as int));
    }
    assert(texts(v@).take(i as int) =~= texts(v@));
    r
}

} // verus!
