//! Comparing texts and looking them up in lists.

use vstd::prelude::*;
use vstd::string::StrSliceExecFns;
use vstd::string::StringExecFns;

verus! {

/// The texts that a list of strings holds, in order.
pub open spec fn texts(list: Seq<String>) -> Seq<Seq<char>> {
    list.map_values(|s: String| s@)
}

/// Whether two texts are the same.
pub fn same(a: &str, b: &str) -> (r: bool)
    ensures
        r == (a@ == b@),
{
    String::from_str(a) == String::from_str(b)
}

/// Whether `item` is one of the texts of `list`.
pub fn holds(list: &Vec<String>, item: &str) -> (r: bool)
    ensures
        r == texts(list@).contains(item@),
{
    let mut i: usize = 0;
    while i < list.len()
        invariant
            i <= list.len(),
            forall|k: int| 0 <= k < i ==> texts(list@)[k] != item@,
        decreases list.len() - i,
    {
        if same(list[i].as_str(), item) {
            assert(texts(list@)[i as int] == item@);
            return true;
        }
        i = i + 1;
    }
    false
}

/// Where `c` first stands in `s`, or the length of `s` where it does not
/// stand in it.
pub open spec fn find(s: Seq<char>, c: char) -> int
    decreases s.len(),
{
    if s.len() == 0 {
        0
    } else if s[0] == c {
        0
    } else {
        1 + find(s.subrange(1, s.len() as int), c)
    }
}

/// `find` gives a place in the text or its length; before it no `c`
/// stands, and at it one does.
pub proof fn lemma_find(s: Seq<char>, c: char)
    ensures
        0 <= find(s, c) <= s.len(),
        forall|k: int| 0 <= k < find(s, c) ==> s[k] != c,
        find(s, c) < s.len() ==> s[find(s, c)] == c,
    decreases s.len(),
{
    if s.len() > 0 && s[0] != c {
        let rest = s.subrange(1, s.len() as int);
        lemma_find(rest, c);
        assert forall|k: int| 0 <= k < find(s, c) implies s[k] != c by {
            if k > 0 {
                assert(rest[k - 1] == s[k]);
            }
        }
        if find(s, c) < s.len() {
            assert(rest[find(rest, c)] == s[find(s, c)]);
        }
    }
}

/// `find` gives the length of a text exactly where the text holds no `c`.
pub proof fn lemma_find_contains(s: Seq<char>, c: char)
    ensures
        s.contains(c) <==> find(s, c) < s.len(),
{
    lemma_find(s, c);
    if find(s, c) < s.len() {
        assert(s[find(s, c)] == c);
    }
}

/// The first `c` of a text that begins with a text without `c`, then has
/// `c`, stands right behind that beginning.
pub proof fn lemma_find_first(head: Seq<char>, c: char, tail: Seq<char>)
    requires
        !head.contains(c),
    ensures
        find(head + seq![c] + tail, c) == head.len(),
{
    let s = head + seq![c] + tail;
    lemma_find(s, c);
    let n = find(s, c);
    if n < head.len() {
        assert(s[n] == head[n]);
        assert(head.contains(c));
    }
    if n > head.len() {
        assert(s[head.len() as int] == c);
    }
}

/// Looks for `c` in `text` from the place `from` on. The result counts
/// characters, and is the length of the text where `c` does not follow.
pub fn find_from(text: &str, c: char, from: usize) -> (r: usize)
    requires
        from <= text@.len(),
    ensures
        r == from + find(text@.subrange(from as int, text@.len() as int), c),
        from <= r <= text@.len(),
{
    let n: usize = text.unicode_len();
    let mut i: usize = from;
    while i < n && text.get_char(i) != c
        invariant
            from <= i <= n,
            n == text@.len(),
            from + find(text@.subrange(from as int, n as int), c) == i + find(
                text@.subrange(i as int, n as int),
                c,
            ),
        decreases n - i,
    {
        proof {
            let rest = text@.subrange(i as int, n as int);
            assert(rest.subrange(1, rest.len() as int) == text@.subrange(i + 1, n as int));
        }
        i = i + 1;
    }
    i
}

/// The character that stands for a digit.
pub open spec fn digit_char(d: nat) -> char {
    if d == 0 {
        '0'
    } else if d == 1 {
        '1'
    } else if d == 2 {
        '2'
    } else if d == 3 {
        '3'
    } else if d == 4 {
        '4'
    } else if d == 5 {
        '5'
    } else if d == 6 {
        '6'
    } else if d == 7 {
        '7'
    } else if d == 8 {
        '8'
    } else {
        '9'
    }
}

/// The digit that a character stands for.
pub open spec fn digit_of(c: char) -> Option<nat> {
    if c == '0' {
        Some(0)
    } else if c == '1' {
        Some(1)
    } else if c == '2' {
        Some(2)
    } else if c == '3' {
        Some(3)
    } else if c == '4' {
        Some(4)
    } else if c == '5' {
        Some(5)
    } else if c == '6' {
        Some(6)
    } else if c == '7' {
        Some(7)
    } else if c == '8' {
        Some(8)
    } else if c == '9' {
        Some(9)
    } else {
        None
    }
}

/// A number in decimal digits, without leading zeros.
pub open spec fn decimal(n: nat) -> Seq<char>
    decreases n,
{
    if n < 10 {
        seq![digit_char(n)]
    } else {
        decimal(n / 10) + seq![digit_char(n % 10)]
    }
}

/// The number that a text of decimal digits stands for; none for an empty
/// text and for one that holds anything but digits.
pub open spec fn digits_value(s: Seq<char>) -> Option<nat>
    decreases s.len(),
{
    if s.len() == 0 {
        None
    } else {
        match digit_of(s[s.len() - 1]) {
            None => None,
            Some(d) => if s.len() == 1 {
                Some(d)
            } else {
                match digits_value(s.subrange(0, s.len() - 1)) {
                    None => None,
                    Some(v) => Some(v * 10 + d),
                }
            },
        }
    }
}

/// The number that a text stands for, where it fits into 64 bits.
pub open spec fn decimal_value(s: Seq<char>) -> Option<u64> {
    match digits_value(s) {
        Some(v) => if v <= u64::MAX {
            Some(v as u64)
        } else {
            None
        },
        None => None,
    }
}

/// The digits of a number stand for that number, and hold neither a line
/// feed nor an equals sign.
pub proof fn lemma_decimal_round_trip(n: nat)
    ensures
        digits_value(decimal(n)) == Some(n),
        decimal(n).len() > 0,
        !decimal(n).contains('\n'),
    decreases n,
{
    if n < 10 {
        assert(decimal(n)[0] == digit_char(n));
        assert forall|k: int| 0 <= k < decimal(n).len() implies decimal(n)[k] != '\n' by {}
    } else {
        lemma_decimal_round_trip(n / 10);
        let head = decimal(n / 10);
        let s = decimal(n);
        assert(s.subrange(0, s.len() - 1) == head);
        assert(s[s.len() - 1] == digit_char(n % 10));
        assert forall|k: int| 0 <= k < s.len() implies s[k] != '\n' by {
            if k < head.len() {
                assert(s[k] == head[k]);
                assert(head.contains(head[k]));
            }
        }
    }
}

fn digit_text(d: u64) -> (r: &'static str)
    requires
        d < 10,
    ensures
        r@ == seq![digit_char(d as nat)],
{
    proof {
        reveal_strlit("0");
        reveal_strlit("1");
        reveal_strlit("2");
        reveal_strlit("3");
        reveal_strlit("4");
        reveal_strlit("5");
        reveal_strlit("6");
        reveal_strlit("7");
        reveal_strlit("8");
        reveal_strlit("9");
    }
    let r = if d == 0 {
        "0"
    } else if d == 1 {
        "1"
    } else if d == 2 {
        "2"
    } else if d == 3 {
        "3"
    } else if d == 4 {
        "4"
    } else if d == 5 {
        "5"
    } else if d == 6 {
        "6"
    } else if d == 7 {
        "7"
    } else if d == 8 {
        "8"
    } else {
        "9"
    };
    assert(r@ =~= seq![digit_char(d as nat)]);
    r
}

/// Writes a number in decimal digits.
pub fn to_decimal(n: u64) -> (r: String)
    ensures
        r@ == decimal(n as nat),
    decreases n,
{
    if n < 10 {
        String::from_str(digit_text(n))
    } else {
        let mut s = to_decimal(n / 10);
        s.append(digit_text(n % 10));
        s
    }
}

fn digit(c: char) -> (r: Option<u64>)
    ensures
        r.is_some() == digit_of(c).is_some(),
        r.is_some() ==> r.unwrap() == digit_of(c).unwrap() && r.unwrap() < 10,
{
    if c == '0' {
        Some(0)
    } else if c == '1' {
        Some(1)
    } else if c == '2' {
        Some(2)
    } else if c == '3' {
        Some(3)
    } else if c == '4' {
        Some(4)
    } else if c == '5' {
        Some(5)
    } else if c == '6' {
        Some(6)
    } else if c == '7' {
        Some(7)
    } else if c == '8' {
        Some(8)
    } else if c == '9' {
        Some(9)
    } else {
        None
    }
}

/// A text with a digit that is none has no value, however it goes on.
pub proof fn lemma_digits_value_none(s: Seq<char>, k: int)
    requires
        0 <= k < s.len(),
        digit_of(s[k]).is_none(),
    ensures
        digits_value(s).is_none(),
    decreases s.len(),
{
    if k < s.len() - 1 {
        let head = s.subrange(0, s.len() - 1);
        assert(head[k] == s[k]);
        lemma_digits_value_none(head, k);
    }
}

/// The value of a text of digits does not shrink when a digit is added.
pub proof fn lemma_digits_value_grows(s: Seq<char>, n: int)
    requires
        0 < n <= s.len(),
        digits_value(s).is_some(),
    ensures
        digits_value(s.subrange(0, n)).is_some(),
        digits_value(s.subrange(0, n)).unwrap() <= digits_value(s).unwrap(),
    decreases s.len(),
{
    if n == s.len() {
        assert(s.subrange(0, n) == s);
    } else {
        let head = s.subrange(0, s.len() - 1);
        assert(head.subrange(0, n) == s.subrange(0, n));
        lemma_digits_value_grows(head, n);
    }
}

/// Reads a number from decimal digits.
pub fn from_decimal(text: &str) -> (r: Option<u64>)
    ensures
        r == decimal_value(text@),
{
    let n: usize = text.unicode_len();
    if n == 0 {
        return None;
    }
    let mut value: u64 = 0;
    let mut i: usize = 0;
    while i < n
        invariant
            i <= n,
            n == text@.len(),
            n > 0,
            i > 0 ==> digits_value(text@.subrange(0, i as int)) == Some(value as nat),
            i == 0 ==> value == 0,
        decreases n - i,
    {
        let c = text.get_char(i);
        let ghost prefix = text@.subrange(0, i + 1);
        proof {
            assert(prefix[prefix.len() - 1] == c);
            assert(prefix.subrange(0, prefix.len() - 1) == text@.subrange(0, i as int));
            assert(text@.subrange(0, n as int) == text@);
        }
        match digit(c) {
            None => {
                proof {
                    lemma_digits_value_none(text@, i as int);
                }
                return None;
            },
            Some(d) => {
                if value > (u64::MAX - d) / 10 {
                    proof {
                        assert(digits_value(prefix).unwrap() == value * 10 + d);
                        assert(value * 10 + d > u64::MAX);
                        if digits_value(text@).is_some() {
                            lemma_digits_value_grows(text@, i + 1);
                        }
                    }
                    return None;
                }
                value = value * 10 + d;
            },
        }
        i = i + 1;
    }
    proof {
        assert(text@.subrange(0, n as int) == text@);
    }
    Some(value)
}

} // verus!
