use vstd::prelude::*;

verus! {

/// The character of a decimal digit.
pub open spec fn digit_char(digit: nat) -> char {
    seq!['0', '1', '2', '3', '4', '5', '6', '7', '8', '9'][digit as int]
}

/// The decimal digits of a natural number, without leading zeros.
pub open spec fn decimal(n: nat) -> Seq<char>
    decreases n,
{
    if n < 10 {
        seq![digit_char(n)]
    } else {
        decimal(n / 10).push(digit_char(n % 10))
    }
}

/// The decimal form of an integer, with a minus sign where it is negative.
pub open spec fn signed_decimal(n: int) -> Seq<char> {
    if n < 0 {
        seq!['-'] + decimal((-n) as nat)
    } else {
        decimal(n as nat)
    }
}

/// The text of one decimal digit.
pub fn digit_text(digit: u64) -> (r: &'static str)
    requires
        digit < 10,
    ensures
        r@ == seq![digit_char(digit as nat)],
{
    proof {
        reveal_strlit("0");
        reveal_strlit("1");
        reveal_strlit("2");
        reveal_strlit("3");
        reveal_strlit("4");
        reveal_strlit("5");
        reveal_strlit("6");
        reveal_strlit("7");
        reveal_strlit("8");
        reveal_strlit("9");
    }
    let r = if digit == 0 {
        "0"
    } else if digit == 1 {
        "1"
    } else if digit == 2 {
        "2"
    } else if digit == 3 {
        "3"
    } else if digit == 4 {
        "4"
    } else if digit == 5 {
        "5"
    } else if digit == 6 {
        "6"
    } else if digit == 7 {
        "7"
    } else if digit == 8 {
        "8"
    } else {
        "9"
    };
    r
}

/// Writes a number in decimal.
pub fn decimal_text(n: u64) -> (r: String)
    ensures
        r@ == decimal(n as nat),
    decreases n,
{
    if n < 10 {
        digit_text(n).to_owned()
    } else {
        let mut text = decimal_text(n / 10);
        text.append(digit_text(n % 10));
        text
    }
}

/// Writes an integer in decimal, with a minus sign where it is negative.
pub fn signed_decimal_text(n: i64) -> (r: String)
    ensures
        r@ == signed_decimal(n as int),
{
    if n < 0 {
        let magnitude: u64 = if n == i64::MIN {
            0x8000_0000_0000_0000
        } else {
            (-n) as u64
        };
        proof {
            reveal_strlit("-");
        }
        let mut text = "-".to_owned();
        let digits = decimal_text(magnitude);
        text.append(digits.as_str());
        text
    } else {
        decimal_text(n as u64)
    }
}


/// How many characters from a position on come before the first `c`, or
/// before the end where there is none.
pub open spec fn span(s: Seq<char>, c: char, from: int) -> nat
    decreases s.len() - from,
{
    if from < 0 || from >= s.len() || s[from] == c {
        0
    } else {
        1 + span(s, c, from + 1)
    }
}

/// The position of the first `c` at or after a position, or the length of
/// the text where there is none.
pub open spec fn find_char(s: Seq<char>, c: char, from: int) -> int {
    from + span(s, c, from)
}

/// How many positions from `from` on come before the first at which `a`
/// stands directly before `b`, both before `to`; up to `to` where there is
/// none.
pub open spec fn pair_span(s: Seq<char>, a: char, b: char, from: int, to: int) -> nat
    decreases to - from,
{
    if from < 0 || from >= to || to > s.len() {
        0
    } else if from + 1 < to && s[from] == a && s[from + 1] == b {
        0
    } else {
        1 + pair_span(s, a, b, from + 1, to)
    }
}

/// The first position at or after `from` at which `a` stands directly
/// before `b`, both before `to`; `to` where there is none.
pub open spec fn find_pair(s: Seq<char>, a: char, b: char, from: int, to: int) -> int {
    from + pair_span(s, a, b, from, to)
}

/// Where the first `c` at or after a position stands: at the position
/// before which, from there on, no `c` stands, and at which one does or the
/// text ends.
pub proof fn lemma_find_char_at(s: Seq<char>, c: char, from: int, at: int)
    requires
        0 <= from <= at <= s.len(),
        forall|j: int| from <= j < at ==> s[j] != c,
        at < s.len() ==> s[at] == c,
    ensures
        find_char(s, c, from) == at,
    decreases at - from,
{
    if from < at {
        lemma_find_char_at(s, c, from + 1, at);
    }
}

/// Where the first `a` directly before `b` at or after a position stands:
/// at the first `a` from there on, where `b` follows it.
pub proof fn lemma_find_pair_at(s: Seq<char>, a: char, b: char, from: int, to: int, at: int)
    requires
        0 <= from <= at,
        at + 1 < to <= s.len(),
        s[at] == a,
        s[at + 1] == b,
        forall|j: int| from <= j < at ==> s[j] != a,
    ensures
        find_pair(s, a, b, from, to) == at,
    decreases at - from,
{
    if from < at {
        lemma_find_pair_at(s, a, b, from + 1, to, at);
    }
}

/// The characters of a text.
pub fn chars_of(s: &str) -> (r: Vec<char>)
    ensures
        r@ == s@,
{
    let n = s.unicode_len();
    let mut chars: Vec<char> = Vec::new();
    let mut i: usize = 0;
    while i < n
        invariant
            n == s@.len(),
            i <= n,
            chars@ == s@.subrange(0, i as int),
        decreases n - i,
    {
        chars.push(s.get_char(i));
        i = i + 1;
    }
    chars
}

/// The part of a text between two positions.
pub fn slice_text(s: &str, from: usize, to: usize) -> (r: String)
    requires
        from <= to <= s@.len(),
    ensures
        r@ == s@.subrange(from as int, to as int),
{
    s.substring_char(from, to).to_owned()
}

/// Finds the first `c` at or after a position.
pub fn find_char_in(chars: &Vec<char>, c: char, from: usize) -> (r: usize)
    requires
        from <= chars@.len(),
    ensures
        r == find_char(chars@, c, from as int),
        from <= r <= chars@.len(),
        r < chars@.len() ==> chars@[r as int] == c,
        forall|i: int| from <= i < r ==> chars@[i] != c,
{
    let mut i: usize = from;
    while i < chars.len() && chars[i] != c
        invariant
            from <= i <= chars@.len(),
            find_char(chars@, c, from as int) == find_char(chars@, c, i as int),
            forall|j: int| from <= j < i ==> chars@[j] != c,
        decreases chars@.len() - i,
    {
        i = i + 1;
    }
    i
}

/// Finds the first position at or after `from` at which `a` stands directly
/// before `b`, both before `to`.
pub fn find_pair_in(chars: &Vec<char>, a: char, b: char, from: usize, to: usize) -> (r: usize)
    requires
        from <= to <= chars@.len(),
    ensures
        r == find_pair(chars@, a, b, from as int, to as int),
        from <= r <= to,
        r < to ==> r + 1 < to && chars@[r as int] == a && chars@[r + 1] == b,
{
    let mut i: usize = from;
    while i < to
        invariant
            from <= i <= to <= chars@.len(),
            find_pair(chars@, a, b, from as int, to as int) == find_pair(
                chars@,
                a,
                b,
                i as int,
                to as int,
            ),
        decreases to - i,
    {
        if i + 1 < to && chars[i] == a && chars[i + 1] == b {
            return i;
        }
        i = i + 1;
    }
    i
}

} // verus!
