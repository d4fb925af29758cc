//! Decimal text of integers: how numbers are written into a document and read
//! from a configuration string.

use vstd::prelude::*;
use vstd::string::*;

verus! {

/// The character of a decimal digit.
pub open spec fn digit_char(d: int) -> char {
    if d == 0 {
        '0'
    } else if d == 1 {
        '1'
    } else if d == 2 {
        '2'
    } else if d == 3 {
        '3'
    } else if d == 4 {
        '4'
    } else if d == 5 {
        '5'
    } else if d == 6 {
        '6'
    } else if d == 7 {
        '7'
    } else if d == 8 {
        '8'
    } else {
        '9'
    }
}

/// The decimal digits of `n`, most significant first, without leading zeros.
pub open spec fn digits(n: nat) -> Seq<char>
    decreases n,
{
    if n < 10 {
        seq![digit_char(n as int)]
    } else {
        digits(n / 10).push(digit_char((n % 10) as int))
    }
}

/// The decimal text of an integer: a minus sign for a negative one, no sign
/// otherwise.
pub open spec fn int_text(v: int) -> Seq<char> {
    if v < 0 {
        seq!['-'] + digits((-v) as nat)
    } else {
        digits(v as nat)
    }
}

/// One decimal digit as text.
pub fn digit_str(d: u8) -> (text: &'static str)
    requires
        d < 10,
    ensures
        text@ == seq![digit_char(d as int)],
{
    proof {
        reveal_strlit("0");
        reveal_strlit("1");
        reveal_strlit("2");
        reveal_strlit("3");
        reveal_strlit("4");
        reveal_strlit("5");
        reveal_strlit("6");
        reveal_strlit("7");
        reveal_strlit("8");
        reveal_strlit("9");
    }
    let text = if d == 0 {
        "0"
    } else if d == 1 {
        "1"
    } else if d == 2 {
        "2"
    } else if d == 3 {
        "3"
    } else if d == 4 {
        "4"
    } else if d == 5 {
        "5"
    } else if d == 6 {
        "6"
    } else if d == 7 {
        "7"
    } else if d == 8 {
        "8"
    } else {
        "9"
    };
    assert(text@ =~= seq![digit_char(d as int)]);
    text
}

/// Writes a natural number in decimal.
pub fn render_nat(n: u64) -> (text: String)
    ensures
        text@ == digits(n as nat),
    decreases n,
{
    if n < 10 {
        String::from_str(digit_str(n as u8))
    } else {
        let mut text = render_nat(n / 10);
        text.append(digit_str((n % 10) as u8));
        text
    }
}

/// The absolute value of a machine integer.
pub fn magnitude(v: i64) -> (m: u64)
    ensures
        m == if v < 0 { -(v as int) } else { v as int },
{
    if v < 0 {
        let below: u64 = (-(v + 1)) as u64;
        below + 1
    } else {
        v as u64
    }
}

/// Writes an integer in decimal.
pub fn render_int(v: i64) -> (text: String)
    ensures
        text@ == int_text(v as int),
{
    let body = render_nat(magnitude(v));
    if v < 0 {
        let text = String::from_str("-").concat(body.as_str());
        proof {
            reveal_strlit("-");
            assert(text@ =~= int_text(v as int));
        }
        text
    } else {
        body
    }
}

/// The value of a decimal digit, if the character is one.
pub open spec fn digit_of(c: char) -> Option<int> {
    if c == '0' {
        Some(0)
    } else if c == '1' {
        Some(1)
    } else if c == '2' {
        Some(2)
    } else if c == '3' {
        Some(3)
    } else if c == '4' {
        Some(4)
    } else if c == '5' {
        Some(5)
    } else if c == '6' {
        Some(6)
    } else if c == '7' {
        Some(7)
    } else if c == '8' {
        Some(8)
    } else if c == '9' {
        Some(9)
    } else {
        None
    }
}

/// Whether every character is a decimal digit.
pub open spec fn all_digits(s: Seq<char>) -> bool {
    forall|k: int| 0 <= k < s.len() ==> digit_of(#[trigger] s[k]) is Some
}

/// The number that a run of decimal digits denotes.
pub open spec fn decimal_value(s: Seq<char>) -> int
    decreases s.len(),
{
    if s.len() == 0 {
        0
    } else {
        decimal_value(s.drop_last()) * 10 + digit_of(s.last()).unwrap_or(0)
    }
}

/// Whether the text opens with a sign.
pub open spec fn is_signed(s: Seq<char>) -> bool {
    s.len() > 0 && (s[0] == '-' || s[0] == '+')
}

/// The text without its sign.
pub open spec fn unsigned_part(s: Seq<char>) -> Seq<char> {
    if is_signed(s) {
        s.skip(1)
    } else {
        s
    }
}

/// The 32-bit integer that a text denotes: an optional `+` or `-`, then one
/// or more decimal digits and nothing else, of a value in range.
pub open spec fn parsed_int(s: Seq<char>) -> Option<int> {
    let body = unsigned_part(s);
    let value = if s.len() > 0 && s[0] == '-' {
        -decimal_value(body)
    } else {
        decimal_value(body)
    };
    if body.len() > 0 && all_digits(body) && i32::MIN <= value <= i32::MAX {
        Some(value)
    } else {
        None
    }
}

/// A run of digits denotes no less than any run that opens it.
pub proof fn lemma_decimal_value_grows(s: Seq<char>, n: int)
    requires
        0 <= n <= s.len(),
    ensures
        0 <= decimal_value(s.take(n)) <= decimal_value(s),
    decreases s.len() - n,
{
    lemma_decimal_value_nonnegative(s.take(n));
    if n == s.len() {
        assert(s.take(n) =~= s);
    } else {
        lemma_decimal_value_grows(s, n + 1);
        assert(s.take(n + 1).drop_last() =~= s.take(n));
    }
}

/// A run of digits denotes no negative number.
pub proof fn lemma_decimal_value_nonnegative(s: Seq<char>)
    ensures
        decimal_value(s) >= 0,
    decreases s.len(),
{
    if s.len() > 0 {
        lemma_decimal_value_nonnegative(s.drop_last());
    }
}

/// The value of one decimal digit.
pub fn digit_value(c: char) -> (value: Option<u8>)
    ensures
        match value {
            Some(d) => digit_of(c) == Some(d as int),
            None => digit_of(c) is None,
        },
{
    if c == '0' {
        Some(0)
    } else if c == '1' {
        Some(1)
    } else if c == '2' {
        Some(2)
    } else if c == '3' {
        Some(3)
    } else if c == '4' {
        Some(4)
    } else if c == '5' {
        Some(5)
    } else if c == '6' {
        Some(6)
    } else if c == '7' {
        Some(7)
    } else if c == '8' {
        Some(8)
    } else if c == '9' {
        Some(9)
    } else {
        None
    }
}

/// Reads a 32-bit integer in decimal.
pub fn parse_int(s: &str) -> (value: Option<i32>)
    ensures
        match value {
            Some(v) => parsed_int(s@) == Some(v as int),
            None => parsed_int(s@) is None,
        },
{
    let len: usize = s.unicode_len();
    if len == 0 {
        return None;
    }
    let first = s.get_char(0);
    let negative = first == '-';
    let start: usize = if first == '-' || first == '+' {
        1
    } else {
        0
    };
    if start == len {
        return None;
    }
    let ghost body = unsigned_part(s@);
    assert(body =~= s@.skip(start as int));
    let mut total: i64 = 0;
    let mut at: usize = start;
    while at < len
        invariant
            start <= at <= len,
            len == s@.len(),
            body == s@.skip(start as int),
            body == unsigned_part(s@),
            total == decimal_value(body.take(at - start)),
            0 <= total <= 2147483648,
            forall|k: int| 0 <= k < at - start ==> digit_of(#[trigger] body[k]) is Some,
        decreases len - at,
    {
        let c = s.get_char(at);
        assert(c == body[at - start]);
        match digit_value(c) {
            None => {
                assert(!all_digits(body));
                return None;
            },
            Some(d) => {
                proof {
                    assert(body.take(at - start + 1).drop_last() =~= body.take(at - start));
                    assert(body.take(at - start + 1).last() == c);
                }
                total = total * 10 + d as i64;
                if total > 2147483648 {
                    proof {
                        lemma_decimal_value_grows(body, at - start + 1);
                    }
                    return None;
                }
            },
        }
        at += 1;
    }
    assert(body.take(at - start) =~= body);
    if negative {
        Some((-total) as i32)
    } else if total > 2147483647 {
        None
    } else {
        Some(total as i32)
    }
}

/// The position of the first `:` of a text, or its length where it has none.
pub open spec fn colon_at(s: Seq<char>) -> int
    decreases s.len(),
{
    if s.len() == 0 || s[0] == ':' {
        0
    } else {
        1 + colon_at(s.skip(1))
    }
}

/// The pieces that the `:` characters of a text part it into. A text
/// without one is a single piece, the empty text too.
pub open spec fn split_colons(s: Seq<char>) -> Seq<Seq<char>>
    decreases s.len(),
{
    let i = colon_at(s);
    if 0 <= i < s.len() {
        seq![s.take(i)] + split_colons(s.skip(i + 1))
    } else {
        seq![s]
    }
}

/// The first `:` stands where a `:` is that none precedes; a text without
/// one has it at its end.
pub proof fn lemma_colon_at(s: Seq<char>, n: int)
    requires
        0 <= n <= s.len(),
        forall|k: int| 0 <= k < n ==> s[k] != ':',
        n < s.len() ==> s[n] == ':',
    ensures
        colon_at(s) == n,
    decreases n,
{
    if n > 0 {
        assert forall|k: int| 0 <= k < n - 1 implies s.skip(1)[k] != ':' by {
            assert(s.skip(1)[k] == s[k + 1]);
        }
        lemma_colon_at(s.skip(1), n - 1);
    }
}

/// The characters of each text of a list.
pub open spec fn texts(parts: Seq<String>) -> Seq<Seq<char>> {
    parts.map_values(|p: String| p@)
}

/// Parts a text at its `:` characters.
pub fn split_at_colons(s: &str) -> (parts: Vec<String>)
    ensures
        texts(parts@) == split_colons(s@),
{
    let len: usize = s.unicode_len();
    let mut parts: Vec<String> = Vec::new();
    let mut start: usize = 0;
    let mut at: usize = 0;
    assert(s@.skip(0) =~= s@);
    assert(texts(parts@) + split_colons(s@) =~= split_colons(s@));
    while at < len
        invariant
            start <= at <= len,
            len == s@.len(),
            forall|k: int| start <= k < at ==> s@[k] != ':',
            split_colons(s@) == texts(parts@) + split_colons(s@.skip(start as int)),
        decreases len - at,
    {
        if s.get_char(at) == ':' {
            let piece = s.substring_char(start, at).to_owned();
            proof {
                let rest = s@.skip(start as int);
                assert forall|k: int| 0 <= k < at - start implies rest[k] != ':' by {
                    assert(rest[k] == s@[start + k]);
                }
                lemma_colon_at(rest, at - start);
                assert(rest.take(at - start) =~= s@.subrange(start as int, at as int));
                assert(rest.skip(at - start + 1) =~= s@.skip(at + 1));
                assert(texts(parts@.push(piece)) =~= texts(parts@) + seq![piece@]);
            }
            parts.push(piece);
            start = at + 1;
        }
        at += 1;
    }
    let piece = s.substring_char(start, len).to_owned();
    proof {
        let rest = s@.skip(start as int);
        assert forall|k: int| 0 <= k < len - start implies rest[k] != ':' by {
            assert(rest[k] == s@[start + k]);
        }
        lemma_colon_at(rest, len - start);
        assert(rest =~= s@.subrange(start as int, len as int));
        assert(texts(parts@.push(piece)) =~= texts(parts@) + seq![piece@]);
    }
    parts.push(piece);
    parts
}

} // verus!
