//! The listening port, read from the `PORT` setting.
use vstd::prelude::*;

verus! {

/// The port used when the setting is absent.
pub const DEFAULT_PORT: u16 = 3001;

/// Why a `PORT` setting was rejected.
#[derive(Clone, Copy, Debug, PartialEq, Eq, Structural)]
pub enum PortError {
    /// The setting is the empty string.
    Empty,
    /// The setting holds something other than an optional `+` and decimal digits.
    InvalidDigit,
    /// The setting is a decimal number above 65535.
    OutOfRange,
}

pub open spec fn is_decimal_digit(c: char) -> bool {
    '0' <= c && c <= '9'
}

pub open spec fn digit_value(c: char) -> nat {
    (c as u32 - '0' as u32) as nat
}

pub open spec fn all_digits(cs: Seq<char>) -> bool {
    forall|i: int| 0 <= i < cs.len() ==> #[trigger] is_decimal_digit(cs[i])
}

/// The number that a string of decimal digits denotes, most significant first.
pub open spec fn digits_value(cs: Seq<char>) -> nat
    decreases cs.len(),
{
    if cs.len() == 0 {
        0
    } else {
        digits_value(cs.drop_last()) * 10 + digit_value(cs.last())
    }
}

/// The digits of a setting: what follows a leading `+`, if there is one.
pub open spec fn unsigned_body(s: Seq<char>) -> Seq<char> {
    if s.len() > 0 && s[0] == '+' {
        s.drop_first()
    } else {
        s
    }
}

/// What a `PORT` setting denotes: an optional `+` followed by at least one decimal
/// digit, with a value that fits in 16 bits. Leading zeros are allowed.
pub open spec fn port_of_text(s: Seq<char>) -> Result<u16, PortError> {
    let body = unsigned_body(s);
    if s.len() == 0 {
        Err(PortError::Empty)
    } else if body.len() == 0 || !all_digits(body) {
        Err(PortError::InvalidDigit)
    } else if digits_value(body) > u16::MAX {
        Err(PortError::OutOfRange)
    } else {
        Ok(digits_value(body) as u16)
    }
}

/// The port chosen from the setting, or from its absence.
pub open spec fn resolved_port(setting: Option<Seq<char>>) -> Result<u16, PortError> {
    match setting {
        None => Ok(DEFAULT_PORT),
        Some(s) => port_of_text(s),
    }
}

proof fn lemma_digits_value_step(cs: Seq<char>, c: char)
    ensures
        digits_value(cs.push(c)) == digits_value(cs) * 10 + digit_value(c),
{
    assert(cs.push(c).drop_last() =~= cs);
}

/// The digits read so far by `parse_port`, once `k` characters of `text` are read.
spec fn body_read(text: Seq<char>, k: int) -> Seq<char> {
    if k > 0 && text[0] == '+' {
        text.subrange(1, k)
    } else {
        text.subrange(0, k)
    }
}

proof fn lemma_all_digits_push(cs: Seq<char>, c: char)
    ensures
        all_digits(cs.push(c)) <==> all_digits(cs) && is_decimal_digit(c),
{
    if all_digits(cs) && is_decimal_digit(c) {
        assert forall|i: int| 0 <= i < cs.push(c).len() implies #[trigger] is_decimal_digit(
            cs.push(c)[i],
        ) by {
            if i < cs.len() {
                assert(cs.push(c)[i] == cs[i]);
            }
        }
    }
    if all_digits(cs.push(c)) {
        assert(is_decimal_digit(cs.push(c)[cs.len() as int]));
        assert forall|i: int| 0 <= i < cs.len() implies #[trigger] is_decimal_digit(cs[i]) by {
            assert(cs.push(c)[i] == cs[i]);
            assert(is_decimal_digit(cs.push(c)[i]));
        }
    }
}

/// Reads a port number from the text of the setting.
pub fn parse_port(s: &str) -> (r: Result<u16, PortError>)
    ensures
        r == port_of_text(s@),
{
    let ghost text = s@;
    let mut at_start = true;
    let mut invalid = false;
    let mut too_large = false;
    let mut empty_body = true;
    let mut value: u32 = 0;
    for c in it: s.chars()
        invariant
            it.seq() == text,
            0 <= it.index() <= text.len(),
            at_start == (it.index() == 0),
            empty_body == (body_read(text, it.index() as int).len() == 0),
            invalid == !all_digits(body_read(text, it.index() as int)),
            !invalid ==> (too_large <==> digits_value(body_read(text, it.index() as int)) > 65535),
            !invalid && !too_large ==> value == digits_value(body_read(text, it.index() as int)),
    {
        let ghost k = it.index() as int;
        let ghost before = body_read(text, k);
        assert(c == text[k]);
        if at_start && c == '+' {
            assert(body_read(text, k + 1) =~= before);
        } else {
            assert(body_read(text, k + 1) =~= before.push(c));
            proof {
                lemma_digits_value_step(before, c);
                lemma_all_digits_push(before, c);
            }
            empty_body = false;
            if '0' <= c && c <= '9' {
                if !invalid && !too_large {
                    let next = value * 10 + (c as u32 - '0' as u32);
                    if next > 65535 {
                        too_large = true;
                    } else {
                        value = next;
                    }
                }
            } else {
                invalid = true;
            }
        }
        at_start = false;
    }
    assert(body_read(text, text.len() as int) =~= unsigned_body(text));
    if at_start {
        Err(PortError::Empty)
    } else if invalid || empty_body {
        Err(PortError::InvalidDigit)
    } else if too_large {
        Err(PortError::OutOfRange)
    } else {
        Ok(value as u16)
    }
}

/// Chooses the port from the `PORT` setting: the default when it is absent,
/// else the number that its text denotes.
pub fn resolve_port(setting: Option<&str>) -> (r: Result<u16, PortError>)
    ensures
        r == resolved_port(
            match setting {
                None => None,
                Some(s) => Some(s@),
            },
        ),
{
    match setting {
        None => Ok(DEFAULT_PORT),
        Some(s) => parse_port(s),
    }
}

/// The decimal digit that stands for `d`, for `d` below ten.
pub open spec fn digit_char(d: nat) -> char {
    seq!['0', '1', '2', '3', '4', '5', '6', '7', '8', '9'][d as int]
}

/// The usual decimal spelling of `n`: no sign and no leading zero.
pub open spec fn decimal_text(n: nat) -> Seq<char>
    decreases n,
{
    if n < 10 {
        seq![digit_char(n)]
    } else {
        decimal_text(n / 10).push(digit_char(n % 10))
    }
}

proof fn lemma_decimal_text_digits(n: nat)
    ensures
        decimal_text(n).len() > 0,
        decimal_text(n)[0] != '+',
        all_digits(decimal_text(n)),
        digits_value(decimal_text(n)) == n,
    decreases n,
{
    let d = n % 10;
    assert(is_decimal_digit(digit_char(d)) && digit_value(digit_char(d)) == d);
    if n < 10 {
        assert(seq![digit_char(n)].drop_last() =~= Seq::<char>::empty());
        assert(digits_value(Seq::<char>::empty()) == 0);
        assert(seq![digit_char(n)].last() == digit_char(n));
    } else {
        lemma_decimal_text_digits(n / 10);
        let front = decimal_text(n / 10);
        lemma_digits_value_step(front, digit_char(d));
        lemma_all_digits_push(front, digit_char(d));
        assert(front.push(digit_char(d))[0] == front[0]);
        assert(n / 10 * 10 + d == n);
    }
}

/// Every port number, written out in decimal, is read back as itself.
pub proof fn lemma_port_text_round_trip(port: u16)
    ensures
        port_of_text(decimal_text(port as nat)) == Ok::<u16, PortError>(port),
        resolved_port(Some(decimal_text(port as nat))) == Ok::<u16, PortError>(port),
{
    lemma_decimal_text_digits(port as nat);
}

} // verus!
