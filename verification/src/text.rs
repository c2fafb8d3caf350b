//! The text of a target: a host, a colon and a port.
//!
//! A port is read as a decimal number and written as one. The standard
//! library does both; what it is trusted to do is stated here, and so is where
//! a text is split into host and port.

use crate::error::ParseIntCause;
use crate::target::Port;
use vstd::prelude::*;

verus! {

/// Whether the character is one of the ten decimal digits.
pub open spec fn is_digit(c: char) -> bool {
    '0' <= c <= '9'
}

/// Whether a text holds decimal digits only.
pub open spec fn all_digits(text: Seq<char>) -> bool {
    forall|i: int| 0 <= i < text.len() ==> is_digit(#[trigger] text[i])
}

/// The number that a decimal digit stands for.
pub open spec fn digit_value(c: char) -> nat {
    (c as nat - '0' as nat) as nat
}

/// The number that a text of decimal digits stands for.
pub open spec fn decimal_value(digits: Seq<char>) -> nat
    decreases digits.len(),
{
    if digits.len() == 0 {
        0
    } else {
        10 * decimal_value(digits.drop_last()) + digit_value(digits.last())
    }
}

/// The number that a text stands for, where it is written as a number without
/// sign or with the sign `+`: one or more decimal digits, and nothing else
/// before, between or after them.
pub open spec fn unsigned_value(text: Seq<char>) -> Option<nat> {
    let digits = if text.len() > 0 && text[0] == '+' {
        text.drop_first()
    } else {
        text
    };
    if digits.len() > 0 && all_digits(digits) {
        Some(decimal_value(digits))
    } else {
        None
    }
}

/// The port that a text stands for: the number it is written as, where that
/// number is no larger than the largest port.
pub open spec fn port_value(text: Seq<char>) -> Option<Port> {
    match unsigned_value(text) {
        Some(value) => if value <= Port::MAX {
            Some(value as Port)
        } else {
            None
        },
        None => None,
    }
}

/// The words in which the standard library says why a text is no `u16`.
pub uninterp spec fn port_fault(text: Seq<char>) -> Seq<char>;

/// `str::parse::<u16>` of the standard library, with the error it returns
/// turned into its description.
///
/// A text is parsed into the number that it is written as, in decimal digits
/// with or without a leading `+`, where that number fits in sixteen bits. Any
/// other text is an error; how the standard library describes it depends on the
/// text alone.
#[verifier::external_body]
pub(crate) fn parse_port(text: &str) -> (r: Result<Port, ParseIntCause>)
    ensures
        match r {
            Ok(port) => port_value(text@) == Some(port),
            Err(cause) => port_value(text@) is None && cause@ == port_fault(text@),
        },
{
    match text.parse::<Port>() {
        Ok(port) => Ok(port),
        Err(error) => Err(ParseIntCause::new(error.to_string())),
    }
}

/// The place of the last colon in a text.
pub open spec fn last_colon(text: Seq<char>) -> Option<int>
    decreases text.len(),
{
    if text.len() == 0 {
        None
    } else if text.last() == ':' {
        Some(text.len() - 1)
    } else {
        last_colon(text.drop_last())
    }
}

/// A text whose characters from `from` on are no colons has its last colon
/// where the text before `from` has it.
proof fn lemma_last_colon_before(text: Seq<char>, from: int)
    requires
        0 <= from <= text.len(),
        forall|j: int| from <= j < text.len() ==> text[j] != ':',
    ensures
        last_colon(text) == last_colon(text.take(from)),
    decreases text.len() - from,
{
    if from == text.len() {
        assert(text.take(from) == text);
    } else {
        lemma_last_colon_before(text.drop_last(), from);
        assert(text.drop_last().take(from) == text.take(from));
    }
}

/// Finds the last colon of a text.
pub(crate) fn find_last_colon(s: &str) -> (r: Option<usize>)
    ensures
        match r {
            Some(i) => last_colon(s@) == Some(i as int),
            None => last_colon(s@) is None,
        },
{
    let mut i: usize = s.unicode_len();
    while i > 0
        invariant
            i <= s@.len(),
            forall|j: int| i <= j < s@.len() ==> s@[j] != ':',
        decreases i,
    {
        if s.get_char(i - 1) == ':' {
            proof {
                lemma_last_colon_before(s@, i as int);
            }
            return Some(i - 1);
        }
        i = i - 1;
    }
    proof {
        lemma_last_colon_before(s@, 0);
    }
    None
}

/// The decimal digit that stands for a number below ten.
pub open spec fn digit_char(digit: nat) -> char {
    ('0' as nat + digit) as char
}

/// A number written in decimal digits, without sign and without leading
/// zeros.
pub open spec fn decimal_text(number: nat) -> Seq<char>
    decreases number,
{
    if number < 10 {
        seq![digit_char(number)]
    } else {
        decimal_text(number / 10).push(digit_char(number % 10))
    }
}

/// The identifier of a port at a system: the name of the system, a colon, and
/// the number of the port.
pub open spec fn host_and_port(fqhn: Seq<char>, port: Port) -> Seq<char> {
    fqhn + seq![':'] + decimal_text(port as nat)
}

/// `format!` of the standard library on a string, a colon and a `u16`: the
/// string as it is, the colon, and the number in decimal digits without sign
/// and without leading zeros.
#[verifier::external_body]
pub(crate) fn join_host_and_port(fqhn: &str, port: Port) -> (r: String)
    ensures
        r@ == host_and_port(fqhn@, port),
{
    format!("{}:{}", fqhn, port)
}

/// The last colon of a text, where it has one, is a place in the text.
pub proof fn last_colon_is_last(text: Seq<char>)
    ensures
        match last_colon(text) {
            Some(colon) => 0 <= colon < text.len() && text[colon] == ':' && forall|j: int|
                colon < j < text.len() ==> text[j] != ':',
            None => forall|j: int| 0 <= j < text.len() ==> text[j] != ':',
        },
    decreases text.len(),
{
    if text.len() > 0 && text.last() != ':' {
        let front = text.drop_last();
        last_colon_is_last(front);
        assert(forall|j: int| 0 <= j < front.len() ==> front[j] == text[j]);
    }
}

/// A number that is written in decimal digits is read back from them: the
/// text holds digits only, at least one, and stands for the number.
pub proof fn decimal_text_reads_back(number: nat)
    ensures
        decimal_text(number).len() > 0,
        all_digits(decimal_text(number)),
        decimal_value(decimal_text(number)) == number,
    decreases number,
{
    if number < 10 {
        assert(decimal_value(decimal_text(number).drop_last()) == 0);
    } else {
        let front = decimal_text(number / 10);
        let text = front.push(digit_char(number % 10));
        decimal_text_reads_back(number / 10);
        assert(text.drop_last() == front);
    }
}

/// The identifier of a port at a system is read back: it is split at the
/// colon that was written between the name and the port, whatever the name
/// holds, and the text after that colon stands for the port.
pub proof fn host_and_port_read_back(fqhn: Seq<char>, port: Port)
    ensures
        last_colon(host_and_port(fqhn, port)) == Some(fqhn.len() as int),
        host_and_port(fqhn, port).subrange(0, fqhn.len() as int) == fqhn,
        port_value(
            host_and_port(fqhn, port).subrange(
                fqhn.len() as int + 1,
                host_and_port(fqhn, port).len() as int,
            ),
        ) == Some(port),
{
    let digits = decimal_text(port as nat);
    let text = host_and_port(fqhn, port);
    let colon = fqhn.len() as int;
    decimal_text_reads_back(port as nat);
    assert(forall|j: int| colon + 1 <= j < text.len() ==> text[j] != ':');
    lemma_last_colon_before(text, colon + 1);
    assert(text.subrange(colon + 1, text.len() as int) == digits);
}

} // verus!
