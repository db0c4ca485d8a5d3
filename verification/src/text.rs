//! How values are written in error messages and in the log.

use vstd::prelude::*;

verus! {

/// The digits, in their order.
pub const DIGITS: &'static str = "0123456789";

/// `text` between double quotes, with what must be escaped in it escaped.
pub uninterp spec fn quoted_text(text: Seq<char>) -> Seq<char>;

/// Formats a string slice with `{:?}`, that is with the `core::fmt::Debug` of
/// `str`. Believed of it: the result depends on the text alone, and is named
/// `quoted_text`.
#[verifier::external_body]
pub(crate) fn quote(text: &str) -> (quoted: String)
    ensures
        quoted@ == quoted_text(text@),
{
    format!("{:?}", text)
}

/// A digit.
pub open spec fn digit_text(d: int) -> Seq<char> {
    DIGITS@.subrange(d, d + 1)
}

/// A number in decimal, without leading zeros.
pub open spec fn decimal_text(n: nat) -> Seq<char>
    decreases n,
{
    if n < 10 {
        digit_text(n as int)
    } else {
        decimal_text(n / 10) + digit_text((n % 10) as int)
    }
}

/// A number in decimal, with a sign if it is negative.
pub open spec fn signed_text(n: int) -> Seq<char> {
    if n < 0 {
        "-"@ + decimal_text((-n) as nat)
    } else {
        decimal_text(n as nat)
    }
}

/// Numbers in decimal, with commas between them.
pub open spec fn listed_text(bytes: Seq<u8>) -> Seq<char>
    decreases bytes.len(),
{
    if bytes.len() == 0 {
        Seq::empty()
    } else if bytes.len() == 1 {
        decimal_text(bytes[0] as nat)
    } else {
        listed_text(bytes.drop_last()) + ", "@ + decimal_text(bytes.last() as nat)
    }
}

/// Bytes, as a list of numbers.
pub open spec fn bytes_text(bytes: Seq<u8>) -> Seq<char> {
    "["@ + listed_text(bytes) + "]"@
}

/// A name, and in brackets what it holds.
pub open spec fn holding_text(name: Seq<char>, held: Seq<char>) -> Seq<char> {
    name + "("@ + held + ")"@
}

/// Parameters that are no more than a host.
pub open spec fn host_text(name: Seq<char>, host: Seq<char>) -> Seq<char> {
    name + " { host: "@ + quoted_text(host) + " }"@
}

/// Write a digit behind a text.
fn add_digit(line: &mut String, d: u32)
    requires
        d < 10,
    ensures
        final(line)@ == old(line)@ + digit_text(d as int),
{
    proof {
        reveal_strlit("0123456789");
    }
    let at: usize = d as usize;
    line.append(DIGITS.substring_char(at, at + 1));
}

/// Write a number behind a text, in decimal.
fn add_decimal(line: &mut String, n: u32)
    ensures
        final(line)@ == old(line)@ + decimal_text(n as nat),
    decreases n,
{
    if n < 10 {
        add_digit(line, n);
    } else {
        let ghost before = line@;
        add_decimal(line, n / 10);
        add_digit(line, n % 10);
        proof {
            assert(line@ =~= before + decimal_text(n as nat));
        }
    }
}

/// Write a number in decimal.
pub fn show_signed(n: i32) -> (text: String)
    ensures
        text@ == signed_text(n as int),
{
    let mut line = String::new();
    if n < 0 {
        line.append("-");
        let size: i64 = -(n as i64);
        add_decimal(&mut line, size as u32);
    } else {
        add_decimal(&mut line, n as u32);
    }
    proof {
        assert(line@ =~= signed_text(n as int));
    }
    line
}

/// Write bytes, as a list of numbers.
pub fn show_bytes(bytes: &Vec<u8>) -> (text: String)
    ensures
        text@ == bytes_text(bytes@),
{
    let mut line = "[".to_owned();
    let mut i: usize = 0;
    proof {
        assert(line@ =~= "["@ + listed_text(bytes@.take(0)));
    }
    while i < bytes.len()
        invariant
            i <= bytes.len(),
            line@ == "["@ + listed_text(bytes@.take(i as int)),
        decreases bytes.len() - i,
    {
        if i > 0 {
            line.append(", ");
        }
        add_decimal(&mut line, bytes[i] as u32);
        proof {
            let upto = bytes@.take(i + 1);
            assert(upto.drop_last() =~= bytes@.take(i as int));
            assert(line@ =~= "["@ + listed_text(upto));
        }
        i = i + 1;
    }
    proof {
        assert(bytes@.take(i as int) =~= bytes@);
    }
    line.append("]");
    line
}

/// Write a name, and in brackets what it holds.
pub fn show_holding(name: &str, held: String) -> (text: String)
    ensures
        text@ == holding_text(name@, held@),
{
    let mut line = name.to_owned();
    line.append("(");
    line.append(held.as_str());
    line.append(")");
    line
}

/// Write parameters that are no more than a host.
pub fn show_host(name: &str, host: &String) -> (text: String)
    ensures
        text@ == host_text(name@, host@),
{
    let mut line = name.to_owned();
    line.append(" { host: ");
    line.append(quote(host.as_str()).as_str());
    line.append(" }");
    line
}

/// Write two texts, one behind the other.
pub fn both(first: &str, second: &String) -> (text: String)
    ensures
        text@ == first@ + second@,
{
    let mut text = first.to_owned();
    text.append(second.as_str());
    text
}

} // verus!
