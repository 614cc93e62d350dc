//! Character-level helpers for building the textual forms the protocol uses.

use vstd::prelude::*;

verus! {

/// The lower-case hexadecimal digit for a value below sixteen.
pub open spec fn hex_char(d: int) -> char {
    if d < 10 {
        (('0' as int) + d) as char
    } else {
        (('a' as int) + d - 10) as char
    }
}

/// The decimal digit for a value below ten.
pub open spec fn decimal_char(d: int) -> char {
    (('0' as int) + d) as char
}

/// The shortest base-ten rendering of `n`, without sign or leading zeros.
pub open spec fn decimal(n: nat) -> Seq<char>
    decreases n,
{
    if n < 10 {
        seq![decimal_char(n as int)]
    } else {
        decimal(n / 10).push(decimal_char((n % 10) as int))
    }
}

/// Relies on `String::push`: the character is added at the end.
#[verifier::external_body]
pub(crate) fn push_char(s: &mut String, c: char)
    ensures
        final(s)@ == old(s)@.push(c),
{
    s.push(c)
}

pub fn hex_digit(d: u8) -> (c: char)
    requires
        d < 16,
    ensures
        c == hex_char(d as int),
{
    if d < 10 {
        (48u8 + d) as char
    } else {
        (87u8 + d) as char
    }
}

pub fn append_decimal(s: &mut String, n: u64)
    ensures
        final(s)@ == old(s)@ + decimal(n as nat),
    decreases n,
{
    if n >= 10 {
        append_decimal(s, n / 10);
    }
    let d = (n % 10) as u8;
    push_char(s, (48u8 + d) as char);
}


/// Dotted-decimal form of a four-byte IPv4 address.
pub open spec fn dotted_quad(ip: Seq<u8>) -> Seq<char> {
    decimal(ip[0] as nat) + seq!['.'] + decimal(ip[1] as nat) + seq!['.'] + decimal(ip[2] as nat)
        + seq!['.'] + decimal(ip[3] as nat)
}

/// Four lower-case hex digits for the 16-bit group `hi`, `lo`.
pub open spec fn hex_group(hi: u8, lo: u8) -> Seq<char> {
    seq![
        hex_char(hi as int / 16),
        hex_char(hi as int % 16),
        hex_char(lo as int / 16),
        hex_char(lo as int % 16),
    ]
}

/// The first `count` 16-bit groups of `ip`, in hex, separated by colons.
pub open spec fn hex_groups(ip: Seq<u8>, count: nat) -> Seq<char>
    decreases count,
{
    if count == 0 {
        seq![]
    } else if count == 1 {
        hex_group(ip[0], ip[1])
    } else {
        hex_groups(ip, (count - 1) as nat) + seq![':'] + hex_group(
            ip[2 * count - 2],
            ip[2 * count - 1],
        )
    }
}

/// Full textual form of a sixteen-byte IPv6 address: eight colon-separated groups of
/// four hex digits.
pub open spec fn ipv6_text(ip: Seq<u8>) -> Seq<char> {
    hex_groups(ip, 8)
}

/// Appends the dotted-decimal form of `ip`.
pub fn append_dotted_quad(s: &mut String, ip: &[u8; 4])
    ensures
        final(s)@ == old(s)@ + dotted_quad(ip@),
{
    append_decimal(s, ip[0] as u64);
    push_char(s, '.');
    append_decimal(s, ip[1] as u64);
    push_char(s, '.');
    append_decimal(s, ip[2] as u64);
    push_char(s, '.');
    append_decimal(s, ip[3] as u64);
    assert(final(s)@ =~= old(s)@ + dotted_quad(ip@));
}

/// Appends the eight hex groups of `ip`, separated by colons.
pub fn append_ipv6(s: &mut String, ip: &[u8; 16])
    ensures
        final(s)@ == old(s)@ + ipv6_text(ip@),
{
    let ghost start = s@;
    let mut g: usize = 0;
    while g < 8
        invariant
            g <= 8,
            s@ == start + hex_groups(ip@, g as nat),
        decreases 8 - g,
    {
        if g > 0 {
            push_char(s, ':');
        }
        let hi = ip[2 * g];
        let lo = ip[2 * g + 1];
        push_char(s, hex_digit(hi / 16));
        push_char(s, hex_digit(hi % 16));
        push_char(s, hex_digit(lo / 16));
        push_char(s, hex_digit(lo % 16));
        g += 1;
        assert(s@ =~= start + hex_groups(ip@, g as nat));
    }
}

} // verus!
