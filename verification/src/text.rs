//! Decimal rendering and small string helpers.
use vstd::prelude::*;

verus! {

/// The character of a decimal digit.
pub open spec fn digit_char(d: nat) -> char
    recommends
        d < 10,
{
    (48 + d) as char
}

/// The decimal representation of `n`, most significant digit first, with no
/// leading zeros (zero itself is written `0`).
pub open spec fn decimal(n: nat) -> Seq<char>
    decreases n,
{
    if n < 10 {
        seq![digit_char(n)]
    } else {
        decimal(n / 10).push(digit_char(n % 10))
    }
}

fn digit_str(d: u64) -> (s: &'static str)
    requires
        d < 10,
    ensures
        s@ == seq![digit_char(d as nat)],
{
    if d == 0 {
        proof { reveal_strlit("0"); }
        "0"
    } else if d == 1 {
        proof { reveal_strlit("1"); }
        "1"
    } else if d == 2 {
        proof { reveal_strlit("2"); }
        "2"
    } else if d == 3 {
        proof { reveal_strlit("3"); }
        "3"
    } else if d == 4 {
        proof { reveal_strlit("4"); }
        "4"
    } else if d == 5 {
        proof { reveal_strlit("5"); }
        "5"
    } else if d == 6 {
        proof { reveal_strlit("6"); }
        "6"
    } else if d == 7 {
        proof { reveal_strlit("7"); }
        "7"
    } else if d == 8 {
        proof { reveal_strlit("8"); }
        "8"
    } else {
        proof { reveal_strlit("9"); }
        "9"
    }
}

/// Appends the decimal representation of `n` to `s`.
pub fn push_decimal(s: &mut String, n: u64)
    ensures
        final(s)@ == old(s)@ + decimal(n as nat),
    decreases n,
{
    if n >= 10 {
        push_decimal(s, n / 10);
    }
    s.append(digit_str(n % 10));
    proof {
        if n >= 10 {
            assert(decimal(n as nat) == decimal((n / 10) as nat).push(digit_char((n % 10) as nat)));
        }
    }
}

/// The decimal representation of `n`, as `format!("{}", n)` writes it.
pub fn u64_to_decimal(n: u64) -> (s: String)
    ensures
        s@ == decimal(n as nat),
{
    let mut s = String::new();
    push_decimal(&mut s, n);
    s
}

/// Whether two strings hold the same characters.
pub fn str_equal(a: &str, b: &str) -> (eq: bool)
    ensures
        eq == (a@ == b@),
{
    let x = String::from_str(a);
    let y = String::from_str(b);
    x == y
}

/// The address `a.b.c.d:port` on which a server listens.
pub open spec fn listen_address_spec(octets: [u8; 4], port: u16) -> Seq<char> {
    decimal(octets[0] as nat) + "."@ + decimal(octets[1] as nat) + "."@ + decimal(octets[2] as nat)
        + "."@ + decimal(octets[3] as nat) + ":"@ + decimal(port as nat)
}

/// Writes an IPv4 host, given by its four octets, and a port as
/// `a.b.c.d:port`.
pub fn listen_address(octets: [u8; 4], port: u16) -> (addr: String)
    ensures
        addr@ == listen_address_spec(octets, port),
{
    let mut addr = String::new();
    push_decimal(&mut addr, octets[0] as u64);
    addr.append(".");
    push_decimal(&mut addr, octets[1] as u64);
    addr.append(".");
    push_decimal(&mut addr, octets[2] as u64);
    addr.append(".");
    push_decimal(&mut addr, octets[3] as u64);
    addr.append(":");
    push_decimal(&mut addr, port as u64);
    addr
}

} // verus!
