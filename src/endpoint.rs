use vstd::prelude::*;

verus! {

/// An IPv4 address (its four octets, most significant first) and a port:
/// one network participant.
#[derive(Clone, Copy, Debug, PartialEq, Eq, Structural)]
pub struct Endpoint {
    pub a: u8,
    pub b: u8,
    pub c: u8,
    pub d: u8,
    pub port: u16,
}

/// The ASCII digit for `n`, which is below ten.
pub open spec fn digit(n: nat) -> u8 {
    (48 + n) as u8
}

/// The decimal digits of `n`, most significant first, without leading zeros.
pub open spec fn decimal(n: nat) -> Seq<u8>
    decreases n,
{
    if n < 10 {
        seq![digit(n)]
    } else {
        decimal(n / 10).push(digit(n % 10))
    }
}

/// The text form `a.b.c.d:port` of an endpoint, as ASCII bytes.
pub open spec fn text(e: Endpoint) -> Seq<u8> {
    decimal(e.a as nat) + seq![46u8] + decimal(e.b as nat) + seq![46u8] + decimal(e.c as nat)
        + seq![46u8] + decimal(e.d as nat) + seq![58u8] + decimal(e.port as nat)
}

/// Appends the decimal digits of `n` to `out`.
fn push_decimal(out: &mut Vec<u8>, n: u16)
    ensures
        final(out)@ == old(out)@ + decimal(n as nat),
    decreases n,
{
    if n >= 10 {
        push_decimal(out, n / 10);
    }
    out.push(48u8 + (n % 10) as u8);
    assert(out@ =~= old(out)@ + decimal(n as nat));
}

impl Endpoint {
    pub fn new(a: u8, b: u8, c: u8, d: u8, port: u16) -> (r: Endpoint)
        ensures
            r == (Endpoint { a, b, c, d, port }),
    {
        Endpoint { a, b, c, d, port }
    }

    /// The endpoint in `ip:port` text form, as it travels in a match reply.
    pub fn to_text(&self) -> (r: Vec<u8>)
        ensures
            r@ == text(*self),
    {
        let mut out: Vec<u8> = Vec::new();
        push_decimal(&mut out, self.a as u16);
        out.push(46u8);
        push_decimal(&mut out, self.b as u16);
        out.push(46u8);
        push_decimal(&mut out, self.c as u16);
        out.push(46u8);
        push_decimal(&mut out, self.d as u16);
        out.push(58u8);
        push_decimal(&mut out, self.port);
        assert(out@ =~= text(*self));
        out
    }
}

} // verus!
