use vstd::prelude::*;
use vstd::string::StringExecFns;

verus! {

/// Where the broker listens.
#[derive(Clone, Debug)]
pub struct Endpoint {
    pub host: String,
    pub port: u16,
}

/// The character of a decimal digit.
pub open spec fn digit_char(d: nat) -> char
    recommends
        d < 10,
{
    if d == 0 { '0' }
    else if d == 1 { '1' }
    else if d == 2 { '2' }
    else if d == 3 { '3' }
    else if d == 4 { '4' }
    else if d == 5 { '5' }
    else if d == 6 { '6' }
    else if d == 7 { '7' }
    else if d == 8 { '8' }
    else { '9' }
}

/// A number written in decimal, most significant digit first, without leading zeros.
pub open spec fn decimal(n: nat) -> Seq<char>
    decreases n,
{
    if n < 10 {
        seq![digit_char(n)]
    } else {
        decimal(n / 10).push(digit_char(n % 10))
    }
}

/// The transport URI of a broker: always over a secure transport.
pub open spec fn server_uri_of(host: Seq<char>, port: u16) -> Seq<char> {
    "ssl://"@ + host + ":"@ + decimal(port as nat)
}

fn digit_str(d: u16) -> (r: &'static str)
    requires
        d < 10,
    ensures
        r@ == seq![digit_char(d as nat)],
{
    proof {
        reveal_strlit("0");
        reveal_strlit("1");
        reveal_strlit("2");
        reveal_strlit("3");
        reveal_strlit("4");
        reveal_strlit("5");
        reveal_strlit("6");
        reveal_strlit("7");
        reveal_strlit("8");
        reveal_strlit("9");
    }
    match d {
        0 => "0",
        1 => "1",
        2 => "2",
        3 => "3",
        4 => "4",
        5 => "5",
        6 => "6",
        7 => "7",
        8 => "8",
        _ => "9",
    }
}

/// Appends `n` in decimal to `s`.
pub fn append_decimal(s: &mut String, n: u16)
    ensures
        final(s)@ == old(s)@ + decimal(n as nat),
    decreases n,
{
    if n >= 10 {
        append_decimal(s, n / 10);
    }
    let d = digit_str(n % 10);
    s.append(d);
    proof {
        if n >= 10 {
            assert(decimal(n as nat) == decimal((n / 10) as nat).push(digit_char((n % 10) as nat)));
        }
    }
    assert(s@ =~= old(s)@ + decimal(n as nat));
}

impl Endpoint {
    pub fn new(host: String, port: u16) -> (r: Endpoint)
        ensures
            r.host == host,
            r.port == port,
    {
        Endpoint { host, port }
    }

    /// The URI the client is created with: `ssl://<host>:<port>`.
    pub fn server_uri(&self) -> (r: String)
        ensures
            r@ == server_uri_of(self.host@, self.port),
    {
        let mut s = String::from_str("ssl://");
        s.append(self.host.as_str());
        s.append(":");
        append_decimal(&mut s, self.port);
        proof {
            reveal_strlit("ssl://");
            reveal_strlit(":");
        }
        assert(s@ =~= server_uri_of(self.host@, self.port));
        s
    }
}

} // verus!
