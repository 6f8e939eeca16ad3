//! The CONNECT handshake line: exactly
//! `"CONNECT <host>:<port> HTTP/1.1\r\n\r\n"` when the stream is proxied,
//! and nothing at all when it is direct.

use vstd::prelude::*;
use vstd::string::StringExecFns;
use crate::endpoints::Tunnel;

verus! {

/// The character for one decimal digit value.
pub open spec fn digit_char(d: int) -> char {
    if d == 0 {
        '0'
    } else if d == 1 {
        '1'
    } else if d == 2 {
        '2'
    } else if d == 3 {
        '3'
    } else if d == 4 {
        '4'
    } else if d == 5 {
        '5'
    } else if d == 6 {
        '6'
    } else if d == 7 {
        '7'
    } else if d == 8 {
        '8'
    } else {
        '9'
    }
}

/// The decimal digits of `n`, most significant first, with no leading
/// zeros (a single `'0'` for zero itself).
pub open spec fn decimal_of(n: int) -> Seq<char>
    recommends
        n >= 0,
    decreases n,
{
    if n < 10 {
        seq![digit_char(n)]
    } else {
        decimal_of(n / 10).push(digit_char(n % 10))
    }
}

/// The exact request line written to a proxied stream for a tunnel to
/// `host:port`.
pub open spec fn connect_request_spec(host: Seq<char>, port: u16) -> Seq<char> {
    "CONNECT "@ + host + ":"@ + decimal_of(port as int) + " HTTP/1.1\r\n\r\n"@
}

/// What the handshake writes: the CONNECT request line on a proxied
/// stream, zero bytes on a direct one.
pub open spec fn spec_handshake(is_proxied: bool, host: Seq<char>, port: u16) -> Seq<char> {
    if is_proxied {
        connect_request_spec(host, port)
    } else {
        Seq::<char>::empty()
    }
}

/// The decimal rendering of a number is ASCII.
proof fn lemma_decimal_is_ascii(n: int)
    requires
        n >= 0,
    ensures
        vstd::utf8::is_ascii_chars(decimal_of(n)),
    decreases n,
{
    if n < 10 {
        assert(forall|i: int|
            0 <= i < decimal_of(n).len() ==> '\0' <= #[trigger] decimal_of(n)[i] <= '\u{7f}');
    } else {
        lemma_decimal_is_ascii(n / 10);
        assert(decimal_of(n) =~= decimal_of(n / 10) + seq![digit_char(n % 10)]);
        vstd::utf8::is_ascii_chars_concat(
            decimal_of(n),
            decimal_of(n / 10),
            seq![digit_char(n % 10)],
        );
        assert(vstd::utf8::is_ascii_chars(seq![digit_char(n % 10)]));
    }
}

/// When the host is ASCII, the whole CONNECT request line is ASCII too, so
/// its characters correspond one to one to the bytes written on the wire.
pub proof fn lemma_connect_request_is_ascii(host: Seq<char>, port: u16)
    requires
        vstd::utf8::is_ascii_chars(host),
    ensures
        vstd::utf8::is_ascii_chars(connect_request_spec(host, port)),
{
    reveal_strlit("CONNECT ");
    reveal_strlit(":");
    reveal_strlit(" HTTP/1.1\r\n\r\n");
    lemma_decimal_is_ascii(port as int);
    let a = "CONNECT "@;
    let b = ":"@;
    let c = decimal_of(port as int);
    let d = " HTTP/1.1\r\n\r\n"@;
    assert(vstd::utf8::is_ascii_chars(a));
    assert(vstd::utf8::is_ascii_chars(b));
    assert(vstd::utf8::is_ascii_chars(d));
    vstd::utf8::is_ascii_chars_concat(a + host, a, host);
    vstd::utf8::is_ascii_chars_concat(a + host + b, a + host, b);
    vstd::utf8::is_ascii_chars_concat(a + host + b + c, a + host + b, c);
    vstd::utf8::is_ascii_chars_concat(a + host + b + c + d, a + host + b + c, d);
}

fn digit_str(d: u16) -> (r: &'static str)
    requires
        d < 10,
    ensures
        r@ =~= seq![digit_char(d as int)],
{
    proof {
        reveal_strlit("0");
        reveal_strlit("1");
        reveal_strlit("2");
        reveal_strlit("3");
        reveal_strlit("4");
        reveal_strlit("5");
        reveal_strlit("6");
        reveal_strlit("7");
        reveal_strlit("8");
        reveal_strlit("9");
    }
    match d {
        0 => "0",
        1 => "1",
        2 => "2",
        3 => "3",
        4 => "4",
        5 => "5",
        6 => "6",
        7 => "7",
        8 => "8",
        _ => "9",
    }
}

/// Appends the decimal digits of `n` to `out`.
fn push_decimal(n: u16, out: &mut String)
    ensures
        final(out)@ == old(out)@ + decimal_of(n as int),
    decreases n,
{
    if n >= 10 {
        push_decimal(n / 10, out);
        out.append(digit_str(n % 10));
        proof {
            assert(old(out)@ + decimal_of(n as int / 10) + seq![digit_char(n as int % 10)] =~= old(
                out,
            )@ + decimal_of(n as int));
        }
    } else {
        out.append(digit_str(n));
        proof {
            assert(old(out)@ + seq![digit_char(n as int)] =~= old(out)@ + decimal_of(n as int));
        }
    }
}

/// The decimal rendering of a port number.
pub fn decimal_string(n: u16) -> (r: String)
    ensures
        r@ == decimal_of(n as int),
{
    let mut s = String::new();
    push_decimal(n, &mut s);
    proof {
        assert(Seq::<char>::empty() + decimal_of(n as int) =~= decimal_of(n as int));
    }
    s
}

/// The exact ASCII request line `"CONNECT <host>:<port> HTTP/1.1\r\n\r\n"`
/// for the given tunnel target.
pub fn connect_request(tunnel: &Tunnel) -> (r: String)
    ensures
        r@ == connect_request_spec(tunnel.remote_host@, tunnel.remote_port),
{
    let mut s = String::from_str("CONNECT ");
    s.append(tunnel.remote_host.as_str());
    s.append(":");
    push_decimal(tunnel.remote_port, &mut s);
    s.append(" HTTP/1.1\r\n\r\n");
    proof {
        assert(s@ =~= connect_request_spec(tunnel.remote_host@, tunnel.remote_port));
    }
    s
}

/// The bytes the handshake step writes: the CONNECT request line when the
/// stream is proxied, the empty string (a write of zero bytes) when it is
/// direct, so that both paths continue uniformly.
pub fn handshake_string(is_proxied: bool, tunnel: &Tunnel) -> (r: String)
    ensures
        r@ == spec_handshake(is_proxied, tunnel.remote_host@, tunnel.remote_port),
{
    if is_proxied {
        connect_request(tunnel)
    } else {
        let s = String::new();
        proof {
            assert(s@ =~= Seq::<char>::empty());
        }
        s
    }
}

} // verus!
