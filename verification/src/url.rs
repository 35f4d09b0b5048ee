use vstd::prelude::*;

use vstd::string::StringExecFns;

verus! {

/// The wire scheme of the signaling rendezvous: plain or TLS WebSocket.
#[derive(Clone, Copy, PartialEq, Eq, Structural, Debug)]
pub enum Scheme {
    Ws,
    Wss,
}

/// The characters of a scheme.
pub open spec fn scheme_chars(s: Scheme) -> Seq<char> {
    match s {
        Scheme::Ws => "ws"@,
        Scheme::Wss => "wss"@,
    }
}

/// The character of one decimal digit.
pub open spec fn decimal_digit(d: int) -> char
    recommends
        0 <= d <= 9,
{
    if d == 0 {
        '0'
    } else if d == 1 {
        '1'
    } else if d == 2 {
        '2'
    } else if d == 3 {
        '3'
    } else if d == 4 {
        '4'
    } else if d == 5 {
        '5'
    } else if d == 6 {
        '6'
    } else if d == 7 {
        '7'
    } else if d == 8 {
        '8'
    } else {
        '9'
    }
}

/// The usual decimal writing of a non-negative number, most significant
/// digit first and without leading zeros (a single zero for 0).
pub open spec fn decimal_chars(n: int) -> Seq<char>
    recommends
        n >= 0,
    decreases n,
{
    if n < 10 {
        seq![decimal_digit(n)]
    } else {
        decimal_chars(n / 10) + seq![decimal_digit(n % 10)]
    }
}

/// The rendezvous URL this core hands to the signaling layer:
/// `{scheme}://{host}:{port}/{room_id}?next={room_size}`, the sole
/// wire-level contract the session depends on externally.
pub open spec fn room_url_chars(
    scheme: Scheme,
    host: Seq<char>,
    port: int,
    room_id: Seq<char>,
    room_size: int,
) -> Seq<char> {
    scheme_chars(scheme) + "://"@ + host + ":"@ + decimal_chars(port) + "/"@ + room_id + "?next="@
        + decimal_chars(room_size)
}

/// One decimal digit as a string slice.
fn decimal_digit_str(d: u64) -> (r: &'static str)
    requires
        d <= 9,
    ensures
        r@ == seq![decimal_digit(d as int)],
{
    proof {
        reveal_strlit("0");
        reveal_strlit("1");
        reveal_strlit("2");
        reveal_strlit("3");
        reveal_strlit("4");
        reveal_strlit("5");
        reveal_strlit("6");
        reveal_strlit("7");
        reveal_strlit("8");
        reveal_strlit("9");
    }
    let r: &'static str = match d {
        0 => "0",
        1 => "1",
        2 => "2",
        3 => "3",
        4 => "4",
        5 => "5",
        6 => "6",
        7 => "7",
        8 => "8",
        _ => "9",
    };
    proof {
        assert(r@ =~= seq![decimal_digit(d as int)]);
    }
    r
}

/// The decimal writing of `n`, built digit by digit.
pub fn decimal_string(n: u64) -> (r: String)
    ensures
        r@ == decimal_chars(n as int),
    decreases n,
{
    if n < 10 {
        String::from_str(decimal_digit_str(n))
    } else {
        let mut s = decimal_string(n / 10);
        s.append(decimal_digit_str(n % 10));
        proof {
            assert(s@ =~= decimal_chars(n as int));
        }
        s
    }
}

/// Builds the rendezvous URL from the configuration surface: scheme,
/// host, port, room identifier and the exact peer count required before
/// the session starts.
pub fn room_url(scheme: Scheme, host: &str, port: u16, room_id: &str, room_size: usize) -> (r:
    String)
    ensures
        r@ == room_url_chars(scheme, host@, port as int, room_id@, room_size as int),
{
    let mut s: String = match scheme {
        Scheme::Ws => String::from_str("ws"),
        Scheme::Wss => String::from_str("wss"),
    };
    s.append("://");
    s.append(host);
    s.append(":");
    let port_digits = decimal_string(port as u64);
    s.append(port_digits.as_str());
    s.append("/");
    s.append(room_id);
    s.append("?next=");
    let size_digits = decimal_string(room_size as u64);
    s.append(size_digits.as_str());
    proof {
        assert(s@ =~= room_url_chars(scheme, host@, port as int, room_id@, room_size as int));
    }
    s
}

} // verus!
