//! Turning what the driver learned about the current server into the
//! identifier that the retry loop compares with its target.
//!
//! The driver asks the server API, or reads the clock when no API is
//! installed, and hands the raw answer over as a `ServerProbe`.

use vstd::prelude::*;

verus! {

/// The failure reported when the server API knows of no server.
pub const NO_SERVER_DETECTED: &'static str = "No server detected";

/// The prefix of an identifier made up from the clock.
pub const FALLBACK_PREFIX: &'static str = "server-";

/// The clock reading is reduced modulo this number in a made-up identifier.
pub const FALLBACK_MODULUS: u64 = 1000;

/// What the driver learned when it asked for the current server.
#[derive(Debug, PartialEq, Eq)]
pub enum ServerProbe {
    /// The server API answered with this address, which may be empty.
    Address { server_ip: String },
    /// No server API is installed; the clock read this many seconds since
    /// the epoch.
    NoApi { unix_secs: u64 },
}

/// Mathematical model of a `ServerProbe`.
pub enum ProbeView {
    Address { server_ip: Seq<char> },
    NoApi { unix_secs: u64 },
}

impl View for ServerProbe {
    type V = ProbeView;

    open spec fn view(&self) -> ProbeView {
        match self {
            ServerProbe::Address { server_ip } => ProbeView::Address { server_ip: server_ip@ },
            ServerProbe::NoApi { unix_secs } => ProbeView::NoApi { unix_secs: *unix_secs },
        }
    }
}

/// The character that writes the digit `d`.
pub open spec fn digit(d: nat) -> char
    recommends
        d < 10,
{
    seq!['0', '1', '2', '3', '4', '5', '6', '7', '8', '9'][d as int]
}

/// The decimal numeral of `n`, without leading zeros.
pub open spec fn decimal(n: nat) -> Seq<char>
    decreases n,
{
    if n < 10 {
        seq![digit(n)]
    } else {
        decimal(n / 10).push(digit(n % 10))
    }
}

/// The identifier made up from a clock reading.
pub open spec fn fallback_id(unix_secs: u64) -> Seq<char> {
    FALLBACK_PREFIX@ + decimal((unix_secs % FALLBACK_MODULUS) as nat)
}

/// The identifier, or the failure, that a probe stands for.
pub open spec fn current_server(probe: ProbeView) -> Result<Seq<char>, Seq<char>> {
    match probe {
        ProbeView::Address { server_ip } => if server_ip.len() == 0 {
            Err(NO_SERVER_DETECTED@)
        } else {
            Ok(server_ip)
        },
        ProbeView::NoApi { unix_secs } => Ok(fallback_id(unix_secs)),
    }
}

fn digit_str(d: u64) -> (s: &'static str)
    requires
        d < 10,
    ensures
        s@ == seq![digit(d as nat)],
{
    proof {
        reveal_strlit("0");
        reveal_strlit("1");
        reveal_strlit("2");
        reveal_strlit("3");
        reveal_strlit("4");
        reveal_strlit("5");
        reveal_strlit("6");
        reveal_strlit("7");
        reveal_strlit("8");
        reveal_strlit("9");
    }
    let s: &'static str = if d == 0 {
        "0"
    } else if d == 1 {
        "1"
    } else if d == 2 {
        "2"
    } else if d == 3 {
        "3"
    } else if d == 4 {
        "4"
    } else if d == 5 {
        "5"
    } else if d == 6 {
        "6"
    } else if d == 7 {
        "7"
    } else if d == 8 {
        "8"
    } else {
        "9"
    };
    assert(s@ =~= seq![digit(d as nat)]);
    s
}

/// Appends the decimal numeral of `n` to `out`.
fn push_decimal(out: &mut String, n: u64)
    ensures
        final(out)@ == old(out)@ + decimal(n as nat),
    decreases n,
{
    if n >= 10 {
        push_decimal(out, n / 10);
    }
    out.append(digit_str(n % 10));
    assert(out@ =~= old(out)@ + decimal(n as nat));
}

/// Makes up an identifier from a clock reading: the prefix, then the seconds
/// modulo one thousand in decimal.
pub fn fallback_server_id(unix_secs: u64) -> (id: String)
    ensures
        id@ == fallback_id(unix_secs),
{
    let mut id: String = FALLBACK_PREFIX.to_owned();
    push_decimal(&mut id, unix_secs % FALLBACK_MODULUS);
    id
}

/// The current server's identifier, as far as the probe tells it.
///
/// An address is the identifier; an empty address means that no server was
/// detected. Without a server API the identifier is made up from the clock,
/// so the run goes on instead of failing.
pub fn get_current_server(probe: ServerProbe) -> (res: Result<String, String>)
    ensures
        res is Ok <==> current_server(probe@) is Ok,
        res matches Ok(server) ==> server@ == current_server(probe@)->Ok_0,
        res matches Err(failure) ==> failure@ == current_server(probe@)->Err_0,
{
    match probe {
        ServerProbe::Address { server_ip } => if server_ip.as_str().is_empty() {
            Err(NO_SERVER_DETECTED.to_owned())
        } else {
            Ok(server_ip)
        },
        ServerProbe::NoApi { unix_secs } => Ok(fallback_server_id(unix_secs)),
    }
}

} // verus!
