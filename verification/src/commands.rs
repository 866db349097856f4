//! The configuration each subcommand hands to the engine, and the pure
//! address arithmetic those subcommands do before touching a socket.
//!
//! Binding, listening, connecting and probing happen outside the
//! library; these types fix what is bound and what is probed.

use vstd::prelude::*;
use vstd::string::StringExecFns;

use crate::port_scanner::PortScanner;
use crate::protocol::Protocol;
use crate::text::decimal_digits_of;
use crate::text::push_decimal_u16;
use crate::text::str_equal;

verus! {

/// Server mode: listen for incoming connections on a local interface.
pub struct Listen {
    /// The local port to bind.
    pub port: u16,
    /// The local interface to bind; `localhost` stands for `127.0.0.1`.
    pub host: String,
    /// The transport to serve.
    pub protocol: Protocol,
}

/// The text a listener binds for streams: the configured interface —
/// with `localhost` resolved to `127.0.0.1` — then a colon and the port.
pub open spec fn spec_bind_address(host: Seq<char>, port: u16) -> Seq<char> {
    (if host == "localhost"@ {
        "127.0.0.1"@
    } else {
        host
    }) + seq![':'] + decimal_digits_of(port as int)
}

impl Listen {
    /// The local address a stream listener binds.
    pub fn bind_address(&self) -> (addr: String)
        ensures
            addr@ == spec_bind_address(self.host@, self.port),
    {
        let mut out = if str_equal(self.host.as_str(), "localhost") {
            String::from_str("127.0.0.1")
        } else {
            self.host.clone()
        };
        proof {
            reveal_strlit(":");
            assert(":"@ =~= seq![':']);
        }
        out.append(":");
        push_decimal_u16(self.port, &mut out);
        proof {
            assert(out@ =~= spec_bind_address(self.host@, self.port));
        }
        out
    }

    /// The local address a datagram listener binds: every interface at
    /// the configured port.
    pub fn udp_bind_address(&self) -> (addr: String)
        ensures
            addr@ == "0.0.0.0"@ + seq![':'] + decimal_digits_of(self.port as int),
    {
        let mut out = String::from_str("0.0.0.0");
        proof {
            reveal_strlit(":");
            assert(":"@ =~= seq![':']);
        }
        out.append(":");
        push_decimal_u16(self.port, &mut out);
        proof {
            assert(out@ =~= "0.0.0.0"@ + seq![':'] + decimal_digits_of(self.port as int));
        }
        out
    }
}

/// Port scanning mode: probe a contiguous port range on one host.
pub struct Scan {
    /// The host to scan.
    pub host: String,
    /// The first port of the range.
    pub start: u16,
    /// The last port of the range, inclusive.
    pub end: u16,
    /// Milliseconds before a silent port counts as closed.
    pub timeout: u64,
}

impl Scan {
    /// The scanner this command configures.
    pub fn scanner(&self) -> (s: PortScanner)
        ensures
            s@.host == self.host@,
            s@.start == self.start,
            s@.end == self.end,
            s@.timeout == self.timeout,
    {
        PortScanner::new(self.host.as_str(), self.start, self.end).with_timeout(self.timeout)
    }
}

} // verus!
