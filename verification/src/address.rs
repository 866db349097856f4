//! Socket addresses as plain data, with a flexible textual form.
//!
//! An [`Address`] holds the four octets of an IPv4 address and a port.
//! [`Address::from_str`] accepts three spellings: a full address such
//! as `192.168.1.1:8080`; a bare port such as `8080`, read as that port
//! on `127.0.0.1`; and `localhost` (or an empty host) with a port, also
//! read as `127.0.0.1`.  The grammar is spelled out by
//! [`spec_parse_address`], and the contract of the parser says that it
//! accepts exactly that grammar.

use vstd::prelude::*;
use vstd::string::StrSliceExecFns;
use vstd::string::StringExecFns;

use crate::text::all_decimal_digits;
use crate::text::decimal_digits_of;
use crate::text::find_char;
use crate::text::is_decimal_digit;
use crate::text::lemma_decimal_digits_of_value;
use crate::text::parse_bounded;
use crate::text::push_decimal_u16;
use crate::text::region_matches;
use crate::text::spec_parse_bounded;

verus! {

/// An IPv4 socket address: four octets and a port.
#[derive(Clone, Copy, Debug, PartialEq, Eq, Structural)]
pub struct Address {
    pub oct0: u8,
    pub oct1: u8,
    pub oct2: u8,
    pub oct3: u8,
    pub port: u16,
}

/// What one octet of a dotted quad means: a digit string of value at
/// most 255, with no leading zero (other than the single digit `0`).
pub open spec fn spec_octet(s: Seq<char>) -> Option<int> {
    if s.len() > 1 && s[0] == '0' {
        None
    } else {
        spec_parse_bounded(s, 255)
    }
}

/// What a port string means: a digit string of value at most 65535,
/// leading zeros allowed.
pub open spec fn spec_port(s: Seq<char>) -> Option<int> {
    spec_parse_bounded(s, 65535)
}

/// What a dotted quad means: four octets separated by dots, split at
/// the first dot each time.
pub open spec fn spec_quad(s: Seq<char>) -> Option<(int, int, int, int)> {
    match s.index_of_first('.') {
        None => None,
        Some(i1) => match spec_octet(s.subrange(0, i1)) {
            None => None,
            Some(o0) => {
                let r1 = s.subrange(i1 + 1, s.len() as int);
                match r1.index_of_first('.') {
                    None => None,
                    Some(i2) => match spec_octet(r1.subrange(0, i2)) {
                        None => None,
                        Some(o1) => {
                            let r2 = r1.subrange(i2 + 1, r1.len() as int);
                            match r2.index_of_first('.') {
                                None => None,
                                Some(i3) => match spec_octet(r2.subrange(0, i3)) {
                                    None => None,
                                    Some(o2) => {
                                        let r3 = r2.subrange(i3 + 1, r2.len() as int);
                                        match spec_octet(r3) {
                                            None => None,
                                            Some(o3) => Some((o0, o1, o2, o3)),
                                        }
                                    },
                                },
                            }
                        },
                    },
                }
            },
        },
    }
}

/// What a host part means: empty or `localhost` stand for the loopback
/// address, anything else must be a dotted quad.
pub open spec fn spec_host(s: Seq<char>) -> Option<(int, int, int, int)> {
    if s.len() == 0 || s == "localhost"@ {
        Some((127, 0, 0, 1))
    } else {
        spec_quad(s)
    }
}

/// The address assembled from host octets and a port.
pub open spec fn address_from_parts(o: (int, int, int, int), p: int) -> Address {
    Address {
        oct0: o.0 as u8,
        oct1: o.1 as u8,
        oct2: o.2 as u8,
        oct3: o.3 as u8,
        port: p as u16,
    }
}

/// The full grammar of [`Address::from_str`]: with a colon, a host part
/// before the first colon and a port after it; without one, a bare port
/// on the loopback address.
pub open spec fn spec_parse_address(s: Seq<char>) -> Option<Address> {
    match s.index_of_first(':') {
        Some(i) => match spec_host(s.subrange(0, i)) {
            None => None,
            Some(o) => match spec_port(s.subrange(i + 1, s.len() as int)) {
                None => None,
                Some(p) => Some(address_from_parts(o, p)),
            },
        },
        None => match spec_port(s) {
            None => None,
            Some(p) => Some(address_from_parts((127, 0, 0, 1), p)),
        },
    }
}

/// The canonical text of an address: the four octets separated by
/// dots, a colon, and the port, each number without leading zeros.
pub open spec fn spec_address_text(a: Address) -> Seq<char> {
    decimal_digits_of(a.oct0 as int) + seq!['.'] + decimal_digits_of(a.oct1 as int) + seq!['.']
        + decimal_digits_of(a.oct2 as int) + seq!['.'] + decimal_digits_of(a.oct3 as int) + seq![
        ':',
    ] + decimal_digits_of(a.port as int)
}

/// Parses one octet of a dotted quad.
fn parse_octet(s: &str, from: usize, to: usize) -> (r: Option<u8>)
    requires
        from <= to <= s@.len(),
    ensures
        (match r {
            Some(v) => spec_octet(s@.subrange(from as int, to as int)) == Some(v as int),
            None => spec_octet(s@.subrange(from as int, to as int)) is None,
        }),
{
    if to - from > 1 {
        let first = s.get_char(from);
        proof {
            assert(s@.subrange(from as int, to as int)[0] == s@[from as int]);
        }
        if first == '0' {
            return None;
        }
    }
    match parse_bounded(s, from, to, 255) {
        Some(v) => Some(v as u8),
        None => None,
    }
}

/// Parses a dotted quad between `from` and `to`.
fn parse_quad(s: &str, from: usize, to: usize) -> (r: Option<(u8, u8, u8, u8)>)
    requires
        from <= to <= s@.len(),
    ensures
        (match r {
            Some(o) => spec_quad(s@.subrange(from as int, to as int)) == Some(
                (o.0 as int, o.1 as int, o.2 as int, o.3 as int),
            ),
            None => spec_quad(s@.subrange(from as int, to as int)) is None,
        }),
{
    let ghost q = s@.subrange(from as int, to as int);
    let i1: usize = match find_char(s, from, to, '.') {
        None => {
            return None;
        },
        Some(i) => i,
    };
    proof {
        assert(q.subrange(0, i1 - from) =~= s@.subrange(from as int, i1 as int));
    }
    let o0: u8 = match parse_octet(s, from, i1) {
        None => {
            return None;
        },
        Some(o) => o,
    };
    let ghost r1 = q.subrange(i1 - from + 1, q.len() as int);
    proof {
        assert(r1 =~= s@.subrange(i1 as int + 1, to as int));
    }
    let i2: usize = match find_char(s, i1 + 1, to, '.') {
        None => {
            return None;
        },
        Some(i) => i,
    };
    proof {
        assert(r1.subrange(0, i2 - (i1 + 1)) =~= s@.subrange(i1 as int + 1, i2 as int));
    }
    let o1: u8 = match parse_octet(s, i1 + 1, i2) {
        None => {
            return None;
        },
        Some(o) => o,
    };
    let ghost r2 = r1.subrange(i2 - (i1 + 1) + 1, r1.len() as int);
    proof {
        assert(r2 =~= s@.subrange(i2 as int + 1, to as int));
    }
    let i3: usize = match find_char(s, i2 + 1, to, '.') {
        None => {
            return None;
        },
        Some(i) => i,
    };
    proof {
        assert(r2.subrange(0, i3 - (i2 + 1)) =~= s@.subrange(i2 as int + 1, i3 as int));
    }
    let o2: u8 = match parse_octet(s, i2 + 1, i3) {
        None => {
            return None;
        },
        Some(o) => o,
    };
    let ghost r3 = r2.subrange(i3 - (i2 + 1) + 1, r2.len() as int);
    proof {
        assert(r3 =~= s@.subrange(i3 as int + 1, to as int));
    }
    let o3: u8 = match parse_octet(s, i3 + 1, to) {
        None => {
            return None;
        },
        Some(o) => o,
    };
    Some((o0, o1, o2, o3))
}

impl Address {
    /// Parses an address in any of the accepted spellings; any string
    /// outside the grammar is rejected.
    pub fn from_str(s: &str) -> (r: Result<Address, String>)
        ensures
            (match r {
                Ok(addr) => spec_parse_address(s@) == Some(addr),
                Err(e) => spec_parse_address(s@) is None && e@
                    == "Could not parse as socket address"@,
            }),
    {
        let n: usize = s.unicode_len();
        proof {
            assert(s@.subrange(0, s@.len() as int) =~= s@);
        }
        match find_char(s, 0, n, ':') {
            Some(i) => {
                let host = if i == 0 {
                    Some((127u8, 0u8, 0u8, 1u8))
                } else if region_matches(s, 0, i, "localhost") {
                    Some((127u8, 0u8, 0u8, 1u8))
                } else {
                    parse_quad(s, 0, i)
                };
                match host {
                    None => Err(String::from_str("Could not parse as socket address")),
                    Some(o) => match parse_bounded(s, i + 1, n, 65535) {
                        None => Err(String::from_str("Could not parse as socket address")),
                        Some(p) => Ok(
                            Address { oct0: o.0, oct1: o.1, oct2: o.2, oct3: o.3, port: p },
                        ),
                    },
                }
            },
            None => match parse_bounded(s, 0, n, 65535) {
                None => Err(String::from_str("Could not parse as socket address")),
                Some(p) => Ok(Address { oct0: 127, oct1: 0, oct2: 0, oct3: 1, port: p }),
            },
        }
    }

    /// The canonical text of this address.
    pub fn to_text(&self) -> (s: String)
        ensures
            s@ == spec_address_text(*self),
    {
        let mut out = String::new();
        push_decimal_u16(self.oct0 as u16, &mut out);
        proof {
            reveal_strlit(".");
            reveal_strlit(":");
            assert("."@ =~= seq!['.']);
            assert(":"@ =~= seq![':']);
        }
        out.append(".");
        push_decimal_u16(self.oct1 as u16, &mut out);
        out.append(".");
        push_decimal_u16(self.oct2 as u16, &mut out);
        out.append(".");
        push_decimal_u16(self.oct3 as u16, &mut out);
        out.append(":");
        push_decimal_u16(self.port, &mut out);
        proof {
            assert(out@ =~= spec_address_text(*self));
        }
        out
    }
}

/// Whether no character of `s` is `c`.
spec fn avoids(s: Seq<char>, c: char) -> bool {
    forall|j: int| 0 <= j < s.len() ==> s[j] != c
}

proof fn lemma_avoids_concat(a: Seq<char>, b: Seq<char>, c: char)
    requires
        avoids(a, c),
        avoids(b, c),
    ensures
        avoids(a + b, c),
{
    assert forall|j: int| 0 <= j < (a + b).len() implies (a + b)[j] != c by {
        if j < a.len() {
            assert((a + b)[j] == a[j]);
        } else {
            assert((a + b)[j] == b[j - a.len()]);
        }
    }
}

proof fn lemma_digits_avoid(s: Seq<char>, c: char)
    requires
        all_decimal_digits(s),
        !is_decimal_digit(c),
    ensures
        avoids(s, c),
{
}

/// In `a`, one `sep`, then `b`, with no `sep` inside `a`: the first
/// occurrence of `sep` is the one in the middle, and the pieces on
/// either side of it are exactly `a` and `b`.
proof fn lemma_first_separator(a: Seq<char>, sep: char, b: Seq<char>)
    requires
        avoids(a, sep),
    ensures
        ({
            let s = a + seq![sep] + b;
            &&& s.index_of_first(sep) == Some(a.len() as int)
            &&& s.subrange(0, a.len() as int) == a
            &&& s.subrange(a.len() as int + 1, s.len() as int) == b
        }),
{
    let s = a + seq![sep] + b;
    s.index_of_first_ensures(sep);
    assert(s[a.len() as int] == (a + seq![sep])[a.len() as int]);
    assert(s[a.len() as int] == sep);
    assert(s.contains(sep));
    let k = s.index_of_first(sep)->Some_0;
    assert forall|j: int| 0 <= j < a.len() implies s[j] != sep by {
        assert(s[j] == a[j]);
    }
    assert(k == a.len());
    assert(s.subrange(0, a.len() as int) =~= a);
    assert(s.subrange(a.len() as int + 1, s.len() as int) =~= b);
}

/// LAW (the canonical text reads back).  Printing an address with
/// [`Address::to_text`] and parsing the result yields the same
/// address: the accepted grammar covers every canonical form, and the
/// printer never produces a spelling the parser rejects.
#[verifier::rlimit(50)]
pub proof fn lemma_address_text_round_trip(a: Address)
    ensures
        spec_parse_address(spec_address_text(a)) == Some(a),
{
    let d0 = decimal_digits_of(a.oct0 as int);
    let d1 = decimal_digits_of(a.oct1 as int);
    let d2 = decimal_digits_of(a.oct2 as int);
    let d3 = decimal_digits_of(a.oct3 as int);
    let dp = decimal_digits_of(a.port as int);
    lemma_decimal_digits_of_value(a.oct0 as int);
    lemma_decimal_digits_of_value(a.oct1 as int);
    lemma_decimal_digits_of_value(a.oct2 as int);
    lemma_decimal_digits_of_value(a.oct3 as int);
    lemma_decimal_digits_of_value(a.port as int);
    let dot = seq!['.'];
    let colon = seq![':'];
    assert(!is_decimal_digit('.'));
    assert(!is_decimal_digit(':'));
    assert(avoids(dot, ':')) by {
        assert(dot[0] == '.');
    }
    lemma_digits_avoid(d0, ':');
    lemma_digits_avoid(d1, ':');
    lemma_digits_avoid(d2, ':');
    lemma_digits_avoid(d3, ':');
    lemma_digits_avoid(d0, '.');
    lemma_digits_avoid(d1, '.');
    lemma_digits_avoid(d2, '.');
    lemma_digits_avoid(d3, '.');

    let host = d0 + dot + d1 + dot + d2 + dot + d3;
    lemma_avoids_concat(d0, dot, ':');
    lemma_avoids_concat(d0 + dot, d1, ':');
    lemma_avoids_concat(d0 + dot + d1, dot, ':');
    lemma_avoids_concat(d0 + dot + d1 + dot, d2, ':');
    lemma_avoids_concat(d0 + dot + d1 + dot + d2, dot, ':');
    lemma_avoids_concat(d0 + dot + d1 + dot + d2 + dot, d3, ':');

    let t = spec_address_text(a);
    assert(t =~= host + colon + dp);
    lemma_first_separator(host, ':', dp);
    assert(t.index_of_first(':') == Some(host.len() as int));

    // The host part cannot be mistaken for the `localhost` shorthand:
    // it starts with a digit.
    assert(host[0] == d0[0]) by {
        assert(host[0] == (d0 + dot)[0]);
    }
    reveal_strlit("localhost");
    assert(host != "localhost"@) by {
        if host == "localhost"@ {
            assert(host[0] == 'l');
            assert(is_decimal_digit(d0[0]));
        }
    }
    assert(host.len() > 0);

    // Each octet reads back: split the quad at its first dots.
    let r1 = d1 + dot + d2 + dot + d3;
    assert(host =~= d0 + dot + r1);
    lemma_first_separator(d0, '.', r1);
    assert(host.index_of_first('.') == Some(d0.len() as int));
    assert(host.subrange(0, d0.len() as int) == d0);
    assert(host.subrange(d0.len() as int + 1, host.len() as int) == r1);
    assert(spec_octet(d0) == Some(a.oct0 as int));

    let r2 = d2 + dot + d3;
    assert(r1 =~= d1 + dot + r2);
    lemma_first_separator(d1, '.', r2);
    assert(r1.index_of_first('.') == Some(d1.len() as int));
    assert(r1.subrange(0, d1.len() as int) == d1);
    assert(r1.subrange(d1.len() as int + 1, r1.len() as int) == r2);
    assert(spec_octet(d1) == Some(a.oct1 as int));

    lemma_first_separator(d2, '.', d3);
    assert(r2.index_of_first('.') == Some(d2.len() as int));
    assert(r2.subrange(0, d2.len() as int) == d2);
    assert(r2.subrange(d2.len() as int + 1, r2.len() as int) == d3);
    assert(spec_octet(d2) == Some(a.oct2 as int));
    assert(spec_octet(d3) == Some(a.oct3 as int));
    assert(spec_quad(host) == Some((a.oct0 as int, a.oct1 as int, a.oct2 as int, a.oct3 as int)));

    // The port reads back, and the assembled address is the original.
    assert(t.subrange(host.len() as int + 1, t.len() as int) == dp);
    assert(spec_port(dp) == Some(a.port as int));
    assert(address_from_parts(
        (a.oct0 as int, a.oct1 as int, a.oct2 as int, a.oct3 as int),
        a.port as int,
    ) == a);
}

} // verus!
