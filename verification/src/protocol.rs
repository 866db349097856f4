//! The transport protocol a session runs over, chosen on the command
//! line by name, in any letter case.

use vstd::prelude::*;
use vstd::string::StrSliceExecFns;
use vstd::string::StringExecFns;

verus! {

/// The transports a session can use.
#[derive(Clone, Copy, Debug, PartialEq, Eq, Structural)]
pub enum Protocol {
    TCP,
    UDP,
}

/// The code point of `c` with an ASCII capital letter folded to its
/// small form; any other character keeps its own code point.
pub open spec fn lower_code(c: char) -> int {
    if 65 <= c as int <= 90 {
        c as int + 32
    } else {
        c as int
    }
}

/// Whether two strings are equal up to ASCII letter case.
pub open spec fn eq_ignore_ascii_case(a: Seq<char>, b: Seq<char>) -> bool {
    a.len() == b.len() && forall|i: int|
        0 <= i < a.len() ==> lower_code(#[trigger] a[i]) == lower_code(b[i])
}

/// The code point of `c` with an ASCII capital letter folded to its
/// small form, executably.
fn lower_code_of(c: char) -> (n: u32)
    ensures
        n == lower_code(c),
{
    let n: u32 = c as u32;
    if 65 <= n && n <= 90 {
        n + 32
    } else {
        n
    }
}

impl Protocol {
    /// Picks the protocol named by `s`, compared without regard to
    /// ASCII letter case; any other name is unsupported.
    pub fn from_str(s: &str) -> (r: Result<Protocol, String>)
        ensures
            r == Ok::<Protocol, String>(Protocol::TCP) <==> eq_ignore_ascii_case(s@, "tcp"@),
            r == Ok::<Protocol, String>(Protocol::UDP) <==> eq_ignore_ascii_case(s@, "udp"@),
            r is Err <==> !eq_ignore_ascii_case(s@, "tcp"@) && !eq_ignore_ascii_case(
                s@,
                "udp"@,
            ),
            (r matches Err(e) ==> e@ == "Unsupported Protocol"@),
    {
        proof {
            reveal_strlit("tcp");
            reveal_strlit("udp");
        }
        if s.unicode_len() == 3 {
            let c0 = lower_code_of(s.get_char(0));
            let c1 = lower_code_of(s.get_char(1));
            let c2 = lower_code_of(s.get_char(2));
            if c0 == 116 && c1 == 99 && c2 == 112 {
                proof {
                    assert forall|i: int| 0 <= i < 3 implies lower_code(s@[i]) == lower_code(
                        "tcp"@[i],
                    ) by {
                        assert(lower_code(s@[0]) == 116);
                        assert(lower_code(s@[1]) == 99);
                        assert(lower_code(s@[2]) == 112);
                    }
                }
                return Ok(Protocol::TCP);
            }
            if c0 == 117 && c1 == 100 && c2 == 112 {
                proof {
                    assert forall|i: int| 0 <= i < 3 implies lower_code(s@[i]) == lower_code(
                        "udp"@[i],
                    ) by {
                        assert(lower_code(s@[0]) == 117);
                        assert(lower_code(s@[1]) == 100);
                        assert(lower_code(s@[2]) == 112);
                    }
                }
                return Ok(Protocol::UDP);
            }
            proof {
                assert(!eq_ignore_ascii_case(s@, "tcp"@)) by {
                    if eq_ignore_ascii_case(s@, "tcp"@) {
                        assert(lower_code(s@[0]) == lower_code('t'));
                        assert(lower_code(s@[1]) == lower_code('c'));
                        assert(lower_code(s@[2]) == lower_code('p'));
                    }
                }
                assert(!eq_ignore_ascii_case(s@, "udp"@)) by {
                    if eq_ignore_ascii_case(s@, "udp"@) {
                        assert(lower_code(s@[0]) == lower_code('u'));
                        assert(lower_code(s@[1]) == lower_code('d'));
                        assert(lower_code(s@[2]) == lower_code('p'));
                    }
                }
            }
            return Err(String::from_str("Unsupported Protocol"));
        }
        proof {
            assert(s@.len() != 3);
            assert("tcp"@.len() == 3);
            assert("udp"@.len() == 3);
        }
        Err(String::from_str("Unsupported Protocol"))
    }
}

} // verus!
