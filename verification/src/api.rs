//! The textual command protocol at the controller's network edge.
//!
//! Clients send short text messages: `ping` keeps the session alive,
//! `close` asks for a drive to the closed position, and a bare unsigned
//! number asks for an opening move by that amount.  Anything else
//! is a protocol error, treated like a transport error: the session ends
//! and a closing move is dispatched.  The transport itself lives outside
//! the library and hands the message bytes in.

use vstd::prelude::*;

verus! {

/// Gate lifecycle as reported to clients.
#[derive(Clone, Copy, Debug, PartialEq, Eq, Structural)]
pub enum State {
    Closed,
    Stopped(u8),
    Moving(u8),
}

/// A client's request, at the protocol level.
#[derive(Clone, Copy, Debug, PartialEq, Eq, Structural)]
pub enum Command {
    Stop,
    Close,
    Open(u8),
}

/// A parsed inbound text message.
#[derive(Clone, Copy, Debug, PartialEq, Eq, Structural)]
pub enum Inbound {
    /// The keep-alive message `ping`.
    Ping,
    /// The message `close`.
    CloseRequest,
    /// A bare unsigned number that fits an open amount.
    OpenRequest(u8),
    /// Anything else: a protocol error.
    Invalid,
}

/// The bytes of the keep-alive keyword `ping`.
pub open spec fn ping_bytes() -> Seq<u8> {
    seq![112u8, 105u8, 110u8, 103u8]
}

/// The bytes of the keyword `close`.
pub open spec fn close_bytes() -> Seq<u8> {
    seq![99u8, 108u8, 111u8, 115u8, 101u8]
}

/// Whether a byte is an ASCII decimal digit.
pub open spec fn is_ascii_digit(b: u8) -> bool {
    48 <= b <= 57
}

/// Whether every byte of the message is an ASCII decimal digit.
pub open spec fn all_digits(s: Seq<u8>) -> bool {
    forall|i: int| 0 <= i < s.len() ==> is_ascii_digit(#[trigger] s[i])
}

/// The number a run of ASCII digits denotes.
pub open spec fn digits_value(s: Seq<u8>) -> int
    decreases s.len(),
{
    if s.len() == 0 {
        0
    } else {
        10 * digits_value(s.drop_last()) + (s.last() - 48)
    }
}

/// What an inbound message parses to: the two keywords, or a bare
/// unsigned decimal number no larger than an open amount can be, or a
/// protocol error.
pub open spec fn spec_parse(s: Seq<u8>) -> Inbound {
    if s == ping_bytes() {
        Inbound::Ping
    } else if s == close_bytes() {
        Inbound::CloseRequest
    } else if s.len() > 0 && all_digits(s) && digits_value(s) <= 255 {
        Inbound::OpenRequest(digits_value(s) as u8)
    } else {
        Inbound::Invalid
    }
}

/// Once a digit prefix already denotes more than an open amount can be,
/// no continuation of the message brings the denoted number back down.
proof fn lemma_open_amount_overflow_is_final(s: Seq<u8>, i: int)
    requires
        0 <= i <= s.len(),
        digits_value(s.take(i)) > 255,
    ensures
        digits_value(s) > 255,
    decreases s.len() - i,
{
    if i < s.len() {
        assert(s.take(i + 1).drop_last() =~= s.take(i));
        assert(digits_value(s.take(i + 1)) == 10 * digits_value(s.take(i)) + (s.take(i + 1).last()
            - 48));
        lemma_open_amount_overflow_is_final(s, i + 1);
    } else {
        assert(s.take(i) =~= s);
    }
}

/// Parse one inbound message.
pub fn parse_command(msg: &[u8]) -> (r: Inbound)
    ensures
        r == spec_parse(msg@),
{
    proof {
        assert(ping_bytes().len() == 4 && ping_bytes()[0] == 112 && ping_bytes()[1] == 105
            && ping_bytes()[2] == 110 && ping_bytes()[3] == 103);
        assert(close_bytes().len() == 5 && close_bytes()[0] == 99 && close_bytes()[1] == 108
            && close_bytes()[2] == 111 && close_bytes()[3] == 115 && close_bytes()[4] == 101);
    }
    if msg.len() == 4 && msg[0] == 112 && msg[1] == 105 && msg[2] == 110 && msg[3] == 103 {
        proof {
            assert(msg@ =~= ping_bytes());
        }
        Inbound::Ping
    } else if msg.len() == 5 && msg[0] == 99 && msg[1] == 108 && msg[2] == 111 && msg[3] == 115
        && msg[4] == 101 {
        proof {
            assert(msg@ =~= close_bytes());
        }
        Inbound::CloseRequest
    } else if msg.len() == 0 {
        Inbound::Invalid
    } else {
        let mut val: u32 = 0;
        let mut i: usize = 0;
        #[verifier::loop_isolation(false)]
        while i < msg.len()
            invariant
                i <= msg@.len(),
                all_digits(msg@.take(i as int)),
                val == digits_value(msg@.take(i as int)),
                val <= 255,
            decreases msg@.len() - i,
        {
            let b = msg[i];
            proof {
                assert(msg@.take(i + 1 as int).drop_last() =~= msg@.take(i as int));
            }
            if b < 48 || b > 57 {
                proof {
                    assert(!is_ascii_digit(msg@[i as int]));
                    assert(!all_digits(msg@));
                }
                return Inbound::Invalid;
            }
            val = val * 10 + (b - 48) as u32;
            i = i + 1;
            if val > 255 {
                proof {
                    lemma_open_amount_overflow_is_final(msg@, i as int);
                }
                return Inbound::Invalid;
            }
        }
        proof {
            assert(msg@.take(msg@.len() as int) =~= msg@);
        }
        Inbound::OpenRequest(val as u8)
    }
}

} // verus!
