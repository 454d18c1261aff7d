//! Network interface selection for the command-line surface.
//!
//! The listener binds either the loopback interface or all interfaces.
//! Parsing the textual form and producing the four address octets are
//! the decisions here; flag handling itself lives outside the library.

use vstd::prelude::*;

verus! {

/// The interface the network front end listens on.
#[derive(Clone, Copy, Debug, PartialEq, Eq, Structural)]
pub enum NetInterface {
    /// The loopback interface, `127.0.0.1`.
    Loopback,
    /// All interfaces, `0.0.0.0`.
    OOOO,
}

/// The bytes of the textual form of the loopback interface.
pub open spec fn loopback_text() -> Seq<u8> {
    seq![49u8, 50u8, 55u8, 46u8, 48u8, 46u8, 48u8, 46u8, 49u8]
}

/// The bytes of the textual form of the all-interfaces address.
pub open spec fn all_interfaces_text() -> Seq<u8> {
    seq![48u8, 46u8, 48u8, 46u8, 48u8, 46u8, 48u8]
}

impl NetInterface {
    /// Parse an interface from its textual form; any other text is not a
    /// valid interface.
    pub fn parse(s: &[u8]) -> (r: Option<NetInterface>)
        ensures
            r == Some(NetInterface::Loopback) <==> s@ == loopback_text(),
            r == Some(NetInterface::OOOO) <==> s@ == all_interfaces_text(),
            r is None <==> s@ != loopback_text() && s@ != all_interfaces_text(),
    {
        proof {
            assert(loopback_text().len() == 9 && loopback_text()[0] == 49
                && loopback_text()[1] == 50 && loopback_text()[2] == 55 && loopback_text()[3] == 46
                && loopback_text()[4] == 48 && loopback_text()[5] == 46 && loopback_text()[6] == 48
                && loopback_text()[7] == 46 && loopback_text()[8] == 49);
            assert(all_interfaces_text().len() == 7 && all_interfaces_text()[0] == 48
                && all_interfaces_text()[1] == 46 && all_interfaces_text()[2] == 48
                && all_interfaces_text()[3] == 46 && all_interfaces_text()[4] == 48
                && all_interfaces_text()[5] == 46 && all_interfaces_text()[6] == 48);
        }
        if s.len() == 9 && s[0] == 49 && s[1] == 50 && s[2] == 55 && s[3] == 46 && s[4] == 48
            && s[5] == 46 && s[6] == 48 && s[7] == 46 && s[8] == 49 {
            proof {
                assert(s@ =~= loopback_text());
            }
            Some(NetInterface::Loopback)
        } else if s.len() == 7 && s[0] == 48 && s[1] == 46 && s[2] == 48 && s[3] == 46 && s[4] == 48
            && s[5] == 46 && s[6] == 48 {
            proof {
                assert(s@ =~= all_interfaces_text());
            }
            Some(NetInterface::OOOO)
        } else {
            None
        }
    }

    /// The four address octets the interface stands for.
    pub fn octets(self) -> (r: [u8; 4])
        ensures
            self is Loopback ==> r@ =~= seq![127u8, 0u8, 0u8, 1u8],
            self is OOOO ==> r@ =~= seq![0u8, 0u8, 0u8, 0u8],
    {
        match self {
            NetInterface::Loopback => [127, 0, 0, 1],
            NetInterface::OOOO => [0, 0, 0, 0],
        }
    }
}

} // verus!
