//! Network server core for a legacy multiplayer game protocol.
//!
//! The wire protocol changed shape across roughly a decade of client
//! revisions.  Everything version-dependent is decided by [`Protocol`]:
//! the codec primitives in [`wire`], the login flows in [`login`], the
//! per-connection session in [`session`], and the world clock and session
//! registry in [`world`].

use vstd::prelude::*;

pub mod batch;
pub mod character;
pub mod chat;
pub mod config;
pub mod constants;
pub mod debug;
pub mod header;
pub mod login;
pub mod map;
pub mod persistence;
pub mod player;
pub mod queue;
pub mod session;
pub mod text;
pub mod position;
pub mod wire;
pub mod world;

verus! {

/// The closed, totally ordered set of supported client revisions.  The
/// numeric revision identifier (103, 300, ...) orders the set; every
/// version-conditional branch in the codec compares these numbers.
#[derive(Debug, Copy, Clone, PartialEq, Eq, Structural)]
pub enum Protocol {
    Tibia103,
    Tibia300,
    Tibia310,
    Tibia400,
    Tibia412,
    Tibia501,
    Tibia510,
    Tibia620,
    Tibia630,
    Tibia640,
    Tibia650,
    Tibia661,
    Tibia694,
}

impl Protocol {
    /// The numeric revision identifier that orders the supported versions.
    pub open spec fn spec_number(self) -> u16 {
        match self {
            Protocol::Tibia103 => 103,
            Protocol::Tibia300 => 300,
            Protocol::Tibia310 => 310,
            Protocol::Tibia400 => 400,
            Protocol::Tibia412 => 412,
            Protocol::Tibia501 => 501,
            Protocol::Tibia510 => 510,
            Protocol::Tibia620 => 620,
            Protocol::Tibia630 => 630,
            Protocol::Tibia640 => 640,
            Protocol::Tibia650 => 650,
            Protocol::Tibia661 => 661,
            Protocol::Tibia694 => 694,
        }
    }

    #[verifier::when_used_as_spec(spec_number)]
    pub fn number(self) -> (n: u16)
        ensures
            n == self.spec_number(),
    {
        match self {
            Protocol::Tibia103 => 103,
            Protocol::Tibia300 => 300,
            Protocol::Tibia310 => 310,
            Protocol::Tibia400 => 400,
            Protocol::Tibia412 => 412,
            Protocol::Tibia501 => 501,
            Protocol::Tibia510 => 510,
            Protocol::Tibia620 => 620,
            Protocol::Tibia630 => 630,
            Protocol::Tibia640 => 640,
            Protocol::Tibia650 => 650,
            Protocol::Tibia661 => 661,
            Protocol::Tibia694 => 694,
        }
    }

    /// The version negotiated from a numeric revision read off the wire,
    /// or `None` for a revision this server does not speak.
    pub open spec fn spec_from_number(n: u16) -> Option<Protocol> {
        if n == 103 {
            Some(Protocol::Tibia103)
        } else if n == 300 {
            Some(Protocol::Tibia300)
        } else if n == 310 {
            Some(Protocol::Tibia310)
        } else if n == 400 {
            Some(Protocol::Tibia400)
        } else if n == 412 {
            Some(Protocol::Tibia412)
        } else if n == 501 {
            Some(Protocol::Tibia501)
        } else if n == 510 {
            Some(Protocol::Tibia510)
        } else if n == 620 {
            Some(Protocol::Tibia620)
        } else if n == 630 {
            Some(Protocol::Tibia630)
        } else if n == 640 {
            Some(Protocol::Tibia640)
        } else if n == 650 {
            Some(Protocol::Tibia650)
        } else if n == 661 {
            Some(Protocol::Tibia661)
        } else if n == 694 {
            Some(Protocol::Tibia694)
        } else {
            None
        }
    }

    pub fn try_from_number(n: u16) -> (r: Option<Protocol>)
        ensures
            r == Self::spec_from_number(n),
    {
        if n == 103 {
            Some(Protocol::Tibia103)
        } else if n == 300 {
            Some(Protocol::Tibia300)
        } else if n == 310 {
            Some(Protocol::Tibia310)
        } else if n == 400 {
            Some(Protocol::Tibia400)
        } else if n == 412 {
            Some(Protocol::Tibia412)
        } else if n == 501 {
            Some(Protocol::Tibia501)
        } else if n == 510 {
            Some(Protocol::Tibia510)
        } else if n == 620 {
            Some(Protocol::Tibia620)
        } else if n == 630 {
            Some(Protocol::Tibia630)
        } else if n == 640 {
            Some(Protocol::Tibia640)
        } else if n == 650 {
            Some(Protocol::Tibia650)
        } else if n == 661 {
            Some(Protocol::Tibia661)
        } else if n == 694 {
            Some(Protocol::Tibia694)
        } else {
            None
        }
    }
}

/// A numeric revision identifier names at most one supported version, and
/// every supported version is reachable from its own number.
pub proof fn lemma_protocol_number_round_trip(p: Protocol)
    ensures
        Protocol::spec_from_number(p.spec_number()) == Some(p),
{
}

/// Command-line options resolved once at startup.
#[derive(Debug, Copy, Clone)]
pub struct Opts {
    /// Verbosity level (0 = info, 1 = debug, 2+ = trace).
    pub verbose: u8,
}

} // verus!
