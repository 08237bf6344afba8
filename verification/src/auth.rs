//! Which D-Bus peers may send control commands to the daemon.
use crate::text::str_equals;
use vstd::prelude::*;

verus! {

/// Executable basenames of the project's own control clients.
pub const TRUSTED_CONTROL_PEERS: [&'static str; 4] = ["trance", "trance-applet", "trance-tui", "trance-cli"];

/// Result of inspecting a peer's executable.
#[derive(Clone, Copy, Debug, PartialEq, Eq)]
pub enum PeerExeCheck {
    /// The executable is one of the trusted control clients.
    Trusted,
    /// The executable is something else.
    Untrusted,
    /// The executable could not be read.
    Unreadable,
}

/// Whether `name` is the basename of a trusted control client.
pub open spec fn is_trusted_name(name: Seq<char>) -> bool {
    exists|i: int| 0 <= i < TRUSTED_CONTROL_PEERS@.len() && (#[trigger] TRUSTED_CONTROL_PEERS@[i])@ == name
}

/// Classifies a peer by the basename of its executable, if it could be read.
pub fn check_peer_basename(basename: Option<&str>) -> (r: PeerExeCheck)
    ensures
        match basename {
            None => r == PeerExeCheck::Unreadable,
            Some(b) => r == (if is_trusted_name(b@) {
                PeerExeCheck::Trusted
            } else {
                PeerExeCheck::Untrusted
            }),
        },
{
    match basename {
        None => PeerExeCheck::Unreadable,
        Some(b) => {
            let peers = TRUSTED_CONTROL_PEERS;
            let mut i: usize = 0;
            while i < peers.len()
                invariant
                    peers@ == TRUSTED_CONTROL_PEERS@,
                    basename == Some(b),
                    i <= peers@.len(),
                    forall|j: int| 0 <= j < i ==> (#[trigger] peers@[j])@ != b@,
                decreases peers.len() - i,
            {
                if str_equals(b, peers[i]) {
                    assert(TRUSTED_CONTROL_PEERS@[i as int]@ == b@);
                    return PeerExeCheck::Trusted;
                }
                i += 1;
            }
            PeerExeCheck::Untrusted
        },
    }
}

/// Whether a peer may control the daemon: a trusted executable may, an
/// untrusted one may not, and when the executable cannot be read the peer
/// may if it runs as the daemon's own user.
pub fn accept_control_peer(check: PeerExeCheck, peer_uid: Option<u32>, own_uid: u32) -> (r: bool)
    ensures
        r == match check {
            PeerExeCheck::Trusted => true,
            PeerExeCheck::Untrusted => false,
            PeerExeCheck::Unreadable => peer_uid == Some(own_uid),
        },
{
    match check {
        PeerExeCheck::Trusted => true,
        PeerExeCheck::Untrusted => false,
        PeerExeCheck::Unreadable => match peer_uid {
            Some(uid) => uid == own_uid,
            None => false,
        },
    }
}

} // verus!
