//! Accept/drop policy for intercepted connections.
//!
//! A hostname extracted from a ClientHello is held against a blocklist of
//! exact-match hostnames. Traffic whose hostname could not be extracted is
//! always accepted (fail open).

use vstd::prelude::*;

verus! {

use vstd::string::StringExecFns;

/// The decision handed back to the kernel queue for one intercepted packet.
#[derive(Debug, Clone, Copy, PartialEq, Eq, Structural)]
pub enum Verdict {
    Accept,
    Drop,
}

/// Shared, read-only state of the interception callback: the blocklist.
pub struct State {
    pub blacklist: Vec<String>,
}

/// True when a hostname was extracted and exactly matches a blocklist entry.
pub open spec fn spec_blocked(hostname: Option<Seq<char>>, blacklist: Seq<Seq<char>>) -> bool {
    match hostname {
        None => false,
        Some(h) => blacklist.contains(h),
    }
}

/// The view of an optional hostname slice: the character sequence, if any.
pub open spec fn hostname_view(hostname: Option<&str>) -> Option<Seq<char>> {
    match hostname {
        None => None,
        Some(h) => Some(h@),
    }
}

impl State {
    /// Builds the callback state around a fixed blocklist.
    pub fn new(blacklist: Vec<String>) -> (s: State)
        ensures
            s.blacklist == blacklist,
    {
        State { blacklist }
    }
}

/// Decides the fate of one intercepted packet: drop exactly when a hostname
/// is present and equals a blocklist entry, accept everything else (fail
/// open: traffic without a readable hostname is never dropped).
pub fn decide(hostname: Option<&str>, state: &State) -> (v: Verdict)
    ensures
        (v == Verdict::Drop) <==> spec_blocked(hostname_view(hostname), state.blacklist.deep_view()),
        (v == Verdict::Accept) <==> !spec_blocked(hostname_view(hostname), state.blacklist.deep_view()),
{
    match hostname {
        None => Verdict::Accept,
        Some(h) => {
            let needle: String = String::from_str(h);
            let mut i: usize = 0;
            while i < state.blacklist.len()
                invariant
                    hostname == Some(h),
                    needle@ == h@,
                    i <= state.blacklist.len(),
                    forall|j: int| 0 <= j < i ==> state.blacklist@[j]@ != h@,
                decreases state.blacklist.len() - i,
            {
                if needle == state.blacklist[i] {
                    proof {
                        let dv = state.blacklist.deep_view();
                        assert(dv[i as int] == state.blacklist@[i as int]@);
                        assert(0 <= (i as int) < dv.len() && dv[i as int] == h@);
                        assert(dv.contains(h@));
                    }
                    return Verdict::Drop;
                }
                i += 1;
            }
            proof {
                let dv = state.blacklist.deep_view();
                assert forall|j: int| 0 <= j < dv.len() implies dv[j] != h@ by {
                    assert(dv[j] == state.blacklist@[j]@);
                }
                assert(!dv.contains(h@));
            }
            Verdict::Accept
        },
    }
}

/// Fail-open law: when no hostname could be extracted, no blocklist blocks it.
pub proof fn lemma_none_never_blocked(blacklist: Seq<Seq<char>>)
    ensures
        !spec_blocked(None, blacklist),
{
}

} // verus!
