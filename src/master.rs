//! Master level of an endpoint whose volume is kept per application session.
//!
//! Where the audio service exposes no single level for the default endpoint, the
//! master controls act on its sessions: a reading is the first session's, with
//! full volume and unmuted when there is no session at all.
use crate::volume::NORMAL_VOLUME;
use vstd::prelude::*;

verus! {

/// One session's level, in native units, and mute flag.
#[derive(Clone, Copy, Debug, PartialEq, Eq, Structural)]
pub struct SessionLevel {
    pub volume: u32,
    pub muted: bool,
}

/// The master reading of an endpoint with these sessions.
pub open spec fn master_of(sessions: Seq<SessionLevel>) -> SessionLevel {
    if sessions.len() == 0 {
        SessionLevel { volume: NORMAL_VOLUME, muted: false }
    } else {
        sessions[0]
    }
}

/// The master reading: the first session's level and flag, or full volume and
/// unmuted when the endpoint has no session.
pub fn master_level(sessions: &Vec<SessionLevel>) -> (r: SessionLevel)
    ensures
        r == master_of(sessions@),
{
    if sessions.len() == 0 {
        SessionLevel { volume: NORMAL_VOLUME, muted: false }
    } else {
        sessions[0]
    }
}

} // verus!
