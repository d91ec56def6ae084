//! The daemon's side of the one-byte client protocol, its idle-shutdown rule,
//! and the timings it runs by.
use vstd::prelude::*;
use crate::bandwidth::MaxBW;
use crate::load::LoadData;
use crate::monitor::elapsed;

verus! {

/// The period of the sampling cycle, in milliseconds.
pub const WORK_SLEEP_MS: u64 = 500;

/// The read and write timeout of a client connection, in milliseconds.
pub const SOCKET_TIMEOUT_MS: u64 = 1000;

/// How long the daemon stays up without a client connection, in milliseconds.
pub const MAX_INACTIVE_MS: u64 = 5000;

/// A client's request.
#[derive(Clone, Copy, Debug, PartialEq, Eq, Structural)]
pub enum Command {
    /// `r`: send the current snapshot.
    Read,
    /// `m`: reset the bandwidth ceilings.
    ResetMax,
    /// Any other byte: ignored.
    Unknown(u8),
}

impl Command {
    pub open spec fn of_byte(b: u8) -> Command {
        if b == 114 {
            Command::Read
        } else if b == 109 {
            Command::ResetMax
        } else {
            Command::Unknown(b)
        }
    }

    /// The request that a byte from a client makes.
    pub fn from_byte(b: u8) -> (r: Command)
        ensures
            r == Command::of_byte(b),
    {
        if b == 114 {
            Command::Read
        } else if b == 109 {
            Command::ResetMax
        } else {
            Command::Unknown(b)
        }
    }
}

/// The ceilings after a request is served.
pub open spec fn ceilings_after(cmd: Command, b: MaxBW) -> MaxBW {
    match cmd {
        Command::ResetMax => MaxBW::baseline(),
        _ => b,
    }
}

/// Serves a request: a read is answered with the snapshot's five bytes, a
/// reset restores the baseline ceilings, and anything else is ignored. Only
/// a read gets a reply.
pub fn respond(cmd: Command, ld: &LoadData, maxbw: &mut MaxBW) -> (r: Option<[u8; 5]>)
    ensures
        r is Some <==> cmd == Command::Read,
        r matches Some(a) ==> a@ == ld.bytes(),
        *final(maxbw) == ceilings_after(cmd, *old(maxbw)),
{
    match cmd {
        Command::Read => Some(ld.to_bytes()),
        Command::ResetMax => {
            maxbw.reset();
            None
        },
        Command::Unknown(_) => None,
    }
}

/// Whether the daemon has been idle too long: more than `MAX_INACTIVE_MS`
/// since the last client connection.
pub fn should_shut_down(last_activity_ms: u64, now_ms: u64) -> (r: bool)
    ensures
        r == (elapsed(last_activity_ms, now_ms) > MAX_INACTIVE_MS),
{
    now_ms >= last_activity_ms && now_ms - last_activity_ms > MAX_INACTIVE_MS
}

/// Sending `m` twice leaves the same ceilings as sending it once: the baseline.
pub proof fn lemma_reset_idempotent(b: MaxBW)
    ensures
        ({
            let m = Command::of_byte(109);
            &&& ceilings_after(m, ceilings_after(m, b)) == ceilings_after(m, b)
            &&& ceilings_after(m, b) == MaxBW::baseline()
        }),
{
}

/// The index of the first interface name that is not the loopback `lo`.
pub fn first_monitored(names: &Vec<Vec<u8>>) -> (r: Option<usize>)
    ensures
        r matches Some(i) ==> i < names@.len() && names@[i as int]@ != seq![108u8, 111],
        r matches Some(i) ==> forall|j: int| 0 <= j < i ==> names@[j]@ == seq![108u8, 111],
        r is None ==> forall|j: int| 0 <= j < names@.len() ==> names@[j]@ == seq![108u8, 111],
{
    let mut i: usize = 0;
    while i < names.len()
        invariant
            i <= names@.len(),
            forall|j: int| 0 <= j < i ==> names@[j]@ == seq![108u8, 111],
        decreases names@.len() - i,
    {
        let n = &names[i];
        if !(n.len() == 2 && n[0] == 108 && n[1] == 111) {
            return Some(i);
        }
        assert(n@ =~= seq![108u8, 111]);
        i += 1;
    }
    None
}

} // verus!
