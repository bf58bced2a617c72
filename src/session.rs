//! Decisions of the read loops that drive a child under a pseudo-terminal:
//! the headless database sync, which feeds the progress tracker, and the
//! interactive upgrade's loop steps.
use vstd::prelude::*;
use crate::progress::{update_spec, DbSyncState, SyncProgress};

verus! {

/// Milliseconds to wait after a read that found no data yet.
pub const POLL_SLEEP_MS: u64 = 10;

/// What a non-blocking read of the child gave.
#[derive(Clone, Copy, Debug, PartialEq, Eq, Structural)]
pub enum ReadKind {
    /// Some bytes arrived.
    Data,
    /// The read returned zero bytes.
    Empty,
    /// No data yet (would block, or interrupted).
    Transient,
    /// Any other read error.
    Failed,
}

/// What the loop does next.
#[derive(Clone, Copy, Debug, PartialEq, Eq, Structural)]
pub enum LoopStep {
    Continue,
    Sleep,
    Stop,
}

/// Whether the child is still running, as far as can be told.
#[derive(Clone, Copy, Debug, PartialEq, Eq, Structural)]
pub enum Liveness {
    Alive,
    Exited,
    Unknown,
}

/// The interactive loop after a read; `exited` is set once the child has
/// been seen gone, after which an empty or not-ready read ends the session.
pub fn interactive_step(exited: bool, read: ReadKind) -> (r: LoopStep)
    ensures
        read == ReadKind::Data ==> r == LoopStep::Continue,
        read == ReadKind::Empty ==> r == (if exited {
            LoopStep::Stop
        } else {
            LoopStep::Continue
        }),
        read == ReadKind::Transient ==> r == (if exited {
            LoopStep::Stop
        } else {
            LoopStep::Sleep
        }),
        read == ReadKind::Failed ==> r == LoopStep::Stop,
{
    match read {
        ReadKind::Data => LoopStep::Continue,
        ReadKind::Empty => if exited {
            LoopStep::Stop
        } else {
            LoopStep::Continue
        },
        ReadKind::Transient => if exited {
            LoopStep::Stop
        } else {
            LoopStep::Sleep
        },
        ReadKind::Failed => LoopStep::Stop,
    }
}

/// The interactive loop's view of the child after a liveness poll: once
/// gone (or unknowable), it stays gone.
pub fn interactive_exited(was_exited: bool, live: Liveness) -> (r: bool)
    ensures
        r == (was_exited || live != Liveness::Alive),
{
    was_exited || match live {
        Liveness::Alive => false,
        _ => true,
    }
}

/// The headless loop after a read: only a hard read error ends it.
pub fn headless_step(read: ReadKind) -> (r: LoopStep)
    ensures
        r == (match read {
            ReadKind::Data | ReadKind::Empty => LoopStep::Continue,
            ReadKind::Transient => LoopStep::Sleep,
            ReadKind::Failed => LoopStep::Stop,
        }),
{
    match read {
        ReadKind::Data | ReadKind::Empty => LoopStep::Continue,
        ReadKind::Transient => LoopStep::Sleep,
        ReadKind::Failed => LoopStep::Stop,
    }
}

/// One character of headless output: `\n` and `\r` both end a line, and a
/// non-empty line goes to the tracker. Also says whether a line was fed.
pub open spec fn sync_char(p: SyncProgress, buf: Seq<char>, c: char) -> (SyncProgress, Seq<char>, bool) {
    if c == '\n' || c == '\r' {
        if buf.len() > 0 {
            (update_spec(p, buf), Seq::empty(), true)
        } else {
            (p, Seq::empty(), false)
        }
    } else {
        (p, buf.push(c), false)
    }
}

/// A chunk of headless output: progress, partial line, and how many lines
/// were fed to the tracker.
pub open spec fn sync_drive(p: SyncProgress, buf: Seq<char>, s: Seq<char>) -> (SyncProgress, Seq<char>, nat)
    decreases s.len(),
{
    if s.len() == 0 {
        (p, buf, 0)
    } else {
        let a = sync_char(p, buf, s[0]);
        let b = sync_drive(a.0, a.1, s.drop_first());
        (b.0, b.1, b.2 + if a.2 {
            1nat
        } else {
            0nat
        })
    }
}

/// The headless sync's state: the tracker and the unterminated line.
pub struct SyncSession {
    pub progress: SyncProgress,
    pub buffer: String,
}

impl SyncSession {
    pub fn new() -> (r: SyncSession)
        ensures
            r.progress.core == DbSyncState::Syncing(0),
            r.progress.extra == DbSyncState::Syncing(0),
            r.progress.multilib == DbSyncState::Syncing(0),
            r.buffer@ == Seq::<char>::empty(),
    {
        SyncSession { progress: SyncProgress::new(), buffer: String::new() }
    }

    /// Feeds a chunk of output; returns how many lines reached the tracker
    /// (each one is a reason to report the new progress).
    pub fn feed(&mut self, chunk: &str) -> (r: usize)
        ensures
            ({
                let d = sync_drive(old(self).progress, old(self).buffer@, chunk@);
                &&& final(self).progress == d.0
                &&& final(self).buffer@ == d.1
                &&& r == d.2
            }),
    {
        let ghost d = sync_drive(self.progress, self.buffer@, chunk@);
        let n = chunk.unicode_len();
        let mut fed: usize = 0;
        let mut i: usize = 0;
        proof {
            assert(chunk@.skip(0) =~= chunk@);
        }
        while i < n
            invariant
                n == chunk@.len(),
                i <= n,
                fed <= i,
                d == sync_drive(old(self).progress, old(self).buffer@, chunk@),
                ({
                    let rest = sync_drive(self.progress, self.buffer@, chunk@.skip(i as int));
                    &&& rest.0 == d.0
                    &&& rest.1 == d.1
                    &&& fed + rest.2 == d.2
                }),
            decreases n - i,
        {
            let c = chunk.get_char(i);
            proof {
                assert(chunk@.skip(i as int).drop_first() =~= chunk@.skip(i + 1));
                assert(chunk@.skip(i as int)[0] == c);
            }
            if c == '\n' || c == '\r' {
                if self.buffer.as_str().unicode_len() > 0 {
                    self.progress.update_from_line(self.buffer.as_str());
                    fed += 1;
                }
                self.buffer = String::new();
            } else {
                self.buffer.push(c);
            }
            i += 1;
        }
        fed
    }

    /// A liveness poll. `Some(true)`: the child is gone and the trailing
    /// line has been fed, the sync succeeded; `Some(false)`: liveness could
    /// not be told, the sync failed; `None`: go on reading.
    pub fn on_liveness(&mut self, live: Liveness) -> (r: Option<bool>)
        ensures
            live == Liveness::Alive ==> r is None && *final(self) == *old(self),
            live == Liveness::Unknown ==> r == Some(false) && *final(self) == *old(self),
            live == Liveness::Exited ==> r == Some(true) && final(self).progress == (if old(
                self,
            ).buffer@.len() > 0 {
                update_spec(old(self).progress, old(self).buffer@)
            } else {
                old(self).progress
            }) && final(self).buffer@ == Seq::<char>::empty(),
    {
        match live {
            Liveness::Alive => None,
            Liveness::Unknown => Some(false),
            Liveness::Exited => {
                if self.buffer.as_str().unicode_len() > 0 {
                    self.progress.update_from_line(self.buffer.as_str());
                }
                self.buffer = String::new();
                Some(true)
            },
        }
    }
}

} // verus!
