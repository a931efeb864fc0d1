use vstd::prelude::*;
use crate::address::{Address, is_loopback_v4};

verus! {

/// How a bind loop ended.
#[derive(Clone, Copy, Debug, PartialEq, Eq, Structural)]
pub enum LoopEnd {
    /// The loop completed the number of cycles it was allowed.
    CapReached,
    /// Opening a socket failed.
    OpenFailed,
    /// Adopting the descriptor into an async socket failed.
    AdoptFailed,
}

/// Where a bind loop stands within one open / adopt / release cycle.
#[derive(Clone, Copy, Debug, PartialEq, Eq, Structural)]
pub enum Phase {
    /// Waiting for a socket to be opened.
    Opening,
    /// Holding a freshly opened socket, waiting for its adoption.
    Adopting,
    /// Holding the adopted socket, waiting for its release.
    Releasing,
    /// Stopped for good.
    Terminated(LoopEnd),
}

/// What the bind loop reports back to the machine.
#[derive(Clone, Copy, Debug, PartialEq, Eq, Structural)]
pub enum LoopEvent {
    Opened,
    OpenFailed,
    Adopted,
    AdoptFailed,
    Released,
}

/// What the machine asks the bind loop to do next.
#[derive(Clone, Copy, Debug, PartialEq, Eq)]
pub enum LoopAction {
    /// Open a socket bound to this address.
    Open(Address),
    /// Adopt the socket just opened into an async socket.
    Adopt,
    /// Release the adopted socket.
    Release,
    /// Stop with this result.
    Stop(LoopEnd),
    /// The event did not fit the phase: nothing changes.
    Ignore,
}

/// The decisions of one bind loop: open a socket, adopt it, release it, and
/// start over, until a step fails or, when a cap is set, until that many
/// cycles have completed.
#[derive(Clone, Copy, Debug, PartialEq, Eq, Structural)]
pub struct BindLoop {
    pub phase: Phase,
    pub completed: u64,
    pub cap: Option<u64>,
}

/// An action that opens a socket on the loopback address with port 0.
pub open spec fn opens_loopback(a: LoopAction) -> bool {
    &&& a is Open
    &&& a->Open_0 is V4
    &&& is_loopback_v4(a->Open_0->V4_octets@)
    &&& a->Open_0.spec_port() == 0
}

/// The phase and completed count after a cycle ends with a release.
pub open spec fn after_release(s: BindLoop) -> BindLoop {
    let done = if s.completed < u64::MAX { (s.completed + 1) as u64 } else { s.completed };
    let phase = match s.cap {
        Some(n) => if done >= n { Phase::Terminated(LoopEnd::CapReached) } else { Phase::Opening },
        None => Phase::Opening,
    };
    BindLoop { phase, completed: done, cap: s.cap }
}

/// The state that follows `s` on event `e`.
pub open spec fn next_state(s: BindLoop, e: LoopEvent) -> BindLoop {
    match (s.phase, e) {
        (Phase::Opening, LoopEvent::Opened) => BindLoop { phase: Phase::Adopting, ..s },
        (Phase::Opening, LoopEvent::OpenFailed) => BindLoop {
            phase: Phase::Terminated(LoopEnd::OpenFailed),
            ..s
        },
        (Phase::Adopting, LoopEvent::Adopted) => BindLoop { phase: Phase::Releasing, ..s },
        (Phase::Adopting, LoopEvent::AdoptFailed) => BindLoop {
            phase: Phase::Terminated(LoopEnd::AdoptFailed),
            ..s
        },
        (Phase::Releasing, LoopEvent::Released) => after_release(s),
        _ => s,
    }
}

/// Whether event `e` fits the phase of `s`.
pub open spec fn fits(s: BindLoop, e: LoopEvent) -> bool {
    match (s.phase, e) {
        (Phase::Opening, LoopEvent::Opened) => true,
        (Phase::Opening, LoopEvent::OpenFailed) => true,
        (Phase::Adopting, LoopEvent::Adopted) => true,
        (Phase::Adopting, LoopEvent::AdoptFailed) => true,
        (Phase::Releasing, LoopEvent::Released) => true,
        _ => false,
    }
}

impl BindLoop {
    /// Whether the loop holds an open socket.
    pub open spec fn holds_socket(&self) -> bool {
        self.phase is Adopting || self.phase is Releasing
    }

    /// The state's invariant: a loop with a cap has completed fewer cycles
    /// than the cap until it stops for having reached it.
    pub open spec fn wf(&self) -> bool {
        match self.cap {
            Some(n) => if self.phase == Phase::Terminated(LoopEnd::CapReached) {
                self.completed == n
            } else {
                self.completed < n
            },
            None => self.phase != Phase::Terminated(LoopEnd::CapReached),
        }
    }

    /// The state in which a loop starts.
    pub open spec fn initial(cap: Option<u64>) -> BindLoop {
        BindLoop {
            phase: if cap == Some(0u64) { Phase::Terminated(LoopEnd::CapReached) } else { Phase::Opening },
            completed: 0,
            cap,
        }
    }

    /// A loop that has completed no cycle; with no cap it runs until a step
    /// fails.
    pub fn new(cap: Option<u64>) -> (r: BindLoop)
        ensures
            r == BindLoop::initial(cap),
            r.wf(),
    {
        let phase = match cap {
            Some(n) => if n == 0 { Phase::Terminated(LoopEnd::CapReached) } else { Phase::Opening },
            None => Phase::Opening,
        };
        BindLoop { phase, completed: 0, cap }
    }

    /// The action to take in the current phase before any event has come.
    pub fn first_action(&self) -> (r: LoopAction)
        ensures
            self.phase is Opening ==> opens_loopback(r),
            self.phase is Terminated ==> r == LoopAction::Stop(self.phase->Terminated_0),
            self.holds_socket() ==> r == LoopAction::Ignore,
    {
        match self.phase {
            Phase::Opening => LoopAction::Open(Address::loopback_ephemeral()),
            Phase::Terminated(end) => LoopAction::Stop(end),
            _ => LoopAction::Ignore,
        }
    }

    /// Moves the loop on by one event and says what to do next: adopt an
    /// opened socket, release an adopted one, open the next one after a
    /// release, or stop at the first failure or once the cap is reached. A new
    /// socket is asked for only once the previous one has been released.
    pub fn step(&mut self, e: LoopEvent) -> (r: LoopAction)
        ensures
            *final(self) == next_state(*old(self), e),
            old(self).wf() ==> final(self).wf(),
            !fits(*old(self), e) ==> r == LoopAction::Ignore,
            fits(*old(self), e) ==> match final(self).phase {
                Phase::Opening => opens_loopback(r) && old(self).phase is Releasing,
                Phase::Adopting => r == LoopAction::Adopt,
                Phase::Releasing => r == LoopAction::Release,
                Phase::Terminated(end) => r == LoopAction::Stop(end),
            },
    {
        match (self.phase, e) {
            (Phase::Opening, LoopEvent::Opened) => {
                self.phase = Phase::Adopting;
                LoopAction::Adopt
            },
            (Phase::Opening, LoopEvent::OpenFailed) => {
                self.phase = Phase::Terminated(LoopEnd::OpenFailed);
                LoopAction::Stop(LoopEnd::OpenFailed)
            },
            (Phase::Adopting, LoopEvent::Adopted) => {
                self.phase = Phase::Releasing;
                LoopAction::Release
            },
            (Phase::Adopting, LoopEvent::AdoptFailed) => {
                self.phase = Phase::Terminated(LoopEnd::AdoptFailed);
                LoopAction::Stop(LoopEnd::AdoptFailed)
            },
            (Phase::Releasing, LoopEvent::Released) => {
                if self.completed < u64::MAX {
                    self.completed = self.completed + 1;
                }
                let reached = match self.cap {
                    Some(n) => self.completed >= n,
                    None => false,
                };
                if reached {
                    self.phase = Phase::Terminated(LoopEnd::CapReached);
                    LoopAction::Stop(LoopEnd::CapReached)
                } else {
                    self.phase = Phase::Opening;
                    LoopAction::Open(Address::loopback_ephemeral())
                }
            },
            _ => LoopAction::Ignore,
        }
    }
}

/// The state reached from `s` by taking the events in order.
pub open spec fn run(s: BindLoop, events: Seq<LoopEvent>) -> BindLoop
    decreases events.len(),
{
    if events.len() == 0 {
        s
    } else {
        next_state(run(s, events.drop_last()), events.last())
    }
}

/// Whether every event fits the phase it arrives in when the events are taken
/// in order from `s`.
pub open spec fn all_fit(s: BindLoop, events: Seq<LoopEvent>) -> bool
    decreases events.len(),
{
    if events.len() == 0 {
        true
    } else {
        all_fit(s, events.drop_last()) && fits(run(s, events.drop_last()), events.last())
    }
}

/// The events of `k` successful cycles.
pub open spec fn cycles(k: nat) -> Seq<LoopEvent>
    decreases k,
{
    if k == 0 {
        Seq::empty()
    } else {
        cycles((k - 1) as nat) + seq![LoopEvent::Opened, LoopEvent::Adopted, LoopEvent::Released]
    }
}

proof fn lemma_capped_prefix(n: u64, k: nat)
    requires
        k <= n,
    ensures
        all_fit(BindLoop::initial(Some(n)), cycles(k)),
        run(BindLoop::initial(Some(n)), cycles(k)) == (if k < n {
            BindLoop { phase: Phase::Opening, completed: k as u64, cap: Some(n) }
        } else {
            BindLoop { phase: Phase::Terminated(LoopEnd::CapReached), completed: n, cap: Some(n) }
        }),
    decreases k,
{
    let s0 = BindLoop::initial(Some(n));
    if k > 0 {
        lemma_capped_prefix(n, (k - 1) as nat);
        let c = cycles((k - 1) as nat);
        let e3 = cycles(k);
        let e2 = c + seq![LoopEvent::Opened, LoopEvent::Adopted];
        let e1 = c + seq![LoopEvent::Opened];
        assert(e3.drop_last() =~= e2);
        assert(e2.drop_last() =~= e1);
        assert(e1.drop_last() =~= c);
        assert(e3.last() == LoopEvent::Released);
        assert(e2.last() == LoopEvent::Adopted);
        assert(e1.last() == LoopEvent::Opened);
        let s1 = run(s0, e1);
        let s2 = run(s0, e2);
        assert(s1 == next_state(run(s0, c), LoopEvent::Opened));
        assert(s2 == next_state(s1, LoopEvent::Adopted));
        assert(run(s0, e3) == next_state(s2, LoopEvent::Released));
        assert(all_fit(s0, e1));
        assert(all_fit(s0, e2));
    } else {
        assert(cycles(0) =~= Seq::<LoopEvent>::empty());
    }
}

/// A loop capped at `n` cycles and fed `n` successful open / adopt / release
/// cycles accepts every event and then stands stopped with the cap reached,
/// having completed exactly `n` cycles and holding no socket.
pub proof fn lemma_capped_run(n: u64)
    ensures
        all_fit(BindLoop::initial(Some(n)), cycles(n as nat)),
        run(BindLoop::initial(Some(n)), cycles(n as nat)) == (BindLoop {
            phase: Phase::Terminated(LoopEnd::CapReached),
            completed: n,
            cap: Some(n),
        }),
        !run(BindLoop::initial(Some(n)), cycles(n as nat)).holds_socket(),
{
    lemma_capped_prefix(n, n as nat);
}

} // verus!
