use vstd::prelude::*;

verus! {

/// Whether points are being logged. While enabled the logger holds the handle
/// through which points reach the consumer task that writes them.
#[derive(Debug)]
pub enum LoggerState<H> {
    Disabled,
    Enabled(H),
}

/// What `start` may do: it creates a consumer exactly when the logger was
/// disabled, leaves it enabled, and changes nothing when it already was.
pub open spec fn start_transition<H>(before: LoggerState<H>, after: LoggerState<H>, spawned: bool) -> bool {
    &&& spawned == before is Disabled
    &&& after is Enabled
    &&& !spawned ==> after == before
}

/// What `stop` does: the logger ends disabled, and the handle it held, if any,
/// is dropped, which closes the consumer's queue.
pub open spec fn stop_transition<H>(before: LoggerState<H>, after: LoggerState<H>) -> bool {
    after is Disabled
}

/// Starting twice in a row creates one consumer: the second start finds the
/// logger enabled, creates none and changes nothing.
pub proof fn lemma_start_twice_spawns_once<H>(
    s0: LoggerState<H>,
    s1: LoggerState<H>,
    s2: LoggerState<H>,
    spawned1: bool,
    spawned2: bool,
)
    requires
        start_transition(s0, s1, spawned1),
        start_transition(s1, s2, spawned2),
    ensures
        !spawned2,
        s2 == s1,
{
}

/// Stopping twice in a row: the second stop leaves the logger as the first
/// one left it.
pub proof fn lemma_stop_twice_is_noop<H>(s0: LoggerState<H>, s1: LoggerState<H>, s2: LoggerState<H>)
    requires
        stop_transition(s0, s1),
        stop_transition(s1, s2),
    ensures
        s2 == s1,
{
}

/// The switch of the logging pipeline: Disabled or Enabled with a handle to the
/// consumer task. `H` is that handle; dropping it closes the consumer's queue.
#[derive(Debug)]
pub struct GpsLogger<H> {
    pub state: LoggerState<H>,
}

impl<H> GpsLogger<H> {
    /// A logger that starts disabled.
    pub fn new() -> (r: Self)
        ensures
            r.state is Disabled,
    {
        GpsLogger { state: LoggerState::Disabled }
    }

    /// Enables logging. When the logger is disabled, `spawn` is called once to
    /// create the consumer and its queue, and its handle is kept; when it is
    /// already enabled, `spawn` is not called and nothing changes. Returns
    /// whether `spawn` was called.
    pub fn start<F: FnOnce() -> H>(&mut self, spawn: F) -> (spawned: bool)
        requires
            old(self).state is Disabled ==> call_requires(spawn, ()),
        ensures
            start_transition(old(self).state, final(self).state, spawned),
            spawned ==> call_ensures(spawn, (), final(self).state->Enabled_0),
    {
        match self.state {
            LoggerState::Enabled(_) => false,
            LoggerState::Disabled => {
                let handle = spawn();
                self.state = LoggerState::Enabled(handle);
                true
            },
        }
    }

    /// Disables logging. A handle held is dropped, which signals the consumer
    /// to write what it has buffered, flush and end. Nothing happens when the
    /// logger is already disabled.
    pub fn stop(&mut self)
        ensures
            stop_transition(old(self).state, final(self).state),
    {
        self.state = LoggerState::Disabled;
    }

    /// Whether logging is enabled.
    pub fn active(&self) -> (r: bool)
        ensures
            r == self.state is Enabled,
    {
        match self.state {
            LoggerState::Enabled(_) => true,
            LoggerState::Disabled => false,
        }
    }

    /// Routes one point: while enabled, it goes with the handle of the consumer
    /// that must receive it; while disabled it is dropped here, and no later
    /// start sees it.
    pub fn send_point<P>(&self, point: P) -> (r: Option<(&H, P)>)
        ensures
            self.state is Disabled ==> r is None,
            self.state is Enabled ==> (r matches Some((h, p)) && *h == self.state->Enabled_0
                && p == point),
    {
        match &self.state {
            LoggerState::Enabled(handle) => Some((handle, point)),
            LoggerState::Disabled => None,
        }
    }
}

} // verus!
