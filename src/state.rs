use vstd::prelude::*;

use crate::logger::{start_transition, stop_transition, GpsLogger};

verus! {

/// What the ingest task and the query handlers share: the latest player
/// location, absent until the first one arrives, and the logging switch.
#[derive(Debug)]
pub struct AppState<P, H> {
    pub player_location: Option<P>,
    pub logging: GpsLogger<H>,
}

impl<P, H> AppState<P, H> {
    /// No location yet, logging disabled.
    pub fn new() -> (r: Self)
        ensures
            r.player_location is None,
            r.logging.state is Disabled,
    {
        AppState { player_location: None, logging: GpsLogger::new() }
    }

    /// Stores `point` as the latest location; the previous one is discarded.
    pub fn update_location(&mut self, point: P)
        ensures
            final(self).player_location == Some(point),
            final(self).logging == old(self).logging,
    {
        self.player_location = Some(point);
    }

    /// Serves a logging query: `Some(true)` starts logging (calling `spawn`
    /// only if it was disabled), `Some(false)` stops it, `None` leaves it as
    /// it is. Returns whether logging is enabled afterwards.
    pub fn logging_query<F: FnOnce() -> H>(&mut self, on: Option<bool>, spawn: F) -> (active: bool)
        requires
            on == Some(true) && old(self).logging.state is Disabled ==> call_requires(spawn, ()),
        ensures
            active == final(self).logging.state is Enabled,
            final(self).player_location == old(self).player_location,
            on == Some(true) ==> start_transition(
                old(self).logging.state,
                final(self).logging.state,
                old(self).logging.state is Disabled,
            ),
            on == Some(false) ==> stop_transition(
                old(self).logging.state,
                final(self).logging.state,
            ),
            on is None ==> final(self).logging == old(self).logging,
    {
        match on {
            Some(true) => {
                self.logging.start(spawn);
            },
            Some(false) => {
                self.logging.stop();
            },
            None => {},
        }
        self.logging.active()
    }
}

impl<P: Copy, H> AppState<P, H> {
    /// The latest location, or `None` before the first one.
    pub fn location(&self) -> (r: Option<P>)
        ensures
            r == self.player_location,
    {
        self.player_location
    }
}

/// The text of a logging reply.
pub fn logging_reply(active: bool) -> (r: &'static str)
    ensures
        active ==> r@ == "true"@,
        !active ==> r@ == "false"@,
{
    if active {
        "true"
    } else {
        "false"
    }
}

} // verus!
