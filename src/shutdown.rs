use vstd::prelude::*;

verus! {

/// Where a request to stop comes from.
#[derive(Clone, Copy, Debug, PartialEq, Eq, Structural)]
pub enum ShutdownSource {
    /// The interrupt signal of an interactive terminal.
    Interrupt,
    /// The service supervisor's stop request.
    ServiceStop,
}

/// Turns the one source of a run into a single cancellation event.
///
/// An interactive run installs its own interrupt listener and has no stop
/// channel; a service run is handed the supervisor's stop channel and installs
/// no listener.
#[derive(Clone, Copy, Debug, PartialEq, Eq, Structural)]
pub struct ShutdownCoordinator {
    service_mode: bool,
    fired: bool,
}

impl ShutdownCoordinator {
    pub closed spec fn spec_service_mode(self) -> bool {
        self.service_mode
    }

    pub closed spec fn spec_fired(self) -> bool {
        self.fired
    }

    /// The one source that can deliver the event in this run.
    pub open spec fn active_source(self) -> ShutdownSource {
        if self.spec_service_mode() {
            ShutdownSource::ServiceStop
        } else {
            ShutdownSource::Interrupt
        }
    }

    /// A coordinator for a run in a terminal.
    pub fn interactive() -> (r: Self)
        ensures
            !r.spec_service_mode(),
            !r.spec_fired(),
    {
        ShutdownCoordinator { service_mode: false, fired: false }
    }

    /// A coordinator for a run under the service supervisor.
    pub fn for_service() -> (r: Self)
        ensures
            r.spec_service_mode(),
            !r.spec_fired(),
    {
        ShutdownCoordinator { service_mode: true, fired: false }
    }

    /// Whether the run installs an interrupt listener.
    pub fn listener_installed(&self) -> (r: bool)
        ensures
            r == !self.spec_service_mode(),
    {
        !self.service_mode
    }

    /// Whether the run has a stop channel from the supervisor.
    pub fn has_stop_channel(&self) -> (r: bool)
        ensures
            r == self.spec_service_mode(),
    {
        self.service_mode
    }

    /// Whether the event has been delivered.
    pub fn is_fired(&self) -> (r: bool)
        ensures
            r == self.spec_fired(),
    {
        self.fired
    }

    /// A fire attempt from `source`. It delivers the event only when `source` is
    /// the run's active one and the event was not delivered before; any other
    /// attempt is dropped.
    pub fn fire(&mut self, source: ShutdownSource) -> (delivered: bool)
        ensures
            delivered == (source == old(self).active_source() && !old(self).spec_fired()),
            final(self).spec_fired() == (old(self).spec_fired() || delivered),
            final(self).spec_service_mode() == old(self).spec_service_mode(),
    {
        let active = if self.service_mode {
            ShutdownSource::ServiceStop
        } else {
            ShutdownSource::Interrupt
        };
        if source == active && !self.fired {
            self.fired = true;
            true
        } else {
            false
        }
    }
}

/// Exactly one source per run: an interactive run has no stop channel, so a
/// stop request delivers nothing; a service run installs no interrupt listener,
/// so an interrupt delivers nothing.
pub proof fn lemma_one_source(c: ShutdownCoordinator)
    ensures
        !c.spec_service_mode() ==> c.active_source() != ShutdownSource::ServiceStop,
        c.spec_service_mode() ==> c.active_source() != ShutdownSource::Interrupt,
{
}

/// Once delivered, the event is never delivered again.
pub proof fn lemma_single_fire(c: ShutdownCoordinator, source: ShutdownSource)
    requires
        c.spec_fired(),
    ensures
        !(source == c.active_source() && !c.spec_fired()),
{
}

} // verus!
