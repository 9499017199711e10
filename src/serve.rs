use vstd::prelude::*;
use crate::args::TunnelServeArgs;
use crate::text::strs;
use crate::tunnels::ExistingTunnel;

verus! {

/// The stages of a serve session.
#[derive(Clone, Copy, Debug, PartialEq, Eq, Structural)]
pub enum ServeState {
    Init,
    PrereqCheck,
    TunnelAcquire,
    Serving,
    Closing,
    Done,
    Respawning,
}

/// What the outside world reports to the session.
#[derive(Clone, Copy, Debug, PartialEq, Eq, Structural)]
pub enum ServeEvent {
    /// The command was started.
    Start,
    /// The host platform is supported.
    PrereqPassed,
    /// The host platform is not supported.
    PrereqFailed,
    /// No credential is available.
    Unauthenticated,
    /// The tunnel was resolved and its handle is now owned by the session.
    TunnelAcquired,
    /// The tunnel could not be resolved.
    TunnelFailed,
    /// The shutdown event was delivered.
    ShutdownFired,
    /// The serve loop ended; `true` when it asks for a respawn.
    LoopEnded(bool),
    /// The serve loop failed with a transport error.
    LoopFailed,
    /// The attempt to close the tunnel finished, whether or not it succeeded.
    TunnelClosed,
    /// The respawned child exited, with its exit code if it had one.
    ChildExited(Option<i32>),
    /// The child could not be started or waited for.
    RespawnFailed,
}

/// What the session asks the outside world to do next.
#[derive(Clone, Copy, Debug, PartialEq, Eq, Structural)]
pub enum ServeAction {
    CheckPrereqs,
    AcquireTunnel,
    /// Run the serve loop, racing it against the shutdown event.
    StartServing,
    /// Close the tunnel handle, best effort.
    CloseTunnel,
    /// Re-run the current executable with the respawn arguments and wait for it.
    Respawn,
    /// Exit the process with this code.
    Exit(i32),
    /// The event does not apply in this state; nothing to do.
    Ignore,
}

/// The decisions of one serve session.
#[derive(Clone, Copy, Debug, PartialEq, Eq, Structural)]
pub struct ServeMachine {
    pub state: ServeState,
    /// The serve loop asked for a respawn.
    pub respawn: bool,
    /// The serve loop failed.
    pub failed: bool,
    /// A tunnel was acquired and the serve loop started.
    pub served: bool,
    /// How many times the tunnel was asked to close.
    pub closes: u64,
}

/// The machine after `e`, and the action it asks for.
pub open spec fn next(m: ServeMachine, e: ServeEvent) -> (ServeMachine, ServeAction) {
    match (m.state, e) {
        (ServeState::Init, ServeEvent::Start) =>
            (ServeMachine { state: ServeState::PrereqCheck, ..m }, ServeAction::CheckPrereqs),
        (ServeState::PrereqCheck, ServeEvent::PrereqPassed) =>
            (ServeMachine { state: ServeState::TunnelAcquire, ..m }, ServeAction::AcquireTunnel),
        (ServeState::PrereqCheck, ServeEvent::PrereqFailed) =>
            (ServeMachine { state: ServeState::Done, ..m }, ServeAction::Exit(1)),
        (ServeState::TunnelAcquire, ServeEvent::Unauthenticated) =>
            (ServeMachine { state: ServeState::Done, ..m }, ServeAction::Exit(1)),
        (ServeState::TunnelAcquire, ServeEvent::TunnelFailed) =>
            (ServeMachine { state: ServeState::Done, ..m }, ServeAction::Exit(1)),
        (ServeState::TunnelAcquire, ServeEvent::TunnelAcquired) =>
            (ServeMachine { state: ServeState::Serving, served: true, ..m }, ServeAction::StartServing),
        (ServeState::Serving, ServeEvent::ShutdownFired) =>
            (ServeMachine { state: ServeState::Closing, closes: (m.closes + 1) as u64, ..m },
            ServeAction::CloseTunnel),
        (ServeState::Serving, ServeEvent::LoopEnded(respawn)) =>
            (ServeMachine { state: ServeState::Closing, respawn, closes: (m.closes + 1) as u64, ..m },
            ServeAction::CloseTunnel),
        (ServeState::Serving, ServeEvent::LoopFailed) =>
            (ServeMachine { state: ServeState::Closing, failed: true, closes: (m.closes + 1) as u64, ..m },
            ServeAction::CloseTunnel),
        (ServeState::Closing, ServeEvent::TunnelClosed) => if m.respawn {
            (ServeMachine { state: ServeState::Respawning, ..m }, ServeAction::Respawn)
        } else if m.failed {
            (ServeMachine { state: ServeState::Done, ..m }, ServeAction::Exit(1))
        } else {
            (ServeMachine { state: ServeState::Done, ..m }, ServeAction::Exit(0))
        },
        (ServeState::Respawning, ServeEvent::ChildExited(code)) => (
            ServeMachine { state: ServeState::Done, ..m },
            ServeAction::Exit(match code { Some(c) => c, None => 1 }),
        ),
        (ServeState::Respawning, ServeEvent::RespawnFailed) =>
            (ServeMachine { state: ServeState::Done, ..m }, ServeAction::Exit(1)),
        _ => (m, ServeAction::Ignore),
    }
}

/// The tunnel has been asked to close once exactly when it was acquired and the
/// session has left the serving stage.
pub open spec fn wf(m: ServeMachine) -> bool {
    &&& m.closes == (if m.served && m.state != ServeState::Serving { 1u64 } else { 0u64 })
    &&& (m.state == ServeState::Init || m.state == ServeState::PrereqCheck
        || m.state == ServeState::TunnelAcquire) ==> !m.served
    &&& m.state == ServeState::Serving ==> m.served
}

pub open spec fn initial() -> ServeMachine {
    ServeMachine { state: ServeState::Init, respawn: false, failed: false, served: false, closes: 0 }
}

/// The machine after each of `events` in turn.
pub open spec fn run(m: ServeMachine, events: Seq<ServeEvent>) -> ServeMachine
    decreases events.len(),
{
    if events.len() == 0 {
        m
    } else {
        run(next(m, events[0]).0, events.drop_first())
    }
}

impl ServeMachine {
    pub fn new() -> (r: Self)
        ensures
            r == initial(),
            wf(r),
    {
        ServeMachine { state: ServeState::Init, respawn: false, failed: false, served: false, closes: 0 }
    }

    /// Takes one event and returns the action it calls for.
    pub fn step(&mut self, e: ServeEvent) -> (a: ServeAction)
        requires
            wf(*old(self)),
        ensures
            (*final(self), a) == next(*old(self), e),
            wf(*final(self)),
    {
        let m = *self;
        let (n, a) = match (m.state, e) {
            (ServeState::Init, ServeEvent::Start) =>
                (ServeMachine { state: ServeState::PrereqCheck, ..m }, ServeAction::CheckPrereqs),
            (ServeState::PrereqCheck, ServeEvent::PrereqPassed) =>
                (ServeMachine { state: ServeState::TunnelAcquire, ..m }, ServeAction::AcquireTunnel),
            (ServeState::PrereqCheck, ServeEvent::PrereqFailed) =>
                (ServeMachine { state: ServeState::Done, ..m }, ServeAction::Exit(1)),
            (ServeState::TunnelAcquire, ServeEvent::Unauthenticated) =>
                (ServeMachine { state: ServeState::Done, ..m }, ServeAction::Exit(1)),
            (ServeState::TunnelAcquire, ServeEvent::TunnelFailed) =>
                (ServeMachine { state: ServeState::Done, ..m }, ServeAction::Exit(1)),
            (ServeState::TunnelAcquire, ServeEvent::TunnelAcquired) =>
                (ServeMachine { state: ServeState::Serving, served: true, ..m }, ServeAction::StartServing),
            (ServeState::Serving, ServeEvent::ShutdownFired) =>
                (ServeMachine { state: ServeState::Closing, closes: m.closes + 1, ..m },
                ServeAction::CloseTunnel),
            (ServeState::Serving, ServeEvent::LoopEnded(respawn)) =>
                (ServeMachine { state: ServeState::Closing, respawn, closes: m.closes + 1, ..m },
                ServeAction::CloseTunnel),
            (ServeState::Serving, ServeEvent::LoopFailed) =>
                (ServeMachine { state: ServeState::Closing, failed: true, closes: m.closes + 1, ..m },
                ServeAction::CloseTunnel),
            (ServeState::Closing, ServeEvent::TunnelClosed) => if m.respawn {
                (ServeMachine { state: ServeState::Respawning, ..m }, ServeAction::Respawn)
            } else if m.failed {
                (ServeMachine { state: ServeState::Done, ..m }, ServeAction::Exit(1))
            } else {
                (ServeMachine { state: ServeState::Done, ..m }, ServeAction::Exit(0))
            },
            (ServeState::Respawning, ServeEvent::ChildExited(code)) => (
                ServeMachine { state: ServeState::Done, ..m },
                ServeAction::Exit(match code { Some(c) => c, None => 1 }),
            ),
            (ServeState::Respawning, ServeEvent::RespawnFailed) =>
                (ServeMachine { state: ServeState::Done, ..m }, ServeAction::Exit(1)),
            _ => (m, ServeAction::Ignore),
        };
        *self = n;
        a
    }
}

/// Every step keeps the machine well formed.
pub proof fn lemma_next_wf(m: ServeMachine, e: ServeEvent)
    requires
        wf(m),
    ensures
        wf(next(m, e).0),
        (next(m, e).1 == ServeAction::CloseTunnel) == (next(m, e).0.closes == m.closes + 1),
{
}

/// Whatever the events, the tunnel is asked to close at most once, and exactly
/// once when a session that acquired it has finished, whether it ended by
/// interrupt, by a stop request, by failure or by the loop completing.
pub proof fn lemma_close_once(events: Seq<ServeEvent>)
    ensures
        run(initial(), events).closes <= 1,
        run(initial(), events).served && run(initial(), events).state == ServeState::Done
            ==> run(initial(), events).closes == 1,
{
    lemma_run_wf(initial(), events);
}

proof fn lemma_run_wf(m: ServeMachine, events: Seq<ServeEvent>)
    requires
        wf(m),
    ensures
        wf(run(m, events)),
    decreases events.len(),
{
    if events.len() > 0 {
        lemma_next_wf(m, events[0]);
        lemma_run_wf(next(m, events[0]).0, events.drop_first());
    }
}

/// The arguments a respawned child gets: those of this process, without the
/// program name.
pub open spec fn respawn_arguments(argv: Seq<Seq<char>>) -> Seq<Seq<char>> {
    if argv.len() == 0 {
        seq![]
    } else {
        argv.drop_first()
    }
}

pub fn respawn_args(argv: &Vec<String>) -> (r: Vec<String>)
    ensures
        strs(r@) == respawn_arguments(strs(argv@)),
{
    let mut r: Vec<String> = Vec::new();
    if argv.len() == 0 {
        assert(strs(r@) =~= respawn_arguments(strs(argv@)));
        return r;
    }
    let mut i: usize = 1;
    assert(strs(r@) =~= strs(argv@.subrange(1, 1)));
    while i < argv.len()
        invariant
            1 <= i <= argv@.len(),
            strs(r@) == strs(argv@.subrange(1, i as int)),
        decreases argv@.len() - i,
    {
        let ghost before = r@;
        let a = argv[i].clone();
        r.push(a);
        proof {
            crate::text::lemma_strs_push(before, a);
            assert(argv@.subrange(1, i + 1) =~= argv@.subrange(1, i as int).push(argv@[i as int]));
            crate::text::lemma_strs_push(argv@.subrange(1, i as int), argv@[i as int]);
        }
        i = i + 1;
    }
    assert(argv@.subrange(1, argv@.len() as int) =~= argv@.drop_first());
    assert(strs(argv@.drop_first()) =~= strs(argv@).drop_first());
    r
}

/// What a serve session starts from.
pub struct ServePlan {
    /// The existing tunnel to adopt, when one was fully specified.
    pub existing: Option<ExistingTunnel>,
    /// Name a new tunnel with a generated name, asking nothing.
    pub random_name: bool,
    pub machine: ServeMachine,
}

#[derive(Clone, Copy, Debug, PartialEq, Eq, Structural)]
pub enum ServeError {
    /// The license terms have not been accepted.
    ConsentRequired,
}

/// `tunnel` with no subcommand: the license terms must have been accepted; then a
/// session starts from the given serve arguments.
pub fn serve(consent: bool, gateway_args: TunnelServeArgs) -> (r: Result<ServePlan, ServeError>)
    ensures
        !consent ==> r == Err::<ServePlan, ServeError>(ServeError::ConsentRequired),
        consent ==> (r matches Ok(p) && p.machine == initial()
            && p.random_name == gateway_args.random_name
            && (p.existing is Some <==> crate::tunnels::is_complete(gateway_args.tunnel))),
{
    if !consent {
        return Err(ServeError::ConsentRequired);
    }
    Ok(ServePlan {
        existing: gateway_args.tunnel.into_existing(),
        random_name: gateway_args.random_name,
        machine: ServeMachine::new(),
    })
}

} // verus!
