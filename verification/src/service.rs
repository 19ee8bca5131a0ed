//! The rollup application service: the decisions between one host call and
//! its response, and those of the start-up that comes before the first call.
//!
//! The service does no work with the execution engine or the store itself.
//! It is told what happened, as an event, and answers with what is to be
//! done next, as an action. Decoding an envelope and building a response
//! take place within one step.

use vstd::prelude::*;
use crate::error::DecodeError;
use crate::ledger::{
    views_of, voucher_views, vouchers_for, Block, EngineOutcome, RejectReason, Response,
    StoreOutcome, Withdrawal,
};
use crate::request::{
    decode, lemma_inspection_always_decodes, request_view, AdvanceStateRequest, NetworkParams,
    RawEnvelope, Request, RequestView,
};

verus! {

/// Where the service stands between two events.
#[derive(Debug, Clone, Copy, PartialEq, Eq, Structural)]
pub enum Phase {
    /// Nothing has happened yet.
    Uninitialized,
    /// The engine has been asked for the genesis block.
    AwaitingGenesis,
    /// The store has been asked to commit the genesis block as a checkpoint.
    AwaitingCheckpoint,
    /// The genesis block is committed and no call is being served.
    Ready,
    /// The engine has been asked to execute the request of the call.
    Executing,
    /// The store has been asked to commit the block of the call.
    Committing,
    /// Start-up failed: the service never serves.
    Halted,
}

/// What start-up is told.
#[derive(Debug, Clone, PartialEq, Eq)]
pub enum BootstrapEvent {
    /// The process has started.
    Start,
    /// The engine has answered.
    Executed(EngineOutcome),
    /// The store has answered.
    Stored(StoreOutcome),
}

/// Why start-up failed.
#[derive(Debug, Clone, PartialEq, Eq)]
pub enum BootstrapError {
    /// The engine produced no genesis block.
    Genesis { reason: String },
    /// The store did not commit the genesis block.
    Checkpoint { reason: String },
}

/// What start-up asks for.
#[derive(Debug, Clone, PartialEq, Eq)]
pub enum BootstrapAction {
    /// Ask the engine for the genesis block.
    ProduceGenesis,
    /// Ask the store to commit the block as a checkpoint.
    CommitCheckpoint(Block),
    /// Start-up is complete: begin to serve host calls.
    Serve,
    /// Start-up has failed: do not serve.
    Abort(BootstrapError),
    /// The event was not expected and has changed nothing.
    Refuse,
}

/// What the service is told while it serves.
#[derive(Debug, Clone, PartialEq, Eq)]
pub enum CallEvent {
    /// The host has delivered an envelope.
    Received(RawEnvelope),
    /// The engine has answered.
    Executed(EngineOutcome),
    /// The store has answered.
    Stored(StoreOutcome),
}

/// Why a call ends without a response.
#[derive(Debug, Clone, PartialEq, Eq)]
pub enum CallFailure {
    /// The store did not commit the block that the call produced.
    Commit { reason: String },
    /// The event was not expected and has changed nothing.
    OutOfTurn,
}

/// What the service asks for while it serves.
#[derive(Debug, PartialEq, Eq)]
pub enum CallAction {
    /// Ask the engine to execute the request.
    Execute(AdvanceStateRequest),
    /// Ask the store to commit the block.
    Commit(Block),
    /// Answer the host.
    Respond(Response),
    /// Fail the call: the host gets no response to it.
    Fail(CallFailure),
}

/// The rollup application service.
#[derive(Debug)]
pub struct CarteZcashApp {
    params: NetworkParams,
    phase: Phase,
    withdrawals: Vec<Withdrawal>,
}

/// The phase that follows an event of start-up, and the action it asks for.
pub open spec fn bootstrap_step(phase: Phase, event: BootstrapEvent) -> (Phase, BootstrapAction) {
    match (phase, event) {
        (Phase::Uninitialized, BootstrapEvent::Start) => (
            Phase::AwaitingGenesis,
            BootstrapAction::ProduceGenesis,
        ),
        (
            Phase::AwaitingGenesis,
            BootstrapEvent::Executed(EngineOutcome::Produced { block, withdrawals }),
        ) => (Phase::AwaitingCheckpoint, BootstrapAction::CommitCheckpoint(block)),
        (Phase::AwaitingGenesis, BootstrapEvent::Executed(EngineOutcome::Refused { reason })) => (
            Phase::Halted,
            BootstrapAction::Abort(BootstrapError::Genesis { reason }),
        ),
        (Phase::AwaitingCheckpoint, BootstrapEvent::Stored(StoreOutcome::Committed)) => (
            Phase::Ready,
            BootstrapAction::Serve,
        ),
        (Phase::AwaitingCheckpoint, BootstrapEvent::Stored(StoreOutcome::Failed { reason })) => (
            Phase::Halted,
            BootstrapAction::Abort(BootstrapError::Checkpoint { reason }),
        ),
        _ => (phase, BootstrapAction::Refuse),
    }
}

/// Whether `action` and the service `after` are what an event makes of the
/// service `before` while it serves.
pub open spec fn handled(
    before: CarteZcashApp,
    event: CallEvent,
    after: CarteZcashApp,
    action: CallAction,
) -> bool {
    &&& after.params() == before.params()
    &&& match (before.phase(), event) {
        (Phase::Ready, CallEvent::Received(envelope)) => match request_view(
            before.params(),
            envelope@,
        ) {
            Ok(RequestView::AdvanceState(advance)) => {
                &&& after.phase() == Phase::Executing
                &&& after.pending() == before.pending()
                &&& action matches CallAction::Execute(request)
                &&& request@ == advance
            },
            Ok(RequestView::InspectState) => {
                &&& after.phase() == Phase::Ready
                &&& after.pending() == before.pending()
                &&& action matches CallAction::Respond(Response::Accept { vouchers })
                &&& vouchers@.len() == 0
            },
            Err(e) => {
                &&& after.phase() == Phase::Ready
                &&& after.pending() == before.pending()
                &&& action == CallAction::Respond(
                    Response::Reject { reason: RejectReason::Decode(e) },
                )
            },
        },
        (Phase::Executing, CallEvent::Executed(EngineOutcome::Produced { block, withdrawals })) => {
            &&& after.phase() == Phase::Committing
            &&& after.pending() == withdrawals@
            &&& action == CallAction::Commit(block)
        },
        (Phase::Executing, CallEvent::Executed(EngineOutcome::Refused { reason })) => {
            &&& after.phase() == Phase::Ready
            &&& after.pending() == before.pending()
            &&& action == CallAction::Respond(
                Response::Reject { reason: RejectReason::Execution(reason) },
            )
        },
        (Phase::Committing, CallEvent::Stored(StoreOutcome::Committed)) => {
            &&& after.phase() == Phase::Ready
            &&& after.pending().len() == 0
            &&& action matches CallAction::Respond(Response::Accept { vouchers })
            &&& views_of(vouchers@) == voucher_views(before.pending())
        },
        (Phase::Committing, CallEvent::Stored(StoreOutcome::Failed { reason })) => {
            &&& after.phase() == Phase::Ready
            &&& after.pending().len() == 0
            &&& action == CallAction::Fail(CallFailure::Commit { reason })
        },
        _ => {
            &&& after.phase() == before.phase()
            &&& after.pending() == before.pending()
            &&& action == CallAction::Fail(CallFailure::OutOfTurn)
        },
    }
}

/// Start-up reaches readiness by one way only: the store has committed the
/// genesis block as a checkpoint, which the engine had produced before.
pub proof fn lemma_ready_only_after_checkpoint(phase: Phase, event: BootstrapEvent)
    requires
        phase != Phase::Ready,
        bootstrap_step(phase, event).0 == Phase::Ready,
    ensures
        phase == Phase::AwaitingCheckpoint,
        event == BootstrapEvent::Stored(StoreOutcome::Committed),
        bootstrap_step(phase, event).1 == BootstrapAction::Serve,
{
}

/// The only block that start-up has committed is the one that the engine
/// produced as genesis, and it is committed as a checkpoint.
pub proof fn lemma_checkpoint_is_the_genesis_block(
    phase: Phase,
    event: BootstrapEvent,
    block: Block,
)
    requires
        bootstrap_step(phase, event).1 == BootstrapAction::CommitCheckpoint(block),
    ensures
        phase == Phase::AwaitingGenesis,
        event matches BootstrapEvent::Executed(EngineOutcome::Produced { block: produced, .. })
            && produced == block,
        bootstrap_step(phase, event).0 == Phase::AwaitingCheckpoint,
{
}

/// A failure of either step of start-up halts the service, and a halted
/// service stays halted.
pub proof fn lemma_bootstrap_failure_is_fatal(phase: Phase, event: BootstrapEvent)
    ensures
        bootstrap_step(phase, event).1 is Abort ==> bootstrap_step(phase, event).0
            == Phase::Halted,
        phase == Phase::Halted ==> bootstrap_step(phase, event) == (
            Phase::Halted,
            BootstrapAction::Refuse,
        ),
{
}

/// Until the genesis block is committed the service serves nothing: every
/// event is out of turn and changes nothing.
pub proof fn lemma_nothing_is_served_before_ready(
    before: CarteZcashApp,
    event: CallEvent,
    after: CarteZcashApp,
    action: CallAction,
)
    requires
        before.phase() == Phase::Uninitialized || before.phase() == Phase::AwaitingGenesis
            || before.phase() == Phase::AwaitingCheckpoint || before.phase() == Phase::Halted,
        handled(before, event, after, action),
    ensures
        action == CallAction::Fail(CallFailure::OutOfTurn),
        after.phase() == before.phase(),
{
}

/// An envelope of an unrecognized kind is answered with a rejection, and
/// the service is ready for the next call.
pub proof fn lemma_unrecognized_kind_is_rejected(
    before: CarteZcashApp,
    envelope: RawEnvelope,
    after: CarteZcashApp,
    action: CallAction,
)
    requires
        before.phase() == Phase::Ready,
        envelope@.request_type != Some("advance_state"@),
        envelope@.request_type != Some("inspect_state"@),
        handled(before, CallEvent::Received(envelope), after, action),
    ensures
        action == CallAction::Respond(
            Response::Reject { reason: RejectReason::Decode(DecodeError::UnrecognizedRequestKind) },
        ),
        after.phase() == Phase::Ready,
{
}

/// A query is accepted at once with no voucher, and nothing is asked of the
/// engine or of the store.
pub proof fn lemma_inspection_submits_nothing(
    before: CarteZcashApp,
    envelope: RawEnvelope,
    after: CarteZcashApp,
    action: CallAction,
)
    requires
        before.phase() == Phase::Ready,
        envelope@.request_type == Some("inspect_state"@),
        handled(before, CallEvent::Received(envelope), after, action),
    ensures
        action matches CallAction::Respond(Response::Accept { vouchers }) && vouchers@.len() == 0,
        after.phase() == Phase::Ready,
{
    lemma_inspection_always_decodes(before.params(), envelope);
}

/// When the store fails to commit the block of a call, the call fails: the
/// host gets no response, and so no acceptance.
pub proof fn lemma_commit_failure_fails_the_call(
    before: CarteZcashApp,
    reason: String,
    after: CarteZcashApp,
    action: CallAction,
)
    requires
        before.phase() == Phase::Committing,
        handled(before, CallEvent::Stored(StoreOutcome::Failed { reason }), after, action),
    ensures
        action == CallAction::Fail(CallFailure::Commit { reason }),
        !(action is Respond),
        after.phase() == Phase::Ready,
{
}

/// The store is asked to commit a block only when the engine has produced
/// it for the call that is being served, and then the service waits for
/// the store: one call has at most one block committed.
pub proof fn lemma_one_commit_per_call(
    before: CarteZcashApp,
    event: CallEvent,
    after: CarteZcashApp,
    action: CallAction,
)
    requires
        handled(before, event, after, action),
        action is Commit,
    ensures
        before.phase() == Phase::Executing,
        after.phase() == Phase::Committing,
        event matches CallEvent::Executed(EngineOutcome::Produced { block, .. })
            && action == CallAction::Commit(block),
{
}

/// The engine is asked to execute a request only for an envelope that
/// arrives at a ready service and decodes to that request.
pub proof fn lemma_only_decoded_requests_are_executed(
    before: CarteZcashApp,
    event: CallEvent,
    after: CarteZcashApp,
    action: CallAction,
)
    requires
        handled(before, event, after, action),
        action is Execute,
    ensures
        before.phase() == Phase::Ready,
        after.phase() == Phase::Executing,
        event matches CallEvent::Received(envelope) && action matches CallAction::Execute(
            request,
        ) && request_view(before.params(), envelope@) == Ok::<RequestView, DecodeError>(
            RequestView::AdvanceState(request@),
        ),
{
}

impl CarteZcashApp {
    /// The phase that the service is in.
    pub closed spec fn phase(&self) -> Phase {
        self.phase
    }

    /// The sender identities that the service recognizes.
    pub closed spec fn params(&self) -> NetworkParams {
        self.params
    }

    /// The withdrawals of the block that is being committed.
    pub closed spec fn pending(&self) -> Seq<Withdrawal> {
        self.withdrawals@
    }

    /// A service that has not started yet.
    pub fn new(params: NetworkParams) -> (app: Self)
        ensures
            app.phase() == Phase::Uninitialized,
            app.params() == params,
            app.pending().len() == 0,
    {
        CarteZcashApp { params, phase: Phase::Uninitialized, withdrawals: Vec::new() }
    }

    /// The phase that the service is in.
    pub fn current_phase(&self) -> (phase: Phase)
        ensures
            phase == self.phase(),
    {
        self.phase
    }

    /// Whether the service takes a host call now.
    pub fn is_ready(&self) -> (ready: bool)
        ensures
            ready == (self.phase() == Phase::Ready),
    {
        match self.phase {
            Phase::Ready => true,
            _ => false,
        }
    }

    /// One step of start-up: produce the genesis block, commit it as a
    /// checkpoint, then serve. A failure of either halts the service for good.
    pub fn bootstrap(&mut self, event: BootstrapEvent) -> (action: BootstrapAction)
        ensures
            (final(self).phase(), action) == bootstrap_step(old(self).phase(), event),
            final(self).params() == old(self).params(),
            final(self).pending() == old(self).pending(),
    {
        match (self.phase, event) {
            (Phase::Uninitialized, BootstrapEvent::Start) => {
                self.phase = Phase::AwaitingGenesis;
                BootstrapAction::ProduceGenesis
            },
            (
                Phase::AwaitingGenesis,
                BootstrapEvent::Executed(EngineOutcome::Produced { block, withdrawals: _ }),
            ) => {
                self.phase = Phase::AwaitingCheckpoint;
                BootstrapAction::CommitCheckpoint(block)
            },
            (
                Phase::AwaitingGenesis,
                BootstrapEvent::Executed(EngineOutcome::Refused { reason }),
            ) => {
                self.phase = Phase::Halted;
                BootstrapAction::Abort(BootstrapError::Genesis { reason })
            },
            (Phase::AwaitingCheckpoint, BootstrapEvent::Stored(StoreOutcome::Committed)) => {
                self.phase = Phase::Ready;
                BootstrapAction::Serve
            },
            (
                Phase::AwaitingCheckpoint,
                BootstrapEvent::Stored(StoreOutcome::Failed { reason }),
            ) => {
                self.phase = Phase::Halted;
                BootstrapAction::Abort(BootstrapError::Checkpoint { reason })
            },
            _ => BootstrapAction::Refuse,
        }
    }

    /// One step of a host call: decode the envelope, execute the request,
    /// commit the block, respond. An envelope that does not decode is
    /// rejected; a query is accepted at once; a request that the engine
    /// refuses is rejected; a block that the store does not commit fails
    /// the call.
    pub fn handle(&mut self, event: CallEvent) -> (action: CallAction)
        ensures
            handled(*old(self), event, *final(self), action),
    {
        match (self.phase, event) {
            (Phase::Ready, CallEvent::Received(envelope)) => {
                match decode(&self.params, &envelope) {
                    Ok(Request::AdvanceState(request)) => {
                        self.phase = Phase::Executing;
                        CallAction::Execute(request)
                    },
                    Ok(Request::InspectState) => CallAction::Respond(
                        Response::Accept { vouchers: Vec::new() },
                    ),
                    Err(e) => CallAction::Respond(
                        Response::Reject { reason: RejectReason::Decode(e) },
                    ),
                }
            },
            (
                Phase::Executing,
                CallEvent::Executed(EngineOutcome::Produced { block, withdrawals }),
            ) => {
                self.phase = Phase::Committing;
                self.withdrawals = withdrawals;
                CallAction::Commit(block)
            },
            (Phase::Executing, CallEvent::Executed(EngineOutcome::Refused { reason })) => {
                self.phase = Phase::Ready;
                CallAction::Respond(Response::Reject { reason: RejectReason::Execution(reason) })
            },
            (Phase::Committing, CallEvent::Stored(StoreOutcome::Committed)) => {
                let vouchers = vouchers_for(&self.withdrawals);
                self.phase = Phase::Ready;
                self.withdrawals = Vec::new();
                CallAction::Respond(Response::Accept { vouchers })
            },
            (Phase::Committing, CallEvent::Stored(StoreOutcome::Failed { reason })) => {
                self.phase = Phase::Ready;
                self.withdrawals = Vec::new();
                CallAction::Fail(CallFailure::Commit { reason })
            },
            _ => CallAction::Fail(CallFailure::OutOfTurn),
        }
    }
}

} // verus!
