use vstd::prelude::*;

use crate::link::{poll_decision, submit_decision, PollOutcome, CHANNEL_CAPACITY};
use crate::protocol::{response_for, responses_of, Command, Response};
use crate::ErrorCode;

verus! {

/// Mathematical model of one bridge: the contents of its two bounded
/// queues and whether the event loop still consumes. The boundary
/// operations and the loop are described below as transitions on this
/// state, and the laws of the bridge are stated and proved over them.
///
/// Termination (`running` turning false) covers both ways the loop ends:
/// dequeuing `Exit`, and losing one of its queue ends. Commands still
/// queued when the loop terminates are left unconsumed.
pub struct BridgeModel {
    /// Commands submitted and not yet dequeued by the loop, oldest first.
    pub commands: Seq<Command>,
    /// Responses emitted and not yet polled, oldest first.
    pub responses: Seq<Response>,
    /// Whether the event loop still consumes commands.
    pub running: bool,
}

/// A submission: the command queue accepts exactly while the loop side is
/// alive; a terminated loop means the enqueue fails and nothing changes.
/// A full queue is not a failure: the enqueue blocks until space frees,
/// so the transition speaks of the moment it goes through.
pub open spec fn model_submit(m: BridgeModel, c: Command) -> (BridgeModel, ErrorCode) {
    if m.running {
        (
            BridgeModel { commands: m.commands.push(c), responses: m.responses, running: true },
            ErrorCode::Success,
        )
    } else {
        (m, ErrorCode::Failure)
    }
}

/// What the non-blocking dequeue of a poll sees in a given state: the
/// oldest queued response if there is one; otherwise an open queue while
/// the loop lives, a permanently empty one once it terminated.
pub open spec fn observed(m: BridgeModel) -> PollOutcome {
    if m.responses.len() > 0 {
        PollOutcome::Ready(m.responses[0])
    } else if m.running {
        PollOutcome::Empty
    } else {
        PollOutcome::Closed
    }
}

/// A poll: takes the oldest queued response if there is one (whether or
/// not the loop still runs — queued responses drain first); on an empty
/// queue it reports `TryLater` while the loop lives and `Failure` once it
/// terminated, changing nothing either way.
pub open spec fn model_poll(m: BridgeModel) -> (BridgeModel, ErrorCode, Option<Response>) {
    if m.responses.len() > 0 {
        (
            BridgeModel {
                commands: m.commands,
                responses: m.responses.drop_first(),
                running: m.running,
            },
            ErrorCode::Success,
            Some(m.responses[0]),
        )
    } else if m.running {
        (m, ErrorCode::TryLater, None)
    } else {
        (m, ErrorCode::Failure, None)
    }
}

/// One turn of the event loop: dequeue the oldest command and answer it
/// by the protocol. `Exit` terminates the loop and answers nothing;
/// anything else appends its response, in order. A stopped loop, or an
/// empty command queue, changes nothing.
pub open spec fn model_step(m: BridgeModel) -> BridgeModel {
    if !m.running || m.commands.len() == 0 {
        m
    } else {
        match response_for(m.commands[0]) {
            None => BridgeModel {
                commands: m.commands.drop_first(),
                responses: m.responses,
                running: false,
            },
            Some(r) => BridgeModel {
                commands: m.commands.drop_first(),
                responses: m.responses.push(r),
                running: true,
            },
        }
    }
}

/// The event loop run to quiescence: turns of `model_step` until the loop
/// has terminated or no command is queued.
pub open spec fn model_run(m: BridgeModel) -> BridgeModel
    decreases m.commands.len(),
{
    if !m.running || m.commands.len() == 0 {
        m
    } else {
        model_run(model_step(m))
    }
}

/// Both directional queues hold at most `CHANNEL_CAPACITY` entries.
pub open spec fn within_capacity(m: BridgeModel) -> bool {
    m.commands.len() <= CHANNEL_CAPACITY && m.responses.len() <= CHANNEL_CAPACITY
}

/// Law: the capacity bound is kept by every transition. An enqueue into a
/// full queue blocks the enqueuing side until space frees instead of
/// overfilling or dropping, so a submission or a loop turn completes only
/// with room on the queue it appends to; under that condition every
/// transition keeps both queues within bound.
pub proof fn lemma_transitions_keep_capacity(m: BridgeModel, c: Command)
    requires
        within_capacity(m),
    ensures
        m.commands.len() < CHANNEL_CAPACITY ==> within_capacity(model_submit(m, c).0),
        m.responses.len() < CHANNEL_CAPACITY ==> within_capacity(model_step(m)),
        within_capacity(model_poll(m).0),
{
}

/// Law: polling an empty-but-open response queue reports `TryLater`,
/// hands nothing out, and leaves the bridge exactly as it was — so
/// repeating the poll indefinitely has no effect.
pub proof fn lemma_poll_empty_open(m: BridgeModel)
    requires
        m.running,
        m.responses.len() == 0,
    ensures
        model_poll(m) == (m, ErrorCode::TryLater, Option::<Response>::None),
{
}

/// Law: once the loop has terminated, every submission fails and changes
/// nothing.
pub proof fn lemma_submit_after_termination(m: BridgeModel, c: Command)
    requires
        !m.running,
    ensures
        model_submit(m, c) == (m, ErrorCode::Failure),
{
}

/// Law: once the loop has terminated, polling first drains the responses
/// already queued, oldest first, and reports `Failure` exactly from the
/// moment the queue is empty.
pub proof fn lemma_poll_after_termination(m: BridgeModel)
    requires
        !m.running,
    ensures
        m.responses.len() > 0 ==> {
            &&& model_poll(m).0.commands == m.commands
            &&& model_poll(m).0.responses == m.responses.drop_first()
            &&& model_poll(m).1 is Success
            &&& model_poll(m).2 == Some(m.responses[0])
        },
        m.responses.len() == 0 ==> model_poll(m) == (
            m,
            ErrorCode::Failure,
            Option::<Response>::None,
        ),
{
}

/// Law: the verified boundary decisions report exactly what the model
/// prescribes for the state the queues were seen in — polling answers as
/// `model_poll` does, and a submission's status is `model_submit`'s.
pub proof fn lemma_decisions_match_model(m: BridgeModel, c: Command)
    ensures
        poll_decision(observed(m)) == (model_poll(m).1, model_poll(m).2),
        submit_decision(m.running) == model_submit(m, c).1,
{
}

/// Law: running the loop over the queued commands emits, after whatever
/// was already queued, exactly the protocol's responses for them — one
/// per command, in order, up to the first `Exit`, and none for the `Exit`
/// or anything after it.
pub proof fn lemma_run_emits_protocol_responses(m: BridgeModel)
    requires
        m.running,
    ensures
        model_run(m).responses == m.responses + responses_of(m.commands),
    decreases m.commands.len(),
{
    if m.commands.len() == 0 {
        assert(responses_of(m.commands) =~= Seq::<Response>::empty());
        assert(m.responses + responses_of(m.commands) =~= m.responses);
    } else {
        let next = model_step(m);
        match response_for(m.commands[0]) {
            None => {
                assert(!next.running);
                assert(model_run(next) == next);
                assert(model_run(m) == next);
                assert(m.responses + responses_of(m.commands) =~= m.responses);
            },
            Some(r) => {
                lemma_run_emits_protocol_responses(next);
                assert(responses_of(m.commands) == seq![r]
                    + responses_of(m.commands.drop_first()));
                assert(m.responses.push(r) + responses_of(m.commands.drop_first()) =~= m.responses
                    + responses_of(m.commands));
            },
        }
    }
}

} // verus!
