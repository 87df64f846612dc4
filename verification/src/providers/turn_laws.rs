//! What holds of the turns of the app server: how its messages count, when a turn has begun and
//! has ended, and by when something must have happened.

use vstd::prelude::*;

use crate::ids::{parsed_uuid, Uuid};
use crate::json::{encoded_json, parsed_json, Json, JsonModel};
use crate::protocol::{TaskDispatch, TaskFence, WorkspaceName};
use crate::providers::bridge::turn as bridge;
use crate::providers::bridge::wire::{parse_session_id, read_frame, write_frame, WireEvent};
use crate::providers::codex::turn::{
    is_relevant_notification, ActorDeadlines, CancelStep, CodexActor, FinishStep, MessageStep,
};
use crate::providers::codex::wire::{
    answer_server_request, initialized_message, is_server_request, response_id, response_thing,
    thread_message, valid_json_rpc_id, ThreadSelection,
};
use crate::providers::inbox::{InboxState, InboxTerminalAction, ProviderInbox};
use crate::providers::router::{
    matching_dispatch, pause_reason, ManagedTurn, RouterClientLifecycle, TurnEvent, TurnPhase,
};
use crate::providers::{
    cancel_terminal_reason, error_of_cancel, CancelReason, HostEnd, ProviderError, ResultModel,
    SessionResult, TerminalReason,
};
use crate::tasks::PauseReason;
use crate::text::opt_text;

verus! {

/// A request of the app server is answered and changes nothing; what answers another request,
/// and what is said while nothing runs, changes nothing either; what is neither an answer nor
/// calls a method breaks the protocol.
pub proof fn foreign_messages_change_nothing(
    actor: &mut CodexActor,
    value: Json,
    bytes: usize,
    step: Result<MessageStep, ProviderError>,
    request: bool,
    id: Option<u64>,
    answer: Result<Json, ProviderError>,
)
    requires
        old(actor).wf(),
        old(actor).can_call(),
        call_ensures(CodexActor::process_message, (actor, value, bytes), step),
        call_ensures(is_server_request, (&value,), request),
        call_ensures(response_id, (&value,), id),
        call_ensures(answer_server_request, (&value,), answer),
    ensures
        request ==> (step matches Ok(MessageStep::Write(message)) && message.model()
            == answer->Ok_0.model()) && *final(actor) == *old(actor),
        !request && old(actor).active is None && step is Ok ==> step->Ok_0 is Nothing
            && *final(actor) == *old(actor),
        !request && id is Some && old(actor).active is Some && id->0
            != old(actor).active->0.start_rpc_id ==> step is Ok && step->Ok_0 is Nothing
            && *final(actor) == *old(actor),
        !request && id is None && value.model().text_at("method"@) is None ==> step == Err::<
            MessageStep,
            _,
        >(ProviderError::CodexProtocolError) && *final(actor) == *old(actor),
        step is Err ==> step->Err_0 is CodexProtocolError && *final(actor) == *old(actor),
{
}

/// A turn has begun when its request is answered with its identifier; one that was cancelled
/// meanwhile is interrupted then.
pub proof fn turns_begin_when_they_are_named(
    actor: &mut CodexActor,
    value: Json,
    bytes: usize,
    step: Result<MessageStep, ProviderError>,
    request: bool,
    id: Option<u64>,
    named: Option<String>,
)
    requires
        old(actor).wf(),
        old(actor).can_call(),
        old(actor).active is Some,
        old(actor).active->0.early_events@.len() == 0,
        call_ensures(CodexActor::process_message, (actor, value, bytes), step),
        call_ensures(is_server_request, (&value,), request),
        call_ensures(response_id, (&value,), id),
        call_ensures(response_thing, (&value, "turn"), named),
        !request,
        id == Some(old(actor).active->0.start_rpc_id),
    ensures
        named is None ==> step == Err::<MessageStep, _>(ProviderError::CodexProtocolError),
        named is Some ==> step is Ok && final(actor).active is Some && opt_text(
            final(actor).active->0.turn_id,
        ) == Some(named->0@),
        named is Some && old(actor).state is Running ==> step->Ok_0 is Nothing
            && final(actor).next_rpc_id == old(actor).next_rpc_id && final(actor).state is Running,
        named is Some && old(actor).state is Cancelling && !old(actor).active->0.interrupt_sent
            ==> {
            &&& step->Ok_0 is Write
            &&& step->Ok_0->Write_0.model()->Object_0[0] == (
                "id"@,
                JsonModel::Unsigned(old(actor).next_rpc_id),
            )
            &&& step->Ok_0->Write_0.model()->Object_0[1] == (
                "method"@,
                JsonModel::Text("turn/interrupt"@),
            )
            &&& step->Ok_0->Write_0.model()->Object_0[2].1->Object_0[0] == (
                "threadId"@,
                JsonModel::Text(old(actor).thread_id@),
            )
            &&& step->Ok_0->Write_0.model()->Object_0[2].1->Object_0[1] == (
                "turnId"@,
                JsonModel::Text(named->0@),
            )
            &&& final(actor).active->0.interrupt_rpc_id == Some(old(actor).next_rpc_id)
            &&& final(actor).next_rpc_id == old(actor).next_rpc_id + 1
        },
{
}

/// The end of the turn that runs is its own notification: the request is answered where it was
/// not, the end is shown for its reason, and the app server is ready again.
pub proof fn turns_end_with_their_own_notification(
    actor: &mut CodexActor,
    value: Json,
    bytes: usize,
    step: Result<MessageStep, ProviderError>,
    status: Seq<char>,
)
    requires
        old(actor).wf(),
        old(actor).can_call(),
        old(actor).active is Some,
        old(actor).active->0.turn_id is Some,
        call_ensures(CodexActor::process_message, (actor, value, bytes), step),
        value.model().get("id"@) is None,
        crate::providers::laws::ended(
            old(actor).thread_id@,
            old(actor).active->0.turn_id->0@,
            value.model(),
            status,
        ),
    ensures
        step matches Ok(MessageStep::Finished(result, evidence)) && (result is Some <==> old(actor).active->0.unanswered) && evidence.request_id@
            == old(actor).active->0.request_id@ && evidence.reason
            == old(actor).active->0.terminal_reason && !evidence.child_reaped,
        final(actor).state is Idle && final(actor).active is None,
        final(actor).next_rpc_id == old(actor).next_rpc_id,
        old(actor).active->0.unanswered && status == "interrupted"@ ==> (
        step->Ok_0->Finished_0 matches Some(result) && result.model() == ResultModel::Failure(
            ProviderError::CodexTurnInterrupted,
        )),
        old(actor).active->0.unanswered && status == "failed"@ ==> (
        step->Ok_0->Finished_0 matches Some(result) && result.model() == ResultModel::Failure(
            ProviderError::CodexTurnFailed,
        )),
{
    reveal_strlit("turn/completed");
    reveal_strlit("item/completed");
    reveal_strlit("completed");
    reveal_strlit("interrupted");
    reveal_strlit("failed");
    assert("turn/completed"@[0] == 't' && "item/completed"@[0] == 'i');
    assert("completed"@.len() == 9 && "interrupted"@.len() == 11 && "failed"@.len() == 6);
}

/// What is said of a turn before it is named is kept, in its order, up to a number and a size.
pub proof fn early_messages_are_kept(
    actor: &mut CodexActor,
    value: Json,
    bytes: usize,
    step: Result<MessageStep, ProviderError>,
    request: bool,
    id: Option<u64>,
)
    requires
        old(actor).wf(),
        old(actor).can_call(),
        old(actor).active is Some,
        old(actor).active->0.turn_id is None,
        call_ensures(CodexActor::process_message, (actor, value, bytes), step),
        call_ensures(is_server_request, (&value,), request),
        call_ensures(response_id, (&value,), id),
        !request,
        id is None,
        value.model().text_at("method"@) == Some("turn/completed"@) || value.model().text_at(
            "method"@,
        ) == Some("item/completed"@),
        value.model().at("params"@) is Object,
        value.model().at("params"@).text_at("threadId"@) == Some(old(actor).thread_id@),
    ensures
        old(actor).active->0.early_events@.len() >= 256 || old(actor).active->0.early_bytes + bytes
            > 1_048_576 ==> step is Err,
        old(actor).active->0.early_events@.len() < 256 && old(actor).active->0.early_bytes + bytes
            <= 1_048_576 ==> step is Ok && step->Ok_0 is Nothing && final(actor).active is Some
            && final(actor).active->0.early_events@ == old(actor).active->0.early_events@.push(
            value,
        ) && final(actor).active->0.early_bytes == old(actor).active->0.early_bytes + bytes,
{
}

/// By when something must have happened: the answer while the turn runs, its beginning while it
/// has no name, and its end once it was cancelled.
pub proof fn deadlines_are_those_of_the_turn(
    actor: CodexActor,
    deadlines: ActorDeadlines,
    other: bridge::BridgeActor,
    also: (Option<u64>, Option<u64>),
)
    requires
        actor.wf(),
        other.wf(),
        call_ensures(CodexActor::actor_deadlines, (&actor,), deadlines),
        call_ensures(bridge::BridgeActor::actor_deadlines, (&other,), also),
    ensures
        actor.active is None ==> deadlines.request is None && deadlines.start is None
            && deadlines.cancel is None,
        actor.state is Running ==> deadlines.request == Some(actor.active->0.deadline)
            && deadlines.cancel is None,
        actor.state is Running && actor.active->0.turn_id is None ==> deadlines.start == Some(
            actor.active->0.start_rpc_deadline,
        ),
        actor.state is Running && actor.active->0.turn_id is Some ==> deadlines.start is None,
        actor.state is Cancelling ==> deadlines.request is None && deadlines.start is None
            && deadlines.cancel == actor.active->0.cancel_deadline && deadlines.cancel is Some,
        other.active is None ==> also == (None::<u64>, None::<u64>),
        other.state is Running ==> also == (Some(other.active->0.deadline), None::<u64>),
        other.state is Cancelling ==> also == (None::<u64>, other.active->0.close_deadline),
{
}

/// A turn that is cancelled is answered, has five seconds to end, and is interrupted where it has
/// a name.
pub proof fn cancelled_turns_are_interrupted(
    actor: &mut CodexActor,
    request_id: &str,
    reason: CancelReason,
    now: u64,
    step: Result<CancelStep, ProviderError>,
    error: ProviderError,
    end: TerminalReason,
)
    requires
        old(actor).wf(),
        old(actor).can_call(),
        call_ensures(CodexActor::cancel, (actor, request_id, reason, now), step),
        call_ensures(error_of_cancel, (reason,), error),
        call_ensures(cancel_terminal_reason, (reason,), end),
    ensures
        old(actor).active is None || old(actor).active->0.request_id@ != request_id@ ==> step
            == Err::<CancelStep, _>(ProviderError::ProviderNotReady) && *final(actor)
            == *old(actor),
        old(actor).state is Running && old(actor).active->0.request_id@ == request_id@ ==> {
            &&& step is Ok
            &&& old(actor).active->0.unanswered ==> (step->Ok_0.result matches Some(result)
                && result.model() == ResultModel::Failure(error))
            &&& final(actor).state is Cancelling
            &&& !final(actor).active->0.unanswered
            &&& final(actor).active->0.terminal_reason == end
            &&& now <= u64::MAX - 5_000 ==> final(actor).active->0.cancel_deadline == Some(
                (now + 5_000) as u64,
            )
            &&& old(actor).active->0.turn_id is None ==> step->Ok_0.interrupt is None
                && final(actor).next_rpc_id == old(actor).next_rpc_id
                && final(actor).active->0.interrupt_rpc_id == old(actor).active->0.interrupt_rpc_id
            &&& old(actor).active->0.turn_id is Some ==> final(actor).active->0.interrupt_sent
                && final(actor).active->0.interrupt_rpc_id == Some(old(actor).next_rpc_id)
            &&& old(actor).active->0.turn_id is Some ==> (
            step->Ok_0.interrupt matches Some(message) && message.model()->Object_0[1] == (
                "method"@,
                JsonModel::Text("turn/interrupt"@),
            ) && message.model()->Object_0[2].1->Object_0[1] == (
                "turnId"@,
                JsonModel::Text(old(actor).active->0.turn_id->0@),
            )) && final(actor).next_rpc_id == old(actor).next_rpc_id + 1
        },
        old(actor).state is Cancelling && old(actor).active->0.request_id@ == request_id@ ==> step
            is Ok && step->Ok_0.result is None && step->Ok_0.interrupt is None && *final(actor)
            == *old(actor),
{
}

/// A request whose time is over is answered so, and its turn is cancelled.
pub proof fn overdue_requests_are_answered(actor: &mut CodexActor, now: u64, step: CancelStep)
    requires
        old(actor).wf(),
        old(actor).can_call(),
        old(actor).state is Running,
        old(actor).active->0.unanswered,
        call_ensures(CodexActor::handle_request_timeout, (actor, now), step),
    ensures
        step.result matches Some(result) && result.model() == ResultModel::Failure(
            ProviderError::RequestTimeout,
        ),
        final(actor).state is Cancelling && final(actor).active->0.terminal_reason
            is RequestTimeout,
        step.interrupt is Some <==> old(actor).active->0.turn_id is Some,
{
}

/// What the end of an app server leaves: an open request is answered and its end is shown.
pub proof fn ended_app_servers_answer_what_is_open(
    actor: &mut CodexActor,
    end: HostEnd,
    reaped: bool,
    step: FinishStep,
)
    requires
        old(actor).wf(),
        call_ensures(CodexActor::finish, (actor, end, reaped), step),
    ensures
        final(actor).state is Closed && final(actor).active is None,
        old(actor).active is None ==> step.result is None && step.evidence is None,
        old(actor).active is Some ==> (step.result is Some <==> old(actor).active->0.unanswered),
        old(actor).active is Some ==> (step.evidence matches Some(evidence)
            && evidence.child_reaped == reaped && evidence.request_id@
            == old(actor).active->0.request_id@),
        old(actor).state is Running && old(actor).active->0.unanswered && (end is Garbled || end
            is StartOverdue || end is TooLong) ==> step.result->0.model() == ResultModel::Failure(
            ProviderError::CodexProtocolError,
        ),
        old(actor).state is Running && old(actor).active->0.unanswered && (end is Exited || end
            is ReadOut || end is Closed) ==> step.result->0.model() == ResultModel::Failure(
            ProviderError::ProviderDisconnected,
        ),
        old(actor).state is Running && end is Exited ==> step.evidence->0.reason is SessionEnded,
        old(actor).state is Running && end is StopOverdue ==> step.evidence->0.reason
            is RequestTimeout,
        old(actor).state is Cancelling ==> step.evidence->0.reason
            == old(actor).active->0.terminal_reason,
{
}

/// A turn whose first message could not be written did not begin.
pub proof fn unwritten_turns_do_not_begin(actor: &mut CodexActor, result: SessionResult)
    requires
        old(actor).wf(),
        old(actor).state is Running,
        call_ensures(CodexActor::start_failed, (actor,), result),
    ensures
        result == (SessionResult::Failure { error: ProviderError::ProviderDisconnected }),
        final(actor).state is Idle && final(actor).active is None,
        final(actor).next_rpc_id == old(actor).next_rpc_id,
{
}

/// The same holds behind the bridge.
pub proof fn unwritten_turns_do_not_begin_behind_the_bridge(
    actor: &mut bridge::BridgeActor,
    result: SessionResult,
)
    requires
        old(actor).wf(),
        old(actor).state is Running,
        call_ensures(bridge::BridgeActor::start_failed, (actor,), result),
    ensures
        result == (SessionResult::Failure { error: ProviderError::ProviderDisconnected }),
        final(actor).state is Idle && final(actor).active is None,
        final(actor).next_rpc_id == old(actor).next_rpc_id,
{
}

/// A thread is started, or resumed by its identifier.
pub proof fn threads_are_selected(thread: ThreadSelection, message: Json)
    requires
        call_ensures(thread_message, (thread,), message),
    ensures
        message.model()->Object_0[0] == ("id"@, JsonModel::Unsigned(2)),
        thread is Start ==> message.model()->Object_0[1] == (
            "method"@,
            JsonModel::Text("thread/start"@),
        ),
        thread is Resume ==> message.model()->Object_0[1] == (
            "method"@,
            JsonModel::Text("thread/resume"@),
        ),
        thread is Resume ==> message.model()->Object_0[2].1->Object_0.last() == (
            "threadId"@,
            JsonModel::Text(thread->Resume_thread_id@),
        ),
        (thread matches ThreadSelection::Start { params } && params@.len() == 0)
            ==> message.model()->Object_0[2].1->Object_0.len() == 0,
{
}

/// Work is of the task that it was asked for, or of none; an attempt pauses for the reason that
/// its turn ended for.
pub proof fn work_is_of_the_task_asked_for(
    dispatch: Option<TaskDispatch>,
    fence: Option<TaskFence>,
    same: bool,
    reason: TerminalReason,
    pause: PauseReason,
)
    requires
        call_ensures(matching_dispatch, (dispatch, fence), same),
        call_ensures(pause_reason, (reason,), pause),
    ensures
        same <==> (dispatch is None && fence is None) || (dispatch is Some && fence is Some
            && dispatch->0.id == fence->0.task_id),
        reason is TurnEnded ==> pause is TurnEnded,
        reason is SessionEnded ==> pause is SessionEnded,
        reason is HostError ==> pause is HostError,
        reason is OperatorInterrupt ==> pause is OperatorInterrupt,
        reason is RequestTimeout ==> pause is RequestTimeout,
        reason is RequestCancelled ==> pause is RequestCancelled,
{
}

/// A lease that was taken up for a turn that did not begin is given back, and no other.
pub proof fn unused_leases_are_given_back(
    lifecycle: &mut RouterClientLifecycle,
    task: Option<TaskFence>,
    workspace: WorkspaceName,
    explicit: bool,
    begun: RouterClientLifecycle,
    tells: bool,
)
    requires
        call_ensures(RouterClientLifecycle::abandon_unowned_barrier, (lifecycle, task), ()),
        call_ensures(
            RouterClientLifecycle::new_with_explicit_readiness,
            (workspace, explicit),
            begun,
        ),
        call_ensures(RouterClientLifecycle::tells_readiness, (&begun,), tells),
    ensures
        (old(lifecycle).lease matches Some(lease) && lease.task == task) ==> final(lifecycle).lease
            is None,
        (old(lifecycle).lease matches Some(lease) && lease.task != task) ==> *final(lifecycle)
            == *old(lifecycle),
        old(lifecycle).lease is None ==> final(lifecycle).lease is None,
        final(lifecycle).workspace == old(lifecycle).workspace,
        begun.lease is None && begun.workspace == workspace && tells == explicit,
{
}

/// A turn answers its work once it has returned or was refused, and not before.
pub proof fn turns_answer_when_they_are_over(turn: ManagedTurn, result: Option<SessionResult>)
    requires
        turn.wf(),
        call_ensures(ManagedTurn::into_result, (turn,), result),
    ensures
        result is Some <==> turn.phase is Returned || turn.phase is Refused,
        (turn.phase matches TurnPhase::Refused(error)) ==> result == Some(
            SessionResult::Failure { error: turn.phase->Refused_0 },
        ),
        turn.phase is Returned ==> result == turn.result,
{
}

/// The result of the work that runs is settled once.
pub proof fn results_of_work_are_settled_once(
    inbox: &mut ProviderInbox,
    request_id: &str,
    first: bool,
)
    requires
        old(inbox).wf(),
        call_ensures(ProviderInbox::result_settled, (inbox, request_id), first),
    ensures
        old(inbox).at() is Idle ==> !first,
        (old(inbox).at() matches InboxState::Active(active) && active.request_id@ == request_id@
            && !active.result_settled) ==> first && final(inbox).at() is Active
            && final(inbox).at()->Active_0.result_settled,
        (old(inbox).at() matches InboxState::Active(active) && (active.request_id@ != request_id@
            || active.result_settled)) ==> !first,
        !first ==> final(inbox).at() == old(inbox).at(),
{
}

/// A thread is told of what is its own: the ends of its items and turns, and nothing else.
pub proof fn threads_are_told_of_their_own(
    thread: &str,
    other: &str,
    value: Json,
    yes: bool,
    also: bool,
)
    requires
        call_ensures(is_relevant_notification, (thread, &value), yes),
        call_ensures(is_relevant_notification, (other, &value), also),
    ensures
        yes ==> value.model().at("params"@).text_at("threadId"@) == Some(thread@),
        yes ==> value.model().text_at("method"@) == Some("item/completed"@)
            || value.model().text_at("method"@) == Some("turn/completed"@),
        yes && also ==> thread@ == other@,
        value.model().text_at("method"@) == Some("turn/completed"@) && value.model().at("params"@)
            is Object && value.model().at("params"@).text_at("threadId"@) == Some(thread@) ==> yes,
        value.model().text_at("method"@) == Some("item/completed"@) && value.model().at("params"@)
            is Object && value.model().at("params"@).text_at("threadId"@) == Some(thread@) ==> yes,
{
}

/// Requests are numbered with texts and whole numbers; the client says that it is ready without
/// a number.
pub proof fn requests_are_numbered(value: Json, valid: bool, message: Json)
    requires
        call_ensures(valid_json_rpc_id, (&value,), valid),
        call_ensures(initialized_message, (), message),
    ensures
        value.model() is Text || value.model() is Unsigned || value.model() is Negative ==> valid,
        value.model() is Null || value.model() is Bool || value.model() is Array || value.model()
            is Object ==> !valid,
        message.model() is Object && message.model()->Object_0.len() == 2,
        message.model()->Object_0[0] == ("method"@, JsonModel::Text("initialized"@)),
        message.model()->Object_0[1] == ("params"@, JsonModel::Object(Seq::empty())),
{
}

/// A frame of the bridge is an object; anything else is out of order. A session is named by its
/// identifier.
pub proof fn frames_of_the_bridge_are_objects(
    payload: &[u8],
    event: WireEvent,
    value: Json,
    frame: Result<Vec<u8>, ProviderError>,
    session: Result<Uuid, ProviderError>,
)
    requires
        call_ensures(read_frame, (payload,), event),
        call_ensures(write_frame, (&value,), frame),
        call_ensures(parse_session_id, (&value,), session),
    ensures
        event is Message <==> (parsed_json(payload@) matches Some(own) && own is Object),
        event matches WireEvent::Message(own) ==> Some(own.model()) == parsed_json(payload@),
        !(event is Message) ==> event is ProtocolError,
        frame matches Ok(bytes) ==> bytes@.len() == 4 + encoded_json(value.model()).len(),
        frame matches Ok(bytes) ==> bytes@.subrange(4, bytes@.len() as int) == encoded_json(
            value.model(),
        ),
        frame is Err ==> frame->Err_0 is BridgeProtocolError,
        session matches Ok(id) ==> value.model() is Text && parsed_uuid(value.model()->Text_0)
            == Some(id.value),
        value.model() is Text && parsed_uuid(value.model()->Text_0) is Some ==> session is Ok,
        session is Err ==> session->Err_0 is ClaudeProtocolError,
{
    if frame is Ok {
        let bytes = frame->Ok_0;
        assert(bytes@.subrange(4, bytes@.len() as int) =~= encoded_json(value.model()));
    }
}

/// An attempt becomes known for the request that it is of, at the request's task, and for no other.
pub proof fn attempts_are_bound_to_their_request(
    inbox: &mut ProviderInbox,
    request_id: &str,
    fence: TaskFence,
    bound: Result<Option<InboxTerminalAction>, ProviderError>,
)
    requires
        old(inbox).wf(),
        call_ensures(ProviderInbox::bind_task_fence, (inbox, request_id, fence), bound),
    ensures
        (old(inbox).at() matches InboxState::Active(active) && active.request_id@ != request_id@)
            ==> bound is Err && final(inbox).at() == old(inbox).at(),
        (old(inbox).at() matches InboxState::StopPending(pending) && pending.active.request_id@
            != request_id@) ==> bound is Err && final(inbox).at() == old(inbox).at(),
        (old(inbox).at() matches InboxState::Active(active) && active.task is Some
            && active.task->0.id != fence.task_id) ==> bound is Err,
        (old(inbox).at() matches InboxState::Active(active) && active.fence is Some
            && active.fence != Some(fence)) ==> bound is Err,
        (old(inbox).at() matches InboxState::Active(active) && bound is Ok) ==> (final(inbox).at() matches InboxState::Active(active) && active.fence == Some(fence)),
{
}

/// The answer of a turn settles the request that the turn is of, whether it runs or waits to be
/// stopped, and no other.
pub proof fn answers_settle_their_own_request(
    turn: &mut ManagedTurn,
    inbox: &mut ProviderInbox,
    result: SessionResult,
    phase: TurnPhase,
)
    requires
        old(turn).wf(),
        old(inbox).wf(),
        old(turn).phase is Run,
        call_ensures(ManagedTurn::step, (turn, inbox, TurnEvent::Answered(result)), phase),
    ensures
        final(turn).result == Some(result),
        (old(inbox).at() matches InboxState::Active(active) && active.request_id@
            == old(turn).request.request_id@) ==> (final(inbox).at() matches InboxState::Active(own)
            && own.result_settled && own.request_id@ == old(turn).request.request_id@),
        (old(inbox).at() matches InboxState::Active(active) && active.request_id@
            != old(turn).request.request_id@) ==> final(inbox).at() == old(inbox).at(),
        (old(inbox).at() matches InboxState::StopPending(pending) && pending.active.request_id@
            == old(turn).request.request_id@) ==> (final(inbox).at() matches InboxState::StopPending(
            own,
        ) && own.active.result_settled),
        (old(inbox).at() matches InboxState::StopPending(pending) && pending.active.request_id@
            != old(turn).request.request_id@) ==> final(inbox).at() == old(inbox).at(),
{
}

/// A turn that was cancelled before it became known is interrupted when it does; any other is
/// left to run.
pub proof fn late_turns_are_interrupted(
    actor: &mut CodexActor,
    value: Json,
    bytes: usize,
    step: Result<MessageStep, ProviderError>,
)
    requires
        old(actor).wf(),
        old(actor).can_call(),
        old(actor).active is Some,
        old(actor).active->0.turn_id is None,
        call_ensures(CodexActor::process_message, (actor, value, bytes), step),
        step is Ok,
        final(actor).active is Some,
        final(actor).active->0.turn_id is Some,
    ensures
        old(actor).active->0.cancel_deadline is Some && !old(actor).active->0.interrupt_sent ==> {
            &&& step->Ok_0 matches MessageStep::Write(message)
            &&& message.model()->Object_0[0] == (
                "id"@,
                JsonModel::Unsigned(old(actor).next_rpc_id),
            )
            &&& message.model()->Object_0[1] == ("method"@, JsonModel::Text("turn/interrupt"@))
            &&& final(actor).active->0.interrupt_rpc_id == Some(old(actor).next_rpc_id)
            &&& final(actor).active->0.interrupt_sent
            &&& final(actor).next_rpc_id == old(actor).next_rpc_id + 1
        },
        old(actor).active->0.cancel_deadline is None || old(actor).active->0.interrupt_sent ==> {
            &&& step->Ok_0 is Nothing
            &&& final(actor).active->0.interrupt_rpc_id == old(actor).active->0.interrupt_rpc_id
            &&& final(actor).active->0.interrupt_sent == old(actor).active->0.interrupt_sent
            &&& final(actor).next_rpc_id == old(actor).next_rpc_id
        },
        final(actor).active->0.early_events@.len() == 0,
        final(actor).active->0.unanswered == old(actor).active->0.unanswered,
        final(actor).active->0.cancel_deadline == old(actor).active->0.cancel_deadline,
{
}

} // verus!
