//! What holds of the work of providers as a whole: what a turn is answered, what the router is
//! told of its end, and how work goes through the inbox.

use vstd::prelude::*;

use crate::ids::Uuid;
use crate::json::{Json, JsonModel};
use crate::protocol::{opt_name, TaskExecutionEvidence, TaskFence, WorkspaceName};
use crate::providers::codex::turn::{
    collect, completion, note_effect, replay, ActiveTurn, CodexActor, HandleStep, NoteEffect,
};
use crate::providers::inbox::{Active, InboxPhase, InboxState, InboxTerminalAction, ProviderInbox};
use crate::providers::router::{
    decide_stop, BarrierLease, ExecutionBarrier, RouterClientLifecycle, StopReport,
};
use crate::providers::{
    CancelReason, ProviderError, ResultModel, SessionRequest, SessionResult, TerminalEvidence,
    TerminalReason,
};
use crate::text::{lines_joined, opt_text};

verus! {

/// A message of the agent in a turn, with its text and its item.
pub open spec fn said(
    thread_id: Seq<char>,
    turn_id: Seq<char>,
    note: JsonModel,
    item: JsonModel,
    text: Seq<char>,
) -> bool {
    &&& note.text_at("method"@) == Some("item/completed"@)
    &&& note.at("params"@) is Object
    &&& note.at("params"@).text_at("threadId"@) == Some(thread_id)
    &&& note.at("params"@).text_at("turnId"@) == Some(turn_id)
    &&& note.at("params"@).at("item"@) == item
    &&& item.text_at("type"@) == Some("agentMessage"@)
    &&& item.text_at("text"@) == Some(text)
}

/// A message that belongs to the answer.
pub open spec fn said_finally(
    thread_id: Seq<char>,
    turn_id: Seq<char>,
    note: JsonModel,
    text: Seq<char>,
) -> bool {
    let item = note.at("params"@).at("item"@);
    said(thread_id, turn_id, note, item, text) && item.get("phase"@) == Some(
        JsonModel::Text("final_answer"@),
    )
}

/// A message that does not say what it is.
pub open spec fn said_plainly(
    thread_id: Seq<char>,
    turn_id: Seq<char>,
    note: JsonModel,
    text: Seq<char>,
) -> bool {
    let item = note.at("params"@).at("item"@);
    said(thread_id, turn_id, note, item, text) && item.get("phase"@) is None
}

/// The end of a turn, with a status.
pub open spec fn ended(
    thread_id: Seq<char>,
    turn_id: Seq<char>,
    note: JsonModel,
    status: Seq<char>,
) -> bool {
    &&& note.text_at("method"@) == Some("turn/completed"@)
    &&& note.at("params"@) is Object
    &&& note.at("params"@).text_at("threadId"@) == Some(thread_id)
    &&& note.at("params"@).at("turn"@) is Object
    &&& note.at("params"@).at("turn"@).text_at("id"@) == Some(turn_id)
    &&& note.at("params"@).at("turn"@).text_at("status"@) == Some(status)
}

/// The texts of the messages among the first `n` that belong to the answer, in their order.
pub open spec fn final_texts(
    thread_id: Seq<char>,
    turn_id: Seq<char>,
    notes: Seq<JsonModel>,
    n: int,
) -> Seq<Seq<char>>
    decreases n,
{
    if n <= 0 {
        Seq::empty()
    } else {
        let before = final_texts(thread_id, turn_id, notes, n - 1);
        let item = notes[n - 1].at("params"@).at("item"@);
        match item.text_at("text"@) {
            Some(text) => if said_finally(thread_id, turn_id, notes[n - 1], text) {
                before.push(text)
            } else {
                before
            },
            None => before,
        }
    }
}

/// A notification that a turn is told of, and what the turn is afterwards.
pub open spec fn hears(
    before: ActiveTurn,
    thread_id: Seq<char>,
    note: JsonModel,
    after: ActiveTurn,
    result: Option<SessionResult>,
) -> bool {
    let effect = note_effect(thread_id, opt_text(before.turn_id), note);
    &&& opt_text(after.turn_id) == opt_text(before.turn_id)
    &&& after.collected() == collect(before.collected(), effect)
    &&& match effect {
        NoteEffect::Completed(status) => result matches Some(result) && result.model()
            == completion(before.collected(), status),
        _ => result is None,
    }
}

/// Every call with a notification is heard so.
pub proof fn calls_are_heard(
    turn: &mut ActiveTurn,
    thread_id: &str,
    value: Json,
    result: Option<SessionResult>,
)
    requires
        call_ensures(ActiveTurn::apply_notification, (turn, thread_id, &value), result),
    ensures
        hears(*old(turn), thread_id@, value.model(), *final(turn), result),
{
}

/// A turn that was told of some notifications without being answered.
pub open spec fn heard(
    turns: Seq<ActiveTurn>,
    thread_id: Seq<char>,
    turn_id: Seq<char>,
    notes: Seq<JsonModel>,
) -> bool {
    &&& turns.len() == notes.len() + 1
    &&& opt_text(turns[0].turn_id) == Some(turn_id)
    &&& turns[0].final_messages@.len() == 0
    &&& turns[0].fallback_message is None
    &&& forall|i: int|
        0 <= i < notes.len() ==> hears(turns[i], thread_id, #[trigger] notes[i], turns[i + 1], None)
}

/// The plain message among the first `n` that came last, the length where there is none.
pub open spec fn last_plain(
    thread_id: Seq<char>,
    turn_id: Seq<char>,
    notes: Seq<JsonModel>,
    n: int,
    at: int,
    text: Seq<char>,
) -> bool {
    &&& 0 <= at < n
    &&& said_plainly(thread_id, turn_id, notes[at], text)
    &&& forall|j: int, other: Seq<char>|
        at < j < n ==> !(#[trigger] said_plainly(thread_id, turn_id, notes[j], other))
}

proof fn hearing_collects(
    turns: Seq<ActiveTurn>,
    thread_id: Seq<char>,
    turn_id: Seq<char>,
    notes: Seq<JsonModel>,
    n: int,
)
    requires
        heard(turns, thread_id, turn_id, notes),
        0 <= n <= notes.len(),
    ensures
        opt_text(turns[n].turn_id) == Some(turn_id),
        turns[n].collected().finals == final_texts(thread_id, turn_id, notes, n),
        match turns[n].collected().fallback {
            Some(text) => exists|at: int| last_plain(thread_id, turn_id, notes, n, at, text),
            None => forall|j: int, other: Seq<char>|
                0 <= j < n ==> !(#[trigger] said_plainly(thread_id, turn_id, notes[j], other)),
        },
    decreases n,
{
    if n == 0 {
        assert(turns[0].collected().finals =~= Seq::<Seq<char>>::empty());
    } else {
        hearing_collects(turns, thread_id, turn_id, notes, n - 1);
        assert(hears(turns[n - 1], thread_id, notes[n - 1], turns[n - 1 + 1], None));
        let effect = note_effect(thread_id, Some(turn_id), notes[n - 1]);
        let m = n - 1;
        let before = turns[m].collected().fallback;
        match effect {
            NoteEffect::Fallback(text) => {
                assert(said_plainly(thread_id, turn_id, notes[n - 1], text));
                assert(last_plain(thread_id, turn_id, notes, n, n - 1, text));
            },
            _ => {
                assert(forall|other: Seq<char>|
                    !(#[trigger] said_plainly(thread_id, turn_id, notes[n - 1], other)));
                if before is Some {
                    let text = before->0;
                    let at = choose|at: int|
                        last_plain(thread_id, turn_id, notes, m, at, text);
                    assert(last_plain(thread_id, turn_id, notes, n, at, text));
                }
            },
        }
    }
}

/// What a turn that ends is answered: where any message belongs to the answer, all that do,
/// one behind the other with line feeds between; else the last one that does not say what it
/// is; and where there is neither, that there was no answer. A turn that was interrupted or
/// that failed is answered so whatever was said in it.
pub proof fn turns_are_answered_with_what_was_said(
    turns: Seq<ActiveTurn>,
    thread_id: Seq<char>,
    turn_id: Seq<char>,
    notes: Seq<JsonModel>,
    end: JsonModel,
    status: Seq<char>,
    after: ActiveTurn,
    result: Option<SessionResult>,
)
    requires
        heard(turns, thread_id, turn_id, notes),
        ended(thread_id, turn_id, end, status),
        hears(turns.last(), thread_id, end, after, result),
    ensures
        result is Some,
        status == "completed"@ && final_texts(
            thread_id,
            turn_id,
            notes,
            notes.len() as int,
        ).len() > 0 ==> result->0.model() == ResultModel::Success(
            lines_joined(final_texts(thread_id, turn_id, notes, notes.len() as int)),
        ),
        status == "completed"@ && final_texts(
            thread_id,
            turn_id,
            notes,
            notes.len() as int,
        ).len() == 0 && (exists|j: int, text: Seq<char>|
            0 <= j < notes.len() && #[trigger] said_plainly(thread_id, turn_id, notes[j], text))
            ==> result->0.model() is Success && (exists|at: int|
            last_plain(
                thread_id,
                turn_id,
                notes,
                notes.len() as int,
                at,
                result->0.model()->Success_0,
            )),
        status == "completed"@ && final_texts(
            thread_id,
            turn_id,
            notes,
            notes.len() as int,
        ).len() == 0 && !(exists|j: int, text: Seq<char>|
            0 <= j < notes.len() && #[trigger] said_plainly(thread_id, turn_id, notes[j], text))
            ==> result->0.model() == ResultModel::Failure(ProviderError::CodexNoFinalResponse),
        status == "interrupted"@ ==> result->0.model() == ResultModel::Failure(
            ProviderError::CodexTurnInterrupted,
        ),
        status == "failed"@ ==> result->0.model() == ResultModel::Failure(
            ProviderError::CodexTurnFailed,
        ),
        status != "completed"@ && status != "interrupted"@ && status != "failed"@
            ==> result->0.model() == ResultModel::Failure(ProviderError::CodexProtocolError),
{
    reveal_strlit("completed");
    reveal_strlit("interrupted");
    reveal_strlit("failed");
    assert("completed"@.len() == 9 && "interrupted"@.len() == 11 && "failed"@.len() == 6);
    hearing_collects(turns, thread_id, turn_id, notes, notes.len() as int);
    let last = turns.last();
    assert(last == turns[notes.len() as int]);
    reveal_strlit("turn/completed");
    reveal_strlit("item/completed");
    assert("turn/completed"@[0] == 't' && "item/completed"@[0] == 'i');
    assert(note_effect(thread_id, Some(turn_id), end) == NoteEffect::Completed(status));
    assert(result->0.model() == completion(last.collected(), status));
    let n = notes.len() as int;
    match last.collected().fallback {
        Some(text) => {
            let at = choose|at: int| last_plain(thread_id, turn_id, notes, n, at, text);
            assert(last_plain(thread_id, turn_id, notes, n, at, text));
            assert(said_plainly(thread_id, turn_id, notes[at], text));
            if status == "completed"@ && final_texts(thread_id, turn_id, notes, n).len() == 0 {
                assert(result->0.model() == ResultModel::Success(text));
                assert(last_plain(
                    thread_id,
                    turn_id,
                    notes,
                    notes.len() as int,
                    at,
                    result->0.model()->Success_0,
                ));
            }
        },
        None => {},
    }
}

/// Some texts one behind the other: one alone as it is, another one behind a line feed.
pub proof fn answers_are_joined_by_line_feeds(list: Seq<Seq<char>>, next: Seq<char>)
    ensures
        lines_joined(seq![next]) == next,
        list.len() > 0 ==> lines_joined(list.push(next)) == lines_joined(list) + "\n"@ + next,
{
    reveal_strlit("\n");
    assert("\n"@ =~= seq!['\n']);
    assert(list.push(next).drop_last() =~= list);
}

/// A turn is answered only at its end, and what speaks of another turn or another thread
/// changes nothing.
pub proof fn turns_are_answered_at_their_end(
    before: ActiveTurn,
    thread_id: Seq<char>,
    turn_id: Seq<char>,
    note: JsonModel,
    after: ActiveTurn,
    result: Option<SessionResult>,
)
    requires
        opt_text(before.turn_id) == Some(turn_id),
        hears(before, thread_id, note, after, result),
    ensures
        result is Some <==> exists|status: Seq<char>|
            #[trigger] ended(thread_id, turn_id, note, status),
        after.collected() == before.collected() || (exists|text: Seq<char>| #[trigger]
            said_finally(thread_id, turn_id, note, text)) || (exists|text: Seq<char>| #[trigger]
            said_plainly(thread_id, turn_id, note, text)),
{
    let params = note.at("params"@);
    let effect = note_effect(thread_id, Some(turn_id), note);
    reveal_strlit("turn/completed");
    reveal_strlit("item/completed");
    assert("turn/completed"@[0] == 't' && "item/completed"@[0] == 'i');
    match effect {
        NoteEffect::Completed(status) => {
            assert(ended(thread_id, turn_id, note, status));
            assert(collect(before.collected(), effect) == before.collected());
        },
        NoteEffect::Final(text) => {
            assert(said_finally(thread_id, turn_id, note, text));
        },
        NoteEffect::Fallback(text) => {
            assert(said_plainly(thread_id, turn_id, note, text));
        },
        _ => {},
    }
}

/// What arrives before a turn has its identifier counts as if it had arrived just after.
pub proof fn early_notifications_count_later(
    turns: Seq<ActiveTurn>,
    thread_id: Seq<char>,
    turn_id: Seq<char>,
    notes: Seq<JsonModel>,
    n: int,
)
    requires
        heard(turns, thread_id, turn_id, notes),
        0 <= n <= notes.len(),
    ensures
        replay(thread_id, Some(turn_id), turns[0].collected(), notes, n).result is None,
        replay(thread_id, Some(turn_id), turns[0].collected(), notes, n).collected
            == turns[n].collected(),
    decreases n,
{
    if n > 0 {
        early_notifications_count_later(turns, thread_id, turn_id, notes, n - 1);
        hearing_collects(turns, thread_id, turn_id, notes, n - 1);
        assert(hears(turns[n - 1], thread_id, notes[n - 1], turns[n - 1 + 1], None));
    }
}

/// What the router is told of the end of a turn. The attempt that ran when the turn began has
/// stopped, where the router says that it runs or that it is to be seen to stop, and says so
/// of no other one; where nothing runs there is nothing to tell; anything else is refused.
pub proof fn the_leased_attempt_is_reported(
    lease: BarrierLease,
    session: Uuid,
    barrier: ExecutionBarrier,
    evidence: TerminalEvidence,
    report: Result<StopReport, ProviderError>,
)
    requires
        call_ensures(decide_stop, (lease, session, Some(barrier), &evidence), report),
    ensures
        ({
            let here = session == lease.session_id && barrier.session_id == lease.session_id;
            let told = |other: Option<TaskFence>| other is None || other == lease.task;
            let some = barrier.current is Some || barrier.stop_pending is Some;
            let fits = told(barrier.current) && told(barrier.stop_pending);
            &&& here && some && fits ==> (report matches Ok(
                StopReport::Stopped { fence, session_id, evidence: shown, reason },
            ) && Some(fence) == lease.task && session_id == lease.session_id && shown == (
            if evidence.child_reaped {
                TaskExecutionEvidence::ProviderClosed
            } else {
                TaskExecutionEvidence::ProviderTerminal
            }))
            &&& here && !some ==> report == Ok::<_, ProviderError>(StopReport::Nothing)
            &&& !here || !fits ==> report == Err::<StopReport, _>(
                ProviderError::ExecutionFenceChanged,
            )
        }),
{
}

/// Why an attempt paused is why the turn ended, under the same name.
pub proof fn attempts_pause_as_turns_end(
    lease: BarrierLease,
    session: Uuid,
    barrier: Option<ExecutionBarrier>,
    evidence: TerminalEvidence,
    report: Result<StopReport, ProviderError>,
)
    requires
        call_ensures(decide_stop, (lease, session, barrier, &evidence), report),
    ensures
        barrier is None ==> report == Err::<StopReport, _>(
            ProviderError::RouterLifecycleUnavailable,
        ),
        report matches Ok(StopReport::Stopped { reason, .. }) ==> {
            &&& reason is TurnEnded <==> evidence.reason is TurnEnded
            &&& reason is SessionEnded <==> evidence.reason is SessionEnded
            &&& reason is HostError <==> evidence.reason is HostError
            &&& reason is OperatorInterrupt <==> evidence.reason is OperatorInterrupt
            &&& reason is RequestTimeout <==> evidence.reason is RequestTimeout
            &&& reason is RequestCancelled <==> evidence.reason is RequestCancelled
        },
{
}

/// What a turn takes up from the router it gives back when it ends: whoever began can finish,
/// nobody else can begin meanwhile, and afterwards everything is as before.
pub proof fn leases_are_given_back(
    taken: &mut RouterClientLifecycle,
    freed: &mut RouterClientLifecycle,
    session: Uuid,
    barrier: Option<ExecutionBarrier>,
    task: Result<Option<TaskFence>, ProviderError>,
    again: Result<Uuid, ProviderError>,
    begun: Result<BarrierLease, ProviderError>,
    finished: Result<(), ProviderError>,
)
    requires
        call_ensures(RouterClientLifecycle::acquire_barrier, (taken, session, barrier), task),
        task is Ok,
        call_ensures(RouterClientLifecycle::begin_acquire, (&*final(taken), Some(session)), again),
        call_ensures(
            RouterClientLifecycle::begin_finish,
            (&*final(taken), task->Ok_0, Some(session)),
            begun,
        ),
        *old(freed) == *final(taken),
        begun is Ok ==> call_ensures(
            RouterClientLifecycle::finish_execution,
            (freed, begun->Ok_0),
            finished,
        ),
    ensures
        old(taken).lease is None,
        barrier matches Some(barrier) && barrier.session_id == session && barrier.stop_pending is None
            && task == Ok::<_, ProviderError>(barrier.current),
        again == Err::<Uuid, _>(ProviderError::SessionBusy),
        begun == Ok::<_, ProviderError>(
            BarrierLease { session_id: session, task: barrier->0.current },
        ),
        finished is Ok,
        *final(freed) == *old(taken),
{
}

/// A turn takes up what runs exactly where the router says what runs in its own session,
/// nothing is still to stop and no other turn has taken it up.
pub proof fn leases_are_taken_when_free(
    lifecycle: &mut RouterClientLifecycle,
    session: Uuid,
    barrier: Option<ExecutionBarrier>,
    task: Result<Option<TaskFence>, ProviderError>,
)
    requires
        call_ensures(RouterClientLifecycle::acquire_barrier, (lifecycle, session, barrier), task),
    ensures
        task is Ok <==> (barrier matches Some(barrier) && barrier.session_id == session
            && barrier.stop_pending is None && old(lifecycle).lease is None),
        task is Err ==> *final(lifecycle) == *old(lifecycle),
        barrier is None ==> task == Err::<Option<TaskFence>, _>(
            ProviderError::RouterLifecycleUnavailable,
        ),
        final(lifecycle).workspace == old(lifecycle).workspace,
{
}

/// Work goes through an inbox in order: it begins where the inbox is idle, becomes the attempt
/// that it is bound to, is seen to end, and is confirmed as stopped by exactly what the router
/// was told. Then the inbox is idle again.
pub proof fn work_goes_through_an_inbox(
    one: &mut ProviderInbox,
    two: &mut ProviderInbox,
    three: &mut ProviderInbox,
    four: &mut ProviderInbox,
    request: SessionRequest,
    fence: TaskFence,
    evidence: TerminalEvidence,
    workspace: WorkspaceName,
    request_id: &str,
    began: Result<(), ProviderError>,
    bound: Result<Option<InboxTerminalAction>, ProviderError>,
    action: Option<InboxTerminalAction>,
    confirmed: bool,
)
    requires
        old(one).wf(),
        call_ensures(ProviderInbox::begin, (one, &request), began),
        began is Ok,
        *old(two) == *final(one),
        request_id@ == request.request_id@,
        request.task matches Some(task) && task.id == fence.task_id,
        call_ensures(ProviderInbox::bind_task_fence, (two, request_id, fence), bound),
        *old(three) == *final(two),
        evidence.request_id@ == request.request_id@,
        call_ensures(ProviderInbox::observe_terminal, (three, evidence), action),
        *old(four) == *final(three),
        Some(workspace@) == opt_name(request.workspace),
        call_ensures(
            ProviderInbox::confirm_stopped,
            (four, &workspace, request_id, Some(&fence)),
            confirmed,
        ),
    ensures
        old(one).at() is Idle,
        request.workspace is Some,
        bound == Ok::<_, ProviderError>(None::<InboxTerminalAction>),
        action matches Some(action) && action.workspace@ == workspace@ && action.evidence.same(
            evidence,
        ) && action.fence == Some(fence) && !action.cancelled,
        confirmed,
        final(four).at() is Idle,
{
}

/// Work that ends before it is known which attempt it is waits for that: the router is told as
/// soon as it is known, once, and the inbox is not free before.
pub proof fn early_ends_wait_for_their_attempt(
    one: &mut ProviderInbox,
    two: &mut ProviderInbox,
    active: Active,
    fence: TaskFence,
    evidence: TerminalEvidence,
    workspace: WorkspaceName,
    request_id: &str,
    action: Option<InboxTerminalAction>,
    bound: Result<Option<InboxTerminalAction>, ProviderError>,
    phase: InboxPhase,
)
    requires
        old(one).wf(),
        old(one).at() == InboxState::Active(active),
        active.task matches Some(task) && task.id == fence.task_id,
        active.fence is None,
        evidence.request_id@ == active.request_id@,
        request_id@ == active.request_id@,
        call_ensures(ProviderInbox::observe_terminal, (one, evidence), action),
        call_ensures(ProviderInbox::phase, (&*final(one),), phase),
        *old(two) == *final(one),
        call_ensures(ProviderInbox::bind_task_fence, (two, request_id, fence), bound),
    ensures
        action is None,
        phase is StopPending,
        bound matches Ok(Some(action)) && action.fence == Some(fence) && action.workspace@
            == active.workspace@ && action.evidence.same(evidence) && action.cancelled
            == active.cancel_reason is Some,
        !(final(two).at() is Idle),
{
}

/// Work is cancelled once: the first request is passed on, every further one is not, and the
/// reason of the first one stays.
pub proof fn work_is_cancelled_once(
    one: &mut ProviderInbox,
    two: &mut ProviderInbox,
    active: Active,
    workspace: WorkspaceName,
    request_id: &str,
    fence: Option<&TaskFence>,
    reason: CancelReason,
    other: CancelReason,
    first: Result<bool, ProviderError>,
    second: Result<bool, ProviderError>,
    acknowledged: bool,
)
    requires
        old(one).wf(),
        old(one).at() == InboxState::Active(active),
        active.cancel_reason is None,
        call_ensures(
            ProviderInbox::request_cancel,
            (one, &workspace, request_id, fence, reason),
            first,
        ),
        *old(two) == *final(one),
        call_ensures(
            ProviderInbox::request_cancel,
            (two, &workspace, request_id, fence, other),
            second,
        ),
        call_ensures(ProviderInbox::acknowledge_cancel, (&*final(two), request_id), acknowledged),
    ensures
        first is Ok <==> active.workspace@ == workspace@ && active.request_id@ == request_id@ && (
        match (active.task, fence) {
            (Some(task), Some(fence)) => task.id == fence.task_id && active.fence == Some(*fence),
            (None, None) => active.fence is None,
            _ => false,
        }),
        first is Ok ==> first == Ok::<_, ProviderError>(true) && second == Ok::<_, ProviderError>(
            false,
        ) && acknowledged && (final(two).at() matches InboxState::Active(now) && now.cancel_reason
            == Some(reason)),
        first is Err ==> first == Err::<bool, _>(ProviderError::ExecutionFenceChanged) && final(one).at() == old(one).at(),
{
}

/// What work is answered that is cancelled, and why its turn ended: a timeout as a timeout,
/// anything else as a lost provider; the turn ended as it was cancelled.
pub proof fn cancellations_are_told_as_they_are(
    reason: CancelReason,
    error: ProviderError,
    terminal: TerminalReason,
)
    requires
        call_ensures(crate::providers::error_of_cancel, (reason,), error),
        call_ensures(crate::providers::cancel_terminal_reason, (reason,), terminal),
    ensures
        error == if reason is RequestTimeout {
            ProviderError::RequestTimeout
        } else {
            ProviderError::ProviderDisconnected
        },
        terminal is RequestTimeout <==> reason is RequestTimeout,
        terminal is OperatorInterrupt <==> reason is TaskInterrupted,
        terminal is RequestCancelled <==> reason is RequestCancelled,
        terminal is SessionEnded <==> reason is ProviderDisconnected,
{
}

/// A turn of an app server from its request to its end: it is started by its own message, runs
/// under the identifier that it is given, is answered once, and leaves the app server idle.
pub proof fn codex_turns_run_in_order(
    one: &mut CodexActor,
    request: SessionRequest,
    now: u64,
    started: HandleStep,
    ready: bool,
)
    requires
        old(one).wf(),
        old(one).can_call(),
        call_ensures(CodexActor::handle, (one, request, now), started),
        call_ensures(CodexActor::is_ready, (&*final(one),), ready),
    ensures
        started is Start <==> old(one).state is Idle && request.deadline > now,
        started is Start ==> !ready && final(one).next_rpc_id == old(one).next_rpc_id + 1 && (
        final(one).active matches Some(turn) && turn.request_id@ == request.request_id@
            && turn.unanswered && turn.deadline == request.deadline && turn.start_rpc_id
            == old(one).next_rpc_id && turn.turn_id is None && turn.cancel_deadline is None
            && turn.start_rpc_deadline == (if now + old(one).rpc_timeout <= u64::MAX {
            now + old(one).rpc_timeout
        } else {
            u64::MAX as int
        })),
        started is Refuse ==> *final(one) == *old(one),
        !(old(one).state is Idle) && !(old(one).state is Closed) ==> started == HandleStep::Refuse(
            SessionResult::Failure { error: ProviderError::SessionBusy },
        ),
        old(one).state is Closed ==> started == HandleStep::Refuse(
            SessionResult::Failure { error: ProviderError::ProviderNotReady },
        ),
        old(one).state is Idle && request.deadline <= now ==> started == HandleStep::Refuse(
            SessionResult::Failure { error: ProviderError::RequestTimeout },
        ),
{
}

} // verus!
