//! What holds of every update cycle, whatever the replies.

use crate::change_log::{
    entry_line_spec, is_single_line, is_terminated, last_entry_spec, law_append_adds_one_line,
    lines, NO_ENTRY,
};
use crate::discovery::DISCOVERY_URL;
use crate::error::{ErrorView, Stage};
use crate::orchestrator::{start_spec, ActionView, OrchestratorView, OutcomeView, PhaseView};
use crate::provider::{
    malformed_endpoint, url_parses, ServiceView, UpdateRequestView, APP_USER_AGENT,
};
use crate::reply::ReplyView;
use crate::text::{law_trimmed, trimmed};
use vstd::prelude::*;

verus! {

/// The actions that a cycle in `state` hands out while it gets `replies`,
/// one after the other.
pub open spec fn actions(state: OrchestratorView, replies: Seq<ReplyView>) -> Seq<ActionView>
    decreases replies.len(),
{
    if replies.len() == 0 {
        Seq::empty()
    } else {
        let (next, action) = state.step(replies[0]);
        seq![action] + actions(next, replies.drop_first())
    }
}

/// The request that tells `service` of `ip`.
pub open spec fn request_to(service: ServiceView, ip: Seq<char>) -> UpdateRequestView {
    UpdateRequestView { url: service.endpoint(ip), user_agent: APP_USER_AGENT@ }
}

/// One notification of `ip` for each of `targets`, in their order.
pub open spec fn notifications(targets: Seq<ServiceView>, ip: Seq<char>) -> Seq<ActionView> {
    targets.map_values(|service: ServiceView| ActionView::Notify(request_to(service, ip)))
}

/// Whether the endpoint of each of `targets` for `ip` is a URL.
pub open spec fn all_parse(targets: Seq<ServiceView>, ip: Seq<char>) -> bool {
    forall|k: int| 0 <= k < targets.len() ==> url_parses(#[trigger] targets[k].endpoint(ip))
}

/// The replies of services that answered with `bodies`.
pub open spec fn answers(bodies: Seq<Seq<char>>) -> Seq<ReplyView> {
    bodies.map_values(|body: Seq<char>| Ok::<Seq<char>, Seq<char>>(body))
}

/// Every reply is answered by one action.
pub proof fn law_one_action_per_reply(state: OrchestratorView, replies: Seq<ReplyView>)
    ensures
        actions(state, replies).len() == replies.len(),
    decreases replies.len(),
{
    if replies.len() > 0 {
        law_one_action_per_reply(state.step(replies[0]).0, replies.drop_first());
    }
}

/// A step changes neither the services nor the place of the change log, it
/// reads and appends at that place only, and it keeps the state well formed.
pub proof fn law_step_keeps_configuration(state: OrchestratorView, reply: ReplyView)
    requires
        state.inv(),
    ensures
        state.step(reply).0.inv(),
        state.step(reply).0.log_path == state.log_path,
        state.step(reply).0.targets == state.targets,
        state.step(reply).1 matches ActionView::ReadLog { path } ==> path == state.log_path,
        state.step(reply).1 matches ActionView::AppendLog { path, line } ==> path
            == state.log_path,
{
}

/// A cycle that has ended hands out nothing but its outcome.
pub proof fn law_finished_stays_finished(
    state: OrchestratorView,
    outcome: OutcomeView,
    replies: Seq<ReplyView>,
)
    requires
        state.phase == PhaseView::Finished(outcome),
    ensures
        actions(state, replies).len() == replies.len(),
        forall|i: int|
            0 <= i < replies.len() ==> actions(state, replies)[i] == ActionView::Finish(outcome),
    decreases replies.len(),
{
    if replies.len() > 0 {
        law_finished_stays_finished(state, outcome, replies.drop_first());
    }
}

/// Where the address found is the last entry of the change log, the cycle
/// ends at once: no service is notified and nothing is appended, whatever
/// is reported afterwards.
pub proof fn law_no_change_no_effect(
    state: OrchestratorView,
    ip: Seq<char>,
    contents: Seq<char>,
    later: Seq<ReplyView>,
)
    requires
        state.phase == (PhaseView::AwaitLog { ip }),
        last_entry_spec(contents) == ip,
    ensures
        forall|i: int|
            0 <= i <= later.len() ==> actions(state, seq![Ok(contents)] + later)[i]
                == ActionView::Finish(OutcomeView::NoChange { ip }),
{
    let replies = seq![Ok::<Seq<char>, Seq<char>>(contents)] + later;
    assert(replies.drop_first() =~= later);
    law_finished_stays_finished(state.step(replies[0]).0, OutcomeView::NoChange { ip }, later);
}

/// With an empty change log the last entry is [`NO_ENTRY`], so a cycle that
/// found any other address turns to its first service: it sends the request
/// that tells the service of the address, or ends because that request is
/// no URL.
pub proof fn law_first_run_notifies(state: OrchestratorView, ip: Seq<char>)
    requires
        state.inv(),
        state.phase == (PhaseView::AwaitLog { ip }),
        ip != NO_ENTRY@,
    ensures
        last_entry_spec(Seq::empty()) == NO_ENTRY@,
        state.step(Ok(Seq::empty())) == state.turn_to(ip, 0),
        url_parses(state.targets[0].endpoint(ip)) ==> state.step(Ok(Seq::empty())).1
            == ActionView::Notify(request_to(state.targets[0], ip)),
        !url_parses(state.targets[0].endpoint(ip)) ==> state.step(Ok(Seq::empty())).1
            == ActionView::Finish(
            OutcomeView::Failed { stage: Stage::Notify, error: malformed_endpoint() },
        ),
{
}

/// A service is notified only in its turn: the first when the change log
/// was read and ends with another address than the one found, each other
/// when the one before it has answered.
pub proof fn law_notify_only_in_turn(state: OrchestratorView, reply: ReplyView)
    requires
        state.inv(),
    ensures
        state.step(reply).1 matches ActionView::Notify(request) ==> {
            ||| {
                &&& state.phase matches PhaseView::AwaitLog { ip }
                &&& reply matches Ok(contents)
                &&& last_entry_spec(contents) != ip
                &&& request == request_to(state.targets[0], ip)
            }
            ||| {
                &&& state.phase matches PhaseView::AwaitNotify { ip, index }
                &&& reply is Ok
                &&& index + 1 < state.targets.len()
                &&& request == request_to(state.targets[index as int + 1], ip)
            }
        },
{
}

/// The address is appended only when the last service has answered, and
/// then it is the address that the services were told of, at the place
/// where the log was read.
pub proof fn law_append_only_after_last_answer(state: OrchestratorView, reply: ReplyView)
    requires
        state.inv(),
    ensures
        state.step(reply).1 matches ActionView::AppendLog { path, line } ==> {
            &&& state.phase matches PhaseView::AwaitNotify { ip, index }
            &&& reply is Ok
            &&& index + 1 == state.targets.len()
            &&& path == state.log_path
            &&& line == entry_line_spec(ip)
        },
{
}

/// A cycle that finds the address which the cycle before it appended ends
/// without a change.
pub proof fn law_repeated_cycle_changes_nothing(
    state: OrchestratorView,
    ip: Seq<char>,
    contents: Seq<char>,
)
    requires
        state.phase == (PhaseView::AwaitLog { ip }),
        is_terminated(contents),
        is_single_line(ip),
    ensures
        state.step(Ok(contents + entry_line_spec(ip))) == state.finish(
            OutcomeView::NoChange { ip },
        ),
{
    law_append_adds_one_line(contents, ip);
}

/// Where a notification fails, the cycle ends with that failure: no later
/// service is tried and nothing is appended, whatever is reported afterwards.
pub proof fn law_failed_notification_aborts(
    state: OrchestratorView,
    ip: Seq<char>,
    index: nat,
    message: Seq<char>,
    later: Seq<ReplyView>,
)
    requires
        state.phase == (PhaseView::AwaitNotify { ip, index }),
    ensures
        forall|i: int|
            0 <= i <= later.len() ==> actions(state, seq![Err(message)] + later)[i]
                == ActionView::Finish(
                OutcomeView::Failed {
                    stage: Stage::Notify,
                    error: ErrorView::NetworkError(message),
                },
            ),
{
    let replies = seq![Err::<Seq<char>, Seq<char>>(message)] + later;
    let outcome = OutcomeView::Failed {
        stage: Stage::Notify,
        error: ErrorView::NetworkError(message),
    };
    assert(replies.drop_first() =~= later);
    law_finished_stays_finished(state.step(replies[0]).0, outcome, later);
}

/// Where the endpoint of the next service is no URL, the cycle ends with a
/// configuration error in place of the notification: no later service is
/// tried and nothing is appended.
pub proof fn law_malformed_endpoint_aborts(
    state: OrchestratorView,
    ip: Seq<char>,
    index: nat,
    later: Seq<ReplyView>,
)
    requires
        index < state.targets.len(),
    ensures
        !url_parses(state.targets[index as int].endpoint(ip)) ==> {
            &&& state.turn_to(ip, index).1 == ActionView::Finish(
                OutcomeView::Failed { stage: Stage::Notify, error: malformed_endpoint() },
            )
            &&& forall|i: int|
                0 <= i < later.len() ==> actions(state.turn_to(ip, index).0, later)[i]
                    == state.turn_to(ip, index).1
        },
{
    if !url_parses(state.targets[index as int].endpoint(ip)) {
        let outcome = OutcomeView::Failed { stage: Stage::Notify, error: malformed_endpoint() };
        law_finished_stays_finished(state.turn_to(ip, index).0, outcome, later);
    }
}

/// A cycle that waits for the answer of the service at `index`, and gets
/// good answers from it and from all that follow, notifies each of those in
/// turn, appends the address once, and ends.
proof fn lemma_notify_rest(
    state: OrchestratorView,
    ip: Seq<char>,
    index: nat,
    bodies: Seq<Seq<char>>,
    done: Seq<char>,
)
    requires
        state.phase == (PhaseView::AwaitNotify { ip, index }),
        index + bodies.len() == state.targets.len(),
        bodies.len() > 0,
        all_parse(state.targets, ip),
    ensures
        actions(state, answers(bodies) + seq![Ok(done)]) == notifications(state.targets, ip).skip(
            index as int + 1,
        ) + seq![
            ActionView::AppendLog { path: state.log_path, line: entry_line_spec(ip) },
            ActionView::Finish(OutcomeView::Updated { ip }),
        ],
    decreases bodies.len(),
{
    let replies = answers(bodies) + seq![Ok::<Seq<char>, Seq<char>>(done)];
    let next = state.step(replies[0]).0;
    let rest = replies.drop_first();
    assert(rest =~= answers(bodies.drop_first()) + seq![Ok::<Seq<char>, Seq<char>>(done)]);
    if index + 1 < state.targets.len() {
        lemma_notify_rest(next, ip, index + 1, bodies.drop_first(), done);
    } else {
        let (last, end) = next.step(rest[0]);
        assert(actions(last, rest.drop_first()) =~= Seq::<ActionView>::empty());
        assert(actions(next, rest) =~= seq![end]);
    }
}

/// A cycle in which the address is found, differs from the last entry of
/// the change log, and is accepted by every service reads the log, notifies
/// each service once and in order, appends the address once, at the place
/// where it read, and ends. Where every line of the log was ended and the
/// address holds no line feed, the log has then exactly one line more, and
/// that line is the address.
pub proof fn law_successful_cycle(
    targets: Seq<ServiceView>,
    log_path: Seq<char>,
    body: Seq<char>,
    contents: Seq<char>,
    bodies: Seq<Seq<char>>,
    done: Seq<char>,
)
    requires
        targets.len() > 0,
        trimmed(body).len() > 0,
        last_entry_spec(contents) != trimmed(body),
        bodies.len() == targets.len(),
    ensures
        start_spec(Ok(targets), log_path).1 == (ActionView::DiscoverIp { url: DISCOVERY_URL@ }),
        all_parse(targets, trimmed(body)) ==> actions(
            start_spec(Ok(targets), log_path).0,
            seq![Ok(body), Ok(contents)] + answers(bodies) + seq![Ok(done)],
        ) == seq![ActionView::ReadLog { path: log_path }] + notifications(targets, trimmed(body))
            + seq![
            ActionView::AppendLog { path: log_path, line: entry_line_spec(trimmed(body)) },
            ActionView::Finish(OutcomeView::Updated { ip: trimmed(body) }),
        ],
        is_terminated(contents) && !trimmed(body).contains('\n') ==> lines(
            contents + entry_line_spec(trimmed(body)),
        ) == lines(contents).push(trimmed(body)),
{
    let ip = trimmed(body);
    if is_terminated(contents) && !ip.contains('\n') {
        law_trimmed(body);
        law_append_adds_one_line(contents, ip);
    }
    if all_parse(targets, ip) {
        let begun = start_spec(Ok(targets), log_path).0;
        let replies = seq![Ok::<Seq<char>, Seq<char>>(body), Ok(contents)] + answers(bodies)
            + seq![Ok::<Seq<char>, Seq<char>>(done)];
        let reading = begun.step(replies[0]).0;
        let after_ip = replies.drop_first();
        let turned = reading.step(after_ip[0]).0;
        assert(after_ip.drop_first() =~= answers(bodies) + seq![Ok::<Seq<char>, Seq<char>>(done)]);
        lemma_notify_rest(turned, ip, 0, bodies, done);
        assert(actions(reading, after_ip) =~= notifications(targets, ip) + seq![
            ActionView::AppendLog { path: log_path, line: entry_line_spec(ip) },
            ActionView::Finish(OutcomeView::Updated { ip }),
        ]);
    }
}

} // verus!
