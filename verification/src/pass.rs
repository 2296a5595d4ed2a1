//! What holds of a pass as a whole, whatever the services answer.

use vstd::prelude::*;
use crate::detector::{
    collect_from, initial, list_action, step, turn_page, ActionView, DetectorView, EventView,
    PhaseView,
};
use crate::json::Json;
use crate::model::{InstanceView, InstancesView, SsmCommandDetailsView, SsmInvocationOutputView};
use crate::record::HostUpdateRecordView;
use crate::updater::{
    check_updates_param_view, eligible_id, eligible_ids, is_eligible, update_available_rule,
    verdict_for, verdict_of, ErrorView, SSM_CHECK_COMMAND_TIMEOUT_SECS,
};

verus! {

/// A pass together with the request that it made last and the number of commands that it
/// has handed out.
pub struct Progress {
    pub state: DetectorView,
    pub pending: ActionView,
    pub commands: nat,
}

/// The progress made of a state and a request.
pub open spec fn progress(made: (DetectorView, ActionView), commands: nat) -> Progress {
    Progress { state: made.0, pending: made.1, commands }
}

/// The progress after one more event.
pub open spec fn advance(from: Progress, event: EventView) -> Progress {
    let made = step(from.state, event);
    progress(
        made,
        if made.1 is SendCommand {
            from.commands + 1
        } else {
            from.commands
        },
    )
}

/// The progress after a sequence of events.
pub open spec fn advance_all(from: Progress, events: Seq<EventView>) -> Progress
    decreases events.len(),
{
    if events.len() == 0 {
        from
    } else {
        advance(advance_all(from, events.drop_last()), events.last())
    }
}

/// What the services answer while one page is dealt with, where the page is fetched, the
/// command is submitted and its completion is awaited without failure: the page, the
/// submitted command, and the answer of each eligible host, in order.
pub struct Exchange {
    pub page: InstancesView,
    pub details: SsmCommandDetailsView,
    pub answers: Seq<Result<SsmInvocationOutputView, Seq<char>>>,
}

/// The events of the answers of the hosts.
pub open spec fn answer_events(answers: Seq<Result<SsmInvocationOutputView, Seq<char>>>) -> Seq<
    EventView,
> {
    answers.map_values(|a: Result<SsmInvocationOutputView, Seq<char>>| EventView::Invocation(a))
}

/// The events of one exchange, in the order in which the pass asks for them.
pub open spec fn exchange_events(exchange: Exchange) -> Seq<EventView> {
    seq![
        EventView::Listed(Ok(exchange.page)),
        EventView::CommandSent(Ok(exchange.details)),
        EventView::CommandComplete(Ok(())),
    ] + answer_events(exchange.answers)
}

/// The events of a sequence of exchanges.
pub open spec fn pass_events(exchanges: Seq<Exchange>) -> Seq<EventView>
    decreases exchanges.len(),
{
    if exchanges.len() == 0 {
        Seq::empty()
    } else {
        pass_events(exchanges.drop_last()) + exchange_events(exchanges.last())
    }
}

/// Whether no answer fails the pass: each one that was fetched is left out or gives a
/// record. The answer at a place is that of the host at that place of `ids`.
pub open spec fn none_fatal(
    ids: Seq<Seq<char>>,
    answers: Seq<Result<SsmInvocationOutputView, Seq<char>>>,
) -> bool {
    forall|i: int|
        0 <= i < answers.len() ==> match #[trigger] answers[i] {
            Ok(output) => verdict_for(ids[i], output) is Ok,
            Err(_) => true,
        }
}

/// The records after the given answers, the answer at a place being that of the host at
/// that place of `ids`: each fetched answer that the rule accepts adds one, in order; an
/// answer that could not be fetched adds none.
pub open spec fn collected(
    records: Seq<HostUpdateRecordView>,
    ids: Seq<Seq<char>>,
    answers: Seq<Result<SsmInvocationOutputView, Seq<char>>>,
) -> Seq<HostUpdateRecordView>
    decreases answers.len(),
{
    if answers.len() == 0 {
        records
    } else {
        let before = collected(records, ids, answers.drop_last());
        match answers.last() {
            Ok(output) => match verdict_for(ids[answers.len() - 1], output) {
                Ok(Some(record)) => before.push(record),
                _ => before,
            },
            Err(_) => before,
        }
    }
}

/// The records of a sequence of exchanges: those of each page, in page order.
pub open spec fn pass_records(exchanges: Seq<Exchange>) -> Seq<HostUpdateRecordView>
    decreases exchanges.len(),
{
    if exchanges.len() == 0 {
        Seq::empty()
    } else {
        collected(
            pass_records(exchanges.drop_last()),
            eligible_ids(exchanges.last().page.bottlerocket_instances),
            exchanges.last().answers,
        )
    }
}

/// Whether the exchanges are those of one whole pass: there is at least one, every page
/// but the last comes with a cursor and the last with none, each page has an answer for
/// each of its eligible hosts, and no answer fails the pass.
pub open spec fn whole_pass(exchanges: Seq<Exchange>) -> bool {
    &&& exchanges.len() > 0
    &&& forall|i: int|
        0 <= i < exchanges.len() - 1 ==> (#[trigger] exchanges[i]).page.next_token is Some
    &&& exchanges.last().page.next_token is None
    &&& forall|i: int|
        0 <= i < exchanges.len() ==> {
            &&& (#[trigger] exchanges[i]).answers.len() == eligible_ids(
                exchanges[i].page.bottlerocket_instances,
            ).len()
            &&& none_fatal(
                eligible_ids(exchanges[i].page.bottlerocket_instances),
                exchanges[i].answers,
            )
        }
}

proof fn lemma_advance_append(from: Progress, first: Seq<EventView>, second: Seq<EventView>)
    ensures
        advance_all(from, first + second) == advance_all(advance_all(from, first), second),
    decreases second.len(),
{
    if second.len() == 0 {
        assert(first + second =~= first);
    } else {
        assert((first + second).drop_last() =~= first + second.drop_last());
        assert((first + second).last() == second.last());
        lemma_advance_append(from, first, second.drop_last());
    }
}

proof fn lemma_answers(
    cluster: Seq<char>,
    records: Seq<HostUpdateRecordView>,
    command_id: Seq<char>,
    ids: Seq<Seq<char>>,
    next_token: Option<Seq<char>>,
    answers: Seq<Result<SsmInvocationOutputView, Seq<char>>>,
    commands: nat,
    k: int,
)
    requires
        answers.len() == ids.len(),
        none_fatal(ids, answers),
        0 <= k <= answers.len(),
    ensures
        advance_all(
            progress(collect_from(cluster, records, command_id, ids, 0, next_token), commands),
            answer_events(answers.take(k)),
        ) == progress(
            collect_from(
                cluster,
                collected(records, ids, answers.take(k)),
                command_id,
                ids,
                k,
                next_token,
            ),
            commands,
        ),
    decreases k,
{
    let from = progress(collect_from(cluster, records, command_id, ids, 0, next_token), commands);
    if k == 0 {
        assert(answers.take(0) =~= Seq::empty());
        assert(answer_events(answers.take(0)) =~= Seq::empty());
    } else {
        lemma_answers(cluster, records, command_id, ids, next_token, answers, commands, k - 1);
        let events = answer_events(answers.take(k));
        assert(events.drop_last() =~= answer_events(answers.take(k - 1)));
        assert(events.last() == EventView::Invocation(answers[k - 1]));
        assert(answers.take(k).drop_last() =~= answers.take(k - 1));
        assert(answers.take(k).last() == answers[k - 1]);
        let before = collected(records, ids, answers.take(k - 1));
        let mid = progress(
            collect_from(cluster, before, command_id, ids, k - 1, next_token),
            commands,
        );
        assert(advance_all(from, events.drop_last()) == mid);
        assert(mid.state.phase == PhaseView::Collecting {
            command_id,
            ids,
            index: k - 1,
            next_token,
        });
        assert(advance_all(from, events) == advance(mid, events.last()));
    }
}

proof fn lemma_exchange(
    cluster: Seq<char>,
    records: Seq<HostUpdateRecordView>,
    pending: ActionView,
    commands: nat,
    exchange: Exchange,
)
    requires
        exchange.answers.len() == eligible_ids(exchange.page.bottlerocket_instances).len(),
        none_fatal(eligible_ids(exchange.page.bottlerocket_instances), exchange.answers),
    ensures
        advance_all(
            Progress {
                state: DetectorView { cluster, phase: PhaseView::Listing, records },
                pending,
                commands,
            },
            exchange_events(exchange),
        ) == progress(
            turn_page(
                cluster,
                collected(
                    records,
                    eligible_ids(exchange.page.bottlerocket_instances),
                    exchange.answers,
                ),
                exchange.page.next_token,
            ),
            commands + 1,
        ),
{
    let from = Progress {
        state: DetectorView { cluster, phase: PhaseView::Listing, records },
        pending,
        commands,
    };
    let ids = eligible_ids(exchange.page.bottlerocket_instances);
    let next_token = exchange.page.next_token;
    let command_id = exchange.details.command_id;
    let e0 = EventView::Listed(Ok(exchange.page));
    let e1 = EventView::CommandSent(Ok(exchange.details));
    let e2 = EventView::CommandComplete(Ok(()));
    let head = seq![e0, e1, e2];
    let p1 = advance(from, e0);
    let p2 = advance(p1, e1);
    let p3 = advance(p2, e2);
    assert(advance_all(from, head) == p3) by {
        assert(head.drop_last() =~= seq![e0, e1]);
        assert(seq![e0, e1].drop_last() =~= seq![e0]);
        assert(seq![e0].drop_last() =~= Seq::<EventView>::empty());
        assert(advance_all(from, Seq::<EventView>::empty()) == from);
        assert(seq![e0].last() == e0);
        assert(advance_all(from, seq![e0]) == p1);
        assert(advance_all(from, seq![e0, e1]) == p2);
    }
    assert(p3 == progress(
        collect_from(cluster, records, command_id, ids, 0, next_token),
        commands + 1,
    ));
    lemma_advance_append(from, head, answer_events(exchange.answers));
    lemma_answers(
        cluster,
        records,
        command_id,
        ids,
        next_token,
        exchange.answers,
        commands + 1,
        exchange.answers.len() as int,
    );
    assert(exchange.answers.take(exchange.answers.len() as int) =~= exchange.answers);
}

/// The cursor that the pass asks with after the given exchanges: none at the start, else
/// the one that the last page came with.
pub open spec fn cursor_after(exchanges: Seq<Exchange>) -> Option<Seq<char>> {
    if exchanges.len() == 0 {
        None
    } else {
        exchanges.last().page.next_token
    }
}

proof fn lemma_pages(cluster: Seq<char>, exchanges: Seq<Exchange>, n: int)
    requires
        whole_pass(exchanges),
        0 <= n < exchanges.len(),
    ensures
        advance_all(
            progress((initial(cluster), list_action(cluster, None)), 0),
            pass_events(exchanges.take(n)),
        ) == (Progress {
            state: DetectorView {
                cluster,
                phase: PhaseView::Listing,
                records: pass_records(exchanges.take(n)),
            },
            pending: list_action(cluster, cursor_after(exchanges.take(n))),
            commands: n as nat,
        }),
    decreases n,
{
    let start = progress((initial(cluster), list_action(cluster, None)), 0);
    if n == 0 {
        assert(exchanges.take(0) =~= Seq::empty());
    } else {
        lemma_pages(cluster, exchanges, n - 1);
        let prefix = exchanges.take(n);
        assert(prefix.drop_last() =~= exchanges.take(n - 1));
        assert(prefix.last() == exchanges[n - 1]);
        let exchange = exchanges[n - 1];
        lemma_advance_append(start, pass_events(exchanges.take(n - 1)), exchange_events(exchange));
        lemma_exchange(
            cluster,
            pass_records(exchanges.take(n - 1)),
            list_action(cluster, cursor_after(exchanges.take(n - 1))),
            (n - 1) as nat,
            exchange,
        );
    }
}

/// A pass over any number of pages ends after the page that comes without a cursor, having
/// handed out exactly one command per page.
///
/// Let the services answer a pass with one exchange per page, every page but the last with
/// a cursor, and let no answer fail the pass. Then, once the events of all the exchanges
/// are taken, the pass is finished, its last request hands out the records of the pages in
/// page order, and the number of commands that it asked to submit is the number of pages.
pub proof fn lemma_pass_ends_with_last_page(cluster: Seq<char>, exchanges: Seq<Exchange>)
    requires
        whole_pass(exchanges),
    ensures
        advance_all(
            progress((initial(cluster), list_action(cluster, None)), 0),
            pass_events(exchanges),
        ) == (Progress {
            state: DetectorView { cluster, phase: PhaseView::Finished, records: Seq::empty() },
            pending: ActionView::Finish { records: pass_records(exchanges) },
            commands: exchanges.len(),
        }),
{
    let start = progress((initial(cluster), list_action(cluster, None)), 0);
    let n = exchanges.len() - 1;
    lemma_pages(cluster, exchanges, n);
    assert(exchanges.drop_last() =~= exchanges.take(n));
    let exchange = exchanges.last();
    assert(exchange == exchanges[n]);
    lemma_advance_append(start, pass_events(exchanges.take(n)), exchange_events(exchange));
    lemma_exchange(
        cluster,
        pass_records(exchanges.take(n)),
        list_action(cluster, cursor_after(exchanges.take(n))),
        n as nat,
        exchange,
    );
}

/// Only eligible hosts are asked: each identifier in the list of a command is that of a
/// host of the page whose status is `ACTIVE` or `DRAINING`.
pub proof fn lemma_asked_hosts_are_eligible(hosts: Seq<InstanceView>, id: Seq<char>)
    requires
        eligible_ids(hosts).contains(id),
    ensures
        exists|h: InstanceView| #[trigger]
            hosts.contains(h) && is_eligible(h.status) && h.instance_id == id,
{
    let pick = |h: InstanceView| eligible_id(h);
    hosts.lemma_filter_map_contains(pick, id);
    let h = choose|h: InstanceView| #[trigger] hosts.contains(h) && pick(h) == Some(id);
    assert(hosts.contains(h) && is_eligible(h.status) && h.instance_id == id);
}

/// A host that is not eligible is never asked: where every host of the page that goes by
/// `id` has a status other than `ACTIVE` and `DRAINING`, the list of the page's command
/// does not hold `id`.
pub proof fn lemma_ineligible_host_is_not_asked(hosts: Seq<InstanceView>, id: Seq<char>)
    requires
        forall|h: InstanceView| #[trigger]
            hosts.contains(h) && h.instance_id == id ==> !is_eligible(h.status),
    ensures
        !eligible_ids(hosts).contains(id),
{
    if eligible_ids(hosts).contains(id) {
        lemma_asked_hosts_are_eligible(hosts, id);
    }
}

/// The list of a page's command is made of the page alone, and the only answers that the
/// pass asks for are those of the hosts on that list: a page is answered by a command for
/// its eligible hosts, and a request for an answer names a host of the list in hand.
pub proof fn lemma_requests_name_listed_hosts(state: DetectorView, event: EventView)
    ensures
        match step(state, event).1 {
            ActionView::SendCommand { instance_ids, params, timeout } => {
                &&& state.phase is Listing
                &&& event matches EventView::Listed(Ok(page))
                &&& instance_ids == eligible_ids(page.bottlerocket_instances)
                &&& params == check_updates_param_view()
                &&& timeout == SSM_CHECK_COMMAND_TIMEOUT_SECS
            },
            ActionView::GetCommandInvocation { instance_id, .. } => match step(
                state,
                event,
            ).0.phase {
                PhaseView::Collecting { ids, index, .. } => {
                    &&& 0 <= index < ids.len()
                    &&& instance_id == ids[index]
                    &&& match state.phase {
                        PhaseView::Waiting { ids: before, .. } => before == ids,
                        PhaseView::Collecting { ids: before, .. } => before == ids,
                        _ => false,
                    }
                },
                _ => false,
            },
            _ => true,
        },
{
}

/// Records come from answers alone: an event leaves the records as they are, empties them
/// where the pass ends, or, where it is the fetched answer of the host in turn and the
/// rule accepts it, adds the one record of that answer at the end. The record names the
/// host in turn.
pub proof fn lemma_records_come_from_answers(state: DetectorView, event: EventView)
    ensures
        ({
            let after = step(state, event).0;
            ||| after.records == state.records
            ||| (after.phase is Finished || after.phase is Failed) && after.records
                == Seq::<HostUpdateRecordView>::empty()
            ||| {
                &&& state.phase matches PhaseView::Collecting { ids, index, .. }
                &&& 0 <= index < ids.len()
                &&& event matches EventView::Invocation(Ok(output))
                &&& verdict_for(ids[index], output) matches Ok(Some(record))
                &&& record.instance_id == ids[index]
                &&& after.records == state.records.push(record)
            }
        }),
{
}

/// The records that a pass holds after a step: those that it handed out, where the step
/// ended it, else those of its state.
pub open spec fn held(made: (DetectorView, ActionView)) -> Seq<HostUpdateRecordView> {
    match made.1 {
        ActionView::Finish { records } => records,
        _ => made.0.records,
    }
}

/// The same answer of the same host gets the same verdict in every pass: the record that
/// it adds, that it adds none, or the failure that it ends the pass with, does not depend
/// on the pass that it reaches.
pub proof fn lemma_same_answer_same_verdict(
    first: DetectorView,
    second: DetectorView,
    output: SsmInvocationOutputView,
    instance_id: Seq<char>,
)
    requires
        first.phase matches PhaseView::Collecting { ids, index, .. } && 0 <= index < ids.len()
            && ids[index] == instance_id,
        second.phase matches PhaseView::Collecting { ids, index, .. } && 0 <= index < ids.len()
            && ids[index] == instance_id,
    ensures
        ({
            let event = EventView::Invocation(Ok(output));
            let one = step(first, event);
            let other = step(second, event);
            match verdict_for(instance_id, output) {
                Ok(Some(record)) => {
                    &&& held(one) == first.records.push(record)
                    &&& held(other) == second.records.push(record)
                    &&& !(one.1 is Fail) && !(other.1 is Fail)
                },
                Ok(None) => {
                    &&& held(one) == first.records
                    &&& held(other) == second.records
                    &&& !(one.1 is Fail) && !(other.1 is Fail)
                },
                Err(error) => {
                    &&& one.1 == (ActionView::Fail { error })
                    &&& other.1 == (ActionView::Fail { error })
                },
            }
        }),
{
}

/// A response code other than zero leaves the host out, whatever it printed: the rule
/// gives no record and no failure, for every document.
pub proof fn lemma_response_code_gate(output: SsmInvocationOutputView, document: Option<Json>)
    requires
        output.response_code != 0,
    ensures
        update_available_rule(output, document) == Ok::<
            Option<HostUpdateRecordView>,
            ErrorView,
        >(None),
        verdict_of(output) == Ok::<Option<HostUpdateRecordView>, ErrorView>(None),
        forall|instance_id: Seq<char>| #[trigger]
            verdict_for(instance_id, output) == Ok::<Option<HostUpdateRecordView>, ErrorView>(
                None,
            ),
{
}

/// An answer that could not be fetched leaves out that host only: the records stay as
/// they are, and the pass goes on with the next host of the list, or with the next page
/// where the host was the last.
pub proof fn lemma_failed_fetch_skips_one_host(state: DetectorView, message: Seq<char>)
    requires
        state.phase matches PhaseView::Collecting { ids, index, .. } && 0 <= index < ids.len(),
    ensures
        match state.phase {
            PhaseView::Collecting { command_id, ids, index, next_token } => {
                &&& step(state, EventView::Invocation(Err(message))) == collect_from(
                    state.cluster,
                    state.records,
                    command_id,
                    ids,
                    index + 1,
                    next_token,
                )
                &&& index + 1 < ids.len() ==> step(state, EventView::Invocation(Err(message))).1
                    == (ActionView::GetCommandInvocation { command_id, instance_id: ids[index + 1] })
            },
            _ => true,
        },
{
}

/// A host whose answer could not be fetched does not keep the next host out: of two
/// answers, the first not fetched and the second accepted by the rule, the second's record
/// is collected.
pub proof fn lemma_failed_fetch_keeps_later_records(
    records: Seq<HostUpdateRecordView>,
    ids: Seq<Seq<char>>,
    message: Seq<char>,
    output: SsmInvocationOutputView,
    record: HostUpdateRecordView,
)
    requires
        ids.len() == 2,
        verdict_for(ids[1], output) == Ok::<Option<HostUpdateRecordView>, ErrorView>(
            Some(record),
        ),
    ensures
        collected(records, ids, seq![Err(message), Ok(output)]) == records.push(record),
{
    let answers: Seq<Result<SsmInvocationOutputView, Seq<char>>> = seq![Err(message), Ok(output)];
    let first: Seq<Result<SsmInvocationOutputView, Seq<char>>> = seq![Err(message)];
    assert(answers.drop_last() =~= first);
    assert(first.drop_last() =~= Seq::empty());
    assert(collected(records, ids, first.drop_last()) == records);
    assert(collected(records, ids, first) == records);
}

/// A pass that is over stays over: whatever it is handed then, it asks for nothing more.
pub proof fn lemma_over_stays_over(state: DetectorView, event: EventView)
    requires
        state.phase is Finished || state.phase is Failed,
    ensures
        step(state, event).0.phase is Failed,
        step(state, event).1 == (ActionView::Fail { error: ErrorView::UnexpectedEvent }),
{
}

/// Whether the host in turn, if answers are being collected, is one of the list in hand.
pub open spec fn in_turn(state: DetectorView) -> bool {
    state.phase matches PhaseView::Collecting { ids, index, .. } ==> 0 <= index < ids.len()
}

/// While answers are collected, the host in turn is always one of the list in hand: a pass
/// starts so, and every event keeps it so.
pub proof fn lemma_host_in_turn_is_listed(cluster: Seq<char>, state: DetectorView, event: EventView)
    ensures
        in_turn(initial(cluster)),
        in_turn(step(state, event).0),
{
}

/// A host has a record exactly when its command ran to its end and its output is a report
/// of an available update that names the chosen update; the record then is the fresh one
/// of that host, with the chosen version.
pub proof fn lemma_record_iff_update_available(
    output: SsmInvocationOutputView,
    document: Option<Json>,
)
    ensures
        update_available_rule(output, document) matches Ok(Some(_)) <==> {
            &&& output.response_code == 0
            &&& document matches Some(json)
            &&& crate::update_info::update_info_of(json) matches Some(info)
            &&& info.update_state == "Available"@
            &&& info.chosen_update is Some
        },
        update_available_rule(output, document) matches Ok(Some(record)) ==> {
            &&& document matches Some(json)
            &&& crate::update_info::update_info_of(json) matches Some(info)
            &&& info.chosen_update matches Some(chosen)
            &&& record == crate::record::fresh_record(
                output.instance_id,
                output.status,
                chosen.version,
            )
        },
{
}

/// Each answer adds at most one record, none is taken away or changed, and each record
/// that is added names one of the hosts that were asked.
pub proof fn lemma_one_record_per_answer(
    records: Seq<HostUpdateRecordView>,
    ids: Seq<Seq<char>>,
    answers: Seq<Result<SsmInvocationOutputView, Seq<char>>>,
)
    requires
        answers.len() <= ids.len(),
    ensures
        records.len() <= collected(records, ids, answers).len() <= records.len() + answers.len(),
        collected(records, ids, answers).take(records.len() as int) == records,
        forall|i: int|
            records.len() <= i < collected(records, ids, answers).len() ==> ids.contains(
                (#[trigger] collected(records, ids, answers)[i]).instance_id,
            ),
    decreases answers.len(),
{
    if answers.len() > 0 {
        lemma_one_record_per_answer(records, ids, answers.drop_last());
        let before = collected(records, ids, answers.drop_last());
        let after = collected(records, ids, answers);
        assert(after.take(records.len() as int) =~= before.take(records.len() as int));
        assert forall|i: int| records.len() <= i < after.len() implies ids.contains(
            (#[trigger] after[i]).instance_id,
        ) by {
            if i < before.len() {
                assert(after[i] == before[i]);
            } else {
                assert(after[i].instance_id == ids[answers.len() - 1]);
            }
        }
    } else {
        assert(records.take(records.len() as int) =~= records);
    }
}

/// Every record of a pass names a host that was eligible on its page: it names a host of
/// the list of one of the pages' commands.
pub proof fn lemma_records_name_eligible_hosts(exchanges: Seq<Exchange>, i: int)
    requires
        forall|j: int|
            0 <= j < exchanges.len() ==> (#[trigger] exchanges[j]).answers.len() <= eligible_ids(
                exchanges[j].page.bottlerocket_instances,
            ).len(),
        0 <= i < pass_records(exchanges).len(),
    ensures
        exists|j: int|
            0 <= j < exchanges.len() && eligible_ids(
                (#[trigger] exchanges[j]).page.bottlerocket_instances,
            ).contains(pass_records(exchanges)[i].instance_id),
    decreases exchanges.len(),
{
    let earlier = exchanges.drop_last();
    let last = exchanges.last();
    let ids = eligible_ids(last.page.bottlerocket_instances);
    assert(last == exchanges[exchanges.len() - 1]);
    lemma_one_record_per_answer(pass_records(earlier), ids, last.answers);
    if i < pass_records(earlier).len() {
        assert(pass_records(exchanges).take(pass_records(earlier).len() as int)[i]
            == pass_records(exchanges)[i]);
        assert forall|j: int| 0 <= j < earlier.len() implies (#[trigger] earlier[j]).answers.len()
            <= eligible_ids(earlier[j].page.bottlerocket_instances).len() by {
            assert(earlier[j] == exchanges[j]);
        }
        lemma_records_name_eligible_hosts(earlier, i);
        let j = choose|j: int|
            0 <= j < earlier.len() && eligible_ids(
                (#[trigger] earlier[j]).page.bottlerocket_instances,
            ).contains(pass_records(earlier)[i].instance_id);
        assert(earlier[j] == exchanges[j]);
    } else {
        assert(ids.contains(pass_records(exchanges)[i].instance_id));
    }
}

/// No record is of a host that was not eligible: every record of a pass names a host of
/// one of its pages whose status there is `ACTIVE` or `DRAINING`.
pub proof fn lemma_records_are_of_eligible_hosts(exchanges: Seq<Exchange>, i: int)
    requires
        forall|j: int|
            0 <= j < exchanges.len() ==> (#[trigger] exchanges[j]).answers.len() <= eligible_ids(
                exchanges[j].page.bottlerocket_instances,
            ).len(),
        0 <= i < pass_records(exchanges).len(),
    ensures
        exists|j: int, h: InstanceView|
            0 <= j < exchanges.len() && (#[trigger] exchanges[j].page.bottlerocket_instances.contains(
                h,
            )) && is_eligible(h.status) && h.instance_id == pass_records(exchanges)[i].instance_id,
{
    lemma_records_name_eligible_hosts(exchanges, i);
    let id = pass_records(exchanges)[i].instance_id;
    let j = choose|j: int|
        0 <= j < exchanges.len() && eligible_ids(
            (#[trigger] exchanges[j]).page.bottlerocket_instances,
        ).contains(id);
    let hosts = exchanges[j].page.bottlerocket_instances;
    lemma_asked_hosts_are_eligible(hosts, id);
    let h = choose|h: InstanceView| #[trigger]
        hosts.contains(h) && is_eligible(h.status) && h.instance_id == id;
    assert(exchanges[j].page.bottlerocket_instances.contains(h));
}

/// A pass hands out records only at its end, and none where it fails: a request that ends
/// the pass leaves it over with nothing collected, and no other request does.
pub proof fn lemma_end_of_pass(state: DetectorView, event: EventView)
    ensures
        ({
            let after = step(state, event);
            &&& after.1 is Finish <==> after.0.phase is Finished
            &&& after.1 is Fail <==> after.0.phase is Failed
            &&& after.0.phase is Finished || after.0.phase is Failed ==> after.0.records
                == Seq::<HostUpdateRecordView>::empty()
        }),
{
}

} // verus!
