//! What a pass asks for and arrives at over a run of events, and what
//! holds of every such run.

use vstd::prelude::*;
use crate::cloudflare::DnsRecordView;
use crate::cloudflare::StoreError;
use crate::config::DnsRecordConfigView;
use crate::reconciler::first_usable;
use crate::reconciler::lemma_first_usable;
use crate::reconciler::lemma_start_wf;
use crate::reconciler::lemma_wf_preserved;
use crate::reconciler::lookup_failure;
use crate::reconciler::usable;
use crate::reconciler::ActionView;
use crate::reconciler::EventView;
use crate::reconciler::FailureReason;
use crate::reconciler::Pass;
use crate::reconciler::PhaseView;
use crate::reconciler::ReconciliationOutcome;

verus! {

/// The pass after `events`, taken in one after the other.
pub open spec fn run(pass: Pass, events: Seq<EventView>) -> Pass
    decreases events.len(),
{
    if events.len() == 0 {
        pass
    } else {
        run(pass.next(events[0]), events.drop_first())
    }
}

/// The requests that the pass names in answer to `events`, one for each
/// event, in their order.
pub open spec fn trace(pass: Pass, events: Seq<EventView>) -> Seq<ActionView>
    decreases events.len(),
{
    if events.len() == 0 {
        Seq::empty()
    } else {
        seq![pass.next(events[0]).pending()] + trace(pass.next(events[0]), events.drop_first())
    }
}

/// How many of `requests` create a record.
pub open spec fn creations(requests: Seq<ActionView>) -> nat
    decreases requests.len(),
{
    if requests.len() == 0 {
        0
    } else {
        (if requests[0] is CreateRecord {
            1nat
        } else {
            0nat
        }) + creations(requests.drop_first())
    }
}

/// How many of `requests` update a record.
pub open spec fn updates(requests: Seq<ActionView>) -> nat
    decreases requests.len(),
{
    if requests.len() == 0 {
        0
    } else {
        (if requests[0] is UpdateRecord {
            1nat
        } else {
            0nat
        }) + updates(requests.drop_first())
    }
}

/// A run of a first event and more is the run of the rest from the pass
/// after the first.
pub proof fn lemma_run_cons(pass: Pass, first: EventView, rest: Seq<EventView>)
    ensures
        run(pass, seq![first] + rest) == run(pass.next(first), rest),
        trace(pass, seq![first] + rest) == seq![pass.next(first).pending()] + trace(
            pass.next(first),
            rest,
        ),
{
    let events = seq![first] + rest;
    assert(events[0] == first);
    assert(events.drop_first() =~= rest);
}

/// Counting goes request by request.
pub proof fn lemma_count_cons(first: ActionView, rest: Seq<ActionView>)
    ensures
        creations(seq![first] + rest) == creations(rest) + if first is CreateRecord {
            1nat
        } else {
            0nat
        },
        updates(seq![first] + rest) == updates(rest) + if first is UpdateRecord {
            1nat
        } else {
            0nat
        },
{
    let requests = seq![first] + rest;
    assert(requests[0] == first);
    assert(requests.drop_first() =~= rest);
}

/// A run of three events, step by step.
pub proof fn lemma_run_three(pass: Pass, e1: EventView, e2: EventView, e3: EventView)
    ensures
        run(pass, seq![e1, e2, e3]) == pass.next(e1).next(e2).next(e3),
        trace(pass, seq![e1, e2, e3]) == seq![
            pass.next(e1).pending(),
            pass.next(e1).next(e2).pending(),
            pass.next(e1).next(e2).next(e3).pending(),
        ],
{
    let s1 = pass.next(e1);
    let s2 = s1.next(e2);
    let s3 = s2.next(e3);
    assert(seq![e1, e2, e3] =~= seq![e1] + seq![e2, e3]);
    assert(seq![e2, e3] =~= seq![e2] + seq![e3]);
    assert(seq![e3] =~= seq![e3] + Seq::<EventView>::empty());
    lemma_run_cons(pass, e1, seq![e2, e3]);
    lemma_run_cons(s1, e2, seq![e3]);
    lemma_run_cons(s2, e3, Seq::empty());
    assert(trace(pass, seq![e1, e2, e3]) =~= seq![s1.pending(), s2.pending(), s3.pending()]);
}

/// A run of four events, step by step.
pub proof fn lemma_run_four(pass: Pass, e1: EventView, e2: EventView, e3: EventView, e4: EventView)
    ensures
        run(pass, seq![e1, e2, e3, e4]) == pass.next(e1).next(e2).next(e3).next(e4),
        trace(pass, seq![e1, e2, e3, e4]) == seq![
            pass.next(e1).pending(),
            pass.next(e1).next(e2).pending(),
            pass.next(e1).next(e2).next(e3).pending(),
            pass.next(e1).next(e2).next(e3).next(e4).pending(),
        ],
{
    let s1 = pass.next(e1);
    assert(seq![e1, e2, e3, e4] =~= seq![e1] + seq![e2, e3, e4]);
    lemma_run_cons(pass, e1, seq![e2, e3, e4]);
    lemma_run_three(s1, e2, e3, e4);
    assert(trace(pass, seq![e1, e2, e3, e4]) =~= seq![
        s1.pending(),
        s1.next(e2).pending(),
        s1.next(e2).next(e3).pending(),
        s1.next(e2).next(e3).next(e4).pending(),
    ]);
}

/// The counts of three requests.
pub proof fn lemma_count_three(a: ActionView, b: ActionView, c: ActionView)
    ensures
        creations(seq![a, b, c]) == (if a is CreateRecord { 1nat } else { 0nat }) + (if b is CreateRecord { 1nat } else { 0nat }) + (if c is CreateRecord { 1nat } else { 0nat }),
        updates(seq![a, b, c]) == (if a is UpdateRecord { 1nat } else { 0nat }) + (if b is UpdateRecord { 1nat } else { 0nat }) + (if c is UpdateRecord { 1nat } else { 0nat }),
{
    assert(seq![a, b, c] =~= seq![a] + seq![b, c]);
    assert(seq![b, c] =~= seq![b] + seq![c]);
    assert(seq![c] =~= seq![c] + Seq::<ActionView>::empty());
    lemma_count_cons(a, seq![b, c]);
    lemma_count_cons(b, seq![c]);
    lemma_count_cons(c, Seq::empty());
}

/// The counts of four requests.
pub proof fn lemma_count_four(a: ActionView, b: ActionView, c: ActionView, d: ActionView)
    ensures
        creations(seq![a, b, c, d]) == creations(seq![b, c, d]) + if a is CreateRecord { 1nat } else { 0nat },
        updates(seq![a, b, c, d]) == updates(seq![b, c, d]) + if a is UpdateRecord { 1nat } else { 0nat },
{
    assert(seq![a, b, c, d] =~= seq![a] + seq![b, c, d]);
    lemma_count_cons(a, seq![b, c, d]);
}

/// Once a record is through, the pass waits for an address or is over: it
/// never goes on with a request that changes anything.
pub proof fn lemma_after_record(pass: Pass, outcome: ReconciliationOutcome)
    requires
        pass.wf(),
        !pass.done(),
    ensures
        !pass.finish_record(outcome).pending().is_mutation(),
        !pass.fail_rest(FailureReason::AuthError).pending().is_mutation(),
        pass.finish_record(outcome).outcomes.len() > pass.cursor,
        pass.finish_record(outcome).outcomes[pass.cursor] == outcome,
{
    lemma_first_usable(pass.records, pass.cursor + 1);
}

/// A record that already holds the observed address is left alone, unless
/// an update is forced: the pass looks the record up, fetches it, and asks
/// for nothing that changes it. Its outcome is `Unchanged`.
pub proof fn lemma_unchanged_when_equal(
    pass: Pass,
    observed: Seq<char>,
    record_id: Seq<char>,
    remote: DnsRecordView,
)
    requires
        pass.wf(),
        pass.phase is Address,
        !pass.force,
        remote.content == observed,
    ensures
        ({
            let events = seq![
                EventView::Address(Ok(observed)),
                EventView::RecordId(Ok(record_id)),
                EventView::Record(Ok(remote)),
            ];
            &&& trace(pass, events)[0] == (ActionView::FindRecord {
                zone_id: pass.zone_id->0,
                name: pass.record().name,
            })
            &&& trace(pass, events)[1] == (ActionView::GetRecord {
                zone_id: pass.zone_id->0,
                record_id,
            })
            &&& !trace(pass, events)[2].is_mutation()
            &&& creations(trace(pass, events)) == 0
            &&& updates(trace(pass, events)) == 0
            &&& run(pass, events).outcomes[pass.cursor] == ReconciliationOutcome::Unchanged
            &&& run(pass, events).outcomes.subrange(0, pass.cursor) == pass.outcomes
        }),
{
    let e1 = EventView::Address(Ok(observed));
    let e2 = EventView::RecordId(Ok(record_id));
    let e3 = EventView::Record(Ok(remote));
    let s1 = pass.next(e1);
    let s2 = s1.next(e2);
    let s3 = s2.next(e3);
    lemma_run_three(pass, e1, e2, e3);
    lemma_count_three(s1.pending(), s2.pending(), s3.pending());
    lemma_after_record(s2, ReconciliationOutcome::Unchanged);
    assert(s3.outcomes.subrange(0, pass.cursor) =~= pass.outcomes);
}

/// A record that holds another address than the observed one is updated:
/// the pass looks the record up, fetches it, and asks for exactly one
/// update, of that record, to the observed address with the configured
/// type, name, time to live and proxy flag. It asks for no creation. Where
/// the update goes through, the outcome is `Updated`.
pub proof fn lemma_updated_when_different(
    pass: Pass,
    observed: Seq<char>,
    record_id: Seq<char>,
    remote: DnsRecordView,
    updated: DnsRecordView,
)
    requires
        pass.wf(),
        pass.phase is Address,
        remote.content != observed,
    ensures
        ({
            let events = seq![
                EventView::Address(Ok(observed)),
                EventView::RecordId(Ok(record_id)),
                EventView::Record(Ok(remote)),
                EventView::Updated(Ok(updated)),
            ];
            &&& trace(pass, events)[0] == (ActionView::FindRecord {
                zone_id: pass.zone_id->0,
                name: pass.record().name,
            })
            &&& trace(pass, events)[1] == (ActionView::GetRecord {
                zone_id: pass.zone_id->0,
                record_id,
            })
            &&& trace(pass, events)[2] == (ActionView::UpdateRecord {
                zone_id: pass.zone_id->0,
                record_id,
                body: pass.body(observed),
            })
            &&& updates(trace(pass, events)) == 1
            &&& creations(trace(pass, events)) == 0
            &&& run(pass, events).outcomes[pass.cursor] == ReconciliationOutcome::Updated
            &&& run(pass, events).outcomes.subrange(0, pass.cursor) == pass.outcomes
        }),
{
    let e1 = EventView::Address(Ok(observed));
    let e2 = EventView::RecordId(Ok(record_id));
    let e3 = EventView::Record(Ok(remote));
    let e4 = EventView::Updated(Ok(updated));
    let s1 = pass.next(e1);
    let s2 = s1.next(e2);
    let s3 = s2.next(e3);
    let s4 = s3.next(e4);
    lemma_run_four(pass, e1, e2, e3, e4);
    lemma_count_four(s1.pending(), s2.pending(), s3.pending(), s4.pending());
    lemma_count_three(s2.pending(), s3.pending(), s4.pending());
    lemma_after_record(s3, ReconciliationOutcome::Updated);
    assert(s4.outcomes.subrange(0, pass.cursor) =~= pass.outcomes);
}

/// With an update forced, a record that exists is updated whatever it
/// holds: after the lookup and the fetch the pass asks for the update to
/// the observed address, and for exactly that one.
pub proof fn lemma_forced_update(
    pass: Pass,
    observed: Seq<char>,
    record_id: Seq<char>,
    remote: DnsRecordView,
)
    requires
        pass.wf(),
        pass.phase is Address,
        pass.force,
    ensures
        ({
            let events = seq![
                EventView::Address(Ok(observed)),
                EventView::RecordId(Ok(record_id)),
                EventView::Record(Ok(remote)),
            ];
            &&& trace(pass, events)[2] == (ActionView::UpdateRecord {
                zone_id: pass.zone_id->0,
                record_id,
                body: pass.body(observed),
            })
            &&& updates(trace(pass, events)) == 1
            &&& creations(trace(pass, events)) == 0
        }),
{
    let e1 = EventView::Address(Ok(observed));
    let e2 = EventView::RecordId(Ok(record_id));
    let e3 = EventView::Record(Ok(remote));
    let s1 = pass.next(e1);
    let s2 = s1.next(e2);
    let s3 = s2.next(e3);
    lemma_run_three(pass, e1, e2, e3);
    lemma_count_three(s1.pending(), s2.pending(), s3.pending());
}

/// The outcome of a creation that came back as `result`.
pub open spec fn creation_outcome(result: Result<DnsRecordView, StoreError>) -> ReconciliationOutcome {
    match result {
        Ok(_) => ReconciliationOutcome::Created,
        Err(StoreError::AuthError) => ReconciliationOutcome::Failed(FailureReason::AuthError),
        Err(_) => ReconciliationOutcome::Failed(FailureReason::CreateError),
    }
}

/// A record that the lookup does not find is created: the pass asks for
/// exactly one creation, with the observed address and the configured type,
/// name, time to live and proxy flag, and for no update, however the
/// creation ends.
pub proof fn lemma_created_when_absent(
    pass: Pass,
    observed: Seq<char>,
    result: Result<DnsRecordView, StoreError>,
)
    requires
        pass.wf(),
        pass.phase is Address,
    ensures
        ({
            let events = seq![
                EventView::Address(Ok(observed)),
                EventView::RecordId(Err(StoreError::NotFound)),
                EventView::Created(result),
            ];
            &&& trace(pass, events)[0] == (ActionView::FindRecord {
                zone_id: pass.zone_id->0,
                name: pass.record().name,
            })
            &&& trace(pass, events)[1] == (ActionView::CreateRecord {
                zone_id: pass.zone_id->0,
                body: pass.body(observed),
            })
            &&& creations(trace(pass, events)) == 1
            &&& updates(trace(pass, events)) == 0
            &&& run(pass, events).outcomes[pass.cursor] == creation_outcome(result)
            &&& run(pass, events).outcomes.subrange(0, pass.cursor) == pass.outcomes
        }),
{
    let e1 = EventView::Address(Ok(observed));
    let e2 = EventView::RecordId(Err(StoreError::NotFound));
    let e3 = EventView::Created(result);
    let s1 = pass.next(e1);
    let s2 = s1.next(e2);
    let s3 = s2.next(e3);
    lemma_run_three(pass, e1, e2, e3);
    lemma_count_three(s1.pending(), s2.pending(), s3.pending());
    lemma_after_record(s2, creation_outcome(result));
    assert(s3.outcomes.subrange(0, pass.cursor) =~= pass.outcomes);
}

/// A record that was found but is gone when it is fetched is created all
/// the same: exactly one creation, no update.
pub proof fn lemma_created_when_vanished(
    pass: Pass,
    observed: Seq<char>,
    record_id: Seq<char>,
    result: Result<DnsRecordView, StoreError>,
)
    requires
        pass.wf(),
        pass.phase is Address,
    ensures
        ({
            let events = seq![
                EventView::Address(Ok(observed)),
                EventView::RecordId(Ok(record_id)),
                EventView::Record(Err(StoreError::NotFound)),
                EventView::Created(result),
            ];
            &&& trace(pass, events)[2] == (ActionView::CreateRecord {
                zone_id: pass.zone_id->0,
                body: pass.body(observed),
            })
            &&& creations(trace(pass, events)) == 1
            &&& updates(trace(pass, events)) == 0
            &&& run(pass, events).outcomes[pass.cursor] == creation_outcome(result)
        }),
{
    let e1 = EventView::Address(Ok(observed));
    let e2 = EventView::RecordId(Ok(record_id));
    let e3 = EventView::Record(Err(StoreError::NotFound));
    let e4 = EventView::Created(result);
    let s1 = pass.next(e1);
    let s2 = s1.next(e2);
    let s3 = s2.next(e3);
    let s4 = s3.next(e4);
    lemma_run_four(pass, e1, e2, e3, e4);
    lemma_count_four(s1.pending(), s2.pending(), s3.pending(), s4.pending());
    lemma_count_three(s2.pending(), s3.pending(), s4.pending());
    lemma_after_record(s3, creation_outcome(result));
}
/// Whether two passes are at the same point of the same work: they differ
/// at most in the outcomes they hold.
pub open spec fn same_course(p: Pass, q: Pass) -> bool {
    &&& p.zone_name == q.zone_name
    &&& p.records == q.records
    &&& p.force == q.force
    &&& p.zone_id == q.zone_id
    &&& p.cursor == q.cursor
    &&& p.phase == q.phase
}

/// The failure, if any, that `event` reports of a request to the record
/// store.
pub open spec fn store_failure(event: EventView) -> Option<StoreError> {
    match event {
        EventView::Zone(Err(e)) => Some(e),
        EventView::RecordId(Err(e)) => Some(e),
        EventView::Record(Err(e)) => Some(e),
        EventView::Created(Err(e)) => Some(e),
        EventView::Updated(Err(e)) => Some(e),
        _ => None,
    }
}

/// The failure recorded for a record when a request for it fails on the
/// way, by what the pass was waiting for.
pub open spec fn transport_failure(phase: PhaseView) -> FailureReason {
    match phase {
        PhaseView::Create { .. } => FailureReason::CreateError,
        PhaseView::Update { .. } => FailureReason::UpdateError,
        _ => FailureReason::TransportError,
    }
}

/// The outcomes a pass holds do not steer it: two passes at the same point
/// of the same work name the same request after the same event, and add
/// the same outcomes.
pub proof fn lemma_same_course_step(p: Pass, q: Pass, event: EventView)
    requires
        p.wf(),
        q.wf(),
        same_course(p, q),
    ensures
        same_course(p.next(event), q.next(event)),
        p.next(event).pending() == q.next(event).pending(),
        p.next(event).outcomes.subrange(p.cursor, p.next(event).cursor) == q.next(
            event,
        ).outcomes.subrange(p.cursor, p.next(event).cursor),
{
    lemma_wf_preserved(p, event);
    lemma_wf_preserved(q, event);
    assert(p.next(event).outcomes.subrange(p.cursor, p.next(event).cursor) =~= q.next(
        event,
    ).outcomes.subrange(p.cursor, p.next(event).cursor));
}

/// Over any run, two passes at the same point of the same work name the
/// same requests, end at the same point, and give every record from that
/// point on the same outcome.
pub proof fn lemma_same_course_run(p: Pass, q: Pass, events: Seq<EventView>)
    requires
        p.wf(),
        q.wf(),
        same_course(p, q),
    ensures
        run(p, events).wf(),
        run(q, events).wf(),
        same_course(run(p, events), run(q, events)),
        trace(p, events) == trace(q, events),
        run(p, events).cursor >= p.cursor,
        run(p, events).outcomes.subrange(0, p.cursor) == p.outcomes,
        run(q, events).outcomes.subrange(0, q.cursor) == q.outcomes,
        forall|i: int|
            p.cursor <= i < run(p, events).cursor ==> run(p, events).outcomes[i] == run(
                q,
                events,
            ).outcomes[i],
    decreases events.len(),
{
    if events.len() == 0 {
        assert(p.outcomes.subrange(0, p.cursor) =~= p.outcomes);
        assert(q.outcomes.subrange(0, q.cursor) =~= q.outcomes);
    } else {
        let s1 = p.next(events[0]);
        let t1 = q.next(events[0]);
        let rest = events.drop_first();
        lemma_same_course_step(p, q, events[0]);
        lemma_wf_preserved(p, events[0]);
        lemma_wf_preserved(q, events[0]);
        lemma_same_course_run(s1, t1, rest);
        let pe = run(p, events);
        let qe = run(q, events);
        assert(pe.outcomes.subrange(0, p.cursor) =~= p.outcomes) by {
            assert forall|i: int| 0 <= i < p.cursor implies pe.outcomes[i] == p.outcomes[i] by {
                assert(pe.outcomes.subrange(0, s1.cursor)[i] == s1.outcomes[i]);
                assert(s1.outcomes.subrange(0, p.cursor)[i] == p.outcomes[i]);
            }
        }
        assert(qe.outcomes.subrange(0, q.cursor) =~= q.outcomes) by {
            assert forall|i: int| 0 <= i < q.cursor implies qe.outcomes[i] == q.outcomes[i] by {
                assert(qe.outcomes.subrange(0, t1.cursor)[i] == t1.outcomes[i]);
                assert(t1.outcomes.subrange(0, q.cursor)[i] == q.outcomes[i]);
            }
        }
        assert forall|i: int| p.cursor <= i < pe.cursor implies pe.outcomes[i] == qe.outcomes[i] by {
            if i < s1.cursor {
                assert(pe.outcomes.subrange(0, s1.cursor)[i] == s1.outcomes[i]);
                assert(qe.outcomes.subrange(0, t1.cursor)[i] == t1.outcomes[i]);
                assert(s1.outcomes.subrange(p.cursor, s1.cursor)[i - p.cursor] == s1.outcomes[i]);
                assert(t1.outcomes.subrange(p.cursor, s1.cursor)[i - p.cursor] == t1.outcomes[i]);
            }
        }
    }
}

/// A request for one record that fails on the way fails that record and no
/// other. The record gets exactly one outcome, a failure. The pass goes on
/// with the next usable record, and from there names the same requests and
/// gives every later record the same outcome as it would have, had the
/// record come through with any outcome `instead` that a usable record can
/// have.
pub proof fn lemma_transport_failure_is_isolated(
    pass: Pass,
    failure: EventView,
    instead: ReconciliationOutcome,
    later: Seq<EventView>,
)
    requires
        pass.wf(),
        !(pass.phase is Zone),
        pass.answers(failure),
        store_failure(failure) == Some(StoreError::TransportError),
        instead != ReconciliationOutcome::Failed(FailureReason::ConfigError),
    ensures
        ({
            let failed = pass.next(failure);
            let end = run(failed, later);
            let other = run(pass.finish_record(instead), later);
            &&& failed.cursor == first_usable(pass.records, pass.cursor + 1)
            &&& !failed.done() ==> failed.pending() is ResolveAddress
            &&& trace(failed, later) == trace(pass.finish_record(instead), later)
            &&& end.cursor == other.cursor
            &&& end.outcomes.len() == end.cursor
            &&& end.outcomes.subrange(0, pass.cursor) == pass.outcomes
            &&& end.outcomes[pass.cursor] == ReconciliationOutcome::Failed(
                transport_failure(pass.phase),
            )
            &&& forall|i: int|
                pass.cursor < i < end.cursor ==> end.outcomes[i] == other.outcomes[i]
        }),
{
    let reason = transport_failure(pass.phase);
    let failed = pass.next(failure);
    let came_through = pass.finish_record(instead);
    assert(failed == pass.finish_record(ReconciliationOutcome::Failed(reason)));
    lemma_first_usable(pass.records, pass.cursor + 1);
    lemma_wf_preserved(pass, failure);
    lemma_finish_record_wf(pass, instead);
    lemma_same_course_run(failed, came_through, later);
    let end = run(failed, later);
    let other = run(came_through, later);
    assert(end.outcomes.subrange(0, pass.cursor) =~= pass.outcomes) by {
        assert forall|i: int| 0 <= i < pass.cursor implies end.outcomes[i] == pass.outcomes[i] by {
            assert(end.outcomes.subrange(0, failed.cursor)[i] == failed.outcomes[i]);
        }
    }
    assert(end.outcomes.subrange(0, failed.cursor)[pass.cursor] == failed.outcomes[pass.cursor]);
    assert forall|i: int| pass.cursor < i < end.cursor implies end.outcomes[i]
        == other.outcomes[i] by {
        if i < failed.cursor {
            assert(end.outcomes.subrange(0, failed.cursor)[i] == failed.outcomes[i]);
            assert(other.outcomes.subrange(0, came_through.cursor)[i] == came_through.outcomes[i]);
        }
    }
}

/// Giving the record in progress an outcome keeps a pass well formed,
/// unless the outcome claims a configuration error that is not there.
pub proof fn lemma_finish_record_wf(pass: Pass, outcome: ReconciliationOutcome)
    requires
        pass.wf(),
        !pass.done(),
    ensures
        outcome != ReconciliationOutcome::Failed(FailureReason::ConfigError) ==> pass.finish_record(
            outcome,
        ).wf(),
        pass.finish_record(outcome).cursor == first_usable(pass.records, pass.cursor + 1),
{
    lemma_first_usable(pass.records, pass.cursor + 1);
}

/// Rejected credentials end the pass at once, whichever request they come
/// back on: the pass is over and asks for nothing more, every usable record
/// that had no outcome yet has failed for the rejection, and the outcomes
/// that stood before stand.
pub proof fn lemma_rejected_credentials_end_pass(pass: Pass, rejection: EventView)
    requires
        pass.wf(),
        pass.answers(rejection),
        store_failure(rejection) == Some(StoreError::AuthError),
    ensures
        ({
            let end = pass.next(rejection);
            &&& end.done()
            &&& end.pending() is Finish
            &&& !end.succeeded()
            &&& end.outcomes.len() == pass.records.len()
            &&& end.outcomes.subrange(0, pass.cursor) == pass.outcomes
            &&& forall|i: int|
                pass.cursor <= i < pass.records.len() ==> end.outcomes[i] == if usable(
                    pass.records[i],
                ) {
                    ReconciliationOutcome::Failed(FailureReason::AuthError)
                } else {
                    ReconciliationOutcome::Failed(FailureReason::ConfigError)
                }
        }),
{
    let end = pass.next(rejection);
    assert(end == pass.fail_rest(FailureReason::AuthError));
    assert(end.outcomes.subrange(0, pass.cursor) =~= pass.outcomes);
    assert(end.outcomes[pass.cursor] is Failed);
}

/// Credentials rejected on the zone lookup fail the whole pass before any
/// record is touched: the zone lookup is the first and only request, and
/// every record fails for the rejection (an unusable record fails as
/// unusable, as it does in every pass).
pub proof fn lemma_rejected_zone_lookup(
    zone_name: Seq<char>,
    records: Seq<DnsRecordConfigView>,
    force: bool,
    later: Seq<EventView>,
)
    requires
        exists|i: int| 0 <= i < records.len() && usable(records[i]),
    ensures
        ({
            let start = Pass::start(zone_name, records, force);
            let rejection = EventView::Zone(Err(StoreError::AuthError));
            let end = run(start, seq![rejection] + later);
            &&& start.pending() == ActionView::FindZone { name: zone_name }
            &&& forall|k: int|
                0 <= k < trace(start, seq![rejection] + later).len() ==> trace(
                    start,
                    seq![rejection] + later,
                )[k] is Finish
            &&& end.done()
            &&& !end.succeeded()
            &&& end.outcomes.len() == records.len()
            &&& forall|i: int|
                0 <= i < records.len() ==> end.outcomes[i] == if usable(records[i]) {
                    ReconciliationOutcome::Failed(FailureReason::AuthError)
                } else {
                    ReconciliationOutcome::Failed(FailureReason::ConfigError)
                }
        }),
{
    let start = Pass::start(zone_name, records, force);
    let rejection = EventView::Zone(Err(StoreError::AuthError));
    lemma_first_usable(records, 0);
    let witness = choose|i: int| 0 <= i < records.len() && usable(records[i]);
    assert(first_usable(records, 0) <= witness);
    lemma_start_wf(zone_name, records, force);
    let stopped = start.next(rejection);
    lemma_rejected_credentials_end_pass(start, rejection);
    lemma_run_cons(start, rejection, later);
    lemma_done_is_final(stopped, later);
    assert forall|i: int| 0 <= i < records.len() implies stopped.outcomes[i] == if usable(
        records[i],
    ) {
        ReconciliationOutcome::Failed(FailureReason::AuthError)
    } else {
        ReconciliationOutcome::Failed(FailureReason::ConfigError)
    } by {
        if i < start.cursor {
            assert(stopped.outcomes.subrange(0, start.cursor)[i] == start.outcomes[i]);
        }
    }
}

/// A pass that is over stays as it is and asks for nothing more, whatever
/// it is told.
pub proof fn lemma_done_is_final(pass: Pass, events: Seq<EventView>)
    requires
        pass.done(),
    ensures
        run(pass, events) == pass,
        trace(pass, events).len() == events.len(),
        forall|k: int| 0 <= k < events.len() ==> trace(pass, events)[k] is Finish,
    decreases events.len(),
{
    if events.len() > 0 {
        lemma_done_is_final(pass, events.drop_first());
    }
}

/// An event that does not answer the pending request changes nothing.
pub proof fn lemma_stray_event_ignored(pass: Pass, event: EventView)
    requires
        !pass.answers(event),
    ensures
        pass.next(event) == pass,
{
}

/// An upper bound on the answers a pass still needs before it is over:
/// five for each record without an outcome, less what the record in
/// progress has behind it.
pub open spec fn steps_left(pass: Pass) -> int {
    5 * (pass.records.len() - pass.cursor) - match pass.phase {
        PhaseView::Zone => 0int,
        PhaseView::Address => 1,
        PhaseView::Find { .. } => 2,
        PhaseView::Fetch { .. } => 3,
        PhaseView::Create { .. } => 4,
        PhaseView::Update { .. } => 4,
        PhaseView::Done => 0,
    }
}

/// Every answer brings a pass closer to its end, and a pass with nothing
/// left is over: a pass over `n` records is over after at most `5 * n`
/// answers.
pub proof fn lemma_progress(pass: Pass, event: EventView)
    requires
        pass.wf(),
        pass.answers(event),
    ensures
        0 <= steps_left(pass.next(event)) < steps_left(pass),
        steps_left(pass) <= 5 * pass.records.len(),
        steps_left(pass.next(event)) == 0 <==> pass.next(event).done(),
{
    lemma_wf_preserved(pass, event);
    lemma_first_usable(pass.records, pass.cursor + 1);
}

/// A usable record never fails for its configuration, and an unusable one
/// fails for nothing else and is never asked about: whatever a pass is
/// waiting on concerns a usable record.
pub proof fn lemma_unusable_records_fail_unasked(pass: Pass, i: int)
    requires
        pass.wf(),
        0 <= i < pass.records.len(),
        !usable(pass.records[i]),
    ensures
        i < pass.cursor ==> pass.outcomes[i] == ReconciliationOutcome::Failed(
            FailureReason::ConfigError,
        ),
        !pass.done() ==> pass.cursor != i,
{
}

} // verus!
