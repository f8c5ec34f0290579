//! One reconciliation pass over the managed records.
//!
//! The pass is a state machine. It names the next request to make
//! ([`Action`]); the caller makes it and hands back what came of it
//! ([`Event`]). The machine never makes a request itself, so a pass is
//! sequential by construction: it asks for one thing at a time, and for
//! nothing new before the previous answer is in.
//!
//! [`Pass`] is the mathematical model of the machine, [`Reconciler`] the
//! executable machine, whose every step is proved to be the model's.

use vstd::prelude::*;
use vstd::string::*;
use crate::cloudflare::request_body;
use crate::cloudflare::DnsRecord;
use crate::cloudflare::DnsRecordView;
use crate::cloudflare::StoreError;
use crate::cloudflare::UpdateDnsRecordRequest;
use crate::cloudflare::UpdateDnsRecordRequestView;
use crate::config::text_view;
use crate::config::validate_record;
use crate::config::Config;
use crate::config::ConfigError;
use crate::config::DnsRecordConfig;
use crate::config::DnsRecordConfigView;
use crate::config::IpVersion;
use crate::ip_utils::AddressError;

verus! {

/// Why a record could not be brought in line.
#[derive(Debug, Clone, Copy, PartialEq, Eq, Structural)]
pub enum FailureReason {
    /// The record's configuration is unusable. No request is made for it.
    ConfigError,
    /// No current address could be observed.
    AddressUnavailable,
    /// The provider rejected the credentials. This ends the pass.
    AuthError,
    /// A lookup failed on the way to or from the provider.
    TransportError,
    /// A lookup was answered with something other than the expected
    /// successful envelope.
    ResponseParseError,
    /// The zone does not exist.
    ZoneNotFound,
    /// The record was to be created and the creation failed.
    CreateError,
    /// The record was to be updated and the update failed.
    UpdateError,
}

/// What a pass did about one record.
#[derive(Debug, Clone, Copy, PartialEq, Eq, Structural)]
pub enum ReconciliationOutcome {
    Created,
    Updated,
    Unchanged,
    Failed(FailureReason),
}

/// A request the pass wants made, in the model.
pub ghost enum ActionView {
    FindZone { name: Seq<char> },
    ResolveAddress { version: IpVersion },
    FindRecord { zone_id: Seq<char>, name: Seq<char> },
    GetRecord { zone_id: Seq<char>, record_id: Seq<char> },
    CreateRecord { zone_id: Seq<char>, body: UpdateDnsRecordRequestView },
    UpdateRecord { zone_id: Seq<char>, record_id: Seq<char>, body: UpdateDnsRecordRequestView },
    Finish,
}

impl ActionView {
    /// Whether the request changes what the provider holds.
    pub open spec fn is_mutation(self) -> bool {
        self is CreateRecord || self is UpdateRecord
    }
}

/// What came of a request, in the model.
pub ghost enum EventView {
    Zone(Result<Seq<char>, StoreError>),
    Address(Result<Seq<char>, AddressError>),
    RecordId(Result<Seq<char>, StoreError>),
    Record(Result<DnsRecordView, StoreError>),
    Created(Result<DnsRecordView, StoreError>),
    Updated(Result<DnsRecordView, StoreError>),
}

/// What the pass is waiting for, in the model.
pub ghost enum PhaseView {
    /// The zone id.
    Zone,
    /// The current address for the record in progress.
    Address,
    /// The id of the record in progress.
    Find { observed: Seq<char> },
    /// What the provider holds for the record in progress.
    Fetch { observed: Seq<char>, record_id: Seq<char> },
    /// The result of creating the record in progress.
    Create { observed: Seq<char> },
    /// The result of updating the record in progress.
    Update { observed: Seq<char>, record_id: Seq<char> },
    /// Nothing: every record has its outcome.
    Done,
}

/// The failure recorded where a lookup failed with `error`.
pub open spec fn lookup_failure(error: StoreError) -> FailureReason {
    match error {
        StoreError::NotFound => FailureReason::ZoneNotFound,
        StoreError::AuthError => FailureReason::AuthError,
        StoreError::TransportError => FailureReason::TransportError,
        StoreError::ResponseParseError => FailureReason::ResponseParseError,
    }
}

/// Whether the configuration of `record` is usable.
pub open spec fn usable(record: DnsRecordConfigView) -> bool {
    validate_record(record) is Ok
}

/// The first position at or after `from` that holds a usable record, or the
/// number of records if there is none.
pub open spec fn first_usable(records: Seq<DnsRecordConfigView>, from: int) -> int
    decreases records.len() - from,
{
    if 0 <= from < records.len() && !usable(records[from]) {
        first_usable(records, from + 1)
    } else {
        from
    }
}

/// The model of a pass: the configuration it runs on and how far it has
/// come.
pub ghost struct Pass {
    pub zone_name: Seq<char>,
    pub records: Seq<DnsRecordConfigView>,
    pub force: bool,
    /// The zone id, once it is known.
    pub zone_id: Option<Seq<char>>,
    /// The position of the record in progress: every record before it has
    /// its outcome, no record from it on has.
    pub cursor: int,
    /// The outcomes so far, in the order of the records.
    pub outcomes: Seq<ReconciliationOutcome>,
    pub phase: PhaseView,
}

impl Pass {
    /// What holds of every pass: each record before the cursor has exactly
    /// one outcome, the pass is done when and only when the cursor has
    /// passed the last record, the record in progress is usable, the zone
    /// id is known once it is needed, and the records failed for their
    /// configuration are exactly the unusable ones.
    pub open spec fn wf(self) -> bool {
        &&& 0 <= self.cursor <= self.records.len()
        &&& self.outcomes.len() == self.cursor
        &&& self.phase is Done <==> self.cursor == self.records.len()
        &&& !(self.phase is Done) ==> usable(self.records[self.cursor])
        &&& self.phase is Zone <==> !(self.phase is Done) && self.zone_id is None
        &&& forall|i: int|
            0 <= i < self.cursor ==> (#[trigger] self.outcomes[i] == ReconciliationOutcome::Failed(
                FailureReason::ConfigError,
            ) <==> !usable(self.records[i]))
    }

    /// The record in progress.
    pub open spec fn record(self) -> DnsRecordConfigView {
        self.records[self.cursor]
    }

    /// The body that asks for the record in progress to hold `observed`:
    /// the configured type, name, time to live and proxy flag, with
    /// `observed` as content.
    pub open spec fn body(self, observed: Seq<char>) -> UpdateDnsRecordRequestView {
        request_body(
            self.record().record_type,
            self.record().name,
            observed,
            self.record().ttl,
            self.record().proxied,
        )
    }

    /// The request the pass is waiting on.
    pub open spec fn pending(self) -> ActionView {
        match self.phase {
            PhaseView::Zone => ActionView::FindZone { name: self.zone_name },
            PhaseView::Address => ActionView::ResolveAddress {
                version: validate_record(self.record())->Ok_0,
            },
            PhaseView::Find { .. } => ActionView::FindRecord {
                zone_id: self.zone_id->0,
                name: self.record().name,
            },
            PhaseView::Fetch { record_id, .. } => ActionView::GetRecord {
                zone_id: self.zone_id->0,
                record_id,
            },
            PhaseView::Create { observed } => ActionView::CreateRecord {
                zone_id: self.zone_id->0,
                body: self.body(observed),
            },
            PhaseView::Update { observed, record_id } => ActionView::UpdateRecord {
                zone_id: self.zone_id->0,
                record_id,
                body: self.body(observed),
            },
            PhaseView::Done => ActionView::Finish,
        }
    }

    /// The pass moved on to the next record that needs a request: every
    /// unusable record on the way is failed on the spot, without a request.
    pub open spec fn settled(self) -> Pass {
        let stop = first_usable(self.records, self.cursor);
        Pass {
            cursor: stop,
            outcomes: self.outcomes + Seq::new(
                (stop - self.cursor) as nat,
                |k: int| ReconciliationOutcome::Failed(FailureReason::ConfigError),
            ),
            phase: if stop >= self.records.len() {
                PhaseView::Done
            } else if self.zone_id is None {
                PhaseView::Zone
            } else {
                PhaseView::Address
            },
            ..self
        }
    }

    /// The record in progress got `outcome`, and the pass moved on.
    pub open spec fn finish_record(self, outcome: ReconciliationOutcome) -> Pass {
        Pass { cursor: self.cursor + 1, outcomes: self.outcomes.push(outcome), ..self }.settled()
    }

    /// The pass ended early: the record in progress and every usable record
    /// after it failed for `reason`; the unusable ones failed as such.
    pub open spec fn fail_rest(self, reason: FailureReason) -> Pass {
        Pass {
            cursor: self.records.len() as int,
            outcomes: self.outcomes + Seq::new(
                (self.records.len() - self.cursor) as nat,
                |k: int|
                    if usable(self.records[self.cursor + k]) {
                        ReconciliationOutcome::Failed(reason)
                    } else {
                        ReconciliationOutcome::Failed(FailureReason::ConfigError)
                    },
            ),
            phase: PhaseView::Done,
            ..self
        }
    }

    /// A request for the record in progress failed with `error`: rejected
    /// credentials end the pass, anything else fails this record alone for
    /// `reason`.
    pub open spec fn fail_call(self, error: StoreError, reason: FailureReason) -> Pass {
        if error == StoreError::AuthError {
            self.fail_rest(FailureReason::AuthError)
        } else {
            self.finish_record(ReconciliationOutcome::Failed(reason))
        }
    }

    /// The pass before its first request.
    pub open spec fn start(
        zone_name: Seq<char>,
        records: Seq<DnsRecordConfigView>,
        force: bool,
    ) -> Pass {
        Pass {
            zone_name,
            records,
            force,
            zone_id: None,
            cursor: 0,
            outcomes: Seq::empty(),
            phase: PhaseView::Zone,
        }.settled()
    }

    /// The pass after `event`. An event that does not answer the pending
    /// request changes nothing.
    pub open spec fn next(self, event: EventView) -> Pass {
        match (self.phase, event) {
            (PhaseView::Zone, EventView::Zone(Ok(id))) => Pass {
                zone_id: Some(id),
                phase: PhaseView::Address,
                ..self
            },
            (PhaseView::Zone, EventView::Zone(Err(e))) => self.fail_rest(lookup_failure(e)),
            (PhaseView::Address, EventView::Address(Ok(observed))) => Pass {
                phase: PhaseView::Find { observed },
                ..self
            },
            (PhaseView::Address, EventView::Address(Err(_))) => self.finish_record(
                ReconciliationOutcome::Failed(FailureReason::AddressUnavailable),
            ),
            (PhaseView::Find { observed }, EventView::RecordId(Ok(record_id))) => Pass {
                phase: PhaseView::Fetch { observed, record_id },
                ..self
            },
            (PhaseView::Find { observed }, EventView::RecordId(Err(e))) => if e
                == StoreError::NotFound {
                Pass { phase: PhaseView::Create { observed }, ..self }
            } else {
                self.fail_call(e, lookup_failure(e))
            },
            (PhaseView::Fetch { observed, record_id }, EventView::Record(Ok(remote))) => if
                remote.content == observed && !self.force {
                self.finish_record(ReconciliationOutcome::Unchanged)
            } else {
                Pass { phase: PhaseView::Update { observed, record_id }, ..self }
            },
            (PhaseView::Fetch { observed, record_id }, EventView::Record(Err(e))) => if e
                == StoreError::NotFound {
                Pass { phase: PhaseView::Create { observed }, ..self }
            } else {
                self.fail_call(e, lookup_failure(e))
            },
            (PhaseView::Create { .. }, EventView::Created(Ok(_))) => self.finish_record(
                ReconciliationOutcome::Created,
            ),
            (PhaseView::Create { .. }, EventView::Created(Err(e))) => self.fail_call(
                e,
                FailureReason::CreateError,
            ),
            (PhaseView::Update { .. }, EventView::Updated(Ok(_))) =>
                self.finish_record(ReconciliationOutcome::Updated),
            (PhaseView::Update { .. }, EventView::Updated(Err(e))) =>
                self.fail_call(e, FailureReason::UpdateError),
            _ => self,
        }
    }

    /// Whether `event` answers the pending request.
    pub open spec fn answers(self, event: EventView) -> bool {
        match (self.phase, event) {
            (PhaseView::Zone, EventView::Zone(_)) => true,
            (PhaseView::Address, EventView::Address(_)) => true,
            (PhaseView::Find { .. }, EventView::RecordId(_)) => true,
            (PhaseView::Fetch { .. }, EventView::Record(_)) => true,
            (PhaseView::Create { .. }, EventView::Created(_)) => true,
            (PhaseView::Update { .. }, EventView::Updated(_)) => true,
            _ => false,
        }
    }

    /// Whether the pass is over.
    pub open spec fn done(self) -> bool {
        self.phase is Done
    }

    /// A pass has succeeded when it is over and no record failed.
    pub open spec fn succeeded(self) -> bool {
        self.done() && no_failure(self.outcomes)
    }
}

/// Whether none of `outcomes` is a failure.
pub open spec fn no_failure(outcomes: Seq<ReconciliationOutcome>) -> bool {
    forall|i: int| 0 <= i < outcomes.len() ==> !(#[trigger] outcomes[i] is Failed)
}

/// Where `first_usable` lands: at or after `from`, past unusable records
/// only, and on a usable one unless it ran out of records.
pub proof fn lemma_first_usable(records: Seq<DnsRecordConfigView>, from: int)
    requires
        0 <= from <= records.len(),
    ensures
        from <= first_usable(records, from) <= records.len(),
        forall|k: int| from <= k < first_usable(records, from) ==> !usable(#[trigger] records[k]),
        first_usable(records, from) < records.len() ==> usable(
            records[first_usable(records, from)],
        ),
    decreases records.len() - from,
{
    if from < records.len() && !usable(records[from]) {
        lemma_first_usable(records, from + 1);
    }
}

/// Every step keeps a pass well formed, and so does its start.
pub proof fn lemma_wf_preserved(pass: Pass, event: EventView)
    requires
        pass.wf(),
    ensures
        pass.next(event).wf(),
        pass.next(event).records == pass.records,
        pass.next(event).zone_name == pass.zone_name,
        pass.next(event).force == pass.force,
        pass.next(event).cursor >= pass.cursor,
        pass.next(event).outcomes.subrange(0, pass.cursor) == pass.outcomes,
{
    if pass.cursor < pass.records.len() {
        lemma_first_usable(pass.records, pass.cursor + 1);
    }
    assert(pass.next(event).outcomes.subrange(0, pass.cursor) =~= pass.outcomes);
}

/// The pass before its first request is well formed.
pub proof fn lemma_start_wf(zone_name: Seq<char>, records: Seq<DnsRecordConfigView>, force: bool)
    ensures
        Pass::start(zone_name, records, force).wf(),
{
    lemma_first_usable(records, 0);
}
/// A request the pass wants made.
#[derive(Debug, Clone)]
pub enum Action {
    /// Look the zone up by name.
    FindZone { name: String },
    /// Ask for the current address of the family `version`.
    ResolveAddress { version: IpVersion },
    /// Look a record up by name.
    FindRecord { zone_id: String, name: String },
    /// Fetch what the provider holds for a record.
    GetRecord { zone_id: String, record_id: String },
    /// Create a record.
    CreateRecord { zone_id: String, body: UpdateDnsRecordRequest },
    /// Update a record.
    UpdateRecord { zone_id: String, record_id: String, body: UpdateDnsRecordRequest },
    /// Nothing is left to do.
    Finish,
}

impl View for Action {
    type V = ActionView;

    open spec fn view(&self) -> ActionView {
        match *self {
            Action::FindZone { name } => ActionView::FindZone { name: name@ },
            Action::ResolveAddress { version } => ActionView::ResolveAddress { version },
            Action::FindRecord { zone_id, name } => ActionView::FindRecord {
                zone_id: zone_id@,
                name: name@,
            },
            Action::GetRecord { zone_id, record_id } => ActionView::GetRecord {
                zone_id: zone_id@,
                record_id: record_id@,
            },
            Action::CreateRecord { zone_id, body } => ActionView::CreateRecord {
                zone_id: zone_id@,
                body: body@,
            },
            Action::UpdateRecord { zone_id, record_id, body } => ActionView::UpdateRecord {
                zone_id: zone_id@,
                record_id: record_id@,
                body: body@,
            },
            Action::Finish => ActionView::Finish,
        }
    }
}

impl Action {
    /// Whether the request changes what the provider holds.
    pub fn is_mutation(&self) -> (r: bool)
        ensures
            r == self@.is_mutation(),
    {
        match self {
            Action::CreateRecord { .. } => true,
            Action::UpdateRecord { .. } => true,
            _ => false,
        }
    }
}

/// What came of a request. Each variant answers one kind of request: the
/// zone lookup, the address, the record lookup, the fetch, the creation and
/// the update.
#[derive(Debug)]
pub enum Event {
    Zone(Result<String, StoreError>),
    Address(Result<String, AddressError>),
    RecordId(Result<String, StoreError>),
    Record(Result<DnsRecord, StoreError>),
    Created(Result<DnsRecord, StoreError>),
    Updated(Result<DnsRecord, StoreError>),
}

/// The model of a text or the failure in its place.
pub open spec fn text_result_view<E>(result: Result<String, E>) -> Result<Seq<char>, E> {
    match result {
        Ok(text) => Ok(text@),
        Err(e) => Err(e),
    }
}

/// The model of a record or the failure in its place.
pub open spec fn record_result_view(result: Result<DnsRecord, StoreError>) -> Result<
    DnsRecordView,
    StoreError,
> {
    match result {
        Ok(record) => Ok(record@),
        Err(e) => Err(e),
    }
}

impl View for Event {
    type V = EventView;

    open spec fn view(&self) -> EventView {
        match *self {
            Event::Zone(r) => EventView::Zone(text_result_view(r)),
            Event::Address(r) => EventView::Address(text_result_view(r)),
            Event::RecordId(r) => EventView::RecordId(text_result_view(r)),
            Event::Record(r) => EventView::Record(record_result_view(r)),
            Event::Created(r) => EventView::Created(record_result_view(r)),
            Event::Updated(r) => EventView::Updated(record_result_view(r)),
        }
    }
}

/// What the pass is waiting for.
#[derive(Debug, Clone)]
pub enum Phase {
    Zone,
    Address,
    Find { observed: String },
    Fetch { observed: String, record_id: String },
    Create { observed: String },
    Update { observed: String, record_id: String },
    Done,
}

impl View for Phase {
    type V = PhaseView;

    open spec fn view(&self) -> PhaseView {
        match *self {
            Phase::Zone => PhaseView::Zone,
            Phase::Address => PhaseView::Address,
            Phase::Find { observed } => PhaseView::Find { observed: observed@ },
            Phase::Fetch { observed, record_id } => PhaseView::Fetch {
                observed: observed@,
                record_id: record_id@,
            },
            Phase::Create { observed } => PhaseView::Create { observed: observed@ },
            Phase::Update { observed, record_id } => PhaseView::Update {
                observed: observed@,
                record_id: record_id@,
            },
            Phase::Done => PhaseView::Done,
        }
    }
}

/// The models of the records of a configuration, in their order.
pub open spec fn records_view(records: Seq<DnsRecordConfig>) -> Seq<DnsRecordConfigView> {
    Seq::new(records.len(), |i: int| records[i]@)
}

/// One pass over the managed records, as far as it has come.
#[derive(Debug, Clone)]
pub struct Reconciler {
    pub zone_name: String,
    pub records: Vec<DnsRecordConfig>,
    pub force: bool,
    pub zone_id: Option<String>,
    pub cursor: usize,
    pub outcomes: Vec<ReconciliationOutcome>,
    pub phase: Phase,
}

impl View for Reconciler {
    type V = Pass;

    open spec fn view(&self) -> Pass {
        Pass {
            zone_name: self.zone_name@,
            records: records_view(self.records@),
            force: self.force,
            zone_id: text_view(self.zone_id),
            cursor: self.cursor as int,
            outcomes: self.outcomes@,
            phase: self.phase@,
        }
    }
}

/// The failure recorded where a lookup failed with `error`.
pub fn lookup_reason(error: StoreError) -> (reason: FailureReason)
    ensures
        reason == lookup_failure(error),
{
    match error {
        StoreError::NotFound => FailureReason::ZoneNotFound,
        StoreError::AuthError => FailureReason::AuthError,
        StoreError::TransportError => FailureReason::TransportError,
        StoreError::ResponseParseError => FailureReason::ResponseParseError,
    }
}

impl Reconciler {
    /// Whether the machine is in a state that a pass can be in.
    pub open spec fn wf(&self) -> bool {
        self@.wf()
    }

    /// A pass over the records of `config`, before its first request.
    /// With `force`, a record is updated even where it already holds the
    /// observed address.
    pub fn new(config: Config, force: bool) -> (machine: Reconciler)
        ensures
            machine@ == Pass::start(
                config.cloudflare.zone_name@,
                records_view(config.dns_records@),
                force,
            ),
            machine.wf(),
    {
        let mut machine = Reconciler {
            zone_name: config.cloudflare.zone_name,
            records: config.dns_records,
            force,
            zone_id: None,
            cursor: 0,
            outcomes: Vec::new(),
            phase: Phase::Zone,
        };
        machine.settle();
        proof {
            lemma_start_wf(
                config.cloudflare.zone_name@,
                records_view(config.dns_records@),
                force,
            );
        }
        machine
    }

    /// Moves on to the next record that needs a request.
    fn settle(&mut self)
        requires
            old(self).cursor <= old(self).records.len(),
        ensures
            final(self)@ == old(self)@.settled(),
    {
        let ghost before = self@;
        let mut scanning = true;
        while scanning && self.cursor < self.records.len()
            invariant
                before.cursor <= self.cursor <= self.records.len(),
                self@ == (Pass {
                    cursor: self.cursor as int,
                    outcomes: before.outcomes + Seq::new(
                        (self.cursor - before.cursor) as nat,
                        |k: int| ReconciliationOutcome::Failed(FailureReason::ConfigError),
                    ),
                    ..before
                }),
                first_usable(before.records, before.cursor) == first_usable(
                    before.records,
                    self.cursor as int,
                ),
                !scanning ==> self.cursor < self.records.len() && usable(
                    before.records[self.cursor as int],
                ),
            decreases self.records.len() - self.cursor + if scanning { 1int } else { 0int },
        {
            match self.records[self.cursor].validate() {
                Ok(_) => {
                    scanning = false;
                },
                Err(_) => {
                    self.outcomes.push(ReconciliationOutcome::Failed(FailureReason::ConfigError));
                    self.cursor = self.cursor + 1;
                    assert(self.outcomes@ =~= before.outcomes + Seq::new(
                        (self.cursor - before.cursor) as nat,
                        |k: int| ReconciliationOutcome::Failed(FailureReason::ConfigError),
                    ));
                },
            }
        }
        if self.cursor >= self.records.len() {
            self.phase = Phase::Done;
        } else if self.zone_id.is_none() {
            self.phase = Phase::Zone;
        } else {
            self.phase = Phase::Address;
        }
    }

    /// Gives the record in progress its outcome and moves on.
    fn finish_record(&mut self, outcome: ReconciliationOutcome)
        requires
            old(self).cursor < old(self).records.len(),
        ensures
            final(self)@ == old(self)@.finish_record(outcome),
    {
        self.outcomes.push(outcome);
        self.cursor = self.cursor + 1;
        self.settle();
    }

    /// Ends the pass: every record left fails.
    fn fail_rest(&mut self, reason: FailureReason)
        requires
            old(self).cursor <= old(self).records.len(),
        ensures
            final(self)@ == old(self)@.fail_rest(reason),
    {
        let ghost before = self@;
        while self.cursor < self.records.len()
            invariant
                before.cursor <= self.cursor <= self.records.len(),
                self@ == (Pass {
                    cursor: self.cursor as int,
                    outcomes: before.outcomes + Seq::new(
                        (self.cursor - before.cursor) as nat,
                        |k: int|
                            if usable(before.records[before.cursor + k]) {
                                ReconciliationOutcome::Failed(reason)
                            } else {
                                ReconciliationOutcome::Failed(FailureReason::ConfigError)
                            },
                    ),
                    ..before
                }),
            decreases self.records.len() - self.cursor,
        {
            let outcome = match self.records[self.cursor].validate() {
                Ok(_) => ReconciliationOutcome::Failed(reason),
                Err(_) => ReconciliationOutcome::Failed(FailureReason::ConfigError),
            };
            self.outcomes.push(outcome);
            self.cursor = self.cursor + 1;
            assert(self.outcomes@ =~= before.outcomes + Seq::new(
                (self.cursor - before.cursor) as nat,
                |k: int|
                    if usable(before.records[before.cursor + k]) {
                        ReconciliationOutcome::Failed(reason)
                    } else {
                        ReconciliationOutcome::Failed(FailureReason::ConfigError)
                    },
            ));
        }
        self.phase = Phase::Done;
    }

    /// Records that a request for the record in progress failed.
    fn fail_call(&mut self, error: StoreError, reason: FailureReason)
        requires
            old(self).cursor < old(self).records.len(),
        ensures
            final(self)@ == old(self)@.fail_call(error, reason),
    {
        match error {
            StoreError::AuthError => self.fail_rest(FailureReason::AuthError),
            _ => self.finish_record(ReconciliationOutcome::Failed(reason)),
        }
    }

    /// The zone id, which is known in every phase that names it.
    fn known_zone_id(&self) -> (zone_id: String)
        requires
            self.zone_id is Some,
        ensures
            Some(zone_id@) == text_view(self.zone_id),
    {
        match &self.zone_id {
            Some(id) => id.clone(),
            None => unreached(),
        }
    }

    /// The body that asks for the record in progress to hold `observed`.
    fn body_for(&self, observed: &String) -> (body: UpdateDnsRecordRequest)
        requires
            self.cursor < self.records.len(),
        ensures
            body@ == self@.body(observed@),
    {
        let record = &self.records[self.cursor];
        UpdateDnsRecordRequest::build(
            record.record_type.as_str(),
            record.name.as_str(),
            observed.as_str(),
            record.ttl,
            record.proxied,
        )
    }

    /// The request the pass is waiting on. Asking again changes nothing.
    pub fn pending(&self) -> (action: Action)
        requires
            self.wf(),
        ensures
            action@ == self@.pending(),
    {
        match &self.phase {
            Phase::Zone => Action::FindZone { name: self.zone_name.clone() },
            Phase::Address => match self.records[self.cursor].validate() {
                Ok(version) => Action::ResolveAddress { version },
                Err(_) => unreached(),
            },
            Phase::Find { .. } => Action::FindRecord {
                zone_id: self.known_zone_id(),
                name: self.records[self.cursor].name.clone(),
            },
            Phase::Fetch { record_id, .. } => Action::GetRecord {
                zone_id: self.known_zone_id(),
                record_id: record_id.clone(),
            },
            Phase::Create { observed } => Action::CreateRecord {
                zone_id: self.known_zone_id(),
                body: self.body_for(observed),
            },
            Phase::Update { observed, record_id } => Action::UpdateRecord {
                zone_id: self.known_zone_id(),
                record_id: record_id.clone(),
                body: self.body_for(observed),
            },
            Phase::Done => Action::Finish,
        }
    }

    /// Takes in what came of the pending request and names the next one.
    /// An event that does not answer the pending request is ignored, and
    /// the pending request is named again.
    pub fn step(&mut self, event: Event) -> (action: Action)
        requires
            old(self).wf(),
        ensures
            final(self)@ == old(self)@.next(event@),
            final(self).wf(),
            action@ == final(self)@.pending(),
    {
        proof {
            lemma_wf_preserved(self@, event@);
        }
        match event {
            Event::Zone(result) => match &self.phase {
                Phase::Zone => match result {
                    Ok(id) => {
                        self.zone_id = Some(id);
                        self.phase = Phase::Address;
                    },
                    Err(e) => {
                        self.fail_rest(lookup_reason(e));
                    },
                },
                _ => {},
            },
            Event::Address(result) => match &self.phase {
                Phase::Address => match result {
                    Ok(observed) => {
                        self.phase = Phase::Find { observed };
                    },
                    Err(_) => {
                        self.finish_record(
                            ReconciliationOutcome::Failed(FailureReason::AddressUnavailable),
                        );
                    },
                },
                _ => {},
            },
            Event::RecordId(result) => match &self.phase {
                Phase::Find { observed } => {
                    let observed = observed.clone();
                    match result {
                        Ok(record_id) => {
                            self.phase = Phase::Fetch { observed, record_id };
                        },
                        Err(StoreError::NotFound) => {
                            self.phase = Phase::Create { observed };
                        },
                        Err(e) => {
                            self.fail_call(e, lookup_reason(e));
                        },
                    }
                },
                _ => {},
            },
            Event::Record(result) => match &self.phase {
                Phase::Fetch { observed, record_id } => {
                    let observed = observed.clone();
                    let record_id = record_id.clone();
                    match result {
                        Ok(remote) => {
                            if remote.content == observed && !self.force {
                                self.finish_record(ReconciliationOutcome::Unchanged);
                            } else {
                                self.phase = Phase::Update { observed, record_id };
                            }
                        },
                        Err(StoreError::NotFound) => {
                            self.phase = Phase::Create { observed };
                        },
                        Err(e) => {
                            self.fail_call(e, lookup_reason(e));
                        },
                    }
                },
                _ => {},
            },
            Event::Created(result) => match &self.phase {
                Phase::Create { .. } => match result {
                    Ok(_) => {
                        self.finish_record(ReconciliationOutcome::Created);
                    },
                    Err(e) => {
                        self.fail_call(e, FailureReason::CreateError);
                    },
                },
                _ => {},
            },
            Event::Updated(result) => match &self.phase {
                Phase::Update { .. } => match result {
                    Ok(_) => {
                        self.finish_record(ReconciliationOutcome::Updated);
                    },
                    Err(e) => {
                        self.fail_call(e, FailureReason::UpdateError);
                    },
                },
                _ => {},
            },
        }
        self.pending()
    }

    /// Whether the pass is over.
    pub fn is_done(&self) -> (done: bool)
        ensures
            done == self@.done(),
    {
        match &self.phase {
            Phase::Done => true,
            _ => false,
        }
    }

    /// The outcomes so far, one for each record that the pass is through
    /// with, in the order of the records.
    pub fn outcomes(&self) -> (outcomes: &Vec<ReconciliationOutcome>)
        ensures
            outcomes@ == self@.outcomes,
    {
        &self.outcomes
    }

    /// Whether the pass is over and no record failed.
    pub fn succeeded(&self) -> (success: bool)
        ensures
            success == self@.succeeded(),
    {
        self.is_done() && all_succeeded(&self.outcomes)
    }
}

/// Whether none of `outcomes` is a failure.
pub fn all_succeeded(outcomes: &Vec<ReconciliationOutcome>) -> (success: bool)
    ensures
        success == no_failure(outcomes@),
{
    let mut i: usize = 0;
    while i < outcomes.len()
        invariant
            i <= outcomes.len(),
            forall|k: int| 0 <= k < i ==> !(#[trigger] outcomes@[k] is Failed),
        decreases outcomes.len() - i,
    {
        match outcomes[i] {
            ReconciliationOutcome::Failed(_) => {
                return false;
            },
            _ => {},
        }
        i = i + 1;
    }
    true
}
/// For a run that only observes addresses: record by record, the address
/// family to ask for, or why the record is passed over. Nothing is asked
/// of the record store in such a run.
pub fn observation_plan(records: &Vec<DnsRecordConfig>) -> (plan: Vec<Result<IpVersion, ConfigError>>)
    ensures
        plan@.len() == records@.len(),
        forall|i: int| 0 <= i < records@.len() ==> plan@[i] == validate_record(records@[i]@),
{
    let mut plan: Vec<Result<IpVersion, ConfigError>> = Vec::new();
    let mut i: usize = 0;
    while i < records.len()
        invariant
            i <= records.len(),
            plan@.len() == i,
            forall|k: int| 0 <= k < i ==> plan@[k] == validate_record(records@[k]@),
        decreases records.len() - i,
    {
        plan.push(records[i].validate());
        i = i + 1;
    }
    plan
}

} // verus!
