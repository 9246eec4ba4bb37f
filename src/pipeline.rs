//! The event decision pipeline: one report, driven step by step. Each step
//! takes what the caller observed (a store read, a cached set, the outcome of
//! a save) and returns what the caller does next, in order.

use vstd::prelude::*;

use crate::cooling::{
    cooling_key_spec, cooling_read_key, cooling_second_spec, cooling_suppresses,
    handle_cooling_down_filter, marker_text, marker_ttl,
};
use crate::event_processing::{
    chain_reason, config_of, filter_event, get_config, needs_global_switch, opt_str_view,
    personnel_check, personnel_decision, uses_global_switch, PersonnelCheckResult,
};
use crate::json::{deref_opt, field, same_opt, Json};
use crate::other_filter::{pos_key_spec, pos_rule, same_pos_key};
use crate::plate_filter::{plate_key, plate_key_spec, same_plate_cooling, same_plate_cooling_secs};
use crate::records::{
    decided_record, event_from_payload, filtered_record, is_marking_block, record_core, record_of,
    review_push_extras, EventRecord, ReviewExtras,
};
use crate::report::{
    alg_code_is, find_algorithm_by_code, find_running_tasks_by_criteria, first_index,
    lemma_filter_first, lemma_filter_keeps, lemma_first_index_unique, opt_eq, opt_is, opt_view,
    task_code_is, task_filter, Algorithm, BoxReportRequest, EventFilterConfig, Task,
    TaskSearchCriteria,
};
use crate::store::{
    as_str_or_empty, global_review_key, global_review_key_spec, or_empty, StoreValue, StoreWrite,
};

verus! {

/// What the caller observed since the last step.
pub enum PipelineEvent {
    Begin,
    /// The replay probe: `Some(true)` when the id was seen; `None` when the
    /// probe failed, which counts as not seen.
    ReplayProbed(Option<bool>),
    /// The cached running tasks; `None` when the cache could not be filled.
    TasksLoaded(Option<Vec<Task>>),
    /// The value under the cooling key, if one was read.
    CoolingRead(Option<String>),
    /// The project's filter settings; `None` when the base or filter
    /// settings could not be filled from the backing store.
    ConfigsLoaded(Option<Vec<EventFilterConfig>>),
    /// The values under the same-plate key and (decoded) the position key.
    MarkersRead(Option<String>, Option<Json>),
    /// The cached algorithms; `None` when the cache could not be filled.
    AlgorithmsLoaded(Option<Vec<Algorithm>>),
    /// The value of the global review switch, if one was read.
    GlobalSwitchRead(Option<String>),
    /// The saved record's id, or the failure.
    Saved(Result<i64, String>),
}

/// What the caller does next.
pub enum Action {
    /// Ask the store whether this key exists.
    ProbeReplay(String),
    LoadTasks,
    ReadCooling(String),
    /// Load the base and filter settings of this project.
    LoadConfigs(i64),
    /// Read the same-plate and the position keys, where given.
    ReadMarkers(Option<String>, Option<String>),
    LoadAlgorithms,
    /// Read the global review switch under this key.
    ReadGlobalSwitch(String),
    Write(StoreWrite),
    Persist(EventRecord),
    /// Send the (filtered) report to the message relay.
    NotifyRelay,
    /// Send the saved event with these fields to the review queue.
    PushReview(i64, ReviewExtras),
    /// Set the replay-guard key for `REPLAY_TTL_SECS` seconds.
    ArmReplay(String),
    /// Answer the box with this message; the report is handled.
    Reply(String),
    /// Answer with an internal error carrying this message.
    Fail(String),
}

#[derive(Clone, Copy, Debug, PartialEq, Eq, Structural)]
pub enum Stage {
    Start,
    AwaitReplay,
    AwaitTask,
    AwaitCooling,
    AwaitConfigs,
    AwaitMarkers,
    AwaitAlgorithm,
    AwaitGlobalSwitch,
    AwaitSaveFiltered,
    AwaitSaveUnknown,
    AwaitSave,
    Done,
}

/// The state of one report in the pipeline.
pub struct Pipeline {
    pub stage: Stage,
    pub payload: BoxReportRequest,
    /// The global cooling-down settings (`is_open`, `event_types`).
    pub filter_events_config: Json,
    pub task: Option<Task>,
    pub configs: Vec<EventFilterConfig>,
    pub algorithm: Option<Algorithm>,
    pub review: Option<PersonnelCheckResult>,
}

/// `Box report: engine_event_id: {id}, RESULT: {tail}`.
pub open spec fn reply_spec(id: Seq<char>, tail: Seq<char>) -> Seq<char> {
    "Box report: engine_event_id: "@ + id + ", RESULT: "@ + tail
}

pub open spec fn present(o: Option<String>) -> bool {
    o matches Some(s) && s@.len() > 0
}

/// The action is the answer `reply_spec(id, tail)`.
pub open spec fn is_reply(a: Action, id: Seq<char>, tail: Seq<char>) -> bool {
    a matches Action::Reply(m) && m@ == reply_spec(id, tail)
}

/// The action arms the replay guard of `id`.
pub open spec fn arms(a: Action, id: Seq<char>) -> bool {
    a matches Action::ArmReplay(k) && k@ == id
}

pub open spec fn no_relay(r: Seq<Action>) -> bool {
    forall|i: int| 0 <= i < r.len() ==> !(#[trigger] r[i] is NotifyRelay)
}

pub open spec fn no_push(r: Seq<Action>) -> bool {
    forall|i: int| 0 <= i < r.len() ==> !(#[trigger] r[i] is PushReview)
}

/// What holds between steps: from the cooling check on the task is known,
/// from the decision on the algorithm, and at the save the review decision.
pub open spec fn inv(p: Pipeline) -> bool {
    &&& !(p.stage == Stage::Start || p.stage == Stage::AwaitReplay || p.stage == Stage::AwaitTask
        || p.stage == Stage::Done) ==> p.task is Some
    &&& (p.stage == Stage::AwaitGlobalSwitch || p.stage == Stage::AwaitSave) ==> p.algorithm is Some
    &&& p.stage == Stage::AwaitSave ==> p.review is Some
}

/// Validation of the mandatory fields, then the replay probe.
#[verifier::opaque]
pub open spec fn start_outcome(old: Pipeline, new: Pipeline, r: Seq<Action>) -> bool {
    &&& !present(old.payload.source) ==> new.stage == Stage::Done && r.len() == 1 && is_reply(
        r[0],
        old.id_spec(),
        "Invalid source"@,
    )
    &&& present(old.payload.source) && !present(old.payload.engine_event_id) ==> new.stage
        == Stage::Done && r.len() == 1 && is_reply(r[0], old.id_spec(), "Invalid engine_event_id"@)
    &&& present(old.payload.source) && present(old.payload.engine_event_id) ==> new.stage
        == Stage::AwaitReplay && r.len() == 1 && (r[0] matches Action::ProbeReplay(k) && k@
        == old.id_spec())
}

/// A report seen before is answered; otherwise its task is loaded.
#[verifier::opaque]
pub open spec fn replay_outcome(old: Pipeline, seen: Option<bool>, new: Pipeline, r: Seq<Action>) -> bool {
    &&& seen == Some(true) ==> new.stage == Stage::Done && r.len() == 1 && is_reply(
        r[0],
        old.id_spec(),
        "Event already processed"@,
    )
    &&& seen != Some(true) && old.payload.task_code is None ==> new.stage == Stage::Done && r.len()
        == 1 && r[0] is Fail
    &&& seen != Some(true) && old.payload.task_code is Some ==> new.stage == Stage::AwaitTask
        && r.len() == 1 && r[0] is LoadTasks
}

/// The first running task with the report's code is taken, the report gets
/// its project, and the cooling check (where it applies) or the settings
/// come next. A refill failure, or no such task, is a hard failure.
#[verifier::opaque]
pub open spec fn tasks_outcome(old: Pipeline, ts: Option<Seq<Task>>, new: Pipeline, r: Seq<Action>) -> bool {
    let code = or_empty(old.payload.task_code);
    match ts {
        Some(list) if exists|i: int| first_index(list, task_code_is(code), i) => {
            let i = choose|i: int| first_index(list, task_code_is(code), i);
            let t = list[i];
            &&& new.task == Some(t)
            &&& new.payload.project_id == match t.project_id {
                Some(p) => p,
                None => 0,
            }
            &&& new.filter_events_config == old.filter_events_config
            &&& r.len() == 1
            &&& match cooling_second_spec(new.filter_events_config, new.payload) {
                Some(_) => new.stage == Stage::AwaitCooling && (r[0] matches Action::ReadCooling(k)
                    && k@ == cooling_key_spec(new.payload)),
                None => new.stage == Stage::AwaitConfigs && (r[0] matches Action::LoadConfigs(pid)
                    && pid == new.payload.project_id),
            }
        },
        _ => new.stage == Stage::Done && r.len() == 1 && r[0] is Fail,
    }
}

/// The fresh cooling marker: `{cooling}@{eventTime}` under the cooling key.
pub open spec fn cooling_write(w: StoreWrite, vo: BoxReportRequest, cs: int, t: int, now_ms: int) -> bool {
    &&& w.key@ == cooling_key_spec(vo)
    &&& w.value matches StoreValue::Text(v) && v@ == marker_text(cs, t)
    &&& w.ttl_secs as int == marker_ttl(cs, t, now_ms)
}

/// A suppressed report arms the guard and is answered; one that passes
/// records its marker (where it has an event time) and loads the settings.
#[verifier::opaque]
pub open spec fn cooling_outcome(
    old: Pipeline,
    stored: Option<Seq<char>>,
    now_ms: i64,
    new: Pipeline,
    r: Seq<Action>,
) -> bool {
    let loads = r.len() > 0 && (r.last() matches Action::LoadConfigs(pid) && pid
        == old.payload.project_id) && new.stage == Stage::AwaitConfigs;
    match cooling_second_spec(old.filter_events_config, old.payload) {
        Some(cs) => if cooling_suppresses(stored, cs, old.payload.event_time) {
            new.stage == Stage::Done && r.len() == 2 && arms(r[0], old.id_spec()) && is_reply(
                r[1],
                old.id_spec(),
                "Event filtered by cooling-down mechanism"@,
            )
        } else {
            &&& loads
            &&& old.payload.event_time matches Some(t) ==> r.len() == 2 && (r[0] matches Action::Write(w)
                && cooling_write(w, old.payload, cs, t as int, now_ms as int))
            &&& old.payload.event_time is None ==> r.len() == 1
        },
        None => loads && r.len() == 1,
    }
}

/// After the dedup markers are read (or where none is needed): the chain's
/// veto persists the record as "filtered" with the rule's tag; an "unknown"
/// report is persisted as it is; a report without event type is answered;
/// any other goes on to the algorithm. All but the last action are writes.
#[verifier::opaque]
pub open spec fn markers_result(
    payload: BoxReportRequest,
    configs: Seq<EventFilterConfig>,
    task: Task,
    id: Seq<char>,
    plate_stored: Option<Seq<char>>,
    pos_stored: Option<Json>,
    now_ms: i64,
    new: Pipeline,
    r: Seq<Action>,
) -> bool {
    &&& r.len() > 0
    &&& forall|i: int| 0 <= i < r.len() - 1 ==> #[trigger] r[i] is Write
    &&& match chain_reason(payload, configs, plate_stored, pos_stored) {
        Some(rs) => new.stage == Stage::AwaitSaveFiltered && opt_is(new.payload.marking, "filtered"@)
            && (r.last() matches Action::Persist(rec) && record_core(rec, payload, task, now_ms)
            && opt_is(rec.marking, "filtered"@) && opt_is(rec.filtered_type, rs.tag_spec())),
        None => if opt_is(payload.marking, "unknown"@) {
            new.stage == Stage::AwaitSaveUnknown && (r.last() matches Action::Persist(rec)
                && record_of(rec, payload, task, now_ms))
        } else if payload.event_type is None {
            new.stage == Stage::Done && is_reply(r.last(), id, "Invalid event_type"@)
        } else {
            new.stage == Stage::AwaitAlgorithm && r.last() is LoadAlgorithms
        },
    }
}

/// The same-plate rule of the plate settings applies to the report.
pub open spec fn plate_rule_applies(vo: BoxReportRequest, configs: Seq<EventFilterConfig>) -> bool {
    config_of(configs, "plate"@) matches Some(pc) && same_plate_cooling(vo, pc).is_some()
}

/// The same-position rule of the other settings applies to the report.
pub open spec fn pos_rule_applies(vo: BoxReportRequest, configs: Seq<EventFilterConfig>) -> bool {
    config_of(configs, "other"@) matches Some(oc) && pos_rule(vo, oc).is_some()
}

fn plate_marker_key(vo: &BoxReportRequest, configs: &Vec<EventFilterConfig>) -> (r: Option<String>)
    ensures
        r.is_some() == plate_rule_applies(*vo, configs@),
        r matches Some(k) ==> k@ == plate_key_spec(*vo),
{
    match get_config(configs, "plate") {
        Some(pc) => match same_plate_cooling_secs(vo, pc) {
            Some(_) => Some(plate_key(vo)),
            None => None,
        },
        None => None,
    }
}

fn pos_marker_key(vo: &BoxReportRequest, configs: &Vec<EventFilterConfig>) -> (r: Option<String>)
    ensures
        r.is_some() == pos_rule_applies(*vo, configs@),
        r matches Some(k) ==> k@ == pos_key_spec(*vo),
{
    match get_config(configs, "other") {
        Some(oc) => same_pos_key(vo, oc),
        None => None,
    }
}

/// The settings are kept; the markers the chain needs are read, or where it
/// needs none the chain is decided at once. A refill failure is a hard failure.
#[verifier::opaque]
pub open spec fn configs_outcome(
    old: Pipeline,
    c: Option<Seq<EventFilterConfig>>,
    now_ms: i64,
    new: Pipeline,
    r: Seq<Action>,
) -> bool {
    match c {
        None => new.stage == Stage::Done && r.len() == 1 && r[0] is Fail,
        Some(list) => {
            let plate_applies = plate_rule_applies(old.payload, list);
            let pos_applies = pos_rule_applies(old.payload, list);
            &&& new.configs@ == list
            &&& if plate_applies || pos_applies {
                &&& new.stage == Stage::AwaitMarkers
                &&& r.len() == 1
                &&& r[0] matches Action::ReadMarkers(pk, qk) && {
                    &&& pk.is_some() == plate_applies
                    &&& pk matches Some(k) ==> k@ == plate_key_spec(old.payload)
                    &&& qk.is_some() == pos_applies
                    &&& qk matches Some(k) ==> k@ == pos_key_spec(old.payload)
                }
            } else {
                markers_result(old.payload, list, old.task.unwrap(), old.id_spec(), None, None, now_ms, new, r)
            }
        },
    }
}

/// The review decision, and the record to persist.
#[verifier::opaque]
pub open spec fn decision_result(
    payload: BoxReportRequest,
    task: Task,
    algorithm: Algorithm,
    global_review: Option<Seq<char>>,
    now_ms: i64,
    now_text: Seq<char>,
    new: Pipeline,
    r: Seq<Action>,
) -> bool {
    let review = personnel_decision(payload, algorithm, global_review);
    &&& new.stage == Stage::AwaitSave
    &&& new.review == Some(review)
    &&& r.len() == 1
    &&& r[0] matches Action::Persist(rec) && {
        &&& record_core(rec, payload, task, now_ms)
        &&& review == PersonnelCheckResult::Enable ==> opt_is(rec.marking, "init"@) && rec.marking_time
            == Some(now_ms) && same_opt(rec.extra, payload.extra)
        &&& review == PersonnelCheckResult::Disable ==> opt_is(rec.marking, "event"@) && (rec.extra matches Some(x) && (field(x, "marking"@) matches Some(b) && is_marking_block(b, now_text)))
    }
}

/// The first algorithm with the event type's code is taken; the decision
/// reads the global switch first where it needs it. A refill failure is a hard
/// failure; no such algorithm is answered.
#[verifier::opaque]
pub open spec fn algorithm_outcome(
    old: Pipeline,
    a: Option<Seq<Algorithm>>,
    now_ms: i64,
    now_text: Seq<char>,
    new: Pipeline,
    r: Seq<Action>,
) -> bool {
    let code = or_empty(old.payload.event_type);
    match a {
        None => new.stage == Stage::Done && r.len() == 1 && r[0] is Fail,
        Some(list) => if old.payload.event_type is Some && exists|i: int|
            first_index(list, alg_code_is(code), i) {
            let alg = list[choose|i: int| first_index(list, alg_code_is(code), i)];
            &&& new.algorithm == Some(alg)
            &&& if uses_global_switch(old.payload) {
                new.stage == Stage::AwaitGlobalSwitch && r.len() == 1 && (r[0] matches Action::ReadGlobalSwitch(k)
                    && k@ == global_review_key_spec())
            } else {
                decision_result(old.payload, old.task.unwrap(), alg, None, now_ms, now_text, new, r)
            }
        } else {
            new.stage == Stage::Done && r.len() == 1 && is_reply(
                r[0],
                old.id_spec(),
                "No algorithm found for event type. Skipping personnel check"@,
            )
        },
    }
}

/// The end of a save: a failure is a hard failure; otherwise a filtered
/// event goes to the message relay, a reviewed one to the review queue with
/// its new id, and every one arms the replay guard and is answered.
#[verifier::opaque]
pub open spec fn saved_outcome(old: Pipeline, res: Result<i64, String>, new: Pipeline, r: Seq<Action>) -> bool {
    let id = old.id_spec();
    &&& new.stage == Stage::Done
    &&& match res {
        Err(_) => r.len() == 1 && r[0] is Fail,
        Ok(event_id) => if old.stage == Stage::AwaitSaveFiltered {
            r.len() == 3 && r[0] is NotifyRelay && arms(r[1], id) && is_reply(
                r[2],
                id,
                "Event filtered by the rule filter chain"@,
            )
        } else if old.stage == Stage::AwaitSaveUnknown {
            r.len() == 2 && arms(r[0], id) && is_reply(r[1], id, "unknown event saved"@)
        } else if old.review == Some(PersonnelCheckResult::Enable) {
            r.len() == 3 && (r[0] matches Action::PushReview(i, _) && i == event_id) && arms(r[1], id)
                && is_reply(r[2], id, "Event processed successfully"@)
        } else {
            r.len() == 2 && arms(r[0], id) && is_reply(r[1], id, "Event processed successfully"@)
        },
    }
}

/// What one step does, by stage and observation. An observation that does
/// not fit the stage changes nothing.
pub open spec fn step_spec(
    old: Pipeline,
    ev: PipelineEvent,
    now_ms: i64,
    now_text: Seq<char>,
    new: Pipeline,
    r: Seq<Action>,
) -> bool {
    match (old.stage, ev) {
        (Stage::Start, PipelineEvent::Begin) => start_outcome(old, new, r),
        (Stage::AwaitReplay, PipelineEvent::ReplayProbed(p)) => replay_outcome(old, p, new, r),
        (Stage::AwaitTask, PipelineEvent::TasksLoaded(ts)) => tasks_outcome(
            old,
            match ts {
                Some(v) => Some(v@),
                None => None,
            },
            new,
            r,
        ),
        (Stage::AwaitCooling, PipelineEvent::CoolingRead(v)) => cooling_outcome(old, opt_view(v), now_ms, new, r),
        (Stage::AwaitConfigs, PipelineEvent::ConfigsLoaded(c)) => configs_outcome(
            old,
            match c {
                Some(v) => Some(v@),
                None => None,
            },
            now_ms,
            new,
            r,
        ),
        (Stage::AwaitMarkers, PipelineEvent::MarkersRead(p, q)) => markers_result(
            old.payload,
            old.configs@,
            old.task.unwrap(),
            old.id_spec(),
            opt_view(p),
            q,
            now_ms,
            new,
            r,
        ),
        (Stage::AwaitAlgorithm, PipelineEvent::AlgorithmsLoaded(a)) => algorithm_outcome(
            old,
            match a {
                Some(v) => Some(v@),
                None => None,
            },
            now_ms,
            now_text,
            new,
            r,
        ),
        (Stage::AwaitGlobalSwitch, PipelineEvent::GlobalSwitchRead(g)) => decision_result(
            old.payload,
            old.task.unwrap(),
            old.algorithm.unwrap(),
            opt_view(g),
            now_ms,
            now_text,
            new,
            r,
        ),
        (Stage::AwaitSaveFiltered, PipelineEvent::Saved(res)) => saved_outcome(old, res, new, r),
        (Stage::AwaitSaveUnknown, PipelineEvent::Saved(res)) => saved_outcome(old, res, new, r),
        (Stage::AwaitSave, PipelineEvent::Saved(res)) => saved_outcome(old, res, new, r),
        _ => new.stage == old.stage && r.len() == 0,
    }
}

fn reply(id: &str, tail: &str) -> (r: Action)
    ensures
        is_reply(r, id@, tail@),
{
    let mut m = String::from_str("Box report: engine_event_id: ");
    m.append(id);
    m.append(", RESULT: ");
    m.append(tail);
    Action::Reply(m)
}

fn present_str(o: &Option<String>) -> (r: bool)
    ensures
        r == present(*o),
{
    match o {
        Some(s) => s.as_str().unicode_len() > 0,
        None => false,
    }
}

/// The filter chain's verdict, of which the pipeline reads only the veto.
fn chain_verdict(
    vo: &BoxReportRequest,
    configs: &Vec<EventFilterConfig>,
    plate_stored: Option<&str>,
    pos_stored: Option<&Json>,
) -> (r: crate::event_processing::ChainOutcome)
    ensures
        r.reason == chain_reason(*vo, configs@, opt_str_view(plate_stored), deref_opt(pos_stored)),
{
    filter_event(vo, configs, plate_stored, pos_stored)
}

impl Pipeline {
    pub fn new(payload: BoxReportRequest, filter_events_config: Json) -> (r: Pipeline)
        ensures
            r.stage == Stage::Start,
            r.payload == payload,
            r.filter_events_config == filter_events_config,
            inv(r),
    {
        Pipeline {
            stage: Stage::Start,
            payload,
            filter_events_config,
            task: None,
            configs: Vec::new(),
            algorithm: None,
            review: None,
        }
    }

    pub open spec fn id_spec(&self) -> Seq<char> {
        or_empty(self.payload.engine_event_id)
    }

    fn engine_id(&self) -> (r: String)
        ensures
            r@ == self.id_spec(),
    {
        String::from_str(as_str_or_empty(&self.payload.engine_event_id))
    }

    /// Advances the pipeline on one observation. `now_ms` is the current time
    /// and `now_text` its local rendering, stamped on events handled without
    /// review. From `new` on, every step keeps `inv`, and does what
    /// `step_spec` says.
    pub fn step(&mut self, ev: PipelineEvent, now_ms: i64, now_text: &str) -> (r: Vec<Action>)
        ensures
            final(self).id_spec() == old(self).id_spec(),
            inv(*old(self)) ==> inv(*final(self)),
            inv(*old(self)) ==> step_spec(*old(self), ev, now_ms, now_text@, *final(self), r@),
            // the message relay hears only of saved filtered events
            forall|i: int| 0 <= i < r@.len() && #[trigger] r@[i] is NotifyRelay ==> old(self).stage
                == Stage::AwaitSaveFiltered && ev is Saved,
            // the review queue hears only of saved events whose review is enabled
            forall|i: int| 0 <= i < r@.len() && #[trigger] r@[i] is PushReview ==> old(self).stage
                == Stage::AwaitSave && old(self).review == Some(PersonnelCheckResult::Enable),
            old(self).stage == Stage::Done ==> r@.len() == 0 && final(self).stage == Stage::Done,
    {
        let id = self.engine_id();
        match (self.stage, ev) {
            (Stage::Start, PipelineEvent::Begin) => self.on_begin(&id),
            (Stage::AwaitReplay, PipelineEvent::ReplayProbed(p)) => self.on_replay(p, &id),
            (Stage::AwaitTask, PipelineEvent::TasksLoaded(ts)) => self.on_tasks(ts),
            (Stage::AwaitCooling, PipelineEvent::CoolingRead(v)) => self.on_cooling(v, now_ms, &id),
            (Stage::AwaitConfigs, PipelineEvent::ConfigsLoaded(c)) => self.on_configs(c, now_ms, &id),
            (Stage::AwaitMarkers, PipelineEvent::MarkersRead(p, q)) => {
                let plate_stored = match &p {
                    Some(s) => Some(s.as_str()),
                    None => None,
                };
                let pos_stored = match &q {
                    Some(j) => Some(j),
                    None => None,
                };
                self.on_markers(plate_stored, pos_stored, now_ms, &id)
            },
            (Stage::AwaitAlgorithm, PipelineEvent::AlgorithmsLoaded(a)) => self.on_algorithms(
                a,
                now_ms,
                now_text,
                &id,
            ),
            (Stage::AwaitGlobalSwitch, PipelineEvent::GlobalSwitchRead(g)) => {
                let gs = match &g {
                    Some(s) => Some(s.as_str()),
                    None => None,
                };
                self.decide(gs, now_ms, now_text)
            },
            (Stage::AwaitSaveFiltered, PipelineEvent::Saved(res)) => self.on_saved(res, &id),
            (Stage::AwaitSaveUnknown, PipelineEvent::Saved(res)) => self.on_saved(res, &id),
            (Stage::AwaitSave, PipelineEvent::Saved(res)) => self.on_saved(res, &id),
            _ => Vec::new(),
        }
    }

    fn on_begin(&mut self, id: &String) -> (r: Vec<Action>)
        requires
            old(self).stage == Stage::Start,
            id@ == old(self).id_spec(),
        ensures
            final(self).id_spec() == old(self).id_spec(),
            inv(*final(self)),
            start_outcome(*old(self), *final(self), r@),
            no_relay(r@),
            no_push(r@),
    {
        reveal(start_outcome);
        if !present_str(&self.payload.source) {
            self.stage = Stage::Done;
            return vec![reply(id.as_str(), "Invalid source")];
        }
        if !present_str(&self.payload.engine_event_id) {
            self.stage = Stage::Done;
            return vec![reply(id.as_str(), "Invalid engine_event_id")];
        }
        self.stage = Stage::AwaitReplay;
        vec![Action::ProbeReplay(id.clone())]
    }

    fn on_replay(&mut self, p: Option<bool>, id: &String) -> (r: Vec<Action>)
        requires
            old(self).stage == Stage::AwaitReplay,
            id@ == old(self).id_spec(),
        ensures
            final(self).id_spec() == old(self).id_spec(),
            inv(*final(self)),
            replay_outcome(*old(self), p, *final(self), r@),
            no_relay(r@),
            no_push(r@),
    {
        reveal(replay_outcome);
        if p == Some(true) {
            self.stage = Stage::Done;
            return vec![reply(id.as_str(), "Event already processed")];
        }
        if self.payload.task_code.is_none() {
            self.stage = Stage::Done;
            return vec![
                Action::Fail(
                    String::from_str("no task cached data, err:Task code is missing in the payload."),
                ),
            ];
        }
        self.stage = Stage::AwaitTask;
        vec![Action::LoadTasks]
    }

    fn on_tasks(&mut self, ts: Option<Vec<Task>>) -> (r: Vec<Action>)
        requires
            old(self).stage == Stage::AwaitTask,
        ensures
            final(self).id_spec() == old(self).id_spec(),
            inv(*final(self)),
            tasks_outcome(
                *old(self),
                match ts {
                    Some(v) => Some(v@),
                    None => None,
                },
                *final(self),
                r@,
            ),
            no_relay(r@),
            no_push(r@),
    {
        reveal(tasks_outcome);
        let code = String::from_str(as_str_or_empty(&self.payload.task_code));
        let failure = {
            let mut m = String::from_str("no task cached data, err:failed to load cached task ");
            m.append(code.as_str());
            m
        };
        let ghost code_v = code@;
        let tasks = match ts {
            Some(t) => t,
            None => {
                self.stage = Stage::Done;
                return vec![Action::Fail(failure)];
            },
        };
        let ghost all = tasks@;
        let criteria = TaskSearchCriteria { code: Some(code), box_sn: None, project_id: None };
        let ghost f = task_filter(criteria);
        let ghost g = task_code_is(code_v);
        assert(forall|t: Task| #[trigger] f(t) == g(t));
        let mut found = find_running_tasks_by_criteria(tasks, &criteria);
        if found.len() == 0 {
            proof {
                if exists|i: int| first_index(all, g, i) {
                    let i = choose|i: int| first_index(all, g, i);
                    assert(f(all[i]));
                    lemma_filter_keeps(all, f, i);
                }
            }
            self.stage = Stage::Done;
            return vec![Action::Fail(failure)];
        }
        let ghost kept = found@;
        let task = found.remove(0);
        proof {
            crate::report::lemma_filter_nonempty(all, f);
            let j = choose|j: int| 0 <= j < all.len() && f(all[j]);
            assert(exists|i: int| first_index(all, g, i)) by {
                lemma_first_match(all, g, j);
            }
            let i = choose|i: int| first_index(all, g, i);
            assert forall|m: int| 0 <= m < i implies !f(#[trigger] all[m]) by {
                assert(!g(all[m]));
            }
            assert(first_index(all, f, i));
            lemma_filter_first(all, f, i);
        }
        self.payload.project_id = match task.project_id {
            Some(p) => p,
            None => 0,
        };
        self.payload.project_name = match &task.project_name {
            Some(n) => n.clone(),
            None => String::new(),
        };
        self.task = Some(task);
        match cooling_read_key(&self.filter_events_config, &self.payload) {
            Some(k) => {
                self.stage = Stage::AwaitCooling;
                vec![Action::ReadCooling(k)]
            },
            None => {
                self.stage = Stage::AwaitConfigs;
                vec![Action::LoadConfigs(self.payload.project_id)]
            },
        }
    }

    fn on_cooling(&mut self, v: Option<String>, now_ms: i64, id: &String) -> (r: Vec<Action>)
        requires
            old(self).stage == Stage::AwaitCooling,
            id@ == old(self).id_spec(),
        ensures
            final(self).id_spec() == old(self).id_spec(),
            inv(*old(self)) ==> inv(*final(self)),
            cooling_outcome(*old(self), opt_view(v), now_ms, *final(self), r@),
            no_relay(r@),
            no_push(r@),
    {
        reveal(cooling_outcome);
        let stored = match &v {
            Some(s) => Some(s.as_str()),
            None => None,
        };
        let out = handle_cooling_down_filter(&self.filter_events_config, &self.payload, stored, now_ms);
        if out.suppressed {
            self.stage = Stage::Done;
            return vec![
                Action::ArmReplay(id.clone()),
                reply(id.as_str(), "Event filtered by cooling-down mechanism"),
            ];
        }
        let mut actions: Vec<Action> = Vec::new();
        match out.write {
            Some(w) => actions.push(Action::Write(w)),
            None => {},
        }
        self.stage = Stage::AwaitConfigs;
        actions.push(Action::LoadConfigs(self.payload.project_id));
        actions
    }

    fn on_configs(&mut self, c: Option<Vec<EventFilterConfig>>, now_ms: i64, id: &String) -> (r: Vec<Action>)
        requires
            old(self).stage == Stage::AwaitConfigs,
            id@ == old(self).id_spec(),
        ensures
            final(self).id_spec() == old(self).id_spec(),
            inv(*old(self)) ==> inv(*final(self)),
            inv(*old(self)) ==> configs_outcome(
                *old(self),
                match c {
                    Some(v) => Some(v@),
                    None => None,
                },
                now_ms,
                *final(self),
                r@,
            ),
            no_relay(r@),
            no_push(r@),
    {
        reveal(configs_outcome);
        let configs = match c {
            Some(list) => list,
            None => {
                self.stage = Stage::Done;
                return vec![
                    Action::Fail(String::from_str("failed to load the project's filter settings")),
                ];
            },
        };
        if self.task.is_none() {
            self.stage = Stage::Done;
            return vec![Action::Fail(String::from_str("no task cached data"))];
        }
        self.configs = configs;
        let plate = plate_marker_key(&self.payload, &self.configs);
        let pos = pos_marker_key(&self.payload, &self.configs);
        if plate.is_some() || pos.is_some() {
            self.stage = Stage::AwaitMarkers;
            return vec![Action::ReadMarkers(plate, pos)];
        }
        self.on_markers(None, None, now_ms, id)
    }

    fn on_markers(&mut self, plate_stored: Option<&str>, pos_stored: Option<&Json>, now_ms: i64, id: &String) -> (r: Vec<Action>)
        requires
            id@ == old(self).id_spec(),
        ensures
            final(self).id_spec() == old(self).id_spec(),
            final(self).task == old(self).task,
            final(self).configs == old(self).configs,
            final(self).stage == Stage::Done || final(self).stage == Stage::AwaitSaveFiltered
                || final(self).stage == Stage::AwaitSaveUnknown || final(self).stage == Stage::AwaitAlgorithm,
            old(self).task is Some ==> markers_result(old(self).payload, old(self).configs@, old(self).task.unwrap(), old(self).id_spec(), opt_str_view(plate_stored), deref_opt(pos_stored), now_ms, *final(self), r@),
            no_relay(r@),
            no_push(r@),
    {
        reveal(markers_result);
        let task = match &self.task {
            Some(t) => t,
            None => {
                self.stage = Stage::Done;
                return vec![Action::Fail(String::from_str("no task cached data"))];
            },
        };
        let out = chain_verdict(&self.payload, &self.configs, plate_stored, pos_stored);
        let mut actions: Vec<Action> = Vec::new();
        match out.plate_write {
            Some(w) => actions.push(Action::Write(w)),
            None => {},
        }
        match out.position_write {
            Some(w) => actions.push(Action::Write(w)),
            None => {},
        }
        assert(forall|i: int| 0 <= i < actions@.len() ==> #[trigger] actions@[i] is Write);
        match out.reason {
            Some(reason) => {
                let record = filtered_record(&self.payload, task, now_ms, reason);
                self.payload.marking = Some(String::from_str("filtered"));
                actions.push(Action::Persist(record));
                self.stage = Stage::AwaitSaveFiltered;
                return actions;
            },
            None => {},
        }
        if opt_eq(&self.payload.marking, "unknown") {
            let record = event_from_payload(&self.payload, task, now_ms);
            actions.push(Action::Persist(record));
            self.stage = Stage::AwaitSaveUnknown;
            return actions;
        }
        if self.payload.event_type.is_none() {
            actions.push(reply(id.as_str(), "Invalid event_type"));
            self.stage = Stage::Done;
            return actions;
        }
        actions.push(Action::LoadAlgorithms);
        self.stage = Stage::AwaitAlgorithm;
        actions
    }

    fn on_algorithms(&mut self, a: Option<Vec<Algorithm>>, now_ms: i64, now_text: &str, id: &String) -> (r: Vec<Action>)
        requires
            old(self).stage == Stage::AwaitAlgorithm,
            id@ == old(self).id_spec(),
        ensures
            final(self).id_spec() == old(self).id_spec(),
            inv(*old(self)) ==> inv(*final(self)),
            inv(*old(self)) ==> algorithm_outcome(
                *old(self),
                match a {
                    Some(v) => Some(v@),
                    None => None,
                },
                now_ms,
                now_text@,
                *final(self),
                r@,
            ),
            no_relay(r@),
            no_push(r@),
    {
        reveal(algorithm_outcome);
        if self.task.is_none() {
            self.stage = Stage::Done;
            return vec![Action::Fail(String::from_str("no task cached data"))];
        }
        let list = match a {
            Some(l) => l,
            None => {
                self.stage = Stage::Done;
                return vec![Action::Fail(String::from_str("failed to load the algorithms"))];
            },
        };
        let ghost all = list@;
        let found = match &self.payload.event_type {
            Some(et) => find_algorithm_by_code(list, et.as_str()),
            None => None,
        };
        match found {
            Some(alg) => {
                proof {
                    let code = or_empty(old(self).payload.event_type);
                    let i = choose|i: int| first_index(all, alg_code_is(code), i) && alg == all[i];
                    let k = choose|k: int| first_index(all, alg_code_is(code), k);
                    lemma_first_index_unique(all, alg_code_is(code), i, k);
                }
                self.algorithm = Some(alg);
                if needs_global_switch(&self.payload) {
                    self.stage = Stage::AwaitGlobalSwitch;
                    return vec![Action::ReadGlobalSwitch(global_review_key())];
                }
                self.decide(None, now_ms, now_text)
            },
            None => {
                proof {
                    let code = or_empty(old(self).payload.event_type);
                    if old(self).payload.event_type is Some && exists|i: int| first_index(all, alg_code_is(code), i) {
                        let i = choose|i: int| first_index(all, alg_code_is(code), i);
                        assert(opt_is(all[i].code, code));
                    }
                }
                self.stage = Stage::Done;
                vec![reply(id.as_str(), "No algorithm found for event type. Skipping personnel check")]
            },
        }
    }

    fn decide(&mut self, global_review: Option<&str>, now_ms: i64, now_text: &str) -> (r: Vec<Action>)
        ensures
            final(self).id_spec() == old(self).id_spec(),
            final(self).task == old(self).task,
            final(self).algorithm == old(self).algorithm,
            inv(*final(self)),
            old(self).task is Some && old(self).algorithm is Some ==> decision_result(old(self).payload, old(self).task.unwrap(), old(self).algorithm.unwrap(), opt_str_view(global_review), now_ms, now_text@, *final(self), r@),
            no_relay(r@),
            no_push(r@),
    {
        reveal(decision_result);
        let (task, algorithm) = match (&self.task, &self.algorithm) {
            (Some(t), Some(a)) => (t, a),
            _ => {
                self.stage = Stage::Done;
                return vec![Action::Fail(String::from_str("no task or algorithm for the event"))];
            },
        };
        let review = personnel_check(&self.payload, algorithm, global_review);
        let record = decided_record(&self.payload, task, now_ms, review, now_text);
        self.review = Some(review);
        self.stage = Stage::AwaitSave;
        vec![Action::Persist(record)]
    }

    fn on_saved(&mut self, res: Result<i64, String>, id: &String) -> (r: Vec<Action>)
        requires
            old(self).stage == Stage::AwaitSaveFiltered || old(self).stage == Stage::AwaitSaveUnknown
                || old(self).stage == Stage::AwaitSave,
            id@ == old(self).id_spec(),
        ensures
            final(self).id_spec() == old(self).id_spec(),
            inv(*final(self)),
            saved_outcome(*old(self), res, *final(self), r@),
            forall|i: int| 0 <= i < r@.len() && #[trigger] r@[i] is NotifyRelay ==> old(self).stage
                == Stage::AwaitSaveFiltered,
            forall|i: int| 0 <= i < r@.len() && #[trigger] r@[i] is PushReview ==> old(self).stage
                == Stage::AwaitSave && old(self).review == Some(PersonnelCheckResult::Enable),
    {
        reveal(saved_outcome);
        let stage = self.stage;
        self.stage = Stage::Done;
        let event_id = match res {
            Ok(i) => i,
            Err(e) => return vec![Action::Fail(e)],
        };
        if stage == Stage::AwaitSaveFiltered {
            return vec![
                Action::NotifyRelay,
                Action::ArmReplay(id.clone()),
                reply(id.as_str(), "Event filtered by the rule filter chain"),
            ];
        }
        if stage == Stage::AwaitSaveUnknown {
            return vec![Action::ArmReplay(id.clone()), reply(id.as_str(), "unknown event saved")];
        }
        if self.review == Some(PersonnelCheckResult::Enable) {
            let extras = review_push_extras(
                &self.payload,
                match &self.algorithm {
                    Some(a) => Some(a),
                    None => None,
                },
            );
            return vec![
                Action::PushReview(event_id, extras),
                Action::ArmReplay(id.clone()),
                reply(id.as_str(), "Event processed successfully"),
            ];
        }
        vec![Action::ArmReplay(id.clone()), reply(id.as_str(), "Event processed successfully")]
    }
}

/// Where some position holds the predicate, a first one does.
proof fn lemma_first_match<A>(s: Seq<A>, f: spec_fn(A) -> bool, j: int)
    requires
        0 <= j < s.len(),
        f(s[j]),
    ensures
        exists|i: int| first_index(s, f, i),
    decreases j,
{
    if exists|k: int| 0 <= k < j && f(s[k]) {
        let k = choose|k: int| 0 <= k < j && f(s[k]);
        lemma_first_match(s, f, k);
    } else {
        assert(first_index(s, f, j));
    }
}

} // verus!
