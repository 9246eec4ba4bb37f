//! The inbound event report and the reference records it is checked against,
//! with the in-memory lookups over cached reference sets.

use vstd::prelude::*;

use crate::json::{str_eq, Json};

verus! {

/// An event report pushed by a detection box. Times are milliseconds since
/// the Unix epoch.
pub struct BoxReportRequest {
    pub id: Option<i64>,
    pub task_code: Option<String>,
    pub source: Option<String>,
    pub event_type: Option<String>,
    pub event_type_name: Option<String>,
    pub event_time: Option<i64>,
    pub end_time: Option<i64>,
    pub marking: Option<String>,
    pub engine_event_id: Option<String>,
    pub vehicle_type: Option<String>,
    pub plate_number: Option<String>,
    pub plate_color: Option<String>,
    pub special_car_type: Option<String>,
    pub engine_version: Option<String>,
    pub snapshot: Option<Json>,
    pub snapshot_uri_compress: Option<String>,
    pub snapshot_uri_raw_compress: Option<String>,
    pub snapshot_uri_cover_compress: Option<String>,
    pub extra_data: Option<Json>,
    pub camera_code: Option<String>,
    pub evidence_status: Option<String>,
    pub evidence_url: Option<String>,
    pub original_violation_index: Option<i32>,
    pub extra: Option<Json>,
    pub project_id: i64,
    pub project_name: String,
    pub company_id: i64,
    pub company_name: String,
}

/// A detection task; only running tasks are cached.
pub struct Task {
    pub id: i64,
    pub code: Option<String>,
    pub name: Option<String>,
    pub box_sn: Option<String>,
    pub scene_id: Option<i64>,
    pub status: Option<String>,
    pub project_id: Option<i64>,
    pub project_name: Option<String>,
}

/// An algorithm definition, keyed by its code (the event type).
pub struct Algorithm {
    pub id: i64,
    pub code: Option<String>,
    pub draw_type: Option<String>,
    pub editable_config: Option<Json>,
    /// Algorithm-level personnel review toggle; `1` enables review.
    pub review_switch: Option<i32>,
}

/// One group of event filter settings of a project.
pub struct EventFilterConfig {
    pub id: i64,
    pub project_id: Option<i64>,
    pub setting_group: Option<String>,
    pub config: Option<Json>,
}

/// Base configuration of a project.
pub struct BaseConfig {
    pub id: i64,
    pub project_id: Option<i64>,
    pub code: Option<String>,
    pub config: Option<Json>,
}

/// A camera attached to a box.
pub struct Camera {
    pub id: i64,
    pub code: Option<String>,
    pub box_id: Option<i64>,
    pub box_sn: Option<String>,
    pub project_id: Option<i64>,
}

/// Criteria for running tasks; an absent criterion matches every task.
pub struct TaskSearchCriteria {
    pub code: Option<String>,
    pub box_sn: Option<String>,
    pub project_id: Option<i64>,
}

/// Criteria for cameras; an absent criterion matches every camera.
pub struct CameraSearchCriteria {
    pub code: Option<String>,
    pub box_id: Option<i64>,
    pub box_sn: Option<String>,
    pub project_id: Option<i64>,
}

impl TaskSearchCriteria {
    pub fn new() -> (r: TaskSearchCriteria)
        ensures
            r.code is None && r.box_sn is None && r.project_id is None,
    {
        TaskSearchCriteria { code: None, box_sn: None, project_id: None }
    }
}

impl CameraSearchCriteria {
    pub fn new() -> (r: CameraSearchCriteria)
        ensures
            r.code is None && r.box_id is None && r.box_sn is None && r.project_id is None,
    {
        CameraSearchCriteria { code: None, box_id: None, box_sn: None, project_id: None }
    }
}

/// The view of an optional string.
pub open spec fn opt_view(o: Option<String>) -> Option<Seq<char>> {
    match o {
        Some(s) => Some(s@),
        None => None,
    }
}

/// An optional string that is present and equal to `s`.
pub open spec fn opt_is(o: Option<String>, s: Seq<char>) -> bool {
    opt_view(o) == Some(s)
}

pub fn opt_eq(o: &Option<String>, s: &str) -> (r: bool)
    ensures
        r == opt_is(*o, s@),
{
    match o {
        Some(v) => str_eq(v.as_str(), s),
        None => false,
    }
}

/// A copy of an optional string.
pub fn copy_opt(o: &Option<String>) -> (r: Option<String>)
    ensures
        r == *o,
{
    match o {
        Some(v) => Some(v.clone()),
        None => None,
    }
}

/// An optional criterion: absent, or met.
pub open spec fn str_criterion(c: Option<String>, v: Option<String>) -> bool {
    match c {
        Some(s) => opt_is(v, s@),
        None => true,
    }
}

pub open spec fn int_criterion(c: Option<i64>, v: Option<i64>) -> bool {
    match c {
        Some(n) => v == Some(n),
        None => true,
    }
}

fn str_criterion_met(c: &Option<String>, v: &Option<String>) -> (r: bool)
    ensures
        r == str_criterion(*c, *v),
{
    match c {
        Some(s) => opt_eq(v, s.as_str()),
        None => true,
    }
}

fn int_criterion_met(c: Option<i64>, v: Option<i64>) -> (r: bool)
    ensures
        r == int_criterion(c, v),
{
    match c {
        Some(n) => v == Some(n),
        None => true,
    }
}

pub open spec fn task_filter(c: TaskSearchCriteria) -> spec_fn(Task) -> bool {
    |t: Task| task_matches(c, t)
}

pub open spec fn camera_filter(c: CameraSearchCriteria) -> spec_fn(Camera) -> bool {
    |m: Camera| camera_matches(c, m)
}

pub open spec fn project_filter(project_id: i64) -> spec_fn(EventFilterConfig) -> bool {
    |c: EventFilterConfig| c.project_id == Some(project_id)
}

pub open spec fn task_matches(c: TaskSearchCriteria, t: Task) -> bool {
    str_criterion(c.code, t.code) && str_criterion(c.box_sn, t.box_sn) && int_criterion(
        c.project_id,
        t.project_id,
    )
}

pub open spec fn camera_matches(c: CameraSearchCriteria, m: Camera) -> bool {
    str_criterion(c.code, m.code) && int_criterion(c.box_id, m.box_id) && str_criterion(
        c.box_sn,
        m.box_sn,
    ) && int_criterion(c.project_id, m.project_id)
}

/// The running tasks that meet every given criterion, in their cached order.
pub fn find_running_tasks_by_criteria(tasks: Vec<Task>, criteria: &TaskSearchCriteria) -> (r: Vec<
    Task,
>)
    ensures
        r@ == tasks@.filter(task_filter(*criteria)),
{
    let ghost all = tasks@;
    let mut rest = tasks;
    let mut out: Vec<Task> = Vec::new();
    let ghost mut k: int = 0;
    while rest.len() > 0
        invariant
            0 <= k <= all.len(),
            rest@ == all.subrange(k, all.len() as int),
            out@ == all.subrange(0, k).filter(task_filter(*criteria)),
        decreases rest.len(),
    {
        let t = rest.remove(0);
        proof {
            assert(all.subrange(0, k + 1).drop_last() == all.subrange(0, k));
            assert(all.subrange(0, k + 1).last() == all[k]);
            assert(t == all[k]);
        }
        let keep = str_criterion_met(&criteria.code, &t.code) && str_criterion_met(
            &criteria.box_sn,
            &t.box_sn,
        ) && int_criterion_met(criteria.project_id, t.project_id);
        proof {
            let f = task_filter(*criteria);
            assert(keep == f(t));
            reveal_with_fuel(Seq::filter, 2);
            assert(all.subrange(0, k + 1).filter(f) == if f(t) {
                all.subrange(0, k).filter(f).push(t)
            } else {
                all.subrange(0, k).filter(f)
            });
        }
        if keep {
            out.push(t);
        }
        proof {
            k = k + 1;
            assert(rest@ =~= all.subrange(k, all.len() as int));
        }
    }
    assert(all.subrange(0, all.len() as int) == all);
    out
}

/// The cameras that meet every given criterion, in their cached order.
pub fn find_cameras_by_criteria(cameras: Vec<Camera>, criteria: &CameraSearchCriteria) -> (r: Vec<
    Camera,
>)
    ensures
        r@ == cameras@.filter(camera_filter(*criteria)),
{
    let ghost all = cameras@;
    let mut rest = cameras;
    let mut out: Vec<Camera> = Vec::new();
    let ghost mut k: int = 0;
    while rest.len() > 0
        invariant
            0 <= k <= all.len(),
            rest@ == all.subrange(k, all.len() as int),
            out@ == all.subrange(0, k).filter(camera_filter(*criteria)),
        decreases rest.len(),
    {
        let m = rest.remove(0);
        proof {
            assert(all.subrange(0, k + 1).drop_last() == all.subrange(0, k));
            assert(all.subrange(0, k + 1).last() == all[k]);
            assert(m == all[k]);
        }
        let keep = str_criterion_met(&criteria.code, &m.code) && int_criterion_met(
            criteria.box_id,
            m.box_id,
        ) && str_criterion_met(&criteria.box_sn, &m.box_sn) && int_criterion_met(
            criteria.project_id,
            m.project_id,
        );
        proof {
            let f = camera_filter(*criteria);
            assert(keep == f(m));
            reveal_with_fuel(Seq::filter, 2);
            assert(all.subrange(0, k + 1).filter(f) == if f(m) {
                all.subrange(0, k).filter(f).push(m)
            } else {
                all.subrange(0, k).filter(f)
            });
        }
        if keep {
            out.push(m);
        }
        proof {
            k = k + 1;
            assert(rest@ =~= all.subrange(k, all.len() as int));
        }
    }
    assert(all.subrange(0, all.len() as int) == all);
    out
}

/// The filter settings of one project, in their cached order.
pub fn find_event_filter_configs_by_project_id(configs: Vec<EventFilterConfig>, project_id: i64) -> (r:
    Vec<EventFilterConfig>)
    ensures
        r@ == configs@.filter(project_filter(project_id)),
{
    let ghost all = configs@;
    let mut rest = configs;
    let mut out: Vec<EventFilterConfig> = Vec::new();
    let ghost mut k: int = 0;
    while rest.len() > 0
        invariant
            0 <= k <= all.len(),
            rest@ == all.subrange(k, all.len() as int),
            out@ == all.subrange(0, k).filter(project_filter(project_id)),
        decreases rest.len(),
    {
        let c = rest.remove(0);
        proof {
            assert(all.subrange(0, k + 1).drop_last() == all.subrange(0, k));
            assert(all.subrange(0, k + 1).last() == all[k]);
            assert(c == all[k]);
        }
        proof {
            let f = project_filter(project_id);
            reveal_with_fuel(Seq::filter, 2);
            assert(all.subrange(0, k + 1).filter(f) == if f(c) {
                all.subrange(0, k).filter(f).push(c)
            } else {
                all.subrange(0, k).filter(f)
            });
        }
        if c.project_id == Some(project_id) {
            out.push(c);
        }
        proof {
            k = k + 1;
            assert(rest@ =~= all.subrange(k, all.len() as int));
        }
    }
    assert(all.subrange(0, all.len() as int) == all);
    out
}

/// Position of the first element of `s` that `p` holds of, if any.
pub open spec fn first_index<A>(s: Seq<A>, p: spec_fn(A) -> bool, i: int) -> bool {
    0 <= i < s.len() && p(s[i]) && forall|j: int| 0 <= j < i ==> !p(#[trigger] s[j])
}

pub open spec fn alg_code_is(code: Seq<char>) -> spec_fn(Algorithm) -> bool {
    |a: Algorithm| opt_is(a.code, code)
}

pub open spec fn task_code_is(code: Seq<char>) -> spec_fn(Task) -> bool {
    |t: Task| opt_is(t.code, code)
}

/// There is at most one first position.
pub proof fn lemma_first_index_unique<A>(s: Seq<A>, p: spec_fn(A) -> bool, i: int, j: int)
    requires
        first_index(s, p, i),
        first_index(s, p, j),
    ensures
        i == j,
{
    if i < j {
        assert(!p(s[i]));
    } else if j < i {
        assert(!p(s[j]));
    }
}

/// The first cached algorithm whose code is `code`.
pub fn find_algorithm_by_code(algorithms: Vec<Algorithm>, code: &str) -> (r: Option<Algorithm>)
    ensures
        r.is_none() <==> forall|i: int|
            0 <= i < algorithms@.len() ==> !opt_is(#[trigger] algorithms@[i].code, code@),
        r.is_some() ==> exists|i: int|
            first_index(algorithms@, alg_code_is(code@), i) && r.unwrap()
                == algorithms@[i],
{
    let ghost all = algorithms@;
    let mut rest = algorithms;
    let ghost mut k: int = 0;
    while rest.len() > 0
        invariant
            0 <= k <= all.len(),
            rest@ == all.subrange(k, all.len() as int),
            all == algorithms@,
            forall|j: int| 0 <= j < k ==> !opt_is(#[trigger] all[j].code, code@),
        decreases rest.len(),
    {
        let a = rest.remove(0);
        proof {
            assert(a == all[k]);
        }
        if opt_eq(&a.code, code) {
            assert(opt_is(all[k].code, code@));
            assert(first_index(all, alg_code_is(code@), k));
            return Some(a);
        }
        proof {
            k = k + 1;
            assert(rest@ =~= all.subrange(k, all.len() as int));
        }
    }
    None
}

/// The first cached base configuration of a project.
pub fn find_base_configs_by_project_id(configs: Vec<BaseConfig>, project_id: i64) -> (r: Option<
    BaseConfig,
>)
    ensures
        r.is_none() <==> forall|i: int|
            0 <= i < configs@.len() ==> #[trigger] configs@[i].project_id != Some(project_id),
        r.is_some() ==> exists|i: int|
            first_index(configs@, |c: BaseConfig| c.project_id == Some(project_id), i)
                && r.unwrap() == configs@[i],
{
    let ghost all = configs@;
    let mut rest = configs;
    let ghost mut k: int = 0;
    while rest.len() > 0
        invariant
            0 <= k <= all.len(),
            rest@ == all.subrange(k, all.len() as int),
            all == configs@,
            forall|j: int| 0 <= j < k ==> #[trigger] all[j].project_id != Some(project_id),
        decreases rest.len(),
    {
        let c = rest.remove(0);
        proof {
            assert(c == all[k]);
        }
        if c.project_id == Some(project_id) {
            assert(all[k].project_id == Some(project_id));
            assert(first_index(all, |c: BaseConfig| c.project_id == Some(project_id), k));
            return Some(c);
        }
        proof {
            k = k + 1;
            assert(rest@ =~= all.subrange(k, all.len() as int));
        }
    }
    None
}

/// An element that the predicate holds of survives the filter.
pub proof fn lemma_filter_keeps<A>(s: Seq<A>, f: spec_fn(A) -> bool, i: int)
    requires
        0 <= i < s.len(),
        f(s[i]),
    ensures
        s.filter(f).len() > 0,
    decreases s.len(),
{
    reveal_with_fuel(Seq::filter, 2);
    if i < s.len() - 1 {
        lemma_filter_keeps(s.drop_last(), f, i);
    }
}

/// A non-empty filter result has a source element the predicate holds of.
pub proof fn lemma_filter_nonempty<A>(s: Seq<A>, f: spec_fn(A) -> bool)
    requires
        s.filter(f).len() > 0,
    ensures
        exists|i: int| 0 <= i < s.len() && f(s[i]),
    decreases s.len(),
{
    reveal_with_fuel(Seq::filter, 2);
    if s.len() > 0 && !f(s.last()) {
        lemma_filter_nonempty(s.drop_last(), f);
        let i = choose|i: int| 0 <= i < s.drop_last().len() && f(s.drop_last()[i]);
        assert(s[i] == s.drop_last()[i]);
    } else if s.len() > 0 {
        assert(f(s[s.len() - 1]));
    }
}

proof fn lemma_filter_none<A>(s: Seq<A>, f: spec_fn(A) -> bool)
    requires
        forall|j: int| 0 <= j < s.len() ==> !f(#[trigger] s[j]),
    ensures
        s.filter(f).len() == 0,
    decreases s.len(),
{
    reveal_with_fuel(Seq::filter, 2);
    if s.len() > 0 {
        assert forall|j: int| 0 <= j < s.drop_last().len() implies !f(#[trigger] s.drop_last()[j]) by {
            assert(s.drop_last()[j] == s[j]);
        }
        lemma_filter_none(s.drop_last(), f);
        assert(!f(s[s.len() - 1]));
    }
}

/// The filter result starts with the first element the predicate holds of.
pub proof fn lemma_filter_first<A>(s: Seq<A>, f: spec_fn(A) -> bool, i: int)
    requires
        first_index(s, f, i),
    ensures
        s.filter(f).len() > 0,
        s.filter(f)[0] == s[i],
    decreases s.len(),
{
    reveal_with_fuel(Seq::filter, 2);
    let d = s.drop_last();
    if i < s.len() - 1 {
        assert forall|j: int| 0 <= j < i implies !f(#[trigger] d[j]) by {
            assert(d[j] == s[j]);
        }
        assert(d[i] == s[i]);
        assert(first_index(d, f, i));
        lemma_filter_first(d, f, i);
    } else {
        assert forall|j: int| 0 <= j < d.len() implies !f(#[trigger] d[j]) by {
            assert(d[j] == s[j]);
        }
        lemma_filter_none(d, f);
    }
}

} // verus!
