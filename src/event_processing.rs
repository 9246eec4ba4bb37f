//! The rule filter chain over a project's filter settings, and the personnel
//! review decision.

use chrono::{Datelike, Timelike};
use vstd::prelude::*;

use crate::json::{array_of, deref_opt, field, i64_of, opt_field, str_of, Json};
use crate::other_filter::{
    doc_write, other_stage_reason, pos_key_spec, pos_rule, pos_source, same_pos_writes,
};
use crate::plate_filter::{plate_key_spec, plate_stage_reason, same_plate_cooling, text_write};
use crate::report::{opt_eq, opt_is, Algorithm, BoxReportRequest, EventFilterConfig};
use crate::rules::FilterReason;
use crate::store::{or_empty, StoreWrite};
use crate::other_filter;
use crate::plate_filter;

verus! {

/// Milliseconds in a day.
pub const DAY_MS: i64 = 86_400_000;

/// Day number, counted from 0001-01-01 as day 1, of 1970-01-01.
pub const UNIX_EPOCH_CE_DAY: i64 = 719_163;

/// The settings of the first filter config of `group`, if that config has any.
pub open spec fn config_of(configs: Seq<EventFilterConfig>, group: Seq<char>) -> Option<Json> {
    if exists|i: int| 0 <= i < configs.len() && opt_is(configs[i].setting_group, group) {
        let i = choose|i: int|
            0 <= i < configs.len() && opt_is(configs[i].setting_group, group) && forall|j: int|
                0 <= j < i ==> !opt_is(#[trigger] configs[j].setting_group, group);
        configs[i].config
    } else {
        None
    }
}

/// The result of the filter chain: the veto, if any, and the markers recorded
/// on the way.
pub struct ChainOutcome {
    pub reason: Option<FilterReason>,
    pub plate_write: Option<StoreWrite>,
    pub position_write: Option<StoreWrite>,
}

/// The veto of the chain: the plate stage first, the other stage only where
/// the plate stage lets the event through.
#[verifier::opaque]
pub open spec fn chain_reason(
    vo: BoxReportRequest,
    configs: Seq<EventFilterConfig>,
    plate_stored: Option<Seq<char>>,
    pos_stored: Option<Json>,
) -> Option<FilterReason> {
    let plate = match config_of(configs, "plate"@) {
        Some(pc) => plate_stage_reason(vo, pc, plate_stored),
        None => None,
    };
    if plate.is_some() {
        plate
    } else {
        match config_of(configs, "other"@) {
            Some(oc) => other_stage_reason(vo, oc, pos_stored),
            None => None,
        }
    }
}

proof fn lemma_first_exists(configs: Seq<EventFilterConfig>, group: Seq<char>, i: int)
    requires
        0 <= i < configs.len(),
        opt_is(configs[i].setting_group, group),
        forall|j: int| 0 <= j < i ==> !opt_is(#[trigger] configs[j].setting_group, group),
    ensures
        config_of(configs, group) == configs[i].config,
{
    let k = choose|k: int|
        0 <= k < configs.len() && opt_is(configs[k].setting_group, group) && forall|j: int|
            0 <= j < k ==> !opt_is(#[trigger] configs[j].setting_group, group);
    assert(k == i) by {
        if k < i {
            assert(!opt_is(configs[k].setting_group, group));
        } else if k > i {
            assert(!opt_is(configs[i].setting_group, group));
        }
    }
}

/// The settings of the first config of `group_name`.
pub fn get_config<'a>(configs: &'a Vec<EventFilterConfig>, group_name: &str) -> (r: Option<&'a Json>)
    ensures
        deref_opt(r) == config_of(configs@, group_name@),
{
    let mut i: usize = 0;
    while i < configs.len()
        invariant
            i <= configs@.len(),
            forall|j: int| 0 <= j < i ==> !opt_is(#[trigger] configs@[j].setting_group, group_name@),
        decreases configs.len() - i,
    {
        if opt_eq(&configs[i].setting_group, group_name) {
            proof {
                lemma_first_exists(configs@, group_name@, i as int);
            }
            return match &configs[i].config {
                Some(c) => Some(c),
                None => None,
            };
        }
        i = i + 1;
    }
    None
}

pub open spec fn opt_str_view(o: Option<&str>) -> Option<Seq<char>> {
    match o {
        Some(s) => Some(s@),
        None => None,
    }
}

/// The rule filter chain. `plate_stored` is the value under the same-plate
/// key and `pos_stored` the decoded marker under the position key, if any.
pub fn filter_event(
    vo: &BoxReportRequest,
    configs: &Vec<EventFilterConfig>,
    plate_stored: Option<&str>,
    pos_stored: Option<&Json>,
) -> (r: ChainOutcome)
    ensures
        r.reason == chain_reason(*vo, configs@, opt_str_view(plate_stored), deref_opt(pos_stored)),
        r.plate_write.is_some() == (config_of(configs@, "plate"@).is_some() && plate_stage_reason(
            *vo,
            config_of(configs@, "plate"@).unwrap(),
            opt_str_view(plate_stored),
        ).is_none() && same_plate_cooling(*vo, config_of(configs@, "plate"@).unwrap()).is_some()),
        r.plate_write.is_some() ==> text_write(
            r.plate_write.unwrap(),
            plate_key_spec(*vo),
            or_empty(vo.plate_number),
            same_plate_cooling(*vo, config_of(configs@, "plate"@).unwrap()).unwrap(),
        ),
        r.position_write.is_some() == (!(config_of(configs@, "plate"@).is_some()
            && plate_stage_reason(
            *vo,
            config_of(configs@, "plate"@).unwrap(),
            opt_str_view(plate_stored),
        ).is_some()) && config_of(configs@, "other"@).is_some() && same_pos_writes(
            *vo,
            config_of(configs@, "other"@).unwrap(),
            deref_opt(pos_stored),
        )),
        r.position_write.is_some() ==> doc_write(
            r.position_write.unwrap(),
            pos_key_spec(*vo),
            pos_source(*vo, pos_rule(*vo, config_of(configs@, "other"@).unwrap()).unwrap().2).unwrap(),
            pos_rule(*vo, config_of(configs@, "other"@).unwrap()).unwrap().0,
        ),
{
    reveal(chain_reason);
    let mut plate_write: Option<StoreWrite> = None;
    match get_config(configs, "plate") {
        Some(pc) => {
            let out = plate_filter::filter(vo, pc, plate_stored);
            if out.reason.is_some() {
                return ChainOutcome { reason: out.reason, plate_write: None, position_write: None };
            }
            plate_write = out.write;
        },
        None => {},
    }
    match get_config(configs, "other") {
        Some(oc) => {
            let out = other_filter::filter(vo, oc, pos_stored);
            ChainOutcome { reason: out.reason, plate_write, position_write: out.write }
        },
        None => ChainOutcome { reason: None, plate_write, position_write: None },
    }
}

/// Where both stages would veto, the reported reason is the plate stage's:
/// the plate stage runs first.
pub proof fn lemma_plate_stage_first(
    vo: BoxReportRequest,
    configs: Seq<EventFilterConfig>,
    plate_stored: Option<Seq<char>>,
    pos_stored: Option<Json>,
)
    requires
        config_of(configs, "plate"@).is_some(),
        plate_stage_reason(vo, config_of(configs, "plate"@).unwrap(), plate_stored).is_some(),
        config_of(configs, "other"@).is_some(),
        other_stage_reason(vo, config_of(configs, "other"@).unwrap(), pos_stored).is_some(),
    ensures
        chain_reason(vo, configs, plate_stored, pos_stored) == plate_stage_reason(
            vo,
            config_of(configs, "plate"@).unwrap(),
            plate_stored,
        ),
{
    reveal(chain_reason);
}

/// Whether an event goes to personnel review.
#[derive(Clone, Copy, Debug, PartialEq, Eq, Structural)]
pub enum PersonnelCheckResult {
    Enable,
    Disable,
}

/// The echoed parameters of the violation the event reports:
/// `extraData.originalConfig.algList[originalViolationIndex].algParam`.
pub open spec fn alg_param(vo: BoxReportRequest) -> Option<Json> {
    let idx: int = match vo.original_violation_index {
        Some(i) => i as int,
        None => 0,
    };
    match (vo.extra_data, array_of(opt_field(opt_field(vo.extra_data, "originalConfig"@), "algList"@))) {
        (Some(_), Some(list)) => if 0 <= idx < list.len() {
            field(list[idx], "algParam"@)
        } else {
            None
        },
        _ => None,
    }
}

/// Day number (0001-01-01 is day 1) of a date parsed as `%Y-%m-%d`.
pub uninterp spec fn date_days_of(s: Seq<char>) -> Option<int>;

/// Seconds after midnight of a time parsed as `%H:%M`.
pub uninterp spec fn time_secs_of(s: Seq<char>) -> Option<int>;

/// Relies on chrono's `NaiveDate::parse_from_str` with `%Y-%m-%d` and
/// `Datelike::num_days_from_ce`: the result depends on the text alone.
#[verifier::external_body]
fn parse_date_days(s: &str) -> (r: Option<i32>)
    ensures
        r.is_some() == date_days_of(s@).is_some(),
        r.is_some() ==> r.unwrap() as int == date_days_of(s@).unwrap(),
{
    match chrono::NaiveDate::parse_from_str(s, "%Y-%m-%d") {
        Ok(d) => Some(d.num_days_from_ce()),
        Err(_) => None,
    }
}

/// Relies on chrono's `NaiveTime::parse_from_str` with `%H:%M` and
/// `Timelike::num_seconds_from_midnight`, which maps every time of day into
/// 0..86399; the hours and minutes of well-formed text give the seconds.
#[verifier::external_body]
fn parse_time_secs(s: &str) -> (r: Option<u32>)
    ensures
        r.is_some() == time_secs_of(s@).is_some(),
        r.is_some() ==> r.unwrap() as int == time_secs_of(s@).unwrap(),
        r.is_some() ==> r.unwrap() < 86_400,
        s@ == "00:00"@ ==> r == Some(0u32),
        s@ == "23:59"@ ==> r == Some(86_340u32),
{
    match chrono::NaiveTime::parse_from_str(s, "%H:%M") {
        Ok(t) => Some(t.num_seconds_from_midnight()),
        Err(_) => None,
    }
}

/// The day number (0001-01-01 is day 1) of the UTC date of an instant.
pub open spec fn ce_day_of(ms: int) -> int {
    ms / (DAY_MS as int) + UNIX_EPOCH_CE_DAY
}

/// Milliseconds after UTC midnight of an instant.
pub open spec fn ms_of_day(ms: int) -> int {
    ms % (DAY_MS as int)
}

/// The review time window admits the event: its date within the configured
/// dates (where both parse) and its time of day within the configured times
/// (`00:00` to `23:59` where absent; where both parse).
pub open spec fn dq_window_admits(event_ms: int, open: Json) -> bool {
    let date_ok = match (str_of(field(open, "openDqStartDate"@)), str_of(field(open, "openDqEndDate"@))) {
        (Some(s), Some(e)) => match (date_days_of(s), date_days_of(e)) {
            (Some(sd), Some(ed)) => sd <= ce_day_of(event_ms) <= ed,
            _ => true,
        },
        _ => true,
    };
    let start = match str_of(field(open, "openDqStartTime"@)) {
        Some(s) => s,
        None => "00:00"@,
    };
    let end = match str_of(field(open, "openDqEndTime"@)) {
        Some(s) => s,
        None => "23:59"@,
    };
    let time_ok = match (time_secs_of(start), time_secs_of(end)) {
        (Some(st), Some(et)) => st * 1000 <= ms_of_day(event_ms) <= et * 1000,
        _ => true,
    };
    date_ok && time_ok
}

pub open spec fn dq_time_decision(event_time: Option<i64>, param: Json) -> PersonnelCheckResult {
    match field(param, "openDqTime"@) {
        None => PersonnelCheckResult::Enable,
        Some(open) => match event_time {
            None => PersonnelCheckResult::Disable,
            Some(t) => if dq_window_admits(t as int, open) {
                PersonnelCheckResult::Enable
            } else {
                PersonnelCheckResult::Disable
            },
        },
    }
}

/// The review decision. `global_review` is the value of the global review
/// switch in the store, if it was read.
pub open spec fn personnel_decision(
    vo: BoxReportRequest,
    algorithm: Algorithm,
    global_review: Option<Seq<char>>,
) -> PersonnelCheckResult {
    match alg_param(vo) {
        None => PersonnelCheckResult::Disable,
        Some(param) => match i64_of(field(param, "isOpenDQ"@)) {
            Some(flag) => if flag == 0 {
                PersonnelCheckResult::Disable
            } else {
                dq_time_decision(vo.event_time, param)
            },
            None => if global_review == Some("1"@) && algorithm.review_switch == Some(1i32) {
                PersonnelCheckResult::Enable
            } else {
                PersonnelCheckResult::Disable
            },
        },
    }
}

/// Whether the decision falls back to the global review switch, which then
/// has to be read from the store.
pub open spec fn uses_global_switch(vo: BoxReportRequest) -> bool {
    match alg_param(vo) {
        Some(param) => i64_of(field(param, "isOpenDQ"@)).is_none(),
        None => false,
    }
}

pub(crate) fn alg_param_of(vo: &BoxReportRequest) -> (r: Option<&Json>)
    ensures
        deref_opt(r) == alg_param(*vo),
{
    let ed = match &vo.extra_data {
        Some(ed) => ed,
        None => return None,
    };
    let list = match ed.get("originalConfig") {
        Some(oc) => match oc.get_array("algList") {
            Some(l) => l,
            None => return None,
        },
        None => return None,
    };
    let idx: i32 = match vo.original_violation_index {
        Some(i) => i,
        None => 0,
    };
    if idx < 0 || idx as usize >= list.len() {
        return None;
    }
    list[idx as usize].get("algParam")
}

/// Whether the review decision needs the global review switch.
pub fn needs_global_switch(vo: &BoxReportRequest) -> (r: bool)
    ensures
        r == uses_global_switch(*vo),
{
    match alg_param_of(vo) {
        Some(p) => p.get_i64("isOpenDQ").is_none(),
        None => false,
    }
}

fn day_and_time(ms: i64) -> (r: (i64, i64))
    ensures
        r.0 as int == ce_day_of(ms as int),
        r.1 as int == ms_of_day(ms as int),
{
    let m = ms as i128;
    let d = DAY_MS as i128;
    let q: i128 = if m >= 0 { m / d } else { -((-m - 1) / d) - 1 };
    let rem: i128 = m - q * d;
    proof {
        let mi = m as int;
        let di = d as int;
        let qi = q as int;
        if m < 0 {
            let a: int = -mi - 1;
            let qa: int = a / di;
            assert(qa * di <= a < qa * di + di) by (nonlinear_arith)
                requires
                    a >= 0,
                    di > 0,
                    qa == a / di,
            ;
            assert(qi == -qa - 1);
            assert(qi * di <= mi < qi * di + di) by (nonlinear_arith)
                requires
                    qi == -qa - 1,
                    a == -mi - 1,
                    qa * di <= a < qa * di + di,
            ;
        } else {
            assert(qi * di <= mi < qi * di + di) by (nonlinear_arith)
                requires
                    mi >= 0,
                    di > 0,
                    qi == mi / di,
            ;
        }
        vstd::arithmetic::div_mod::lemma_fundamental_div_mod_converse(mi, di, qi, mi - qi * di);
    }
    ((q + UNIX_EPOCH_CE_DAY as i128) as i64, rem as i64)
}

/// The time-window check of an event whose review flag is on.
pub fn check_dq_time_constraints(vo: &BoxReportRequest, alg_param: &Json) -> (r:
    PersonnelCheckResult)
    ensures
        r == dq_time_decision(vo.event_time, *alg_param),
{
    let open = match alg_param.get("openDqTime") {
        Some(o) => o,
        None => return PersonnelCheckResult::Enable,
    };
    let t = match vo.event_time {
        Some(t) => t,
        None => return PersonnelCheckResult::Disable,
    };
    let (day, tod) = day_and_time(t);
    match (open.get_str("openDqStartDate"), open.get_str("openDqEndDate")) {
        (Some(s), Some(e)) => match (parse_date_days(s), parse_date_days(e)) {
            (Some(sd), Some(ed)) => {
                if day < sd as i64 || day > ed as i64 {
                    return PersonnelCheckResult::Disable;
                }
            },
            _ => {},
        },
        _ => {},
    }
    let start = match open.get_str("openDqStartTime") {
        Some(s) => s,
        None => "00:00",
    };
    let end = match open.get_str("openDqEndTime") {
        Some(s) => s,
        None => "23:59",
    };
    match (parse_time_secs(start), parse_time_secs(end)) {
        (Some(st), Some(et)) => {
            if tod < st as i64 * 1000 || tod > et as i64 * 1000 {
                return PersonnelCheckResult::Disable;
            }
        },
        _ => {},
    }
    PersonnelCheckResult::Enable
}

/// Decides whether an accepted event goes to personnel review.
pub fn personnel_check(vo: &BoxReportRequest, algorithm: &Algorithm, global_review: Option<&str>) -> (r:
    PersonnelCheckResult)
    ensures
        r == personnel_decision(*vo, *algorithm, opt_str_view(global_review)),
{
    let param = match alg_param_of(vo) {
        Some(p) => p,
        None => return PersonnelCheckResult::Disable,
    };
    match param.get_i64("isOpenDQ") {
        Some(flag) => {
            if flag == 0 {
                return PersonnelCheckResult::Disable;
            }
            return check_dq_time_constraints(vo, param);
        },
        None => {},
    }
    let global_on = match global_review {
        Some(g) => crate::json::str_eq(g, "1"),
        None => false,
    };
    if global_on && algorithm.review_switch == Some(1i32) {
        PersonnelCheckResult::Enable
    } else {
        PersonnelCheckResult::Disable
    }
}

/// A review flag of zero turns review off, whatever the global switch says.
pub proof fn lemma_flag_off_disables(
    vo: BoxReportRequest,
    algorithm: Algorithm,
    global_review: Option<Seq<char>>,
)
    requires
        alg_param(vo) matches Some(p) && i64_of(field(p, "isOpenDQ"@)) == Some(0int),
    ensures
        personnel_decision(vo, algorithm, global_review) == PersonnelCheckResult::Disable,
{
}

/// Without a review flag and with the global switch off, review is off,
/// whatever the algorithm's own toggle says.
pub proof fn lemma_global_off_disables(
    vo: BoxReportRequest,
    algorithm: Algorithm,
    global_review: Option<Seq<char>>,
)
    requires
        uses_global_switch(vo),
        global_review != Some("1"@),
    ensures
        personnel_decision(vo, algorithm, global_review) == PersonnelCheckResult::Disable,
{
}

} // verus!
