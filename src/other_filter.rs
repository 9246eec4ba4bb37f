//! The "other" stage of the rule filter chain: same-position dedup and the
//! event-type ignore lists.

use vstd::prelude::*;

use crate::geometry::{overlap_above, overlap_exceeds, overlap_micros, overlap_ratio, Rect};
use crate::json::{
    array_of, deref_opt, field, micros_of, opt_field, same, str_eq, str_of, u64_of, Json,
};
use crate::report::BoxReportRequest;
use crate::rules::{
    enabled_spec, is_enabled, lists_event_type, lists_type, FilterReason, StageOutcome,
};
use crate::store::{as_str_or_empty, join5, or_empty, StoreValue, StoreWrite};

verus! {

/// A number in millionths; anything else counts as zero.
pub open spec fn micros_or_zero(v: Json) -> int {
    match micros_of(Some(v)) {
        Some(m) => m,
        None => 0,
    }
}

/// The box that four coordinates `[x1, y1, x2, y2]` describe.
pub open spec fn flow_rect(items: Seq<Json>) -> Rect {
    Rect {
        x1: micros_or_zero(items[0]) as i128,
        y1: micros_or_zero(items[1]) as i128,
        x2: micros_or_zero(items[2]) as i128,
        y2: micros_or_zero(items[3]) as i128,
    }
}

/// Points `[[x1, y1], [x2, y2], ...]`: at least two, each with two coordinates.
pub open spec fn right_pts(pts: Seq<Json>) -> bool {
    &&& pts.len() >= 2
    &&& array_of(Some(pts[0])) matches Some(p) && p.len() >= 2
    &&& array_of(Some(pts[1])) matches Some(p) && p.len() >= 2
}

/// The box spanned by the first two points.
pub open spec fn pts_rect(pts: Seq<Json>) -> Rect {
    let p0 = array_of(Some(pts[0])).unwrap();
    let p1 = array_of(Some(pts[1])).unwrap();
    Rect {
        x1: micros_or_zero(p0[0]) as i128,
        y1: micros_or_zero(p0[1]) as i128,
        x2: micros_or_zero(p1[0]) as i128,
        y2: micros_or_zero(p1[1]) as i128,
    }
}

pub open spec fn all_numbers(s: Seq<Json>) -> bool {
    forall|i: int| 0 <= i < s.len() ==> (#[trigger] micros_of(Some(s[i]))).is_some()
}

/// A stored flow marker: an array of at least four numbers.
pub open spec fn stored_flow_rect(doc: Option<Json>) -> Option<Rect> {
    match array_of(doc) {
        Some(a) => if all_numbers(a) && a.len() >= 4 {
            Some(flow_rect(a))
        } else {
            None
        },
        None => None,
    }
}

/// A stored points marker: an array of arrays of numbers, with two points.
pub open spec fn stored_pts_rect(doc: Option<Json>) -> Option<Rect> {
    match array_of(doc) {
        Some(a) => if (forall|i: int|
            0 <= i < a.len() ==> (#[trigger] array_of(Some(a[i]))).is_some() && all_numbers(
                array_of(Some(a[i])).unwrap(),
            )) && right_pts(a) {
            Some(pts_rect(a))
        } else {
            None
        },
        None => None,
    }
}

/// The parameters of the same-position rule where it applies: cooldown in
/// seconds, overlap threshold in millionths, and the report's extra data.
pub open spec fn pos_rule(vo: BoxReportRequest, cfg: Json) -> Option<(int, int, Json)> {
    match field(cfg, "ignoreSamePosEvents"@) {
        Some(c) => if enabled_spec(c) && lists_type(c, vo.event_type) {
            match (
                u64_of(field(c, "coolingSeconds"@)),
                micros_of(field(c, "posOverlapPercent"@)),
                vo.extra_data,
            ) {
                (Some(n), Some(p), Some(ed)) => Some((n, p, ed)),
                _ => None,
            }
        } else {
            None
        },
        None => None,
    }
}

/// The report carries its position as a flow box: `extraData.position` is an array.
pub open spec fn is_flow(ed: Json) -> bool {
    array_of(field(ed, "position"@)).is_some()
}

/// The location the report gives: the flow box when it has four entries, else
/// the first snapshot's points when they are well formed.
pub open spec fn pos_source(vo: BoxReportRequest, ed: Json) -> Option<Json> {
    if is_flow(ed) {
        if array_of(field(ed, "position"@)).unwrap().len() >= 4 {
            field(ed, "position"@)
        } else {
            None
        }
    } else {
        match array_of(vo.snapshot) {
            Some(sn) => if sn.len() > 0 {
                match array_of(field(sn[0], "pts"@)) {
                    Some(pts) => if right_pts(pts) {
                        field(sn[0], "pts"@)
                    } else {
                        None
                    },
                    None => None,
                }
            } else {
                None
            },
            None => None,
        }
    }
}

/// The box of the reported location.
pub open spec fn pos_rect(ed: Json, src: Json) -> Rect {
    if is_flow(ed) {
        flow_rect(array_of(Some(src)).unwrap())
    } else {
        pts_rect(array_of(Some(src)).unwrap())
    }
}

/// The box of the stored marker, where it decodes.
pub open spec fn stored_rect(ed: Json, stored: Option<Json>) -> Option<Rect> {
    if is_flow(ed) {
        stored_flow_rect(stored)
    } else {
        stored_pts_rect(stored)
    }
}

/// Same-position dedup vetoes: the overlap with the stored location is above
/// the threshold, compared exactly.
pub open spec fn same_pos_vetoes(vo: BoxReportRequest, cfg: Json, stored: Option<Json>) -> bool {
    match pos_rule(vo, cfg) {
        Some((_, p, ed)) => match (pos_source(vo, ed), stored_rect(ed, stored)) {
            (Some(src), Some(base)) => overlap_exceeds(pos_rect(ed, src), base, p),
            _ => false,
        },
        None => false,
    }
}

/// Where the rule applies and does not veto, it stores the reported location.
pub open spec fn same_pos_writes(vo: BoxReportRequest, cfg: Json, stored: Option<Json>) -> bool {
    match pos_rule(vo, cfg) {
        Some((_, _, ed)) => pos_source(vo, ed).is_some() && !same_pos_vetoes(vo, cfg, stored),
        None => false,
    }
}

/// `POS_KEY:{taskCode}:{eventType}:`.
pub open spec fn pos_key_spec(vo: BoxReportRequest) -> Seq<char> {
    "POS_KEY:"@ + or_empty(vo.task_code) + ":"@ + or_empty(vo.event_type) + ":"@
}

/// The write holds a copy of `doc` under `key` for `ttl` seconds.
pub open spec fn doc_write(w: StoreWrite, key: Seq<char>, doc: Json, ttl: int) -> bool {
    &&& w.key@ == key
    &&& w.value matches StoreValue::Doc(d) && same(d, doc)
    &&& w.ttl_secs == ttl
}

pub open spec fn ignore_all_vetoes(vo: BoxReportRequest, cfg: Json) -> bool {
    match field(cfg, "ignoreAllEvents"@) {
        Some(c) => enabled_spec(c) && lists_type(c, vo.event_type),
        None => false,
    }
}

pub open spec fn ignore_part_vetoes(vo: BoxReportRequest, cfg: Json) -> bool {
    match field(cfg, "ignorePartEvents"@) {
        Some(c) => enabled_spec(c) && lists_type(c, vo.event_type) && match (
            str_of(field(c, "eventResult"@)),
            str_of(opt_field(opt_field(vo.extra_data, "eventResult"@), "result"@)),
        ) {
            (Some(expected), Some(actual)) => actual == expected,
            _ => false,
        },
        None => false,
    }
}

pub open spec fn other_stage_reason(vo: BoxReportRequest, cfg: Json, stored: Option<Json>) -> Option<
    FilterReason,
> {
    if same_pos_vetoes(vo, cfg, stored) {
        Some(FilterReason::SamePosition)
    } else if ignore_all_vetoes(vo, cfg) {
        Some(FilterReason::IgnoreAllEvents)
    } else if ignore_part_vetoes(vo, cfg) {
        Some(FilterReason::IgnorePartEvents)
    } else {
        None
    }
}

fn micros_or_zero_of(v: &Json) -> (r: i128)
    ensures
        r == micros_or_zero(*v),
{
    match v.as_micros() {
        Some(m) => m,
        None => 0,
    }
}

fn flow_rect_of(items: &Vec<Json>) -> (r: Rect)
    requires
        items@.len() >= 4,
    ensures
        r == flow_rect(items@),
{
    Rect {
        x1: micros_or_zero_of(&items[0]),
        y1: micros_or_zero_of(&items[1]),
        x2: micros_or_zero_of(&items[2]),
        y2: micros_or_zero_of(&items[3]),
    }
}

/// Points are usable: at least two, each an array with two entries.
pub fn is_right_pts(pts: &Vec<Json>) -> (r: bool)
    ensures
        r == right_pts(pts@),
{
    if pts.len() < 2 {
        return false;
    }
    let ok0 = match pts[0].as_array() {
        Some(p) => p.len() >= 2,
        None => false,
    };
    let ok1 = match pts[1].as_array() {
        Some(p) => p.len() >= 2,
        None => false,
    };
    ok0 && ok1
}

fn pts_rect_of(pts: &Vec<Json>) -> (r: Rect)
    requires
        right_pts(pts@),
    ensures
        r == pts_rect(pts@),
{
    let p0 = pts[0].as_array().unwrap();
    let p1 = pts[1].as_array().unwrap();
    Rect {
        x1: micros_or_zero_of(&p0[0]),
        y1: micros_or_zero_of(&p0[1]),
        x2: micros_or_zero_of(&p1[0]),
        y2: micros_or_zero_of(&p1[1]),
    }
}

fn are_numbers(s: &Vec<Json>) -> (r: bool)
    ensures
        r == all_numbers(s@),
{
    let mut i: usize = 0;
    while i < s.len()
        invariant
            i <= s@.len(),
            forall|j: int| 0 <= j < i ==> (#[trigger] micros_of(Some(s@[j]))).is_some(),
        decreases s.len() - i,
    {
        if s[i].as_micros().is_none() {
            return false;
        }
        i = i + 1;
    }
    true
}

fn stored_flow_rect_of(doc: Option<&Json>) -> (r: Option<Rect>)
    ensures
        r == stored_flow_rect(deref_opt(doc)),
{
    let a = match doc {
        Some(d) => match d.as_array() {
            Some(a) => a,
            None => return None,
        },
        None => return None,
    };
    if are_numbers(a) && a.len() >= 4 {
        Some(flow_rect_of(a))
    } else {
        None
    }
}

/// The stored points, where every entry is an array of numbers and the first
/// two are usable points.
pub fn stored_pts_rect_of(doc: Option<&Json>) -> (r: Option<Rect>)
    ensures
        r == stored_pts_rect(deref_opt(doc)),
{
    let a = match doc {
        Some(d) => match d.as_array() {
            Some(a) => a,
            None => return None,
        },
        None => return None,
    };
    let mut i: usize = 0;
    while i < a.len()
        invariant
            i <= a@.len(),
            array_of(deref_opt(doc)) == Some(a@),
            forall|j: int|
                0 <= j < i ==> (#[trigger] array_of(Some(a@[j]))).is_some() && all_numbers(
                    array_of(Some(a@[j])).unwrap(),
                ),
        decreases a.len() - i,
    {
        match a[i].as_array() {
            Some(row) => {
                if !are_numbers(row) {
                    assert(array_of(Some(a@[i as int])).is_some());
                    return None;
                }
            },
            None => {
                assert(array_of(Some(a@[i as int])).is_none());
                return None;
            },
        }
        i = i + 1;
    }
    if is_right_pts(a) {
        Some(pts_rect_of(a))
    } else {
        None
    }
}

/// Overlap of two flow boxes, in millionths.
pub fn calculate_flow_rate(pos1: &Rect, pos2: &Rect) -> (r: i128)
    ensures
        r == overlap_ratio(*pos1, *pos2),
{
    overlap_micros(pos1, pos2)
}

/// Overlap of the boxes spanned by two point pairs, in millionths.
pub fn calculate_other_rate(pts1: &Rect, pts2: &Rect) -> (r: i128)
    ensures
        r == overlap_ratio(*pts1, *pts2),
{
    overlap_micros(pts1, pts2)
}

/// The store key of the same-position marker.
pub fn pos_key(vo: &BoxReportRequest) -> (r: String)
    ensures
        r@ == pos_key_spec(*vo),
{
    join5("POS_KEY:", as_str_or_empty(&vo.task_code), ":", as_str_or_empty(&vo.event_type), ":")
}

fn pos_rule_of<'a>(vo: &'a BoxReportRequest, config: &Json) -> (r: Option<(u64, i128, &'a Json)>)
    ensures
        r.is_some() == pos_rule(*vo, *config).is_some(),
        r.is_some() ==> {
            let (n, p, ed) = pos_rule(*vo, *config).unwrap();
            &&& r.unwrap().0 as int == n
            &&& r.unwrap().1 as int == p
            &&& *r.unwrap().2 == ed
        },
{
    let c = match config.get("ignoreSamePosEvents") {
        Some(c) => c,
        None => return None,
    };
    if !is_enabled(c) || !lists_event_type(c, &vo.event_type) {
        return None;
    }
    let n = match c.get_u64("coolingSeconds") {
        Some(n) => n,
        None => return None,
    };
    let p = match c.get_micros("posOverlapPercent") {
        Some(p) => p,
        None => return None,
    };
    match &vo.extra_data {
        Some(ed) => Some((n, p, ed)),
        None => None,
    }
}

/// The store key of the same-position marker, where the rule applies.
pub fn same_pos_key(vo: &BoxReportRequest, config: &Json) -> (r: Option<String>)
    ensures
        r.is_some() == pos_rule(*vo, *config).is_some(),
        r.is_some() ==> r.unwrap()@ == pos_key_spec(*vo),
{
    match pos_rule_of(vo, config) {
        Some(_) => Some(pos_key(vo)),
        None => None,
    }
}

/// Decides on a location against the stored one: vetoes when their overlap
/// is above `threshold` millionths; otherwise stores `src` for `cooling` seconds.
fn decide_pos(
    vo: &BoxReportRequest,
    cur: Rect,
    base: Option<Rect>,
    threshold: i128,
    src: &Json,
    cooling: u64,
) -> (r: (bool, Option<StoreWrite>))
    ensures
        r.0 == (base.is_some() && overlap_exceeds(cur, base.unwrap(), threshold as int)),
        r.1.is_some() == !r.0,
        r.1.is_some() ==> doc_write(r.1.unwrap(), pos_key_spec(*vo), *src, cooling as int),
{
    match base {
        Some(b) => {
            if overlap_above(&cur, &b, threshold) {
                return (true, None);
            }
        },
        None => {},
    }
    let w = StoreWrite { key: pos_key(vo), value: StoreValue::Doc(src.duplicate()), ttl_secs: cooling };
    (false, Some(w))
}

/// Same-position dedup. `stored` is the decoded marker found under the
/// position key, if any.
pub fn ignore_same_pos_events(vo: &BoxReportRequest, config: &Json, stored: Option<&Json>) -> (r: (
    bool,
    Option<StoreWrite>,
))
    ensures
        r.0 == same_pos_vetoes(*vo, *config, deref_opt(stored)),
        r.1.is_some() == same_pos_writes(*vo, *config, deref_opt(stored)),
        r.1.is_some() ==> doc_write(
            r.1.unwrap(),
            pos_key_spec(*vo),
            pos_source(*vo, pos_rule(*vo, *config).unwrap().2).unwrap(),
            pos_rule(*vo, *config).unwrap().0,
        ),
{
    let (cooling, threshold, ed) = match pos_rule_of(vo, config) {
        Some(t) => t,
        None => return (false, None),
    };
    match ed.get("position") {
        Some(src) => {
            match src.as_array() {
                Some(position) => {
                    return ignore_same_pos_flow_events(vo, cooling, threshold, src, position, stored);
                },
                None => {},
            }
        },
        None => {},
    }
    ignore_same_pos_other_events(vo, cooling, threshold, stored)
}

fn ignore_same_pos_flow_events(
    vo: &BoxReportRequest,
    cooling_seconds: u64,
    pos_overlap_percent: i128,
    src: &Json,
    position: &Vec<Json>,
    stored: Option<&Json>,
) -> (r: (bool, Option<StoreWrite>))
    requires
        array_of(Some(*src)) == Some(position@),
    ensures
        position@.len() < 4 ==> r.0 == false && r.1.is_none(),
        position@.len() >= 4 ==> {
            &&& r.0 == (stored_flow_rect(deref_opt(stored)).is_some() && overlap_exceeds(
                flow_rect(position@),
                stored_flow_rect(deref_opt(stored)).unwrap(),
                pos_overlap_percent as int,
            ))
            &&& r.1.is_some() == !r.0
            &&& r.1.is_some() ==> doc_write(
                r.1.unwrap(),
                pos_key_spec(*vo),
                *src,
                cooling_seconds as int,
            )
        },
{
    if position.len() < 4 {
        return (false, None);
    }
    let cur = flow_rect_of(position);
    let base = stored_flow_rect_of(stored);
    decide_pos(vo, cur, base, pos_overlap_percent, src, cooling_seconds)
}

fn ignore_same_pos_other_events(
    vo: &BoxReportRequest,
    cooling_seconds: u64,
    pos_overlap_percent: i128,
    stored: Option<&Json>,
) -> (r: (bool, Option<StoreWrite>))
    ensures
        ({
            let src = match array_of(vo.snapshot) {
                Some(sn) => if sn.len() > 0 {
                    match array_of(field(sn[0], "pts"@)) {
                        Some(pts) => if right_pts(pts) {
                            field(sn[0], "pts"@)
                        } else {
                            None
                        },
                        None => None,
                    }
                } else {
                    None
                },
                None => None,
            };
            &&& src.is_none() ==> r.0 == false && r.1.is_none()
            &&& src.is_some() ==> {
                &&& r.0 == (stored_pts_rect(deref_opt(stored)).is_some() && overlap_exceeds(
                    pts_rect(array_of(src).unwrap()),
                    stored_pts_rect(deref_opt(stored)).unwrap(),
                    pos_overlap_percent as int,
                ))
                &&& r.1.is_some() == !r.0
                &&& r.1.is_some() ==> doc_write(
                    r.1.unwrap(),
                    pos_key_spec(*vo),
                    src.unwrap(),
                    cooling_seconds as int,
                )
            }
        }),
{
    let snapshot = match &vo.snapshot {
        Some(s) => match s.as_array() {
            Some(a) => a,
            None => return (false, None),
        },
        None => return (false, None),
    };
    if snapshot.len() == 0 {
        return (false, None);
    }
    let src = match snapshot[0].get("pts") {
        Some(p) => p,
        None => return (false, None),
    };
    let pts = match src.as_array() {
        Some(p) => p,
        None => return (false, None),
    };
    if !is_right_pts(pts) {
        return (false, None);
    }
    let cur = pts_rect_of(pts);
    let base = stored_pts_rect_of(stored);
    decide_pos(vo, cur, base, pos_overlap_percent, src, cooling_seconds)
}

/// Returns `true` to filter: the rule ignores every event of this type.
pub fn ignore_all_events(vo: &BoxReportRequest, config: &Json) -> (r: bool)
    ensures
        r == ignore_all_vetoes(*vo, *config),
{
    match config.get("ignoreAllEvents") {
        Some(c) => is_enabled(c) && lists_event_type(c, &vo.event_type),
        None => false,
    }
}

/// Returns `true` to filter: the event's result matches the configured one.
pub fn ignore_part_events(vo: &BoxReportRequest, config: &Json) -> (r: bool)
    ensures
        r == ignore_part_vetoes(*vo, *config),
{
    let c = match config.get("ignorePartEvents") {
        Some(c) => c,
        None => return false,
    };
    if !is_enabled(c) || !lists_event_type(c, &vo.event_type) {
        return false;
    }
    let expected = match c.get_str("eventResult") {
        Some(e) => e,
        None => return false,
    };
    let actual = match &vo.extra_data {
        Some(ed) => match ed.get("eventResult") {
            Some(er) => er.get_str("result"),
            None => None,
        },
        None => None,
    };
    match actual {
        Some(a) => str_eq(a, expected),
        None => false,
    }
}

/// The other stage: same-position dedup, then the ignore lists. The
/// position marker is recorded even where a later rule of the stage vetoes.
pub fn filter(vo: &BoxReportRequest, other_json_obj: &Json, stored: Option<&Json>) -> (r:
    StageOutcome)
    ensures
        r.reason == other_stage_reason(*vo, *other_json_obj, deref_opt(stored)),
        r.write.is_some() == same_pos_writes(*vo, *other_json_obj, deref_opt(stored)),
        r.write.is_some() ==> doc_write(
            r.write.unwrap(),
            pos_key_spec(*vo),
            pos_source(*vo, pos_rule(*vo, *other_json_obj).unwrap().2).unwrap(),
            pos_rule(*vo, *other_json_obj).unwrap().0,
        ),
{
    let (veto, write) = ignore_same_pos_events(vo, other_json_obj, stored);
    if veto {
        return StageOutcome { reason: Some(FilterReason::SamePosition), write };
    }
    if ignore_all_events(vo, other_json_obj) {
        return StageOutcome { reason: Some(FilterReason::IgnoreAllEvents), write };
    }
    if ignore_part_events(vo, other_json_obj) {
        return StageOutcome { reason: Some(FilterReason::IgnorePartEvents), write };
    }
    StageOutcome { reason: None, write }
}

} // verus!
