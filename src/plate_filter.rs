//! The plate stage of the rule filter chain.

use vstd::prelude::*;

use crate::json::{
    array_of, contains_str, field, has_str, micros_of, opt_field, str_eq, str_of, u64_of, Json,
};
use crate::report::BoxReportRequest;
use crate::rules::{
    enabled_spec, is_enabled, lists_event_type, lists_type, FilterReason, StageOutcome,
};
use crate::store::{as_str_or_empty, join5, or_empty, StoreValue, StoreWrite};
use crate::text::{contains, contains_spec};

verus! {

/// Shortest plate number, in characters, that the short-plate rule lets through.
pub const MIN_PLATE_CHARS: usize = 7;

/// Only-yellow-plate passes the event. This rule fails closed: a missing
/// rule, and for an enabled rule a missing type list, a report without event
/// type, or a missing plate colour where the rule applies, fail it.
pub open spec fn yellow_plate_passes(vo: BoxReportRequest, cfg: Json) -> bool {
    match field(cfg, "onlyYellowPlate"@) {
        None => false,
        Some(c) => !enabled_spec(c) || match (array_of(field(c, "eventTypes"@)), vo.event_type) {
            (Some(types), Some(et)) => !has_str(types, et@) || match vo.plate_color {
                Some(p) => p@ == "s_yellow"@ || p@ == "d_yellow"@,
                None => false,
            },
            _ => false,
        },
    }
}

pub open spec fn no_plate_vetoes(vo: BoxReportRequest, cfg: Json) -> bool {
    match field(cfg, "ignoreNoPlateEvents"@) {
        None => false,
        Some(c) => enabled_spec(c) && lists_type(c, vo.event_type) && match vo.plate_number {
            Some(p) => p@.len() == 0,
            None => true,
        },
    }
}

pub open spec fn blurry_plate_vetoes(vo: BoxReportRequest, cfg: Json) -> bool {
    match field(cfg, "ignoreBlurryPlateEvents"@) {
        None => false,
        Some(c) => enabled_spec(c) && lists_type(c, vo.event_type) && match (
            micros_of(field(c, "blurryLevel"@)),
            vo.extra_data,
        ) {
            (Some(level), Some(ed)) => match micros_of(field(ed, "plateNumberScore"@)) {
                Some(score) => level > 0 && score < level,
                None => false,
            },
            _ => false,
        },
    }
}

pub open spec fn plate_types_vetoes(vo: BoxReportRequest, cfg: Json) -> bool {
    match field(cfg, "onlyPlateTypes"@) {
        None => false,
        Some(c) => enabled_spec(c) && lists_type(c, vo.event_type) && match (
            array_of(field(c, "plateColor"@)),
            vo.plate_color,
        ) {
            (Some(colors), Some(p)) => !has_str(colors, p@),
            _ => false,
        },
    }
}

/// The plate type label of a report, `"nullValue"` when it has none.
pub open spec fn plate_type_label(ed: Json) -> Seq<char> {
    match str_of(opt_field(opt_field(field(ed, "summary"@), "plate/type"@), "label"@)) {
        Some(l) => l,
        None => "nullValue"@,
    }
}

/// One entry of the non-motor rule vetoes: it names the event type and its
/// colour list lacks the label.
pub open spec fn non_motor_entry_vetoes(f: Json, et: Option<String>, label: Seq<char>) -> bool {
    match array_of(field(f, "plateColor"@)) {
        Some(colors) => lists_type(f, et) && !has_str(colors, label),
        None => false,
    }
}

pub open spec fn non_motor_vetoes(vo: BoxReportRequest, cfg: Json) -> bool {
    match (array_of(field(cfg, "nonMotorPlateTypesFilter"@)), vo.extra_data) {
        (Some(fs), Some(ed)) => exists|k: int|
            0 <= k < fs.len() && #[trigger] non_motor_entry_vetoes(
                fs[k],
                vo.event_type,
                plate_type_label(ed),
            ),
        _ => false,
    }
}

/// Some configured text is a substring of the plate.
pub open spec fn has_special_text(texts: Seq<Json>, plate: Seq<char>) -> bool {
    exists|k: int|
        0 <= k < texts.len() && (#[trigger] str_of(Some(texts[k]))).is_some() && contains_spec(
            plate,
            str_of(Some(texts[k])).unwrap(),
        )
}

pub open spec fn special_text_vetoes(vo: BoxReportRequest, cfg: Json) -> bool {
    match field(cfg, "plateSpecialTextFilter"@) {
        None => false,
        Some(c) => lists_type(c, vo.event_type) && match (
            array_of(field(c, "specialTexts"@)),
            vo.plate_number,
        ) {
            (Some(texts), Some(p)) => has_special_text(texts, p@),
            _ => false,
        },
    }
}

pub open spec fn short_plate_vetoes(vo: BoxReportRequest, cfg: Json) -> bool {
    match field(cfg, "shortPlateFilter"@) {
        None => false,
        Some(c) => enabled_spec(c) && lists_type(c, vo.event_type) && match vo.plate_number {
            Some(p) => p@.len() < MIN_PLATE_CHARS,
            None => false,
        },
    }
}

/// Cooldown of the same-plate rule, when the rule applies to this report.
pub open spec fn same_plate_cooling(vo: BoxReportRequest, cfg: Json) -> Option<int> {
    match (field(cfg, "ignoreSamePlateEvents"@), vo.plate_number) {
        (Some(c), Some(_)) => match u64_of(field(c, "coolingSeconds"@)) {
            Some(n) => if enabled_spec(c) && n > 0 && lists_type(c, vo.event_type) {
                Some(n)
            } else {
                None
            },
            None => None,
        },
        _ => None,
    }
}

/// `PLATE_KEY:{taskCode}:{eventType}:{plateNumber}`.
pub open spec fn plate_key_spec(vo: BoxReportRequest) -> Seq<char> {
    "PLATE_KEY:"@ + or_empty(vo.task_code) + ":"@ + or_empty(vo.event_type) + ":"@ + or_empty(
        vo.plate_number,
    )
}

/// Same-plate dedup vetoes: the marker under the plate key holds this plate.
pub open spec fn same_plate_vetoes(vo: BoxReportRequest, cfg: Json, stored: Option<Seq<char>>) -> bool {
    same_plate_cooling(vo, cfg).is_some() && stored == Some(or_empty(vo.plate_number))
}

/// The reason the plate stage vetoes, checking the rules in their fixed order.
pub open spec fn plate_stage_reason(
    vo: BoxReportRequest,
    cfg: Json,
    stored: Option<Seq<char>>,
) -> Option<FilterReason> {
    if !yellow_plate_passes(vo, cfg) {
        Some(FilterReason::YellowPlate)
    } else if no_plate_vetoes(vo, cfg) {
        Some(FilterReason::NoPlate)
    } else if blurry_plate_vetoes(vo, cfg) {
        Some(FilterReason::BlurryPlate)
    } else if plate_types_vetoes(vo, cfg) || non_motor_vetoes(vo, cfg) {
        Some(FilterReason::PlateColorFiltered)
    } else if special_text_vetoes(vo, cfg) {
        Some(FilterReason::SpecialPlateFilter)
    } else if short_plate_vetoes(vo, cfg) {
        Some(FilterReason::ShortPlateFilter)
    } else if same_plate_vetoes(vo, cfg, stored) {
        Some(FilterReason::SamePlate)
    } else {
        None
    }
}

/// The write holds `value` as text under `key` for `ttl` seconds.
pub open spec fn text_write(w: StoreWrite, key: Seq<char>, value: Seq<char>, ttl: int) -> bool {
    &&& w.key@ == key
    &&& w.value matches StoreValue::Text(v) && v@ == value
    &&& w.ttl_secs == ttl
}

/// Returns `false` to filter: the plate colour must be one of the yellows.
pub fn only_yellow_plate(vo: &BoxReportRequest, config: &Json) -> (r: bool)
    ensures
        r == yellow_plate_passes(*vo, *config),
{
    let c = match config.get("onlyYellowPlate") {
        Some(c) => c,
        None => return false,
    };
    if !is_enabled(c) {
        return true;
    }
    let types = match c.get_array("eventTypes") {
        Some(t) => t,
        None => return false,
    };
    let et = match &vo.event_type {
        Some(e) => e,
        None => return false,
    };
    if !contains_str(types, et.as_str()) {
        return true;
    }
    match &vo.plate_color {
        Some(p) => str_eq(p.as_str(), "s_yellow") || str_eq(p.as_str(), "d_yellow"),
        None => false,
    }
}

/// Returns `true` to filter: the plate number is missing or empty.
pub fn ignore_no_plate_events(vo: &BoxReportRequest, config: &Json) -> (r: bool)
    ensures
        r == no_plate_vetoes(*vo, *config),
{
    let c = match config.get("ignoreNoPlateEvents") {
        Some(c) => c,
        None => return false,
    };
    if !is_enabled(c) || !lists_event_type(c, &vo.event_type) {
        return false;
    }
    match &vo.plate_number {
        Some(p) => p.as_str().unicode_len() == 0,
        None => true,
    }
}

/// Returns `true` to filter: the plate score is below the configured level.
pub fn ignore_blurry_plate_events(vo: &BoxReportRequest, config: &Json) -> (r: bool)
    ensures
        r == blurry_plate_vetoes(*vo, *config),
{
    let c = match config.get("ignoreBlurryPlateEvents") {
        Some(c) => c,
        None => return false,
    };
    if !is_enabled(c) {
        return false;
    }
    let level = match c.get_micros("blurryLevel") {
        Some(l) => l,
        None => return false,
    };
    if level <= 0 {
        return false;
    }
    let ed = match &vo.extra_data {
        Some(ed) => ed,
        None => return false,
    };
    let score = match ed.get_micros("plateNumberScore") {
        Some(s) => s,
        None => return false,
    };
    lists_event_type(c, &vo.event_type) && score < level
}

/// Returns `true` to filter: the plate colour is outside the allowed list.
pub fn only_plate_types(vo: &BoxReportRequest, config: &Json) -> (r: bool)
    ensures
        r == plate_types_vetoes(*vo, *config),
{
    let c = match config.get("onlyPlateTypes") {
        Some(c) => c,
        None => return false,
    };
    if !is_enabled(c) {
        return false;
    }
    let colors = match c.get_array("plateColor") {
        Some(a) => a,
        None => return false,
    };
    let p = match &vo.plate_color {
        Some(p) => p,
        None => return false,
    };
    lists_event_type(c, &vo.event_type) && !contains_str(colors, p.as_str())
}

fn plate_type_label_of(ed: &Json) -> (r: String)
    ensures
        r@ == plate_type_label(*ed),
{
    let label = match ed.get("summary") {
        Some(s) => match s.get("plate/type") {
            Some(t) => t.get_str("label"),
            None => None,
        },
        None => None,
    };
    match label {
        Some(l) => String::from_str(l),
        None => String::from_str("nullValue"),
    }
}

/// Returns `true` to filter: some entry for the event type does not allow the
/// plate type label.
pub fn non_motor_plate_types_filter(vo: &BoxReportRequest, config: &Json) -> (r: bool)
    ensures
        r == non_motor_vetoes(*vo, *config),
{
    let filters = match config.get_array("nonMotorPlateTypesFilter") {
        Some(f) => f,
        None => return false,
    };
    let ed = match &vo.extra_data {
        Some(ed) => ed,
        None => return false,
    };
    let label = plate_type_label_of(ed);
    let mut k: usize = 0;
    while k < filters.len()
        invariant
            k <= filters@.len(),
            label@ == plate_type_label(*ed),
            filters@ == array_of(field(*config, "nonMotorPlateTypesFilter"@)).unwrap(),
            array_of(field(*config, "nonMotorPlateTypesFilter"@)).is_some(),
            vo.extra_data == Some(*ed),
            forall|j: int|
                0 <= j < k ==> !#[trigger] non_motor_entry_vetoes(
                    filters@[j],
                    vo.event_type,
                    label@,
                ),
        decreases filters.len() - k,
    {
        let f = &filters[k];
        match f.get_array("plateColor") {
            Some(colors) => {
                if lists_event_type(f, &vo.event_type) && !contains_str(colors, label.as_str()) {
                    assert(non_motor_entry_vetoes(filters@[k as int], vo.event_type, label@));
                    return true;
                }
            },
            None => {},
        }
        k = k + 1;
    }
    false
}

/// Returns `true` to filter: the plate number holds a configured text.
pub fn plate_special_text_filter(vo: &BoxReportRequest, config: &Json) -> (r: bool)
    ensures
        r == special_text_vetoes(*vo, *config),
{
    let c = match config.get("plateSpecialTextFilter") {
        Some(c) => c,
        None => return false,
    };
    let texts = match c.get_array("specialTexts") {
        Some(t) => t,
        None => return false,
    };
    let plate = match &vo.plate_number {
        Some(p) => p,
        None => return false,
    };
    if !lists_event_type(c, &vo.event_type) {
        return false;
    }
    let mut k: usize = 0;
    while k < texts.len()
        invariant
            k <= texts@.len(),
            field(*config, "plateSpecialTextFilter"@) == Some(*c),
            texts@ == array_of(field(*c, "specialTexts"@)).unwrap(),
            array_of(field(*c, "specialTexts"@)).is_some(),
            vo.plate_number == Some(*plate),
            lists_type(*c, vo.event_type),
            forall|j: int|
                0 <= j < k ==> !((#[trigger] str_of(Some(texts@[j]))).is_some() && contains_spec(
                    plate@,
                    str_of(Some(texts@[j])).unwrap(),
                )),
        decreases texts.len() - k,
    {
        match texts[k].as_str() {
            Some(t) => {
                if contains(plate.as_str(), t) {
                    assert(str_of(Some(texts@[k as int])).is_some());
                    return true;
                }
            },
            None => {},
        }
        k = k + 1;
    }
    false
}

/// Returns `true` to filter: the plate number is shorter than seven characters.
pub fn short_plate_filter(vo: &BoxReportRequest, config: &Json) -> (r: bool)
    ensures
        r == short_plate_vetoes(*vo, *config),
{
    let c = match config.get("shortPlateFilter") {
        Some(c) => c,
        None => return false,
    };
    if !is_enabled(c) || !lists_event_type(c, &vo.event_type) {
        return false;
    }
    match &vo.plate_number {
        Some(p) => {
            p.as_str().unicode_len() < MIN_PLATE_CHARS
        },
        None => false,
    }
}

/// The cooldown of the same-plate rule where it applies to this report.
pub fn same_plate_cooling_secs(vo: &BoxReportRequest, config: &Json) -> (r: Option<u64>)
    ensures
        r.is_some() == same_plate_cooling(*vo, *config).is_some(),
        r.is_some() ==> r.unwrap() as int == same_plate_cooling(*vo, *config).unwrap(),
{
    if vo.plate_number.is_none() {
        return None;
    }
    let c = match config.get("ignoreSamePlateEvents") {
        Some(c) => c,
        None => return None,
    };
    let n = match c.get_u64("coolingSeconds") {
        Some(n) => n,
        None => return None,
    };
    if is_enabled(c) && n > 0 && lists_event_type(c, &vo.event_type) {
        Some(n)
    } else {
        None
    }
}

/// The store key of the same-plate marker.
pub fn plate_key(vo: &BoxReportRequest) -> (r: String)
    ensures
        r@ == plate_key_spec(*vo),
{
    let mut k = join5(
        "PLATE_KEY:",
        as_str_or_empty(&vo.task_code),
        ":",
        as_str_or_empty(&vo.event_type),
        ":",
    );
    k.append(as_str_or_empty(&vo.plate_number));
    k
}

/// Same-plate dedup: vetoes when the stored marker holds this plate; where the
/// rule applies and does not veto, records the plate for the cooldown.
pub fn ignore_same_plate_events(vo: &BoxReportRequest, config: &Json, stored: Option<&str>) -> (r: (
    bool,
    Option<StoreWrite>,
))
    ensures
        r.0 == same_plate_vetoes(*vo, *config, match stored {
            Some(s) => Some(s@),
            None => None,
        }),
        r.1.is_some() == (same_plate_cooling(*vo, *config).is_some() && !r.0),
        r.1.is_some() ==> text_write(
            r.1.unwrap(),
            plate_key_spec(*vo),
            or_empty(vo.plate_number),
            same_plate_cooling(*vo, *config).unwrap(),
        ),
{
    let cooling = match same_plate_cooling_secs(vo, config) {
        Some(n) => n,
        None => return (false, None),
    };
    let plate = as_str_or_empty(&vo.plate_number);
    match stored {
        Some(s) => {
            if str_eq(s, plate) {
                return (true, None);
            }
        },
        None => {},
    }
    let w = StoreWrite {
        key: plate_key(vo),
        value: StoreValue::Text(String::from_str(plate)),
        ttl_secs: cooling,
    };
    (false, Some(w))
}

/// The plate stage: the rules in their fixed order, the first veto winning.
/// `stored` is the value found under the same-plate key, if any.
pub fn filter(vo: &BoxReportRequest, plate_json_obj: &Json, stored: Option<&str>) -> (r:
    StageOutcome)
    ensures
        r.reason == plate_stage_reason(*vo, *plate_json_obj, match stored {
            Some(s) => Some(s@),
            None => None,
        }),
        r.write.is_some() == (r.reason.is_none() && same_plate_cooling(
            *vo,
            *plate_json_obj,
        ).is_some()),
        r.write.is_some() ==> text_write(
            r.write.unwrap(),
            plate_key_spec(*vo),
            or_empty(vo.plate_number),
            same_plate_cooling(*vo, *plate_json_obj).unwrap(),
        ),
{
    if !only_yellow_plate(vo, plate_json_obj) {
        return StageOutcome { reason: Some(FilterReason::YellowPlate), write: None };
    }
    if ignore_no_plate_events(vo, plate_json_obj) {
        return StageOutcome { reason: Some(FilterReason::NoPlate), write: None };
    }
    if ignore_blurry_plate_events(vo, plate_json_obj) {
        return StageOutcome { reason: Some(FilterReason::BlurryPlate), write: None };
    }
    if only_plate_types(vo, plate_json_obj) {
        return StageOutcome { reason: Some(FilterReason::PlateColorFiltered), write: None };
    }
    if non_motor_plate_types_filter(vo, plate_json_obj) {
        return StageOutcome { reason: Some(FilterReason::PlateColorFiltered), write: None };
    }
    if plate_special_text_filter(vo, plate_json_obj) {
        return StageOutcome { reason: Some(FilterReason::SpecialPlateFilter), write: None };
    }
    if short_plate_filter(vo, plate_json_obj) {
        return StageOutcome { reason: Some(FilterReason::ShortPlateFilter), write: None };
    }
    let (veto, write) = ignore_same_plate_events(vo, plate_json_obj, stored);
    if veto {
        return StageOutcome { reason: Some(FilterReason::SamePlate), write: None };
    }
    StageOutcome { reason: None, write }
}

} // verus!
