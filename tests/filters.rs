use event_rs::cooling::{cooling_decision, handle_cooling_down_filter, parse_marker};
use event_rs::event_processing::{filter_event, personnel_check, PersonnelCheckResult};
use event_rs::geometry::{overlap_micros, Rect};
use event_rs::json::{Json, JsonEntry, Num};
use event_rs::other_filter;
use event_rs::plate_filter;
use event_rs::report::{Algorithm, BoxReportRequest, EventFilterConfig};
use event_rs::rules::FilterReason;
use event_rs::store::StoreValue;

fn s(v: &str) -> Json {
    Json::Str(v.to_string())
}

fn num(v: i64) -> Json {
    Json::Number(Num::Int(v))
}

fn obj(pairs: Vec<(&str, Json)>) -> Json {
    Json::Object(
        pairs
            .into_iter()
            .map(|(k, v)| JsonEntry { key: k.to_string(), value: v })
            .collect(),
    )
}

fn arr(items: Vec<Json>) -> Json {
    Json::Array(items)
}

fn report() -> BoxReportRequest {
    BoxReportRequest {
        id: None,
        task_code: Some("T1".to_string()),
        source: Some("box".to_string()),
        event_type: Some("7021".to_string()),
        event_type_name: None,
        event_time: Some(1_700_000_000_000),
        end_time: None,
        marking: None,
        engine_event_id: Some("E1".to_string()),
        vehicle_type: None,
        plate_number: Some("ABC12345".to_string()),
        plate_color: Some("s_yellow".to_string()),
        special_car_type: None,
        engine_version: None,
        snapshot: None,
        snapshot_uri_compress: None,
        snapshot_uri_raw_compress: None,
        snapshot_uri_cover_compress: None,
        extra_data: None,
        camera_code: None,
        evidence_status: None,
        evidence_url: None,
        original_violation_index: None,
        extra: None,
        project_id: 0,
        project_name: String::new(),
        company_id: 0,
        company_name: String::new(),
    }
}

fn rule(extra: Vec<(&str, Json)>) -> Json {
    let mut pairs = vec![("enable", Json::Bool(true)), ("eventTypes", arr(vec![s("7021")]))];
    pairs.extend(extra);
    obj(pairs)
}

fn yellow_ok() -> (&'static str, Json) {
    ("onlyYellowPlate", obj(vec![("enable", Json::Bool(false))]))
}

fn rect(x1: i128, y1: i128, x2: i128, y2: i128) -> Rect {
    let m = 1_000_000;
    Rect { x1: x1 * m, y1: y1 * m, x2: x2 * m, y2: y2 * m }
}

#[test]
fn iou_identical_unit_boxes_is_one() {
    assert_eq!(overlap_micros(&rect(0, 0, 1, 1), &rect(0, 0, 1, 1)), 1_000_000);
}

#[test]
fn iou_disjoint_boxes_is_zero() {
    assert_eq!(overlap_micros(&rect(0, 0, 1, 1), &rect(2, 2, 3, 3)), 0);
}

#[test]
fn iou_partial_overlap_is_one_seventh() {
    assert_eq!(overlap_micros(&rect(0, 0, 2, 2), &rect(1, 1, 3, 3)), 142_857);
}

#[test]
fn iou_zero_union_is_zero() {
    assert_eq!(overlap_micros(&rect(1, 1, 1, 1), &rect(1, 1, 1, 1)), 0);
}

#[test]
fn json_lookup_and_numbers() {
    let v = obj(vec![("a", num(5)), ("b", Json::Number(Num::Frac(1_500_000))), ("a", num(7))]);
    assert_eq!(v.get_i64("a"), Some(5));
    assert_eq!(v.get_micros("b"), Some(1_500_000));
    assert_eq!(v.get_i64("b"), None);
    assert_eq!(v.get_u64("missing"), None);
    assert_eq!(num(-3).as_u64(), None);
    assert_eq!(Json::Number(Num::UInt(u64::MAX)).as_i64(), None);
}

#[test]
fn cooling_marker_parses() {
    assert_eq!(parse_marker("60@1700000000000"), Some((60, 1_700_000_000_000)));
    assert_eq!(parse_marker("60@1@2"), None);
    assert_eq!(parse_marker("60"), None);
    assert_eq!(parse_marker("x@5"), None);
}

#[test]
fn cooling_inside_stored_window_is_suppressed() {
    let t0: i64 = 1_700_000_000_000;
    let (suppressed, marker) = cooling_decision(Some("60@1700000000000"), 30, Some(t0 + 59_000), t0);
    assert!(suppressed);
    assert!(marker.is_none());
}

#[test]
fn cooling_after_stored_window_passes_and_records() {
    let t0: i64 = 1_700_000_000_000;
    let t = t0 + 61_000;
    let (suppressed, marker) = cooling_decision(Some("60@1700000000000"), 30, Some(t), t);
    assert!(!suppressed);
    let (value, ttl) = marker.unwrap();
    assert_eq!(value, format!("30@{}", t));
    assert_eq!(ttl, 30);
}

#[test]
fn cooling_same_duration_suppresses_outside_window() {
    let t0: i64 = 1_700_000_000_000;
    let (suppressed, _) = cooling_decision(Some("60@1700000000000"), 60, Some(t0 + 3_600_000), t0);
    assert!(suppressed);
}

#[test]
fn cooling_malformed_marker_counts_as_absent() {
    let (suppressed, marker) = cooling_decision(Some("garbage"), 60, Some(10_000), 10_000);
    assert!(!suppressed);
    assert_eq!(marker.unwrap(), ("60@10000".to_string(), 60));
}

#[test]
fn cooling_ttl_is_at_least_one_second() {
    let (_, marker) = cooling_decision(None, 5, Some(0), 1_000_000);
    assert_eq!(marker.unwrap().1, 1);
}

#[test]
fn cooling_filter_applies_only_to_listed_types() {
    let cfg = obj(vec![("is_open", Json::Bool(true)), ("event_types", s("7021,7022"))]);
    let mut vo = report();
    vo.extra_data = Some(obj(vec![(
        "originalConfig",
        obj(vec![("algList", arr(vec![obj(vec![("algParam", obj(vec![("coolingSecond", num(60))]))])]))]),
    )]));
    let out = handle_cooling_down_filter(&cfg, &vo, None, 1_700_000_000_000);
    assert!(!out.suppressed);
    let w = out.write.unwrap();
    assert_eq!(w.key, "FILTER_EVENT_TYPE:_T1_7021");
    assert_eq!(w.ttl_secs, 60);
    vo.event_type = Some("702".to_string());
    let out = handle_cooling_down_filter(&cfg, &vo, None, 1_700_000_000_000);
    assert!(!out.suppressed && out.write.is_none());
}

#[test]
fn yellow_plate_rule_missing_vetoes() {
    let vo = report();
    let cfg = obj(vec![]);
    assert!(!plate_filter::only_yellow_plate(&vo, &cfg));
    let out = plate_filter::filter(&vo, &cfg, None);
    assert_eq!(out.reason, Some(FilterReason::YellowPlate));
}

#[test]
fn yellow_plate_rule_needs_yellow_color() {
    let mut vo = report();
    let cfg = obj(vec![("onlyYellowPlate", rule(vec![]))]);
    assert!(plate_filter::only_yellow_plate(&vo, &cfg));
    vo.plate_color = Some("blue".to_string());
    assert!(!plate_filter::only_yellow_plate(&vo, &cfg));
    vo.plate_color = None;
    assert!(!plate_filter::only_yellow_plate(&vo, &cfg));
}

#[test]
fn yellow_plate_rule_fails_closed_on_missing_data() {
    let mut vo = report();
    let no_types = obj(vec![("onlyYellowPlate", obj(vec![("enable", Json::Bool(true))]))]);
    assert!(!plate_filter::only_yellow_plate(&vo, &no_types));
    let cfg = obj(vec![("onlyYellowPlate", rule(vec![]))]);
    vo.event_type = None;
    assert!(!plate_filter::only_yellow_plate(&vo, &cfg));
    vo.event_type = Some("9999".to_string());
    vo.plate_color = Some("blue".to_string());
    assert!(plate_filter::only_yellow_plate(&vo, &cfg));
}

#[test]
fn no_plate_rule_vetoes_empty_plate() {
    let mut vo = report();
    let cfg = obj(vec![yellow_ok(), ("ignoreNoPlateEvents", rule(vec![]))]);
    assert!(!plate_filter::ignore_no_plate_events(&vo, &cfg));
    vo.plate_number = Some(String::new());
    assert_eq!(plate_filter::filter(&vo, &cfg, None).reason, Some(FilterReason::NoPlate));
}

#[test]
fn blurry_plate_rule_compares_score() {
    let mut vo = report();
    let cfg = obj(vec![
        yellow_ok(),
        ("ignoreBlurryPlateEvents", rule(vec![("blurryLevel", Json::Number(Num::Frac(800_000)))])),
    ]);
    vo.extra_data = Some(obj(vec![("plateNumberScore", Json::Number(Num::Frac(700_000)))]));
    assert_eq!(plate_filter::filter(&vo, &cfg, None).reason, Some(FilterReason::BlurryPlate));
    vo.extra_data = Some(obj(vec![("plateNumberScore", Json::Number(Num::Frac(900_000)))]));
    assert_eq!(plate_filter::filter(&vo, &cfg, None).reason, None);
}

#[test]
fn plate_types_rule_uses_allow_list() {
    let mut vo = report();
    let cfg = obj(vec![
        yellow_ok(),
        ("onlyPlateTypes", rule(vec![("plateColor", arr(vec![s("blue")]))])),
    ]);
    assert_eq!(plate_filter::filter(&vo, &cfg, None).reason, Some(FilterReason::PlateColorFiltered));
    vo.plate_color = Some("blue".to_string());
    assert_eq!(plate_filter::filter(&vo, &cfg, None).reason, None);
}

#[test]
fn non_motor_rule_reads_label() {
    let mut vo = report();
    let entry = obj(vec![("plateColor", arr(vec![s("green")])), ("eventTypes", arr(vec![s("7021")]))]);
    let cfg = obj(vec![yellow_ok(), ("nonMotorPlateTypesFilter", arr(vec![entry]))]);
    vo.extra_data = Some(obj(vec![(
        "summary",
        obj(vec![("plate/type", obj(vec![("label", s("green"))]))]),
    )]));
    assert!(!plate_filter::non_motor_plate_types_filter(&vo, &cfg));
    vo.extra_data = Some(obj(vec![]));
    assert!(plate_filter::non_motor_plate_types_filter(&vo, &cfg));
}

#[test]
fn special_text_rule_finds_substring() {
    let vo = report();
    let cfg = obj(vec![
        yellow_ok(),
        (
            "plateSpecialTextFilter",
            obj(vec![("specialTexts", arr(vec![s("C12")])), ("eventTypes", arr(vec![s("7021")]))]),
        ),
    ]);
    assert_eq!(plate_filter::filter(&vo, &cfg, None).reason, Some(FilterReason::SpecialPlateFilter));
}

#[test]
fn short_plate_rule_counts_bytes() {
    let mut vo = report();
    let cfg = obj(vec![yellow_ok(), ("shortPlateFilter", rule(vec![]))]);
    vo.plate_number = Some("AB123".to_string());
    assert_eq!(plate_filter::filter(&vo, &cfg, None).reason, Some(FilterReason::ShortPlateFilter));
    vo.plate_number = Some("京A1234".to_string());
    assert_eq!(plate_filter::filter(&vo, &cfg, None).reason, Some(FilterReason::ShortPlateFilter));
    vo.plate_number = Some("京A12345".to_string());
    assert_eq!(plate_filter::filter(&vo, &cfg, None).reason, None);
}

#[test]
fn same_plate_rule_dedups_and_records() {
    let vo = report();
    let cfg = obj(vec![yellow_ok(), ("ignoreSamePlateEvents", rule(vec![("coolingSeconds", num(30))]))]);
    let out = plate_filter::filter(&vo, &cfg, None);
    assert_eq!(out.reason, None);
    let w = out.write.unwrap();
    assert_eq!(w.key, "PLATE_KEY:T1:7021:ABC12345");
    assert_eq!(w.ttl_secs, 30);
    assert!(matches!(w.value, StoreValue::Text(ref v) if v == "ABC12345"));
    let out = plate_filter::filter(&vo, &cfg, Some("ABC12345"));
    assert_eq!(out.reason, Some(FilterReason::SamePlate));
    assert!(out.write.is_none());
}

fn pos_rule_cfg() -> Json {
    obj(vec![(
        "ignoreSamePosEvents",
        rule(vec![("coolingSeconds", num(120)), ("posOverlapPercent", Json::Number(Num::Frac(500_000)))]),
    )])
}

#[test]
fn same_position_flow_first_seen_passes_and_seeds() {
    let mut vo = report();
    vo.extra_data = Some(obj(vec![("position", arr(vec![num(0), num(0), num(2), num(2)]))]));
    let out = other_filter::filter(&vo, &pos_rule_cfg(), None);
    assert_eq!(out.reason, None);
    let w = out.write.unwrap();
    assert_eq!(w.key, "POS_KEY:T1:7021:");
    assert_eq!(w.ttl_secs, 120);
}

#[test]
fn same_position_flow_overlap_vetoes() {
    let mut vo = report();
    vo.extra_data = Some(obj(vec![("position", arr(vec![num(0), num(0), num(2), num(2)]))]));
    let stored = arr(vec![num(0), num(0), num(2), num(2)]);
    let out = other_filter::filter(&vo, &pos_rule_cfg(), Some(&stored));
    assert_eq!(out.reason, Some(FilterReason::SamePosition));
    let far = arr(vec![num(1), num(1), num(3), num(3)]);
    let out = other_filter::filter(&vo, &pos_rule_cfg(), Some(&far));
    assert_eq!(out.reason, None);
    assert!(out.write.is_some());
}

#[test]
fn same_position_points_overlap_vetoes() {
    let mut vo = report();
    vo.extra_data = Some(obj(vec![]));
    let pts = arr(vec![arr(vec![num(0), num(0)]), arr(vec![num(4), num(4)])]);
    vo.snapshot = Some(arr(vec![obj(vec![("pts", pts)])]));
    let stored = arr(vec![arr(vec![num(0), num(0)]), arr(vec![num(4), num(4)])]);
    assert_eq!(
        other_filter::filter(&vo, &pos_rule_cfg(), Some(&stored)).reason,
        Some(FilterReason::SamePosition)
    );
}

#[test]
fn same_position_threshold_is_compared_exactly() {
    let mut vo = report();
    vo.extra_data = Some(obj(vec![("position", arr(vec![num(0), num(0), num(2), num(2)]))]));
    let stored = arr(vec![num(1), num(1), num(3), num(3)]);
    // the overlap is exactly 1/7; 142857 millionths lies just below it
    let cfg = |p: i64| {
        obj(vec![(
            "ignoreSamePosEvents",
            rule(vec![("coolingSeconds", num(120)), ("posOverlapPercent", Json::Number(Num::Frac(p)))]),
        )])
    };
    assert_eq!(other_filter::filter(&vo, &cfg(142_857), Some(&stored)).reason, Some(FilterReason::SamePosition));
    assert_eq!(other_filter::filter(&vo, &cfg(142_858), Some(&stored)).reason, None);
}

#[test]
fn ignore_all_and_part_rules() {
    let mut vo = report();
    let cfg = obj(vec![("ignoreAllEvents", rule(vec![]))]);
    assert_eq!(other_filter::filter(&vo, &cfg, None).reason, Some(FilterReason::IgnoreAllEvents));
    let cfg = obj(vec![("ignorePartEvents", rule(vec![("eventResult", s("no"))]))]);
    assert_eq!(other_filter::filter(&vo, &cfg, None).reason, None);
    vo.extra_data = Some(obj(vec![("eventResult", obj(vec![("result", s("no"))]))]));
    assert_eq!(other_filter::filter(&vo, &cfg, None).reason, Some(FilterReason::IgnorePartEvents));
}

fn group(name: &str, config: Json) -> EventFilterConfig {
    EventFilterConfig { id: 1, project_id: Some(1), setting_group: Some(name.to_string()), config: Some(config) }
}

#[test]
fn plate_stage_reason_wins_over_other_stage() {
    let mut vo = report();
    vo.plate_color = Some("blue".to_string());
    let configs = vec![
        group("other", obj(vec![("ignoreAllEvents", rule(vec![]))])),
        group("plate", obj(vec![("onlyYellowPlate", rule(vec![]))])),
    ];
    let out = filter_event(&vo, &configs, None, None);
    assert_eq!(out.reason, Some(FilterReason::YellowPlate));
    assert_eq!(out.reason.unwrap().tag(), "yellowPlate");
}

#[test]
fn other_stage_runs_when_plate_stage_passes() {
    let vo = report();
    let configs = vec![
        group("plate", obj(vec![yellow_ok()])),
        group("other", obj(vec![("ignoreAllEvents", rule(vec![]))])),
    ];
    assert_eq!(filter_event(&vo, &configs, None, None).reason, Some(FilterReason::IgnoreAllEvents));
    assert_eq!(filter_event(&vo, &vec![], None, None).reason, None);
}

fn with_param(param: Json) -> BoxReportRequest {
    let mut vo = report();
    vo.extra_data = Some(obj(vec![(
        "originalConfig",
        obj(vec![("algList", arr(vec![obj(vec![("algParam", param)])]))]),
    )]));
    vo
}

fn algorithm(switch: Option<i32>) -> Algorithm {
    Algorithm { id: 1, code: Some("7021".to_string()), draw_type: None, editable_config: None, review_switch: switch }
}

#[test]
fn review_flag_off_disables_regardless_of_switch() {
    let vo = with_param(obj(vec![("isOpenDQ", num(0))]));
    assert_eq!(personnel_check(&vo, &algorithm(Some(1)), Some("1")), PersonnelCheckResult::Disable);
}

#[test]
fn review_global_switch_off_disables() {
    let vo = with_param(obj(vec![]));
    assert_eq!(personnel_check(&vo, &algorithm(Some(1)), Some("0")), PersonnelCheckResult::Disable);
    assert_eq!(personnel_check(&vo, &algorithm(Some(1)), None), PersonnelCheckResult::Disable);
    assert_eq!(personnel_check(&vo, &algorithm(Some(1)), Some("1")), PersonnelCheckResult::Enable);
    assert_eq!(personnel_check(&vo, &algorithm(Some(0)), Some("1")), PersonnelCheckResult::Disable);
}

#[test]
fn review_time_window() {
    // 2023-11-14 22:13:20 UTC
    let window = |start: &str, end: &str| {
        obj(vec![
            ("isOpenDQ", num(1)),
            (
                "openDqTime",
                obj(vec![
                    ("openDqStartDate", s("2023-11-01")),
                    ("openDqEndDate", s("2023-11-30")),
                    ("openDqStartTime", s(start)),
                    ("openDqEndTime", s(end)),
                ]),
            ),
        ])
    };
    let vo = with_param(window("08:00", "23:00"));
    assert_eq!(personnel_check(&vo, &algorithm(None), None), PersonnelCheckResult::Enable);
    let vo = with_param(window("08:00", "20:00"));
    assert_eq!(personnel_check(&vo, &algorithm(None), None), PersonnelCheckResult::Disable);
    let vo = with_param(obj(vec![("isOpenDQ", num(1))]));
    assert_eq!(personnel_check(&vo, &algorithm(None), None), PersonnelCheckResult::Enable);
    let mut vo = with_param(obj(vec![("isOpenDQ", num(1))]));
    vo.event_time = None;
    assert_eq!(personnel_check(&vo, &algorithm(None), None), PersonnelCheckResult::Enable);
    let mut vo = with_param(window("08:00", "23:00"));
    vo.event_time = None;
    assert_eq!(personnel_check(&vo, &algorithm(None), None), PersonnelCheckResult::Disable);
}

#[test]
fn review_no_parameters_disables() {
    let vo = report();
    assert_eq!(personnel_check(&vo, &algorithm(Some(1)), Some("1")), PersonnelCheckResult::Disable);
    let mut vo = with_param(obj(vec![]));
    vo.original_violation_index = Some(3);
    assert_eq!(personnel_check(&vo, &algorithm(Some(1)), Some("1")), PersonnelCheckResult::Disable);
}
