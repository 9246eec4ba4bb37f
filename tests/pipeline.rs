use event_rs::cache::{probe_hit, CacheAction, CacheEvent, CacheKind, CachePhase, CacheRefill};
use event_rs::json::{Json, JsonEntry, Num};
use event_rs::pipeline::{Action, Pipeline, PipelineEvent, Stage};
use event_rs::records::{event_from_payload, stamp_marking};
use event_rs::report::{
    find_algorithm_by_code, find_base_configs_by_project_id, find_cameras_by_criteria,
    find_event_filter_configs_by_project_id, find_running_tasks_by_criteria, Algorithm, BaseConfig,
    BoxReportRequest, Camera, CameraSearchCriteria, EventFilterConfig, Task, TaskSearchCriteria,
};
use event_rs::response::{
    business_error, internal_err, page_offset, validation_err, AppError, PageData, PageInfo,
    Pageable, RespResult,
};
use event_rs::cooling::cooling_decision;
use event_rs::text::{camel_case_to_under_score, comma_list_contains, contains, parse_i64};

fn s(v: &str) -> Json {
    Json::Str(v.to_string())
}

fn num(v: i64) -> Json {
    Json::Number(Num::Int(v))
}

fn obj(pairs: Vec<(&str, Json)>) -> Json {
    Json::Object(pairs.into_iter().map(|(k, v)| JsonEntry { key: k.to_string(), value: v }).collect())
}

fn arr(items: Vec<Json>) -> Json {
    Json::Array(items)
}

fn report() -> BoxReportRequest {
    BoxReportRequest {
        id: None,
        task_code: Some("T1".to_string()),
        source: Some("box".to_string()),
        event_type: Some("7021".to_string()),
        event_type_name: None,
        event_time: Some(1_700_000_000_000),
        end_time: None,
        marking: None,
        engine_event_id: Some("E1".to_string()),
        vehicle_type: None,
        plate_number: Some("ABC12345".to_string()),
        plate_color: Some("s_yellow".to_string()),
        special_car_type: None,
        engine_version: None,
        snapshot: None,
        snapshot_uri_compress: None,
        snapshot_uri_raw_compress: None,
        snapshot_uri_cover_compress: None,
        extra_data: None,
        camera_code: None,
        evidence_status: None,
        evidence_url: None,
        original_violation_index: None,
        extra: None,
        project_id: 0,
        project_name: String::new(),
        company_id: 0,
        company_name: String::new(),
    }
}

fn task(code: &str, project: i64) -> Task {
    Task {
        id: 1,
        code: Some(code.to_string()),
        name: Some("gate".to_string()),
        box_sn: Some("SN1".to_string()),
        scene_id: Some(9),
        status: Some("running".to_string()),
        project_id: Some(project),
        project_name: Some("P".to_string()),
    }
}

fn cooling_off() -> Json {
    obj(vec![("is_open", Json::Bool(false)), ("event_types", s(""))])
}

const NOW: i64 = 1_700_000_100_000;

fn reply_of(actions: &[Action]) -> Option<String> {
    match actions.last() {
        Some(Action::Reply(m)) => Some(m.clone()),
        _ => None,
    }
}

fn has_persist(actions: &[Action]) -> bool {
    actions.iter().any(|a| matches!(a, Action::Persist(_)))
}

#[test]
fn unknown_source_is_answered_without_record() {
    let mut vo = report();
    vo.source = None;
    let mut p = Pipeline::new(vo, cooling_off());
    let out = p.step(PipelineEvent::Begin, NOW, "now");
    assert!(reply_of(&out).unwrap().contains("Invalid source"));
    assert!(!has_persist(&out));
    assert_eq!(p.stage, Stage::Done);
}

#[test]
fn missing_engine_event_id_is_answered() {
    let mut vo = report();
    vo.engine_event_id = Some(String::new());
    let mut p = Pipeline::new(vo, cooling_off());
    let out = p.step(PipelineEvent::Begin, NOW, "now");
    assert!(reply_of(&out).unwrap().contains("Invalid engine_event_id"));
}

#[test]
fn replayed_event_is_already_processed() {
    let mut p = Pipeline::new(report(), cooling_off());
    let out = p.step(PipelineEvent::Begin, NOW, "now");
    assert!(matches!(&out[0], Action::ProbeReplay(k) if k == "E1"));
    let out = p.step(PipelineEvent::ReplayProbed(Some(true)), NOW, "now");
    assert!(reply_of(&out).unwrap().contains("already processed"));
    assert!(!has_persist(&out));
    assert!(p.step(PipelineEvent::Saved(Ok(1)), NOW, "now").is_empty());
}

#[test]
fn missing_task_is_a_hard_failure() {
    let mut p = Pipeline::new(report(), cooling_off());
    p.step(PipelineEvent::Begin, NOW, "now");
    p.step(PipelineEvent::ReplayProbed(None), NOW, "now");
    let out = p.step(PipelineEvent::TasksLoaded(Some(vec![task("OTHER", 1)])), NOW, "now");
    assert_eq!(out.len(), 1);
    assert!(matches!(&out[0], Action::Fail(_)));
    assert_eq!(p.stage, Stage::Done);
}

#[test]
fn reviewed_event_is_persisted_as_init_and_pushed() {
    let mut vo = report();
    vo.extra_data = Some(obj(vec![
        ("position", arr(vec![num(1), num(2), num(3), num(4)])),
        (
            "originalConfig",
            obj(vec![(
                "algList",
                arr(vec![obj(vec![
                    ("eventType", s("7021")),
                    (
                        "algParam",
                        obj(vec![
                            ("isOpenDQ", num(1)),
                            (
                                "openDqTime",
                                obj(vec![
                                    ("openDqStartDate", s("2023-11-01")),
                                    ("openDqEndDate", s("2023-11-30")),
                                ]),
                            ),
                        ]),
                    ),
                ])]),
            )]),
        ),
    ]));
    let mut p = Pipeline::new(vo, cooling_off());
    p.step(PipelineEvent::Begin, NOW, "now");
    p.step(PipelineEvent::ReplayProbed(Some(false)), NOW, "now");
    let out = p.step(PipelineEvent::TasksLoaded(Some(vec![task("T1", 42)])), NOW, "now");
    assert!(matches!(out[0], Action::LoadConfigs(42)));
    let out = p.step(PipelineEvent::ConfigsLoaded(Some(vec![])), NOW, "now");
    assert!(matches!(out.last(), Some(Action::LoadAlgorithms)));
    let alg = Algorithm {
        id: 3,
        code: Some("7021".to_string()),
        draw_type: Some("rect".to_string()),
        editable_config: Some(obj(vec![("config", arr(vec![s("x")]))])),
        review_switch: Some(0),
    };
    let out = p.step(PipelineEvent::AlgorithmsLoaded(Some(vec![alg])), NOW, "now");
    match &out[0] {
        Action::Persist(r) => {
            assert_eq!(r.marking.as_deref(), Some("init"));
            assert_eq!(r.marking_time, Some(NOW));
            assert_eq!(r.project_id, Some(42));
            assert_eq!(r.task_name.as_deref(), Some("gate"));
        },
        _ => panic!("expected a record to persist"),
    }
    let out = p.step(PipelineEvent::Saved(Ok(77)), NOW, "now");
    match &out[0] {
        Action::PushReview(id, extras) => {
            assert_eq!(*id, 77);
            assert!(extras.position.is_some());
            assert!(extras.editable.is_some());
            let oc = extras.original_config.as_ref().unwrap();
            assert_eq!(oc.get_str("drawType"), Some("rect"));
            assert_eq!(oc.get_array("violations").map(|v| v.len()), Some(1));
        },
        _ => panic!("expected a review push"),
    }
    assert!(matches!(&out[1], Action::ArmReplay(k) if k == "E1"));
    assert!(reply_of(&out).unwrap().contains("Event processed successfully"));
}

#[test]
fn accepted_event_without_review_is_marked_event() {
    let mut p = Pipeline::new(report(), cooling_off());
    p.step(PipelineEvent::Begin, NOW, "now");
    p.step(PipelineEvent::ReplayProbed(Some(false)), NOW, "now");
    p.step(PipelineEvent::TasksLoaded(Some(vec![task("T1", 1)])), NOW, "now");
    p.step(PipelineEvent::ConfigsLoaded(Some(vec![])), NOW, "now");
    let alg = Algorithm { id: 3, code: Some("7021".to_string()), draw_type: None, editable_config: None, review_switch: None };
    let out = p.step(PipelineEvent::AlgorithmsLoaded(Some(vec![alg])), NOW, "2023-11-14T22:15:00");
    match &out[0] {
        Action::Persist(r) => {
            assert_eq!(r.marking.as_deref(), Some("event"));
            let block = r.extra.as_ref().unwrap().get("marking").unwrap();
            assert_eq!(block.get_i64("MarkEventCount"), Some(1));
            assert_eq!(block.get_str("MarkingTime"), Some("2023-11-14T22:15:00"));
        },
        _ => panic!("expected a record to persist"),
    }
    let out = p.step(PipelineEvent::Saved(Ok(5)), NOW, "now");
    assert!(!out.iter().any(|a| matches!(a, Action::PushReview(..))));
    assert!(out.iter().any(|a| matches!(a, Action::ArmReplay(_))));
}

#[test]
fn filtered_event_is_persisted_and_relayed() {
    let mut vo = report();
    vo.plate_color = Some("blue".to_string());
    let mut p = Pipeline::new(vo, cooling_off());
    p.step(PipelineEvent::Begin, NOW, "now");
    p.step(PipelineEvent::ReplayProbed(Some(false)), NOW, "now");
    p.step(PipelineEvent::TasksLoaded(Some(vec![task("T1", 1)])), NOW, "now");
    let plate = EventFilterConfig {
        id: 1,
        project_id: Some(1),
        setting_group: Some("plate".to_string()),
        config: Some(obj(vec![(
            "onlyYellowPlate",
            obj(vec![("enable", Json::Bool(true)), ("eventTypes", arr(vec![s("7021")]))]),
        )])),
    };
    let out = p.step(PipelineEvent::ConfigsLoaded(Some(vec![plate])), NOW, "now");
    match out.last() {
        Some(Action::Persist(r)) => {
            assert_eq!(r.marking.as_deref(), Some("filtered"));
            assert_eq!(r.filtered_type.as_deref(), Some("yellowPlate"));
        },
        _ => panic!("expected a record to persist"),
    }
    let out = p.step(PipelineEvent::Saved(Ok(9)), NOW, "now");
    assert!(matches!(out[0], Action::NotifyRelay));
    assert_eq!(out.iter().filter(|a| matches!(a, Action::NotifyRelay)).count(), 1);
    assert!(out.iter().any(|a| matches!(a, Action::ArmReplay(_))));
    assert!(reply_of(&out).unwrap().contains("rule filter chain"));
}

#[test]
fn cooling_suppression_arms_guard() {
    let cfg = obj(vec![("is_open", Json::Bool(true)), ("event_types", s("7021"))]);
    let mut vo = report();
    vo.extra_data = Some(obj(vec![(
        "originalConfig",
        obj(vec![("algList", arr(vec![obj(vec![("algParam", obj(vec![("coolingSecond", num(60))]))])]))]),
    )]));
    let mut p = Pipeline::new(vo, cfg);
    p.step(PipelineEvent::Begin, NOW, "now");
    p.step(PipelineEvent::ReplayProbed(Some(false)), NOW, "now");
    let out = p.step(PipelineEvent::TasksLoaded(Some(vec![task("T1", 1)])), NOW, "now");
    assert!(matches!(&out[0], Action::ReadCooling(k) if k == "FILTER_EVENT_TYPE:_T1_7021"));
    let out = p.step(PipelineEvent::CoolingRead(Some("60@1".to_string())), NOW, "now");
    assert!(matches!(&out[0], Action::ArmReplay(k) if k == "E1"));
    assert!(reply_of(&out).unwrap().contains("cooling-down"));
}

#[test]
fn unknown_marking_is_saved_directly() {
    let mut vo = report();
    vo.marking = Some("unknown".to_string());
    let mut p = Pipeline::new(vo, cooling_off());
    p.step(PipelineEvent::Begin, NOW, "now");
    p.step(PipelineEvent::ReplayProbed(Some(false)), NOW, "now");
    p.step(PipelineEvent::TasksLoaded(Some(vec![task("T1", 1)])), NOW, "now");
    let out = p.step(PipelineEvent::ConfigsLoaded(Some(vec![])), NOW, "now");
    assert!(has_persist(&out));
    let out = p.step(PipelineEvent::Saved(Ok(3)), NOW, "now");
    assert!(reply_of(&out).unwrap().contains("unknown event saved"));
    assert!(out.iter().any(|a| matches!(a, Action::ArmReplay(_))));
}

#[test]
fn failed_save_is_a_hard_failure() {
    let mut vo = report();
    vo.marking = Some("unknown".to_string());
    let mut p = Pipeline::new(vo, cooling_off());
    p.step(PipelineEvent::Begin, NOW, "now");
    p.step(PipelineEvent::ReplayProbed(Some(false)), NOW, "now");
    p.step(PipelineEvent::TasksLoaded(Some(vec![task("T1", 1)])), NOW, "now");
    p.step(PipelineEvent::ConfigsLoaded(Some(vec![])), NOW, "now");
    let out = p.step(PipelineEvent::Saved(Err("db down".to_string())), NOW, "now");
    assert!(matches!(&out[..], [Action::Fail(m)] if m == "db down"));
}

#[test]
fn config_refill_failure_is_a_hard_failure() {
    let mut p = Pipeline::new(report(), cooling_off());
    p.step(PipelineEvent::Begin, NOW, "now");
    p.step(PipelineEvent::ReplayProbed(Some(false)), NOW, "now");
    p.step(PipelineEvent::TasksLoaded(Some(vec![task("T1", 1)])), NOW, "now");
    let out = p.step(PipelineEvent::ConfigsLoaded(None), NOW, "now");
    assert!(matches!(&out[..], [Action::Fail(_)]));
    assert_eq!(p.stage, Stage::Done);
}

#[test]
fn algorithm_refill_failure_is_a_hard_failure() {
    let mut p = Pipeline::new(report(), cooling_off());
    p.step(PipelineEvent::Begin, NOW, "now");
    p.step(PipelineEvent::ReplayProbed(Some(false)), NOW, "now");
    p.step(PipelineEvent::TasksLoaded(Some(vec![task("T1", 1)])), NOW, "now");
    p.step(PipelineEvent::ConfigsLoaded(Some(vec![])), NOW, "now");
    let out = p.step(PipelineEvent::AlgorithmsLoaded(None), NOW, "now");
    assert!(matches!(&out[..], [Action::Fail(_)]));
}

#[test]
fn first_running_task_is_taken() {
    let mut p = Pipeline::new(report(), cooling_off());
    p.step(PipelineEvent::Begin, NOW, "now");
    p.step(PipelineEvent::ReplayProbed(Some(false)), NOW, "now");
    let out = p.step(
        PipelineEvent::TasksLoaded(Some(vec![task("X", 5), task("T1", 6), task("T1", 7)])),
        NOW,
        "now",
    );
    assert!(matches!(out[0], Action::LoadConfigs(6)));
    assert_eq!(p.task.as_ref().unwrap().project_id, Some(6));
}

#[test]
fn cache_refill_single_flight() {
    let mut c = CacheRefill::new(CacheKind::Algorithms);
    assert_eq!(c.step(CacheEvent::Begin), vec![CacheAction::ReadCache]);
    assert_eq!(c.step(CacheEvent::Probed(false)), vec![CacheAction::AcquireLock]);
    assert_eq!(c.step(CacheEvent::Locked), vec![CacheAction::ReadCache]);
    assert_eq!(c.step(CacheEvent::Probed(false)), vec![CacheAction::QueryBackingStore]);
    assert_eq!(
        c.step(CacheEvent::Queried(true)),
        vec![CacheAction::WriteCache(180), CacheAction::ReleaseLock, CacheAction::ReturnFetched]
    );
    assert_eq!(c.phase, CachePhase::Done);
    assert_eq!(CacheKind::Algorithms.key(), "all_algorithms");
}

#[test]
fn cache_second_probe_hit_skips_query() {
    let mut c = CacheRefill::new(CacheKind::Tasks);
    c.step(CacheEvent::Begin);
    c.step(CacheEvent::Probed(false));
    c.step(CacheEvent::Locked);
    assert_eq!(c.step(CacheEvent::Probed(true)), vec![CacheAction::ReleaseLock, CacheAction::ReturnCached]);
    assert!(probe_hit(Some("[1]"), true));
    assert!(!probe_hit(Some(""), true));
    assert!(!probe_hit(None, true));
}

#[test]
fn cache_refill_failure_is_reported() {
    let mut c = CacheRefill::new(CacheKind::BaseConfigs);
    c.step(CacheEvent::Begin);
    c.step(CacheEvent::Probed(false));
    c.step(CacheEvent::Locked);
    c.step(CacheEvent::Probed(false));
    assert_eq!(c.step(CacheEvent::Queried(false)), vec![CacheAction::ReleaseLock, CacheAction::Fail]);
}

#[test]
fn lookups_filter_cached_sets() {
    let tasks = vec![task("A", 1), task("B", 2), task("A", 3)];
    let mut c = TaskSearchCriteria::new();
    c.code = Some("A".to_string());
    let found = find_running_tasks_by_criteria(tasks, &c);
    assert_eq!(found.iter().map(|t| t.project_id).collect::<Vec<_>>(), vec![Some(1), Some(3)]);
    let algs = vec![
        Algorithm { id: 1, code: Some("x".to_string()), draw_type: None, editable_config: None, review_switch: None },
        Algorithm { id: 2, code: Some("y".to_string()), draw_type: None, editable_config: None, review_switch: None },
    ];
    assert_eq!(find_algorithm_by_code(algs, "y").map(|a| a.id), Some(2));
    let cfgs = vec![
        EventFilterConfig { id: 1, project_id: Some(1), setting_group: None, config: None },
        EventFilterConfig { id: 2, project_id: Some(2), setting_group: None, config: None },
    ];
    assert_eq!(find_event_filter_configs_by_project_id(cfgs, 2).len(), 1);
    let bases = vec![BaseConfig { id: 4, project_id: Some(7), code: None, config: None }];
    assert_eq!(find_base_configs_by_project_id(bases, 7).map(|b| b.id), Some(4));
    let cams = vec![
        Camera { id: 1, code: Some("c1".to_string()), box_id: Some(5), box_sn: None, project_id: None },
        Camera { id: 2, code: Some("c2".to_string()), box_id: Some(6), box_sn: None, project_id: None },
    ];
    let mut cc = CameraSearchCriteria::new();
    cc.box_id = Some(6);
    assert_eq!(find_cameras_by_criteria(cams, &cc).len(), 1);
}

#[test]
fn record_takes_report_id_or_now() {
    let mut vo = report();
    let t = task("T1", 1);
    assert_eq!(event_from_payload(&vo, &t, NOW).id, NOW);
    vo.id = Some(12);
    vo.marking = Some("event".to_string());
    let r = event_from_payload(&vo, &t, NOW);
    assert_eq!(r.id, 12);
    assert_eq!(r.marking_time, Some(NOW));
    assert_eq!(r.scene_id, Some(9));
    assert_eq!(r.is_del, 0);
}

#[test]
fn marking_block_replaces_earlier_one() {
    let extra = obj(vec![("keep", num(1)), ("marking", s("old"))]);
    let r = stamp_marking(Some(extra), "T");
    assert_eq!(r.get_i64("keep"), Some(1));
    assert_eq!(r.get("marking").unwrap().get_i64("MarkingBy"), Some(0));
    let r = stamp_marking(Some(num(3)), "T");
    assert_eq!(r.get("marking").unwrap().get_str("MarkingTime"), Some("T"));
}

#[test]
fn envelopes_carry_codes() {
    let ok = RespResult::ok(5);
    assert_eq!((ok.code, ok.data, ok.message.as_str()), (0, Some(5), "ok"));
    assert_eq!(RespResult::<()>::ok_with_msg("m".to_string()).code, 0);
    assert_eq!(RespResult::<()>::sys_error("m".to_string()).code, 500);
    assert_eq!(RespResult::<()>::validation_error("m".to_string()).code, 6001);
    assert_eq!(RespResult::<()>::business_error("m".to_string()).code, 7002);
    assert_eq!(internal_err("x".to_string()).0, 500);
    assert_eq!(validation_err("x".to_string()).1.code, 6001);
    assert_eq!(business_error("x".to_string()).1.code, 7002);
}

#[test]
fn bail_errors_are_business_errors() {
    let (status, body) = AppError::new("Bail: no quota".to_string()).into_response();
    assert_eq!((status, body.code, body.message.as_str()), (200, 7002, "no quota"));
    let (status, body) = AppError::new("boom".to_string()).into_response();
    assert_eq!((status, body.code, body.message.as_str()), (500, 500, "boom"));
}

struct Req(Option<u64>);

impl Pageable for Req {
    fn get_page(&self) -> Option<u64> {
        self.0
    }
}

#[test]
fn paging_offsets() {
    assert_eq!(Req(None).get_offset(), Some(0));
    assert_eq!(Req(Some(1)).get_offset(), Some(0));
    assert_eq!(Req(Some(3)).get_offset(), Some(40));
    assert_eq!(Req(Some(0)).get_offset(), None);
    assert_eq!(page_offset(Some(u64::MAX), Some(u64::MAX)), None);
    let info = PageInfo::from(2, 10, 35);
    assert_eq!((info.page(), info.size(), info.total()), (2, 10, 35));
    let data = PageData::new(PageInfo::from(1, 2, 2), vec![1, 2]);
    assert_eq!(data.page_data, vec![1, 2]);
}

#[test]
fn decimal_text_round_trip() {
    assert_eq!(parse_i64("123"), Some(123));
    assert_eq!(parse_i64("+5"), Some(5));
    assert_eq!(parse_i64("-9223372036854775808"), Some(i64::MIN));
    assert_eq!(parse_i64("9223372036854775808"), None);
    assert_eq!(parse_i64(""), None);
    assert_eq!(parse_i64("-"), None);
    assert_eq!(parse_i64("12a"), None);
    let (_, marker) = cooling_decision(None, 7, Some(-42), -42);
    assert_eq!(marker.unwrap().0, "7@-42");
    assert_eq!(parse_i64(&i64::MAX.to_string()), Some(i64::MAX));
}

#[test]
fn substring_and_comma_lists() {
    assert!(contains("ABC123", "C12"));
    assert!(!contains("ABC123", "X"));
    assert!(contains("ABC", ""));
    assert!(comma_list_contains("7021,7022", "7022"));
    assert!(!comma_list_contains("7021,7022", "702"));
    assert!(!comma_list_contains("7021,7022", "7021,7022"));
    assert!(comma_list_contains("", ""));
}

#[test]
fn camel_case_becomes_snake_case() {
    assert_eq!(camel_case_to_under_score("helloWorld"), "hello_world");
    assert_eq!(camel_case_to_under_score("HelloWorldX"), "Hello_world_x");
    assert_eq!(camel_case_to_under_score(""), "");
}
