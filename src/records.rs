//! The records the pipeline derives from a report: the persisted event and
//! the fields a review-queue notification adds to it.

use vstd::prelude::*;

use crate::json::{
    array_of, duplicate_opt, field, lookup_from, opt_field, same, same_opt, str_eq, str_of, Json,
    JsonEntry, Num,
};
use crate::event_processing::PersonnelCheckResult;
use crate::report::{copy_opt, opt_is, opt_view, Algorithm, BoxReportRequest, Task};
use crate::rules::FilterReason;

verus! {

/// The persisted form of an event. Times are milliseconds since the epoch.
pub struct EventRecord {
    pub id: i64,
    pub project_id: Option<i64>,
    pub project_name: Option<String>,
    pub task_code: Option<String>,
    pub task_name: Option<String>,
    pub scene_id: Option<i64>,
    pub source: Option<String>,
    pub event_type: Option<String>,
    pub event_type_name: Option<String>,
    pub event_time: Option<i64>,
    pub end_time: Option<i64>,
    pub marking: Option<String>,
    pub engine_event_id: Option<String>,
    pub vehicle_type: Option<String>,
    pub plate_number: Option<String>,
    pub plate_color: Option<String>,
    pub special_car_type: Option<String>,
    pub engine_version: Option<String>,
    pub snapshot: Option<Json>,
    pub snapshot_uri_compress: Option<String>,
    pub snapshot_uri_raw_compress: Option<String>,
    pub snapshot_uri_cover_compress: Option<String>,
    pub extra_data: Option<Json>,
    pub camera_code: Option<String>,
    pub evidence_status: Option<String>,
    pub evidence_url: Option<String>,
    pub original_violation_index: Option<i32>,
    pub extra: Option<Json>,
    pub marking_time: Option<i64>,
    pub filtered_type: Option<String>,
    pub create_time: i64,
    pub update_time: i64,
    pub create_by: Option<i64>,
    pub update_by: Option<i64>,
    pub is_del: i32,
}

/// The record carries the report's own fields unchanged.
pub open spec fn copies_report(r: EventRecord, p: BoxReportRequest) -> bool {
    &&& r.project_id == Some(p.project_id)
    &&& r.project_name == Some(p.project_name)
    &&& r.task_code == p.task_code
    &&& r.source == p.source
    &&& r.event_type == p.event_type
    &&& r.event_type_name == p.event_type_name
    &&& r.event_time == p.event_time
    &&& r.end_time == p.end_time
    &&& r.engine_event_id == p.engine_event_id
    &&& r.vehicle_type == p.vehicle_type
    &&& r.plate_number == p.plate_number
    &&& r.plate_color == p.plate_color
    &&& r.special_car_type == p.special_car_type
    &&& r.engine_version == p.engine_version
    &&& same_opt(r.snapshot, p.snapshot)
    &&& r.snapshot_uri_compress == p.snapshot_uri_compress
    &&& r.snapshot_uri_raw_compress == p.snapshot_uri_raw_compress
    &&& r.snapshot_uri_cover_compress == p.snapshot_uri_cover_compress
    &&& same_opt(r.extra_data, p.extra_data)
    &&& r.camera_code == p.camera_code
    &&& r.evidence_status == p.evidence_status
    &&& r.evidence_url == p.evidence_url
    &&& r.original_violation_index == p.original_violation_index
}

/// The fields every record of a report has, whatever its marking: the
/// report's own fields, its id (the current time where it has none), the
/// task's name and scene, and the audit fields.
pub open spec fn record_core(r: EventRecord, p: BoxReportRequest, task: Task, now_ms: i64) -> bool {
    &&& copies_report(r, p)
    &&& r.id == match p.id {
        Some(id) => id,
        None => now_ms,
    }
    &&& r.task_name == task.name
    &&& r.scene_id == task.scene_id
    &&& r.create_time == now_ms && r.update_time == now_ms
    &&& r.create_by == Some(0i64) && r.update_by == Some(0i64)
    &&& r.is_del == 0
}

/// The record derived from a report and its task at time `now_ms`.
pub open spec fn record_of(r: EventRecord, p: BoxReportRequest, task: Task, now_ms: i64) -> bool {
    &&& record_core(r, p, task, now_ms)
    &&& r.marking == p.marking
    &&& same_opt(r.extra, p.extra)
    &&& r.marking_time == if opt_is(p.marking, "event"@) {
        Some(now_ms)
    } else {
        None
    }
    &&& r.filtered_type is None
}

/// Maps a report and its task to the record to persist; a report without an
/// id gets the current time in milliseconds as its id.
pub fn event_from_payload(payload: &BoxReportRequest, task: &Task, now_ms: i64) -> (r: EventRecord)
    ensures
        record_of(r, *payload, *task, now_ms),
{
    let id = match payload.id {
        Some(id) => id,
        None => now_ms,
    };
    let marking_time = match &payload.marking {
        Some(m) => if str_eq(m.as_str(), "event") {
            Some(now_ms)
        } else {
            None
        },
        None => None,
    };
    EventRecord {
        id,
        project_id: Some(payload.project_id),
        project_name: Some(payload.project_name.clone()),
        task_code: copy_opt(&payload.task_code),
        task_name: copy_opt(&task.name),
        scene_id: task.scene_id,
        source: copy_opt(&payload.source),
        event_type: copy_opt(&payload.event_type),
        event_type_name: copy_opt(&payload.event_type_name),
        event_time: payload.event_time,
        end_time: payload.end_time,
        marking: copy_opt(&payload.marking),
        engine_event_id: copy_opt(&payload.engine_event_id),
        vehicle_type: copy_opt(&payload.vehicle_type),
        plate_number: copy_opt(&payload.plate_number),
        plate_color: copy_opt(&payload.plate_color),
        special_car_type: copy_opt(&payload.special_car_type),
        engine_version: copy_opt(&payload.engine_version),
        snapshot: duplicate_opt(&payload.snapshot),
        snapshot_uri_compress: copy_opt(&payload.snapshot_uri_compress),
        snapshot_uri_raw_compress: copy_opt(&payload.snapshot_uri_raw_compress),
        snapshot_uri_cover_compress: copy_opt(&payload.snapshot_uri_cover_compress),
        extra_data: duplicate_opt(&payload.extra_data),
        camera_code: copy_opt(&payload.camera_code),
        evidence_status: copy_opt(&payload.evidence_status),
        evidence_url: copy_opt(&payload.evidence_url),
        original_violation_index: payload.original_violation_index,
        extra: duplicate_opt(&payload.extra),
        marking_time,
        filtered_type: None,
        create_time: now_ms,
        update_time: now_ms,
        create_by: Some(0),
        update_by: Some(0),
        is_del: 0,
    }
}

/// The marking block stamped on an event handled without review:
/// `{"MarkEventCount": 1, "MarkingBy": 0, "MarkingTime": time}`.
pub open spec fn is_marking_block(v: Json, time: Seq<char>) -> bool {
    &&& field(v, "MarkEventCount"@) == Some(Json::Number(Num::Int(1)))
    &&& field(v, "MarkingBy"@) == Some(Json::Number(Num::Int(0)))
    &&& str_of(field(v, "MarkingTime"@)) == Some(time)
}

proof fn lemma_lookup_skip(es: Seq<JsonEntry>, key: Seq<char>, i: int)
    requires
        0 <= i <= es.len(),
        forall|j: int| 0 <= j < i ==> #[trigger] es[j].key@ != key,
    ensures
        lookup_from(es, key, 0) == lookup_from(es, key, i),
    decreases i,
{
    if i > 0 {
        lemma_lookup_skip(es, key, i - 1);
    }
}

fn marking_block(time_text: &str) -> (r: Json)
    ensures
        is_marking_block(r, time_text@),
{
    let mut es: Vec<JsonEntry> = Vec::new();
    es.push(JsonEntry { key: String::from_str("MarkEventCount"), value: Json::Number(Num::Int(1)) });
    es.push(JsonEntry { key: String::from_str("MarkingBy"), value: Json::Number(Num::Int(0)) });
    es.push(JsonEntry { key: String::from_str("MarkingTime"), value: Json::Str(String::from_str(time_text)) });
    let r = Json::Object(es);
    proof {
        reveal_strlit("MarkEventCount");
        reveal_strlit("MarkingBy");
        reveal_strlit("MarkingTime");
        assert(lookup_from(es@, "MarkEventCount"@, 0) == Some(Json::Number(Num::Int(1))));
        assert(lookup_from(es@, "MarkingBy"@, 1) == Some(Json::Number(Num::Int(0))));
        assert(es@[0].key@.len() != "MarkingBy"@.len());
        assert(lookup_from(es@, "MarkingTime"@, 2) == Some(es@[2].value));
        assert(es@[0].key@.len() != "MarkingTime"@.len());
        assert(es@[1].key@.len() != "MarkingTime"@.len());
        lemma_lookup_skip(es@, "MarkingBy"@, 1);
        lemma_lookup_skip(es@, "MarkingTime"@, 2);
    }
    r
}

/// Stamps the marking block into `extra` under `marking`, replacing an earlier
/// block. Other members stay as they are; an `extra` that is not an object is
/// replaced by an object holding only the block.
pub fn stamp_marking(extra: Option<Json>, time_text: &str) -> (r: Json)
    ensures
        field(r, "marking"@) matches Some(b) && is_marking_block(b, time_text@),
        extra matches Some(Json::Object(es)) ==> (r matches Json::Object(rs) && (rs@.len()
            == es@.len() || rs@.len() == es@.len() + 1) && forall|j: int|
            0 <= j < es@.len() && es@[j].key@ != "marking"@ ==> #[trigger] rs@[j] == es@[j]),
{
    let block = marking_block(time_text);
    match extra {
        Some(Json::Object(mut es)) => {
            let ghost old_es = es@;
            let ghost es_in = es;
            let mut i: usize = 0;
            while i < es.len()
                invariant
                    i <= es@.len(),
                    es@ == old_es,
                    extra == Some(Json::Object(es_in)),
                    es_in@ == old_es,
                    is_marking_block(block, time_text@),
                    forall|j: int| 0 <= j < i ==> #[trigger] es@[j].key@ != "marking"@,
                decreases es.len() - i,
            {
                if str_eq(es[i].key.as_str(), "marking") {
                    let key = String::from_str("marking");
                    es.set(i, JsonEntry { key, value: block });
                    proof {
                        reveal_strlit("marking");
                        assert forall|j: int| 0 <= j < i implies #[trigger] es@[j].key@ != "marking"@ by {
                            assert(es@[j] == old_es[j]);
                        }
                        lemma_lookup_skip(es@, "marking"@, i as int);
                        assert(lookup_from(es@, "marking"@, i as int) == Some(block));
                        assert(extra == Some(Json::Object(es_in)));
                    }
                    return Json::Object(es);
                }
                i = i + 1;
            }
            es.push(JsonEntry { key: String::from_str("marking"), value: block });
            proof {
                assert forall|j: int| 0 <= j < old_es.len() implies #[trigger] es@[j].key@ != "marking"@ by {
                    assert(es@[j] == old_es[j]);
                }
                lemma_lookup_skip(es@, "marking"@, old_es.len() as int);
            }
            Json::Object(es)
        },
        _ => {
            let mut es: Vec<JsonEntry> = Vec::new();
            es.push(JsonEntry { key: String::from_str("marking"), value: block });
            Json::Object(es)
        },
    }
}

/// What a review-queue notification adds to the event: the reported
/// position, the task snapshot, the violation parameters with the drawing
/// type, and the editable configuration.
pub struct ReviewExtras {
    pub position: Option<Json>,
    pub task_snapshot: Option<String>,
    pub original_config: Option<Json>,
    pub editable: Option<Json>,
}

/// The reported position: `extraData.position` when it is a non-empty array.
pub open spec fn review_position(ed: Json) -> Option<Json> {
    match array_of(field(ed, "position"@)) {
        Some(a) => if a.len() > 0 {
            field(ed, "position"@)
        } else {
            None
        },
        None => None,
    }
}

/// The first entry of `algList` whose `eventType` is the event's.
pub open spec fn first_alg_of(list: Seq<Json>, et: Seq<char>, i: int) -> bool {
    0 <= i < list.len() && str_of(field(list[i], "eventType"@)) == Some(et) && forall|j: int|
        0 <= j < i ==> #[trigger] str_of(field(list[j], "eventType"@)) != Some(et)
}

/// The `algParam` of the first entry of `algList` for the event's type.
pub open spec fn violation_param(ed: Json, et: Option<String>) -> Option<Json> {
    match (et, array_of(opt_field(field(ed, "originalConfig"@), "algList"@))) {
        (Some(e), Some(list)) => if exists|i: int| first_alg_of(list, e@, i) {
            field(list[choose|i: int| first_alg_of(list, e@, i)], "algParam"@)
        } else {
            None
        },
        _ => None,
    }
}

/// `{"violations": [param], "drawType": draw}`, each member present only
/// where its value is.
pub open spec fn review_config(oc: Json, param: Option<Json>, draw: Option<Seq<char>>) -> bool {
    let nv: int = if param.is_some() { 1 } else { 0 };
    let nd: int = if draw.is_some() { 1 } else { 0 };
    oc matches Json::Object(es) && {
        &&& es@.len() == nv + nd
        &&& param matches Some(p) ==> (es@[0].key@ == "violations"@ && (array_of(
            Some(es@[0].value),
        ) matches Some(vs) && vs.len() == 1 && same(vs[0], p)))
        &&& draw matches Some(d) ==> es@[nv].key@ == "drawType"@ && str_of(Some(es@[nv].value))
            == Some(d)
    }
}

/// The editable configuration: `editableConfig.config` when it is an array.
pub open spec fn editable_of(alg: Algorithm) -> Option<Json> {
    match alg.editable_config {
        Some(c) => if array_of(field(c, "config"@)).is_some() {
            field(c, "config"@)
        } else {
            None
        },
        None => None,
    }
}

fn lookup_copy(v: &Json, key: &str) -> (r: Option<Json>)
    ensures
        same_opt(r, field(*v, key@)),
{
    match v.get(key) {
        Some(x) => Some(x.duplicate()),
        None => None,
    }
}

fn violation_param_of(ed: &Json, et: &Option<String>) -> (r: Option<Json>)
    ensures
        same_opt(r, violation_param(*ed, *et)),
{
    let e = match et {
        Some(e) => e,
        None => return None,
    };
    let list = match ed.get("originalConfig") {
        Some(oc) => match oc.get_array("algList") {
            Some(l) => l,
            None => return None,
        },
        None => return None,
    };
    let mut i: usize = 0;
    while i < list.len()
        invariant
            i <= list@.len(),
            array_of(opt_field(field(*ed, "originalConfig"@), "algList"@)) == Some(list@),
            *et == Some(*e),
            forall|j: int|
                0 <= j < i ==> #[trigger] str_of(field(list@[j], "eventType"@)) != Some(e@),
        decreases list.len() - i,
    {
        let hit = match list[i].get_str("eventType") {
            Some(t) => str_eq(t, e.as_str()),
            None => false,
        };
        if hit {
            proof {
                assert(first_alg_of(list@, e@, i as int));
                let k = choose|k: int| first_alg_of(list@, e@, k);
                if k < i {
                    assert(str_of(field(list@[k], "eventType"@)) != Some(e@));
                } else if k > i {
                    assert(str_of(field(list@[i as int], "eventType"@)) == Some(e@));
                }
                assert(k == i);
                assert(*et == Some(*e));
                let ghost lst = array_of(opt_field(field(*ed, "originalConfig"@), "algList"@)).unwrap();
                assert(lst == list@);
                assert(exists|k: int| first_alg_of(lst, e@, k));
                assert(violation_param(*ed, *et) == field(list@[i as int], "algParam"@));
            }
            return lookup_copy(&list[i], "algParam");
        }
        i = i + 1;
    }
    None
}

/// Derives what a review-queue notification adds to the event. Nothing is
/// derived for a report without extra data.
pub fn review_push_extras(payload: &BoxReportRequest, algorithm: Option<&Algorithm>) -> (r:
    ReviewExtras)
    ensures
        payload.extra_data is None ==> r.position is None && r.task_snapshot is None
            && r.original_config is None && r.editable is None,
        payload.extra_data matches Some(ed) ==> {
            &&& same_opt(r.position, review_position(ed))
            &&& r.task_snapshot.is_some() == str_of(field(ed, "taskSnapshot"@)).is_some()
            &&& r.task_snapshot.is_some() ==> r.task_snapshot.unwrap()@ == str_of(
                field(ed, "taskSnapshot"@),
            ).unwrap()
            &&& r.original_config matches Some(oc) && review_config(
                oc,
                violation_param(ed, payload.event_type),
                match algorithm {
                    Some(a) => opt_view(a.draw_type),
                    None => None,
                },
            )
            &&& same_opt(
                r.editable,
                match algorithm {
                    Some(a) => editable_of(*a),
                    None => None,
                },
            )
        },
{
    let ed = match &payload.extra_data {
        Some(ed) => ed,
        None => {
            return ReviewExtras {
                position: None,
                task_snapshot: None,
                original_config: None,
                editable: None,
            }
        },
    };
    let position = match ed.get_array("position") {
        Some(a) => if a.len() > 0 {
            lookup_copy(ed, "position")
        } else {
            None
        },
        None => None,
    };
    let task_snapshot = match ed.get_str("taskSnapshot") {
        Some(t) => Some(String::from_str(t)),
        None => None,
    };
    let mut entries: Vec<JsonEntry> = Vec::new();
    let violation = violation_param_of(ed, &payload.event_type);
    let has_violation = violation.is_some();
    match violation {
        Some(p) => {
            let mut vs: Vec<Json> = Vec::new();
            vs.push(p);
            entries.push(JsonEntry { key: String::from_str("violations"), value: Json::Array(vs) });
        },
        None => {},
    }
    let mut editable: Option<Json> = None;
    match algorithm {
        Some(a) => {
            match &a.draw_type {
                Some(d) => {
                    entries.push(
                        JsonEntry { key: String::from_str("drawType"), value: Json::Str(d.clone()) },
                    );
                },
                None => {},
            }
            match &a.editable_config {
                Some(c) => match c.get_array("config") {
                    Some(_) => {
                        editable = lookup_copy(c, "config");
                    },
                    None => {},
                },
                None => {},
            }
        },
        None => {},
    }
    let original_config = Json::Object(entries);
    ReviewExtras { position, task_snapshot, original_config: Some(original_config), editable }
}

/// The record of a report a rule vetoed: marked "filtered", with the rule's tag.
pub fn filtered_record(payload: &BoxReportRequest, task: &Task, now_ms: i64, reason: FilterReason) -> (r: EventRecord)
    ensures
        record_core(r, *payload, *task, now_ms),
        opt_is(r.marking, "filtered"@),
        opt_is(r.filtered_type, reason.tag_spec()),
        same_opt(r.extra, payload.extra),
{
    let mut record = event_from_payload(payload, task, now_ms);
    record.marking = Some(String::from_str("filtered"));
    record.filtered_type = Some(reason.tag());
    record
}

/// The record of an accepted report after the review decision: marked "init"
/// at `now_ms` for review; otherwise marked "event" with the marking block,
/// stamped `now_text`, in its extra document.
pub fn decided_record(
    payload: &BoxReportRequest,
    task: &Task,
    now_ms: i64,
    review: PersonnelCheckResult,
    now_text: &str,
) -> (r: EventRecord)
    ensures
        record_core(r, *payload, *task, now_ms),
        r.filtered_type is None,
        review == PersonnelCheckResult::Enable ==> opt_is(r.marking, "init"@) && r.marking_time
            == Some(now_ms) && same_opt(r.extra, payload.extra),
        review == PersonnelCheckResult::Disable ==> opt_is(r.marking, "event"@) && (r.extra matches Some(x) && (field(x, "marking"@) matches Some(b) && is_marking_block(b, now_text@))),
{
    let mut record = event_from_payload(payload, task, now_ms);
    if review == PersonnelCheckResult::Enable {
        record.marking = Some(String::from_str("init"));
        record.marking_time = Some(now_ms);
    } else {
        let extra = record.extra;
        record.extra = Some(stamp_marking(extra, now_text));
        record.marking = Some(String::from_str("event"));
    }
    record
}

} // verus!
