//! The cooling-down filter: per task and event type, suppresses repeats for
//! the cooldown the event itself carries.

use vstd::prelude::*;

use crate::event_processing::alg_param;
use crate::json::{bool_of, field, i64_of, str_of, Json};
use crate::report::BoxReportRequest;
use crate::store::{as_str_or_empty, join5, or_empty, StoreValue, StoreWrite};
use crate::text::{
    comma_list_contains, comma_list_has, decimal, int_text, is_digit,
    lemma_parse_int_text, nat_text, parse_i64, parse_i64_spec,
};

verus! {

/// The cooldown in seconds where the filter applies to the report: the global
/// switch is on, the event type is in the configured comma-separated list,
/// and the event's echoed parameters carry a positive `coolingSecond`.
pub open spec fn cooling_second_spec(cfg: Json, vo: BoxReportRequest) -> Option<int> {
    let types = match str_of(field(cfg, "event_types"@)) {
        Some(t) => t,
        None => Seq::empty(),
    };
    match (vo.event_type, alg_param(vo)) {
        (Some(et), Some(param)) => match i64_of(field(param, "coolingSecond"@)) {
            Some(cs) => if bool_of(field(cfg, "is_open"@)) == Some(true) && comma_list_has(
                types,
                et@,
            ) && cs > 0 {
                Some(cs)
            } else {
                None
            },
            None => None,
        },
        _ => None,
    }
}

/// `FILTER_EVENT_TYPE:_{taskCode}_{eventType}`.
pub open spec fn cooling_key_spec(vo: BoxReportRequest) -> Seq<char> {
    "FILTER_EVENT_TYPE:_"@ + or_empty(vo.task_code) + "_"@ + or_empty(vo.event_type) + ""@
}

/// `s` holds exactly one '@', at position `i`.
pub open spec fn single_at(s: Seq<char>, i: int) -> bool {
    0 <= i < s.len() && s[i] == '@' && forall|j: int|
        0 <= j < s.len() && j != i ==> #[trigger] s[j] != '@'
}

/// A stored marker `{coolingSecond}@{eventTimeMillis}`; anything else is
/// malformed.
pub open spec fn marker_spec(s: Seq<char>) -> Option<(int, int)> {
    if exists|i: int| single_at(s, i) {
        let i = choose|i: int| single_at(s, i);
        match (parse_i64_spec(s.subrange(0, i)), parse_i64_spec(s.subrange(i + 1, s.len() as int))) {
            (Some(c), Some(t)) => Some((c, t)),
            _ => None,
        }
    } else {
        None
    }
}

/// The text of a marker.
pub open spec fn marker_text(cooling: int, time_ms: int) -> Seq<char> {
    int_text(cooling) + "@"@ + int_text(time_ms)
}

/// The stored marker suppresses the event: the same cooldown, or an event
/// time within the stored window.
pub open spec fn cooling_suppresses(stored: Option<Seq<char>>, cooling: int, event_time: Option<i64>) -> bool {
    match stored {
        Some(s) => match marker_spec(s) {
            Some((c, t0)) => c == cooling || match event_time {
                Some(t) => t0 <= t <= t0 + c * 1000,
                None => false,
            },
            None => false,
        },
        None => false,
    }
}

/// Division rounding toward zero, by a positive divisor.
pub open spec fn trunc_div(n: int, d: int) -> int {
    if n >= 0 { n / d } else { -((-n) / d) }
}

/// Seconds the fresh marker lives: until the event's cooldown ends, at least one.
pub open spec fn marker_ttl(cooling: int, event_ms: int, now_ms: int) -> int {
    let s = trunc_div(event_ms + cooling * 1000 - now_ms, 1000);
    if s < 1 { 1 } else { s }
}

/// What the filter decided: suppress, and the marker it records otherwise.
pub struct CoolingOutcome {
    pub suppressed: bool,
    pub write: Option<StoreWrite>,
}

/// The cooldown of the report where the filter applies to it.
pub fn cooling_second_of(filter_events_config: &Json, vo: &BoxReportRequest) -> (r: Option<i64>)
    ensures
        r.is_some() == cooling_second_spec(*filter_events_config, *vo).is_some(),
        r.is_some() ==> r.unwrap() as int == cooling_second_spec(
            *filter_events_config,
            *vo,
        ).unwrap(),
{
    let open = match filter_events_config.get_bool("is_open") {
        Some(b) => b,
        None => false,
    };
    if !open {
        return None;
    }
    let et = match &vo.event_type {
        Some(e) => e,
        None => return None,
    };
    let types = match filter_events_config.get_str("event_types") {
        Some(t) => t,
        None => {
            let e = "";
            proof {
                reveal_strlit("");
                assert(e@ =~= Seq::<char>::empty());
            }
            e
        },
    };
    if !comma_list_contains(types, et.as_str()) {
        return None;
    }
    let param = match crate::event_processing::alg_param_of(vo) {
        Some(p) => p,
        None => return None,
    };
    match param.get_i64("coolingSecond") {
        Some(cs) => if cs > 0 {
            Some(cs)
        } else {
            None
        },
        None => None,
    }
}

/// The store key of the cooling marker.
pub fn cooling_key(vo: &BoxReportRequest) -> (r: String)
    ensures
        r@ == cooling_key_spec(*vo),
{
    join5(
        "FILTER_EVENT_TYPE:_",
        as_str_or_empty(&vo.task_code),
        "_",
        as_str_or_empty(&vo.event_type),
        "",
    )
}

/// The key to read before deciding, where the filter applies to the report.
pub fn cooling_read_key(filter_events_config: &Json, vo: &BoxReportRequest) -> (r: Option<String>)
    ensures
        r.is_some() == cooling_second_spec(*filter_events_config, *vo).is_some(),
        r.is_some() ==> r.unwrap()@ == cooling_key_spec(*vo),
{
    match cooling_second_of(filter_events_config, vo) {
        Some(_) => Some(cooling_key(vo)),
        None => None,
    }
}

/// Reads a stored marker `{coolingSecond}@{eventTimeMillis}`.
pub fn parse_marker(s: &str) -> (r: Option<(i64, i64)>)
    ensures
        r.is_some() == marker_spec(s@).is_some(),
        r.is_some() ==> r.unwrap().0 as int == marker_spec(s@).unwrap().0 && r.unwrap().1 as int
            == marker_spec(s@).unwrap().1,
{
    let n = s.unicode_len();
    let mut at: usize = n;
    let mut i: usize = 0;
    while i < n
        invariant
            n == s@.len(),
            i <= n,
            at <= n,
            at == n ==> forall|j: int| 0 <= j < i ==> #[trigger] s@[j] != '@',
            at < n ==> at < i && s@[at as int] == '@' && forall|j: int|
                0 <= j < i && j != at ==> #[trigger] s@[j] != '@',
        decreases n - i,
    {
        let c = s.get_char(i);
        if c == '@' {
            if at < n {
                assert forall|k: int| !single_at(s@, k) by {
                    if single_at(s@, k) {
                        if k == at as int {
                            assert(s@[i as int] == '@');
                        } else {
                            assert(s@[at as int] == '@');
                        }
                    }
                }
                return None;
            }
            at = i;
        } else {
            assert(s@[i as int] != '@');
        }
        i = i + 1;
    }
    if at == n {
        assert forall|k: int| !single_at(s@, k) by {
            if single_at(s@, k) {
                assert(s@[k] == '@');
            }
        }
        return None;
    }
    assert(single_at(s@, at as int));
    proof {
        let k = choose|k: int| single_at(s@, k);
        if k != at as int {
            assert(s@[k] == '@');
        }
    }
    let c = parse_i64(s.substring_char(0, at));
    let t = parse_i64(s.substring_char(at + 1, n));
    match (c, t) {
        (Some(c), Some(t)) => Some((c, t)),
        _ => None,
    }
}

/// The decision on the stored marker: suppress the event, or let it pass and
/// record `{cooling}@{eventTime}` until the cooldown ends.
pub fn cooling_decision(stored: Option<&str>, cooling: i64, event_time: Option<i64>, now_ms: i64) -> (r:
    (bool, Option<(String, u64)>))
    ensures
        r.0 == cooling_suppresses(
            match stored {
                Some(s) => Some(s@),
                None => None,
            },
            cooling as int,
            event_time,
        ),
        r.1.is_some() == (!r.0 && event_time.is_some()),
        r.1.is_some() ==> r.1.unwrap().0@ == marker_text(cooling as int, event_time.unwrap() as int)
            && r.1.unwrap().1 as int == marker_ttl(
            cooling as int,
            event_time.unwrap() as int,
            now_ms as int,
        ),
{
    match stored {
        Some(s) => match parse_marker(s) {
            Some((c, t0)) => {
                if c == cooling {
                    return (true, None);
                }
                match event_time {
                    Some(t) => {
                        if t0 as i128 <= t as i128 && t as i128 <= t0 as i128 + c as i128 * 1000 {
                            return (true, None);
                        }
                    },
                    None => {},
                }
            },
            None => {},
        },
        None => {},
    }
    let t = match event_time {
        Some(t) => t,
        None => return (false, None),
    };
    let mut value = decimal(cooling);
    value.append("@");
    let tail = decimal(t);
    value.append(tail.as_str());
    let n: i128 = t as i128 + cooling as i128 * 1000 - now_ms as i128;
    let secs: i128 = if n >= 0 { n / 1000 } else { -((-n) / 1000) };
    let ttl: u64 = if secs < 1 { 1 } else { secs as u64 };
    (false, Some((value, ttl)))
}

/// The cooling-down filter on one report. `stored` is the value read under
/// the cooling key, `now_ms` the current time.
pub fn handle_cooling_down_filter(
    filter_events_config: &Json,
    vo: &BoxReportRequest,
    stored: Option<&str>,
    now_ms: i64,
) -> (r: CoolingOutcome)
    ensures
        cooling_second_spec(*filter_events_config, *vo) is None ==> !r.suppressed
            && r.write.is_none(),
        cooling_second_spec(*filter_events_config, *vo) matches Some(cs) ==> {
            let st = match stored {
                Some(s) => Some(s@),
                None => None,
            };
            &&& r.suppressed == cooling_suppresses(st, cs, vo.event_time)
            &&& r.write.is_some() == (!r.suppressed && vo.event_time.is_some())
            &&& r.write matches Some(w) ==> {
                &&& w.key@ == cooling_key_spec(*vo)
                &&& w.value matches StoreValue::Text(v) && v@ == marker_text(
                    cs,
                    vo.event_time.unwrap() as int,
                )
                &&& w.ttl_secs as int == marker_ttl(cs, vo.event_time.unwrap() as int, now_ms as int)
            }
        },
{
    let cs = match cooling_second_of(filter_events_config, vo) {
        Some(c) => c,
        None => return CoolingOutcome { suppressed: false, write: None },
    };
    let (suppressed, marker) = cooling_decision(stored, cs, vo.event_time, now_ms);
    let write = match marker {
        Some((value, ttl)) => Some(
            StoreWrite { key: cooling_key(vo), value: StoreValue::Text(value), ttl_secs: ttl },
        ),
        None => None,
    };
    CoolingOutcome { suppressed, write }
}

proof fn lemma_int_text_no_at(n: int)
    ensures
        forall|j: int| 0 <= j < int_text(n).len() ==> #[trigger] int_text(n)[j] != '@',
{
    if n < 0 {
        crate::text::lemma_nat_text_digits((-n) as nat);
        let t = int_text(n);
        assert forall|j: int| 0 <= j < t.len() implies #[trigger] t[j] != '@' by {
            if j > 0 {
                assert(t[j] == nat_text((-n) as nat)[j - 1]);
                assert(is_digit(nat_text((-n) as nat)[j - 1]));
            }
        }
    } else {
        crate::text::lemma_nat_text_digits(n as nat);
        assert forall|j: int| 0 <= j < int_text(n).len() implies #[trigger] int_text(n)[j] != '@' by {
            assert(is_digit(nat_text(n as nat)[j]));
        }
    }
}

/// A marker the filter records reads back as the cooldown and event time
/// it was written from.
pub proof fn lemma_marker_round_trip(cooling: i64, time_ms: i64)
    ensures
        marker_spec(marker_text(cooling as int, time_ms as int)) == Some(
            (cooling as int, time_ms as int),
        ),
{
    let a = int_text(cooling as int);
    let b = int_text(time_ms as int);
    let s = marker_text(cooling as int, time_ms as int);
    reveal_strlit("@");
    assert(s == a + seq!['@'] + b);
    lemma_int_text_no_at(cooling as int);
    lemma_int_text_no_at(time_ms as int);
    let i = a.len() as int;
    assert(s[i] == '@');
    assert forall|j: int| 0 <= j < s.len() && j != i implies #[trigger] s[j] != '@' by {
        if j < i {
            assert(s[j] == a[j]);
        } else {
            assert(s[j] == b[j - i - 1]);
        }
    }
    assert(single_at(s, i));
    let k = choose|k: int| single_at(s, k);
    if k != i {
        assert(s[i] == '@');
    }
    assert(s.subrange(0, i) == a);
    assert(s.subrange(i + 1, s.len() as int) == b);
    lemma_parse_int_text(cooling);
    lemma_parse_int_text(time_ms);
}

/// Cooldown window: against a marker recorded at `t0` with cooldown `stored`,
/// an event whose cooldown differs is suppressed exactly when its time lies
/// within `[t0, t0 + stored seconds]`.
pub proof fn lemma_cooldown_window(stored: i64, t0: i64, cooling: i64, t: i64)
    requires
        cooling != stored,
    ensures
        cooling_suppresses(Some(marker_text(stored as int, t0 as int)), cooling as int, Some(t))
            == (t0 <= t <= t0 + stored * 1000),
{
    lemma_marker_round_trip(stored, t0);
}

} // verus!
