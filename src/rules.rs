//! Pieces shared by the rule filter stages: reason tags and the switches every
//! configured rule carries.

use vstd::prelude::*;

use crate::json::{array_of, bool_of, field, has_str, opt_contains_str, Json};
use crate::store::StoreWrite;

verus! {

/// Which rule vetoed an event.
#[derive(Clone, Copy, Debug, PartialEq, Eq, Structural)]
pub enum FilterReason {
    YellowPlate,
    NoPlate,
    BlurryPlate,
    PlateColorFiltered,
    SpecialPlateFilter,
    ShortPlateFilter,
    SamePlate,
    SamePosition,
    IgnoreAllEvents,
    IgnorePartEvents,
}

impl FilterReason {
    pub open spec fn tag_spec(self) -> Seq<char> {
        match self {
            FilterReason::YellowPlate => "yellowPlate"@,
            FilterReason::NoPlate => "noPlate"@,
            FilterReason::BlurryPlate => "blurryPlate"@,
            FilterReason::PlateColorFiltered => "plateColorFiltered"@,
            FilterReason::SpecialPlateFilter => "specialPlateFilter"@,
            FilterReason::ShortPlateFilter => "shortPlateFilter"@,
            FilterReason::SamePlate => "samePlate"@,
            FilterReason::SamePosition => "samePosition"@,
            FilterReason::IgnoreAllEvents => "ignoreAllEvents"@,
            FilterReason::IgnorePartEvents => "ignorePartEvents"@,
        }
    }

    /// The machine-readable tag recorded as the event's filtered type.
    pub fn tag(&self) -> (r: String)
        ensures
            r@ == self.tag_spec(),
    {
        match self {
            FilterReason::YellowPlate => String::from_str("yellowPlate"),
            FilterReason::NoPlate => String::from_str("noPlate"),
            FilterReason::BlurryPlate => String::from_str("blurryPlate"),
            FilterReason::PlateColorFiltered => String::from_str("plateColorFiltered"),
            FilterReason::SpecialPlateFilter => String::from_str("specialPlateFilter"),
            FilterReason::ShortPlateFilter => String::from_str("shortPlateFilter"),
            FilterReason::SamePlate => String::from_str("samePlate"),
            FilterReason::SamePosition => String::from_str("samePosition"),
            FilterReason::IgnoreAllEvents => String::from_str("ignoreAllEvents"),
            FilterReason::IgnorePartEvents => String::from_str("ignorePartEvents"),
        }
    }
}

/// The verdict of one filter stage: the veto, if any, and the marker the
/// stage records when it lets the event through.
pub struct StageOutcome {
    pub reason: Option<FilterReason>,
    pub write: Option<StoreWrite>,
}

/// The rule's `enable` switch is on.
pub open spec fn enabled_spec(c: Json) -> bool {
    bool_of(field(c, "enable"@)) == Some(true)
}

/// The rule's `eventTypes` list names the event's type.
pub open spec fn lists_type(c: Json, et: Option<String>) -> bool {
    match (array_of(field(c, "eventTypes"@)), et) {
        (Some(a), Some(e)) => has_str(a, e@),
        _ => false,
    }
}

pub fn is_enabled(c: &Json) -> (r: bool)
    ensures
        r == enabled_spec(*c),
{
    c.enabled()
}

pub fn lists_event_type(c: &Json, et: &Option<String>) -> (r: bool)
    ensures
        r == lists_type(*c, *et),
{
    match et {
        Some(e) => opt_contains_str(c.get_array("eventTypes"), e.as_str()),
        None => false,
    }
}

} // verus!
