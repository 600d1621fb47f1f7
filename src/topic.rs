//! Bus topic names: containment of a suffix, and joining of segments.
use vstd::prelude::*;

verus! {

/// `pattern` occurs somewhere in `s` as a contiguous run of characters.
pub open spec fn occurs_in(pattern: Seq<char>, s: Seq<char>) -> bool {
    exists|i: int| 0 <= i && i + pattern.len() <= s.len() && #[trigger] s.subrange(i, i + pattern.len()) == pattern
}

/// Two segments joined by a slash.
pub open spec fn joined(a: Seq<char>, b: Seq<char>) -> Seq<char> {
    a + seq!['/'] + b
}

/// Relies on `str::contains`: true exactly when `pattern` matches a sub-slice of `s`.
#[verifier::external_body]
pub(crate) fn str_contains(s: &str, pattern: &str) -> (r: bool)
    ensures
        r == occurs_in(pattern@, s@),
{
    s.contains(pattern)
}

/// Relies on `format!` with `"{}/{}"`: the two strings with a slash between them.
#[verifier::external_body]
pub(crate) fn join_segments(a: &str, b: &str) -> (r: String)
    ensures
        r@ == joined(a@, b@),
{
    format!("{}/{}", a, b)
}

/// The topic on which a new offset is published for the valve with `valve_actuator` as suffix.
pub open spec fn calibration_topic_of(base_topic: Seq<char>, valve_actuator: Seq<char>) -> Seq<char> {
    joined(joined(base_topic, valve_actuator), "set/local_temperature_calibration"@)
}

/// `{base_topic}/{valve_actuator}/set/local_temperature_calibration`.
pub fn calibration_topic(base_topic: &str, valve_actuator: &str) -> (r: String)
    ensures
        r@ == calibration_topic_of(base_topic@, valve_actuator@),
{
    let valve_topic = join_segments(base_topic, valve_actuator);
    join_segments(valve_topic.as_str(), "set/local_temperature_calibration")
}

} // verus!
