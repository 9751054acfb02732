//! The closed model of values that recognizers can produce.

use vstd::prelude::*;

verus! {

/// The closed set of semantic kinds a recognizer can produce. A query names
/// one kind, and only the recognizers declared for that kind are run. The
/// set is never extended at runtime.
#[derive(Clone, Copy, Debug, Eq, PartialEq, Structural)]
pub enum ValueType {
    /// A yes/no value.
    Boolean,
    /// A span of time.
    Duration,
    /// A point in time.
    Instant,
    /// A whole number.
    Integer,
    /// A position in an ordered series ("first", "second", ...).
    Ordinal,
}

/// A concrete humanized value: a tagged union carrying exactly one payload.
///
/// Durations are carried as a magnitude in nanoseconds, instants as
/// nanoseconds relative to an arbitrary epoch; both integers and ordinals
/// are 64-bit signed numbers.
#[derive(Clone, Copy, Debug, Eq, PartialEq, Structural)]
pub enum HumanValue {
    /// A yes/no value.
    Boolean(bool),
    /// A span of time, as a magnitude in nanoseconds.
    Duration(u64),
    /// A point in time, in nanoseconds relative to an arbitrary epoch.
    Instant(i64),
    /// A whole number.
    Integer(i64),
    /// A position in an ordered series.
    Ordinal(i64),
}

impl HumanValue {
    /// The kind this value belongs to: the tag of the union.
    pub open spec fn spec_kind(&self) -> ValueType {
        match self {
            HumanValue::Boolean(_) => ValueType::Boolean,
            HumanValue::Duration(_) => ValueType::Duration,
            HumanValue::Instant(_) => ValueType::Instant,
            HumanValue::Integer(_) => ValueType::Integer,
            HumanValue::Ordinal(_) => ValueType::Ordinal,
        }
    }

    /// The kind this value belongs to: the tag of the union.
    #[verifier::when_used_as_spec(spec_kind)]
    pub fn kind(&self) -> (k: ValueType)
        ensures
            k == self.spec_kind(),
    {
        match self {
            HumanValue::Boolean(_) => ValueType::Boolean,
            HumanValue::Duration(_) => ValueType::Duration,
            HumanValue::Instant(_) => ValueType::Instant,
            HumanValue::Integer(_) => ValueType::Integer,
            HumanValue::Ordinal(_) => ValueType::Ordinal,
        }
    }
}

} // verus!
