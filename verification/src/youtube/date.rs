//! Publication dates of feed videos.
use core::cmp::Ordering;
use vstd::prelude::*;
use vstd::std_specs::cmp::{PartialEqSpecImpl, PartialOrdSpecImpl};

verus! {

/// A point in time with the UTC offset it was written with: seconds and nanoseconds
/// since the Unix epoch (UTC), and the offset east of UTC in seconds.
/// Two dates are equal, and are ordered, by the instant alone, whatever their offsets.
#[derive(Debug, Default, Clone, Copy, Eq)]
pub struct PublishedDate {
    pub timestamp: i64,
    pub nanos: u32,
    pub offset_seconds: i32,
}

/// Whether two dates denote the same instant.
pub open spec fn same_instant(a: PublishedDate, b: PublishedDate) -> bool {
    a.timestamp == b.timestamp && a.nanos == b.nanos
}

/// How the instants of two dates compare.
pub open spec fn instant_order(a: PublishedDate, b: PublishedDate) -> Ordering {
    if a.timestamp < b.timestamp {
        Ordering::Less
    } else if a.timestamp > b.timestamp {
        Ordering::Greater
    } else if a.nanos < b.nanos {
        Ordering::Less
    } else if a.nanos > b.nanos {
        Ordering::Greater
    } else {
        Ordering::Equal
    }
}

impl PartialEq for PublishedDate {
    fn eq(&self, other: &Self) -> (r: bool) {
        self.timestamp == other.timestamp && self.nanos == other.nanos
    }
}

impl PartialEqSpecImpl for PublishedDate {
    open spec fn obeys_eq_spec() -> bool {
        true
    }

    open spec fn eq_spec(&self, other: &PublishedDate) -> bool {
        same_instant(*self, *other)
    }
}

impl PartialOrd for PublishedDate {
    fn partial_cmp(&self, other: &Self) -> (r: Option<Ordering>) {
        if self.timestamp < other.timestamp {
            Some(Ordering::Less)
        } else if self.timestamp > other.timestamp {
            Some(Ordering::Greater)
        } else if self.nanos < other.nanos {
            Some(Ordering::Less)
        } else if self.nanos > other.nanos {
            Some(Ordering::Greater)
        } else {
            Some(Ordering::Equal)
        }
    }
}

impl PartialOrdSpecImpl for PublishedDate {
    open spec fn obeys_partial_cmp_spec() -> bool {
        true
    }

    open spec fn partial_cmp_spec(&self, other: &PublishedDate) -> Option<Ordering> {
        Some(instant_order(*self, *other))
    }
}

} // verus!
