//! Scheduling: the symbolic fetch period and its wall-clock interval.

use vstd::prelude::*;

verus! {

/// Symbolic name of the interval between two automatic pipeline runs.
#[derive(Clone, Copy, PartialEq, Eq, Structural, Debug)]
pub enum FetchPeriod {
    Minute,
    HalfHour,
    Hourly,
    HalfDay,
    Daily,
    Weekly,
    Monthly,
}

/// Wall-clock length of each period, in seconds.
pub open spec fn spec_interval_seconds(p: FetchPeriod) -> u64 {
    match p {
        FetchPeriod::Minute => 60,
        FetchPeriod::HalfHour => 1800,
        FetchPeriod::Hourly => 3600,
        FetchPeriod::HalfDay => 43200,
        FetchPeriod::Daily => 86400,
        FetchPeriod::Weekly => 604800,
        FetchPeriod::Monthly => 2592000,
    }
}

/// Maps a period to the number of seconds between two scheduled runs
/// (a month counts as 30 days).
pub fn interval_seconds(p: FetchPeriod) -> (s: u64)
    ensures
        s == spec_interval_seconds(p),
{
    match p {
        FetchPeriod::Minute => 60,
        FetchPeriod::HalfHour => 1800,
        FetchPeriod::Hourly => 3600,
        FetchPeriod::HalfDay => 43200,
        FetchPeriod::Daily => 86400,
        FetchPeriod::Weekly => 604800,
        FetchPeriod::Monthly => 2592000,
    }
}

impl FetchPeriod {
    /// Name under which each period is stored in the configuration.
    pub open spec fn spec_name(self) -> Seq<char> {
        match self {
            FetchPeriod::Minute => "every minute"@,
            FetchPeriod::HalfHour => "every half hour"@,
            FetchPeriod::Hourly => "hourly"@,
            FetchPeriod::HalfDay => "half day"@,
            FetchPeriod::Daily => "daily"@,
            FetchPeriod::Weekly => "weekly"@,
            FetchPeriod::Monthly => "monthly"@,
        }
    }

    pub fn name(self) -> (r: &'static str)
        ensures
            r@ == self.spec_name(),
    {
        match self {
            FetchPeriod::Minute => "every minute",
            FetchPeriod::HalfHour => "every half hour",
            FetchPeriod::Hourly => "hourly",
            FetchPeriod::HalfDay => "half day",
            FetchPeriod::Daily => "daily",
            FetchPeriod::Weekly => "weekly",
            FetchPeriod::Monthly => "monthly",
        }
    }

    /// Reads a stored period name; an unrecognized name defaults to one day.
    pub fn from_name(name: &str) -> (p: FetchPeriod)
        ensures
            p.spec_name() == name@ || (p == FetchPeriod::Daily && (forall|q: FetchPeriod|
                q.spec_name() != name@)),
    {
        proof {
            reveal_strlit("every minute");
            reveal_strlit("every half hour");
            reveal_strlit("hourly");
            reveal_strlit("half day");
            reveal_strlit("daily");
            reveal_strlit("weekly");
            reveal_strlit("monthly");
            assert("hourly"@[0] != "weekly"@[0]);
        }
        if str_eq(name, "every minute") {
            FetchPeriod::Minute
        } else if str_eq(name, "every half hour") {
            FetchPeriod::HalfHour
        } else if str_eq(name, "hourly") {
            FetchPeriod::Hourly
        } else if str_eq(name, "half day") {
            FetchPeriod::HalfDay
        } else if str_eq(name, "daily") {
            FetchPeriod::Daily
        } else if str_eq(name, "weekly") {
            FetchPeriod::Weekly
        } else if str_eq(name, "monthly") {
            FetchPeriod::Monthly
        } else {
            FetchPeriod::Daily
        }
    }
}

/// Character-wise string comparison.
pub fn str_eq(a: &str, b: &str) -> (r: bool)
    ensures
        r == (a@ == b@),
{
    let a_owned: String = a.to_owned();
    let b_owned: String = b.to_owned();
    a_owned == b_owned
}

} // verus!
