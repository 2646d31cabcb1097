//! The timeframe of one bar, as the data source names it.

use vstd::prelude::*;

verus! {

/// A sampling interval offered by the data source.
#[derive(Clone, Copy, PartialEq, Eq, Structural, Debug)]
pub enum Interval {
    OneMinute,
    FiveMinutes,
    FifteenMinutes,
    ThirtyMinutes,
    OneHour,
    FourHours,
    OneDay,
}

impl Interval {
    /// The interval's code in the data source's query language.
    pub fn as_str(&self) -> (s: &'static str)
        ensures
            *self == Interval::OneMinute ==> s@ == "1m"@,
            *self == Interval::FiveMinutes ==> s@ == "5m"@,
            *self == Interval::FifteenMinutes ==> s@ == "15m"@,
            *self == Interval::ThirtyMinutes ==> s@ == "30m"@,
            *self == Interval::OneHour ==> s@ == "1h"@,
            *self == Interval::FourHours ==> s@ == "4h"@,
            *self == Interval::OneDay ==> s@ == "1d"@,
    {
        match self {
            Interval::OneMinute => "1m",
            Interval::FiveMinutes => "5m",
            Interval::FifteenMinutes => "15m",
            Interval::ThirtyMinutes => "30m",
            Interval::OneHour => "1h",
            Interval::FourHours => "4h",
            Interval::OneDay => "1d",
        }
    }

    /// The interval's length in minutes.
    pub open spec fn spec_to_minutes(self) -> i64 {
        match self {
            Interval::OneMinute => 1,
            Interval::FiveMinutes => 5,
            Interval::FifteenMinutes => 15,
            Interval::ThirtyMinutes => 30,
            Interval::OneHour => 60,
            Interval::FourHours => 240,
            Interval::OneDay => 1440,
        }
    }

    pub fn to_minutes(&self) -> (m: i64)
        ensures
            m == self.spec_to_minutes(),
    {
        match self {
            Interval::OneMinute => 1,
            Interval::FiveMinutes => 5,
            Interval::FifteenMinutes => 15,
            Interval::ThirtyMinutes => 30,
            Interval::OneHour => 60,
            Interval::FourHours => 240,
            Interval::OneDay => 1440,
        }
    }

    /// Every interval, shortest first.
    pub fn all() -> (v: Vec<Interval>)
        ensures
            v@ == seq![
                Interval::OneMinute,
                Interval::FiveMinutes,
                Interval::FifteenMinutes,
                Interval::ThirtyMinutes,
                Interval::OneHour,
                Interval::FourHours,
                Interval::OneDay,
            ],
    {
        let mut v: Vec<Interval> = Vec::new();
        v.push(Interval::OneMinute);
        v.push(Interval::FiveMinutes);
        v.push(Interval::FifteenMinutes);
        v.push(Interval::ThirtyMinutes);
        v.push(Interval::OneHour);
        v.push(Interval::FourHours);
        v.push(Interval::OneDay);
        proof {
            assert(v@ =~= seq![
                Interval::OneMinute,
                Interval::FiveMinutes,
                Interval::FifteenMinutes,
                Interval::ThirtyMinutes,
                Interval::OneHour,
                Interval::FourHours,
                Interval::OneDay,
            ]);
        }
        v
    }

    /// The interval's name as shown to a person.
    pub fn display_name(&self) -> (s: &'static str)
        ensures
            *self == Interval::OneMinute ==> s@ == "1 Minute"@,
            *self == Interval::FiveMinutes ==> s@ == "5 Minutes"@,
            *self == Interval::FifteenMinutes ==> s@ == "15 Minutes"@,
            *self == Interval::ThirtyMinutes ==> s@ == "30 Minutes"@,
            *self == Interval::OneHour ==> s@ == "1 Hour"@,
            *self == Interval::FourHours ==> s@ == "4 Hours"@,
            *self == Interval::OneDay ==> s@ == "1 Day"@,
    {
        match self {
            Interval::OneMinute => "1 Minute",
            Interval::FiveMinutes => "5 Minutes",
            Interval::FifteenMinutes => "15 Minutes",
            Interval::ThirtyMinutes => "30 Minutes",
            Interval::OneHour => "1 Hour",
            Interval::FourHours => "4 Hours",
            Interval::OneDay => "1 Day",
        }
    }
}

impl Default for Interval {
    /// The interval shown before any choice is made.
    fn default() -> (i: Interval)
        ensures
            i == Interval::OneHour,
    {
        Interval::OneHour
    }
}

} // verus!
