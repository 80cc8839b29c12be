use vstd::prelude::*;

verus! {

/// Latency bucket of an average duration, in ascending order of slowness.
#[derive(Clone, Copy, Debug, PartialEq, Eq, Structural)]
pub enum SpeedRating {
    Excellent,
    Good,
    Average,
    Slow,
    VerySlow,
}

/// The closed, inclusive millisecond bands of the speed classifier.
pub open spec fn rating_of(duration_ms: nat) -> SpeedRating {
    if duration_ms <= 100 {
        SpeedRating::Excellent
    } else if duration_ms <= 300 {
        SpeedRating::Good
    } else if duration_ms <= 600 {
        SpeedRating::Average
    } else if duration_ms <= 1000 {
        SpeedRating::Slow
    } else {
        SpeedRating::VerySlow
    }
}

/// Classifies a duration: `[0,100]` Excellent, `[101,300]` Good,
/// `[301,600]` Average, `[601,1000]` Slow, above that Very Slow.
pub fn get_speed_rating(duration_ms: u64) -> (r: SpeedRating)
    ensures
        r == rating_of(duration_ms as nat),
{
    if duration_ms <= 100 {
        SpeedRating::Excellent
    } else if duration_ms <= 300 {
        SpeedRating::Good
    } else if duration_ms <= 600 {
        SpeedRating::Average
    } else if duration_ms <= 1000 {
        SpeedRating::Slow
    } else {
        SpeedRating::VerySlow
    }
}

pub open spec fn rating_label(r: SpeedRating) -> Seq<char> {
    match r {
        SpeedRating::Excellent => "Excellent"@,
        SpeedRating::Good => "Good"@,
        SpeedRating::Average => "Average"@,
        SpeedRating::Slow => "Slow"@,
        SpeedRating::VerySlow => "Very Slow"@,
    }
}

pub open spec fn rating_color(r: SpeedRating) -> Seq<char> {
    match r {
        SpeedRating::Excellent => "bright_green"@,
        SpeedRating::Good => "green"@,
        SpeedRating::Average => "yellow"@,
        SpeedRating::Slow => "yellow"@,
        SpeedRating::VerySlow => "red"@,
    }
}

impl SpeedRating {
    /// The human-readable label of the rating.
    pub fn label(&self) -> (r: &'static str)
        ensures
            r@ == rating_label(*self),
    {
        match self {
            SpeedRating::Excellent => "Excellent",
            SpeedRating::Good => "Good",
            SpeedRating::Average => "Average",
            SpeedRating::Slow => "Slow",
            SpeedRating::VerySlow => "Very Slow",
        }
    }

    /// The terminal color name the report uses for the rating.
    pub fn color(&self) -> (r: &'static str)
        ensures
            r@ == rating_color(*self),
    {
        match self {
            SpeedRating::Excellent => "bright_green",
            SpeedRating::Good => "green",
            SpeedRating::Average => "yellow",
            SpeedRating::Slow => "yellow",
            SpeedRating::VerySlow => "red",
        }
    }
}

/// Band of a success rate `succeeded / total`, used to pick the report's color.
#[derive(Clone, Copy, Debug, PartialEq, Eq, Structural)]
pub enum RateBand {
    /// Every outcome succeeded.
    Full,
    /// At least 80%.
    High,
    /// At least 50%.
    Medium,
    /// Below 50%.
    Low,
}

pub open spec fn rate_band_of(succeeded: nat, total: nat) -> RateBand {
    if succeeded == total {
        RateBand::Full
    } else if 100 * succeeded >= 80 * total {
        RateBand::High
    } else if 100 * succeeded >= 50 * total {
        RateBand::Medium
    } else {
        RateBand::Low
    }
}

/// Classifies the success rate `succeeded / total` without rounding.
pub fn rate_band(succeeded: usize, total: usize) -> (r: RateBand)
    requires
        succeeded <= total,
    ensures
        r == rate_band_of(succeeded as nat, total as nat),
{
    let s = succeeded as u128;
    let t = total as u128;
    if s == t {
        RateBand::Full
    } else if 100 * s >= 80 * t {
        RateBand::High
    } else if 100 * s >= 50 * t {
        RateBand::Medium
    } else {
        RateBand::Low
    }
}

impl RateBand {
    /// The terminal color name the report uses for the band.
    pub fn color(&self) -> (r: &'static str)
        ensures
            r@ == match *self {
                RateBand::Full => "bright_green"@,
                RateBand::High => "green"@,
                RateBand::Medium => "yellow"@,
                RateBand::Low => "red"@,
            },
    {
        match self {
            RateBand::Full => "bright_green",
            RateBand::High => "green",
            RateBand::Medium => "yellow",
            RateBand::Low => "red",
        }
    }
}

} // verus!
