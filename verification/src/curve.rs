//! The fan curve: points of (temperature, duty) and the lookup between them.

use vstd::prelude::*;

verus! {

/// A point of a fan curve.
#[derive(Clone, Copy, Debug, PartialEq, Eq, Structural)]
pub struct FanPoint {
    /// Temperature in hundredths of a degree, 10000 = 100C.
    pub temp: i16,
    /// Duty in hundredths of a percent, 10000 = 100%.
    pub duty: u16,
}

/// The quotient `num / den` rounded to the nearest integer, a half rounded up.
/// Meant for `num >= 0` and `den > 0`.
pub open spec fn round_div(num: int, den: int) -> int {
    (2 * num + den) / (2 * den)
}

/// `round_div` lies between 0 and `scale` when `num` is `scale` times a
/// fraction `part / whole` of the unit interval, and reaches both ends.
pub proof fn lemma_round_div_bounds(scale: int, part: int, whole: int)
    requires
        0 <= scale,
        0 <= part <= whole,
        0 < whole,
    ensures
        0 <= round_div(scale * part, whole) <= scale,
        part == 0 ==> round_div(scale * part, whole) == 0,
        part == whole ==> round_div(scale * part, whole) == scale,
{
    let n = 2 * (scale * part) + whole;
    let d = 2 * whole;
    assert(0 <= n < (scale + 1) * d) by (nonlinear_arith)
        requires
            n == 2 * (scale * part) + whole,
            d == 2 * whole,
            0 <= scale,
            0 <= part <= whole,
            0 < whole,
    ;
    assert(0 <= n / d <= scale) by (nonlinear_arith)
        requires
            0 <= n < (scale + 1) * d,
            0 < d,
            0 <= scale,
    ;
    if part == 0 {
        assert(n / d == 0) by (nonlinear_arith)
            requires
                n == 2 * (scale * part) + whole,
                d == 2 * whole,
                part == 0,
                0 < whole,
        ;
    }
    if part == whole {
        assert(n / d == scale) by (nonlinear_arith)
            requires
                n == 2 * (scale * part) + whole,
                d == 2 * whole,
                part == whole,
                0 < whole,
                0 <= scale,
        ;
    }
}

/// `round_div` does not decrease when the numerator grows.
pub proof fn lemma_round_div_monotone(small: int, large: int, den: int)
    requires
        small <= large,
        0 < den,
    ensures
        round_div(small, den) <= round_div(large, den),
{
    let a = 2 * small + den;
    let b = 2 * large + den;
    let d = 2 * den;
    assert(a / d <= b / d) by (nonlinear_arith)
        requires
            a <= b,
            0 < d,
    ;
}

impl FanPoint {
    pub fn new(temp: i16, duty: u16) -> (point: Self)
        ensures
            point.temp == temp,
            point.duty == duty,
    {
        Self { temp, duty }
    }

    /// The duty on the straight line from `self` to `next` at `temp`, rounded
    /// to the nearest duty unit. Meant for `self.temp <= temp <= next.temp`
    /// with `self.temp < next.temp`.
    pub open spec fn interpolated(self, next: FanPoint, temp: int) -> int {
        let span = next.temp - self.temp;
        let offset = temp - self.temp;
        if next.duty >= self.duty {
            self.duty + round_div((next.duty - self.duty) * offset, span)
        } else {
            self.duty - round_div((self.duty - next.duty) * offset, span)
        }
    }

    /// The duty that the segment from `self` to `next` gives at `temp`, if the
    /// segment covers it: the duty of `next` at its temperature (looked at
    /// first), the duty of `self` at its temperature, the interpolated duty
    /// strictly between the two.
    pub open spec fn duty_between(self, next: FanPoint, temp: int) -> Option<int> {
        if temp == next.temp {
            Some(next.duty as int)
        } else if temp == self.temp {
            Some(self.duty as int)
        } else if self.temp < temp < next.temp {
            Some(self.interpolated(next, temp))
        } else {
            None
        }
    }

    /// The interpolated duty stays between the duties of the two points and
    /// meets them at their temperatures.
    pub proof fn lemma_interpolated_bounds(self, next: FanPoint, temp: int)
        requires
            self.temp < next.temp,
            self.temp <= temp <= next.temp,
        ensures
            self.duty <= next.duty ==> self.duty <= self.interpolated(next, temp) <= next.duty,
            self.duty >= next.duty ==> next.duty <= self.interpolated(next, temp) <= self.duty,
            temp == self.temp ==> self.interpolated(next, temp) == self.duty,
            temp == next.temp ==> self.interpolated(next, temp) == next.duty,
    {
        let span = next.temp - self.temp;
        let offset = temp - self.temp;
        if next.duty >= self.duty {
            lemma_round_div_bounds(next.duty - self.duty, offset, span);
        } else {
            lemma_round_div_bounds(self.duty - next.duty, offset, span);
        }
    }

    /// Interpolates the duty of `self` with that of `next` at `temp`.
    pub fn interpolate_duties(self, next: FanPoint, temp: i16) -> (duty: u16)
        requires
            self.temp < next.temp,
            self.temp <= temp <= next.temp,
        ensures
            duty == self.interpolated(next, temp as int),
    {
        let span: u64 = (next.temp as i64 - self.temp as i64) as u64;
        let offset: u64 = (temp as i64 - self.temp as i64) as u64;
        proof {
            self.lemma_interpolated_bounds(next, temp as int);
        }
        if next.duty >= self.duty {
            let rise: u64 = (next.duty - self.duty) as u64;
            assert(rise * offset <= 65535 * 65535) by (nonlinear_arith)
                requires
                    rise <= 65535,
                    offset <= 65535,
            ;
            let step: u64 = (2 * (rise * offset) + span) / (2 * span);
            self.duty + step as u16
        } else {
            let fall: u64 = (self.duty - next.duty) as u64;
            assert(fall * offset <= 65535 * 65535) by (nonlinear_arith)
                requires
                    fall <= 65535,
                    offset <= 65535,
            ;
            let step: u64 = (2 * (fall * offset) + span) / (2 * span);
            self.duty - step as u16
        }
    }

    /// Finds the duty between two points at a given temperature, if the
    /// temperature lies within their range.
    pub fn get_duty_between_points(self, next: FanPoint, temp: i16) -> (duty: Option<u16>)
        ensures
            match duty {
                Some(d) => self.duty_between(next, temp as int) == Some(d as int),
                None => self.duty_between(next, temp as int).is_none(),
            },
    {
        if temp == next.temp {
            return Some(next.duty);
        }
        if temp == self.temp {
            return Some(self.duty);
        }
        if self.temp < temp && next.temp > temp {
            return Some(self.interpolate_duties(next, temp));
        }
        None
    }
}

/// The duty that the first covering segment at or after index `from` gives at
/// `temp`, the segments taken in order: segment `i` runs from point `i` to
/// point `i + 1`.
pub open spec fn scan_segments(points: Seq<FanPoint>, temp: int, from: int) -> Option<int>
    decreases points.len() - from,
{
    if from < 0 || from + 1 >= points.len() {
        None
    } else if points[from].duty_between(points[from + 1], temp) is Some {
        points[from].duty_between(points[from + 1], temp)
    } else {
        scan_segments(points, temp, from + 1)
    }
}

/// The duty of a curve at `temp`: the first point's duty below the first
/// point, else what the first covering segment gives, else the last point's
/// duty above the last point, else nothing.
pub open spec fn lookup(points: Seq<FanPoint>, temp: int) -> Option<int> {
    if points.len() > 0 && temp < points[0].temp {
        Some(points[0].duty as int)
    } else if scan_segments(points, temp, 0) is Some {
        scan_segments(points, temp, 0)
    } else if points.len() > 0 && temp > points.last().temp {
        Some(points.last().duty as int)
    } else {
        None
    }
}

/// The temperatures rise strictly from each point to the next.
pub open spec fn ascending(points: Seq<FanPoint>) -> bool {
    forall|i: int, j: int| 0 <= i < j < points.len() ==> points[i].temp < points[j].temp
}

/// The duties never fall from a point to a later one.
pub open spec fn rising(points: Seq<FanPoint>) -> bool {
    forall|i: int, j: int| 0 <= i <= j < points.len() ==> points[i].duty <= points[j].duty
}

/// Segments that do not cover `temp` are passed over by the scan.
pub proof fn lemma_scan_skips(points: Seq<FanPoint>, temp: int, from: int, to: int)
    requires
        0 <= from <= to,
        forall|j: int|
            from <= j < to && j + 1 < points.len() ==> (#[trigger] points[j]).duty_between(
                points[j + 1],
                temp,
            ) is None,
    ensures
        scan_segments(points, temp, from) == scan_segments(points, temp, to),
    decreases to - from,
{
    if from < to {
        if from + 1 < points.len() {
            assert(points[from].duty_between(points[from + 1], temp) is None);
            lemma_scan_skips(points, temp, from + 1, to);
        } else {
            lemma_scan_skips(points, temp, from + 1, to);
        }
    }
}

/// Below the first point the curve gives the first point's duty.
pub proof fn lemma_lookup_below_first(points: Seq<FanPoint>, temp: int)
    requires
        points.len() > 0,
        temp < points[0].temp,
    ensures
        lookup(points, temp) == Some(points[0].duty as int),
{
}

/// Above the last point an ascending curve gives the last point's duty.
pub proof fn lemma_lookup_above_last(points: Seq<FanPoint>, temp: int)
    requires
        ascending(points),
        points.len() > 0,
        temp > points.last().temp,
    ensures
        lookup(points, temp) == Some(points.last().duty as int),
{
    let n = points.len() as int;
    assert forall|j: int| 0 <= j < n && j + 1 < n implies (#[trigger] points[j]).duty_between(
        points[j + 1],
        temp,
    ) is None by {
        assert(points[j].temp <= points[n - 1].temp);
        assert(points[j + 1].temp <= points[n - 1].temp);
    }
    lemma_scan_skips(points, temp, 0, n);
}

/// Within the segment from point `i` to point `i + 1`, its ends included, an
/// ascending curve gives the interpolated duty, which at either end is that
/// point's own duty.
pub proof fn lemma_lookup_segment(points: Seq<FanPoint>, temp: int, i: int)
    requires
        ascending(points),
        0 <= i,
        i + 1 < points.len(),
        points[i].temp <= temp <= points[i + 1].temp,
    ensures
        lookup(points, temp) == Some(points[i].interpolated(points[i + 1], temp)),
        temp == points[i].temp ==> lookup(points, temp) == Some(points[i].duty as int),
        temp == points[i + 1].temp ==> lookup(points, temp) == Some(points[i + 1].duty as int),
{
    points[i].lemma_interpolated_bounds(points[i + 1], temp);
    assert(points[0].temp <= points[i].temp);
    if temp == points[i].temp && i > 0 {
        assert forall|j: int|
            0 <= j < i - 1 && j + 1 < points.len() implies (#[trigger] points[j]).duty_between(
            points[j + 1],
            temp,
        ) is None by {
            assert(points[j].temp < points[i].temp);
            assert(points[j + 1].temp < points[i].temp);
        }
        lemma_scan_skips(points, temp, 0, i - 1);
        assert(points[i - 1].duty_between(points[i], temp) == Some(points[i].duty as int));
    } else {
        assert forall|j: int|
            0 <= j < i && j + 1 < points.len() implies (#[trigger] points[j]).duty_between(
            points[j + 1],
            temp,
        ) is None by {
            assert(points[j].temp < points[i].temp);
            assert(points[j + 1].temp <= points[i].temp);
        }
        lemma_scan_skips(points, temp, 0, i);
    }
}

/// At the temperature of any of its points an ascending curve of two points or
/// more gives that point's duty.
pub proof fn lemma_lookup_at_point(points: Seq<FanPoint>, i: int)
    requires
        ascending(points),
        points.len() >= 2,
        0 <= i < points.len(),
    ensures
        lookup(points, points[i].temp as int) == Some(points[i].duty as int),
{
    if i + 1 < points.len() {
        lemma_lookup_segment(points, points[i].temp as int, i);
    } else {
        lemma_lookup_segment(points, points[i].temp as int, i - 1);
    }
}

/// A segment of an ascending curve that holds `temp`, for a temperature from
/// the first point to the last.
pub proof fn lemma_segment_exists(points: Seq<FanPoint>, temp: int, from: int) -> (i: int)
    requires
        ascending(points),
        0 <= from,
        from + 1 < points.len(),
        points[from].temp <= temp <= points.last().temp,
    ensures
        from <= i,
        i + 1 < points.len(),
        points[i].temp <= temp <= points[i + 1].temp,
    decreases points.len() - from,
{
    if temp <= points[from + 1].temp {
        from
    } else {
        lemma_segment_exists(points, temp, from + 1)
    }
}

/// An ascending curve of two points or more gives a duty at every
/// temperature.
pub proof fn lemma_lookup_total(points: Seq<FanPoint>, temp: int)
    requires
        ascending(points),
        points.len() >= 2,
    ensures
        lookup(points, temp) is Some,
{
    if temp < points[0].temp {
    } else if temp > points.last().temp {
        lemma_lookup_above_last(points, temp);
    } else {
        let i = lemma_segment_exists(points, temp, 0);
        lemma_lookup_segment(points, temp, i);
    }
}

/// On an ascending curve whose duties never fall from point to point, the
/// duty lies between the first point's and the last point's.
pub proof fn lemma_lookup_bounds(points: Seq<FanPoint>, temp: int)
    requires
        ascending(points),
        rising(points),
    ensures
        lookup(points, temp) matches Some(duty) ==> points[0].duty <= duty <= points.last().duty,
{
    let n = points.len() as int;
    if n == 0 {
        assert(scan_segments(points, temp, 0) is None);
    } else if temp < points[0].temp {
        assert(points[0].duty <= points[n - 1].duty);
    } else if temp > points.last().temp {
        lemma_lookup_above_last(points, temp);
        assert(points[0].duty <= points[n - 1].duty);
    } else if n == 1 {
        assert(scan_segments(points, temp, 0) is None);
    } else {
        let i = lemma_segment_exists(points, temp, 0);
        lemma_lookup_segment(points, temp, i);
        points[i].lemma_interpolated_bounds(points[i + 1], temp);
        assert(points[0].duty <= points[i].duty);
        assert(points[i + 1].duty <= points[n - 1].duty);
    }
}

/// On an ascending curve whose duties never fall from point to point, the
/// duty never falls when the temperature rises.
pub proof fn lemma_lookup_monotone(points: Seq<FanPoint>, low: int, high: int)
    requires
        ascending(points),
        rising(points),
        low <= high,
    ensures
        lookup(points, low) matches Some(a) ==> (lookup(points, high) matches Some(b) ==> a <= b),
{
    let n = points.len() as int;
    if n == 0 {
        assert(scan_segments(points, low, 0) is None);
    } else if n == 1 {
        assert(scan_segments(points, low, 0) is None);
        assert(scan_segments(points, high, 0) is None);
    } else if low == high {
    } else if low < points[0].temp {
        lemma_lookup_bounds(points, high);
    } else if high > points.last().temp {
        lemma_lookup_above_last(points, high);
        lemma_lookup_bounds(points, low);
    } else {
        let i = lemma_segment_exists(points, low, 0);
        let j = lemma_segment_exists(points, high, 0);
        lemma_lookup_segment(points, low, i);
        lemma_lookup_segment(points, high, j);
        points[i].lemma_interpolated_bounds(points[i + 1], low);
        points[j].lemma_interpolated_bounds(points[j + 1], high);
        if i == j {
            let rise = points[i + 1].duty - points[i].duty;
            let span = points[i + 1].temp - points[i].temp;
            assert(points[i].duty <= points[i + 1].duty);
            assert(rise * (low - points[i].temp) <= rise * (high - points[i].temp))
                by (nonlinear_arith)
                requires
                    0 <= rise,
                    low <= high,
            ;
            lemma_round_div_monotone(
                rise * (low - points[i].temp),
                rise * (high - points[i].temp),
                span,
            );
        } else if i < j {
            assert(points[i + 1].duty <= points[j].duty);
            assert(points[i].duty <= points[i + 1].duty);
            assert(points[j].duty <= points[j + 1].duty);
        } else {
            assert(j + 1 <= i);
            assert(points[j + 1].temp <= points[i].temp);
        }
    }
}

/// What a curve gives is a duty: it fits the type of one.
pub proof fn lemma_lookup_in_range(points: Seq<FanPoint>, temp: int)
    ensures
        lookup(points, temp) matches Some(duty) ==> 0 <= duty <= u16::MAX,
{
    lemma_scan_in_range(points, temp, 0);
}

/// What a scan of the segments gives is a duty: it fits the type of one.
pub proof fn lemma_scan_in_range(points: Seq<FanPoint>, temp: int, from: int)
    ensures
        scan_segments(points, temp, from) matches Some(duty) ==> 0 <= duty <= u16::MAX,
    decreases points.len() - from,
{
    if 0 <= from && from + 1 < points.len() {
        let prev = points[from];
        let next = points[from + 1];
        if prev.duty_between(next, temp) is Some {
            if prev.temp < temp < next.temp {
                prev.lemma_interpolated_bounds(next, temp);
            }
        } else {
            lemma_scan_in_range(points, temp, from + 1);
        }
    }
}

/// No point has a duty above `limit`.
pub open spec fn capped(points: Seq<FanPoint>, limit: int) -> bool {
    forall|i: int| 0 <= i < points.len() ==> (#[trigger] points[i]).duty <= limit
}

/// A curve never gives more than the largest duty among its points.
pub proof fn lemma_lookup_capped(points: Seq<FanPoint>, limit: int, temp: int)
    requires
        capped(points, limit),
    ensures
        lookup(points, temp) matches Some(duty) ==> duty <= limit,
{
    lemma_scan_capped(points, limit, temp, 0);
    if points.len() > 0 {
        assert(points[0].duty <= limit);
        assert(points.last().duty <= limit);
    }
}

/// A scan of the segments never gives more than the largest duty among the
/// points.
pub proof fn lemma_scan_capped(points: Seq<FanPoint>, limit: int, temp: int, from: int)
    requires
        capped(points, limit),
    ensures
        scan_segments(points, temp, from) matches Some(duty) ==> duty <= limit,
    decreases points.len() - from,
{
    if 0 <= from && from + 1 < points.len() {
        let prev = points[from];
        let next = points[from + 1];
        assert(prev.duty <= limit && next.duty <= limit);
        if prev.duty_between(next, temp) is Some {
            if prev.temp < temp < next.temp {
                prev.lemma_interpolated_bounds(next, temp);
            }
        } else {
            lemma_scan_capped(points, limit, temp, from + 1);
        }
    }
}

/// The points of the standard fan curve.
pub open spec fn standard_points() -> Seq<FanPoint> {
    seq![
        FanPoint { temp: 5900, duty: 0 },
        FanPoint { temp: 6000, duty: 1000 },
        FanPoint { temp: 6400, duty: 1500 },
        FanPoint { temp: 7000, duty: 3500 },
        FanPoint { temp: 8200, duty: 10000 },
    ]
}

/// A fan curve: its points in the order in which they were appended.
#[derive(Clone, Debug, PartialEq)]
pub struct FanCurve {
    points: Vec<FanPoint>,
}

impl View for FanCurve {
    type V = Seq<FanPoint>;

    closed spec fn view(&self) -> Seq<FanPoint> {
        self.points@
    }
}

impl Default for FanCurve {
    fn default() -> (curve: Self)
        ensures
            curve@ == Seq::<FanPoint>::empty(),
    {
        FanCurve { points: Vec::new() }
    }
}

impl FanCurve {
    /// The target duty of the curve at `temp`: `lookup` on its points, as a
    /// duty.
    pub open spec fn target(&self, temp: i16) -> Option<u16> {
        match lookup(self@, temp as int) {
            Some(duty) => Some(duty as u16),
            None => None,
        }
    }

    /// Adds a point to the fan curve.
    pub fn append(self, temp: i16, duty: u16) -> (curve: Self)
        ensures
            curve@ == self@.push(FanPoint { temp, duty }),
            ascending(curve@) <==> ascending(self@) && (self@.len() == 0 || self@.last().temp
                < temp),
    {
        let mut curve = self;
        curve.points.push(FanPoint::new(temp, duty));
        proof {
            let before = self@;
            let after = curve@;
            assert(after == before.push(FanPoint { temp, duty }));
            if ascending(after) {
                assert forall|i: int, j: int| 0 <= i < j < before.len() implies before[i].temp
                    < before[j].temp by {
                    assert(after[i] == before[i] && after[j] == before[j]);
                }
                if before.len() > 0 {
                    assert(after[before.len() - 1] == before.last());
                    assert(after[before.len() as int].temp == temp);
                }
            }
        }
        curve
    }

    /// The standard fan curve.
    pub fn standard() -> (curve: Self)
        ensures
            curve@ == standard_points(),
            ascending(curve@),
            rising(curve@),
            capped(curve@, 10000),
    {
        let curve = Self::default()
            .append(5900, 0)
            .append(6000, 1000)
            .append(6400, 1500)
            .append(7000, 3500)
            .append(8200, 10000);
        assert(curve@ =~= standard_points());
        curve
    }

    /// The number of points.
    pub fn len(&self) -> (n: usize)
        ensures
            n == self@.len(),
    {
        self.points.len()
    }

    /// The duty of the curve at `temp`; nothing where no point or segment
    /// gives one.
    pub fn get_duty(&self, temp: i16) -> (duty: Option<u16>)
        ensures
            match duty {
                Some(d) => lookup(self@, temp as int) == Some(d as int),
                None => lookup(self@, temp as int).is_none(),
            },
            duty == self.target(temp),
    {
        let n: usize = self.points.len();
        if n > 0 && temp < self.points[0].temp {
            return Some(self.points[0].duty);
        }
        let mut i: usize = 0;
        while n - i > 1
            invariant
                n == self.points.len(),
                i <= n,
                !(n > 0 && temp < self@[0].temp),
                scan_segments(self@, temp as int, 0) == scan_segments(self@, temp as int, i as int),
            decreases n - i,
        {
            let prev = self.points[i];
            let next = self.points[i + 1];
            assert(prev == self@[i as int] && next == self@[i + 1]);
            if let Some(duty) = prev.get_duty_between_points(next, temp) {
                return Some(duty);
            }
            i += 1;
        }
        if n > 0 && temp > self.points[n - 1].temp {
            return Some(self.points[n - 1].duty);
        }
        None
    }
}

} // verus!
