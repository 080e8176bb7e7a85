//! Fixed-length rolling history of temperature points, one track per sensor.
//!
//! A track is created with every point equal to a seed value and never
//! changes length: adding a point evicts the oldest (index 0) and appends
//! the new value at the end, a sliding window over the added values.

use vstd::prelude::*;
use vstd::string::StringExecFns;
use crate::text::{dec_digits, milli_chars, milli_to_string, u128_to_dec};

verus! {

/// Number of retained history points: 24 hours at 15-minute resolution.
pub const HISTORY_POINTS: usize = 96;

/// Vertical display range in milli display units: y values produced by
/// `render_path` lie in `[0, DISPLAY_RANGE_MILLI]`.
pub const DISPLAY_RANGE_MILLI: i64 = 100_000;

/// One sensor's rolling window of millidegree temperature points.
pub struct SensorHistory {
    points: Vec<i64>,
    last_update_ms: u64,
}

impl View for SensorHistory {
    type V = Seq<i64>;

    closed spec fn view(&self) -> Seq<i64> {
        self.points@
    }
}

/// The window after one eviction-and-append: the oldest point is dropped and
/// `v` appended at the end.
pub open spec fn slide(s: Seq<i64>, v: i64) -> Seq<i64>
    recommends s.len() >= 1,
{
    s.subrange(1, s.len() as int).push(v)
}

/// The window after sliding every value of `vals` in, in order.
pub open spec fn add_all(s: Seq<i64>, vals: Seq<i64>) -> Seq<i64>
    decreases vals.len(),
{
    if vals.len() == 0 {
        s
    } else {
        add_all(slide(s, vals[0]), vals.drop_first())
    }
}

/// Height of one temperature point on the inverted display axis, in milli
/// display units: `clamp(100 - degrees, 0, 100)` carried in millis, so a
/// higher temperature gives a smaller y.
pub open spec fn height_milli(v: int) -> int {
    if v <= 0 {
        DISPLAY_RANGE_MILLI as int
    } else if v >= DISPLAY_RANGE_MILLI as int {
        0
    } else {
        DISPLAY_RANGE_MILLI - v
    }
}

/// One `{command} {x} {y} ` group of the path string for the point at
/// index `i`: `M` opens the path, `L` continues it; `x` is the index and
/// `y` the clamped height in milli display units.
pub open spec fn svg_piece(ps: Seq<i64>, i: int) -> Seq<char> {
    let cmd: Seq<char> = if i == 0 { seq!['M'] } else { seq!['L'] };
    cmd + seq![' '] + dec_digits(i as nat) + seq![' ']
        + milli_chars(height_milli(ps[i] as int)) + seq![' ']
}

/// The path string for the first `n` points.
pub open spec fn svg_prefix(ps: Seq<i64>, n: int) -> Seq<char>
    decreases n,
{
    if n <= 0 {
        Seq::empty()
    } else {
        svg_prefix(ps, n - 1) + svg_piece(ps, n - 1)
    }
}

/// The whole SVG path string of a window.
pub open spec fn svg_path_chars(ps: Seq<i64>) -> Seq<char> {
    svg_prefix(ps, ps.len() as int)
}

/// Sliding-window law. After `K` additions to a window of capacity `N`:
/// with `K >= N` the window holds exactly the last `N` added values in
/// order; with `K < N` the oldest `N - K` seed points remain, followed by
/// the `K` added values in order. The length never changes.
pub proof fn lemma_sliding_window(s: Seq<i64>, vals: Seq<i64>)
    requires
        s.len() >= 1,
    ensures
        add_all(s, vals).len() == s.len(),
        vals.len() >= s.len()
            ==> add_all(s, vals)
                == vals.subrange(vals.len() - s.len(), vals.len() as int),
        vals.len() < s.len()
            ==> add_all(s, vals)
                == s.subrange(vals.len() as int, s.len() as int) + vals,
    decreases vals.len(),
{
    let cap = s.len() as int;
    let n = vals.len() as int;
    if n == 0 {
        assert(s.subrange(0, cap) + vals =~= s);
    } else {
        let s1 = slide(s, vals[0]);
        let rest = vals.drop_first();
        assert(s1.len() == s.len());
        lemma_sliding_window(s1, rest);
        if n - 1 >= cap {
            assert(rest.subrange(n - 1 - cap, n - 1) =~= vals.subrange(n - cap, n));
        } else if n == cap {
            assert(s1.subrange(n - 1, cap) =~= seq![vals[0]]);
            assert(seq![vals[0]] + rest =~= vals);
            assert(vals.subrange(n - cap, n) =~= vals);
        } else {
            assert(s1.subrange(n - 1, cap) =~= s.subrange(n, cap).push(vals[0]));
            assert(s.subrange(n, cap).push(vals[0]) + rest =~= s.subrange(n, cap) + vals);
        }
    }
}

impl SensorHistory {
    /// Wall-clock time, in milliseconds, of the last mutation (or creation).
    pub closed spec fn last_update_spec(&self) -> u64 {
        self.last_update_ms
    }

    /// Creates a track of exactly `capacity` points, all equal to
    /// `initial_value`.
    pub fn new(initial_value: i64, capacity: usize, now_ms: u64) -> (h: Self)
        ensures
            h@ == Seq::new(capacity as nat, |i: int| initial_value),
            h@.len() == capacity,
            h.last_update_spec() == now_ms,
    {
        let mut points: Vec<i64> = Vec::new();
        let mut i: usize = 0;
        while i < capacity
            invariant
                0 <= i <= capacity,
                points@ == Seq::new(i as nat, |j: int| initial_value),
            decreases capacity - i,
        {
            points.push(initial_value);
            proof {
                assert(points@ =~= Seq::new((i + 1) as nat, |j: int| initial_value));
            }
            i = i + 1;
        }
        SensorHistory { points, last_update_ms: now_ms }
    }

    /// Evicts the oldest point and appends `value`; the length is preserved
    /// and the update time recorded.
    pub fn add_point(&mut self, value: i64, now_ms: u64)
        requires
            old(self)@.len() >= 1,
        ensures
            final(self)@ == slide(old(self)@, value),
            final(self)@.len() == old(self)@.len(),
            final(self).last_update_spec() == now_ms,
    {
        self.points.remove(0);
        self.points.push(value);
        self.last_update_ms = now_ms;
        proof {
            assert(self.points@ =~= slide(old(self)@, value));
        }
    }

    /// Projects the window onto display coordinates: one `(x, y)` pair per
    /// point, where `x` is the point's index and `y` its clamped height.
    pub fn render_path(&self) -> (path: Vec<(usize, u64)>)
        ensures
            path@.len() == self@.len(),
            forall|i: int| 0 <= i < self@.len()
                ==> #[trigger] path@[i] == (i as usize, height_milli(self@[i] as int) as u64),
    {
        let n: usize = self.points.len();
        let mut path: Vec<(usize, u64)> = Vec::new();
        let mut i: usize = 0;
        while i < n
            invariant
                0 <= i <= n,
                n == self@.len(),
                path@.len() == i,
                forall|j: int| 0 <= j < i
                    ==> #[trigger] path@[j] == (j as usize, height_milli(self@[j] as int) as u64),
            decreases n - i,
        {
            let y: u64 = height_of(self.points[i]);
            path.push((i, y));
            i = i + 1;
        }
        path
    }

    /// Renders the window as an SVG path string, one `M`/`L` group per
    /// point on the inverted, clamped display axis.
    pub fn to_svg_path(&self) -> (path: String)
        ensures
            path@ == svg_path_chars(self@),
    {
        let n: usize = self.points.len();
        let mut out = String::new();
        let mut i: usize = 0;
        while i < n
            invariant
                0 <= i <= n,
                n == self@.len(),
                out@ == svg_prefix(self@, i as int),
            decreases n - i,
        {
            proof {
                reveal_strlit("M ");
                reveal_strlit("L ");
                reveal_strlit(" ");
            }
            if i == 0 {
                out.append("M ");
            } else {
                out.append("L ");
            }
            out.append(u128_to_dec(i as u128).as_str());
            out.append(" ");
            let y: u64 = height_of(self.points[i]);
            out.append(milli_to_string(y as i64).as_str());
            out.append(" ");
            proof {
                assert(out@ =~= svg_prefix(self@, i + 1));
            }
            i = i + 1;
        }
        out
    }

    /// Number of points in the window.
    pub fn len(&self) -> (n: usize)
        ensures
            n == self@.len(),
    {
        self.points.len()
    }

    /// The point at index `i` (0 is the oldest).
    pub fn point(&self, i: usize) -> (v: i64)
        requires
            i < self@.len(),
        ensures
            v == self@[i as int],
    {
        self.points[i]
    }

    /// Wall-clock time, in milliseconds, of the last mutation.
    pub fn last_update(&self) -> (t: u64)
        ensures
            t == self.last_update_spec(),
    {
        self.last_update_ms
    }
}

/// Clamped display height of one temperature point.
pub fn height_of(v: i64) -> (y: u64)
    ensures
        y == height_milli(v as int),
        0 <= y <= DISPLAY_RANGE_MILLI,
{
    if v <= 0 {
        DISPLAY_RANGE_MILLI as u64
    } else if v >= DISPLAY_RANGE_MILLI {
        0
    } else {
        (DISPLAY_RANGE_MILLI - v) as u64
    }
}

} // verus!
