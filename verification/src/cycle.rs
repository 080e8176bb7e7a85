//! The sampling cycle: the decisions one tick of the orchestrator makes.
//!
//! On a fast cadence every sensor is read outside this library and the
//! results — a value, or nothing where the read failed — are handed to
//! `SampleLoop::tick` together with the wall clock. The tick substitutes a
//! sentinel for each failed read, derives one broker publication per sensor
//! and one for the aggregate energy estimate, slides every history window
//! when and only when the slow cadence is due, and renders the history
//! paths for the display. The shell around the library performs the
//! publications and the display hand-off; nothing here blocks on either.

use vstd::prelude::*;
use crate::config::{BoilerConfig, MqttConfig, SensorConfig};
use crate::energy::{estimate, estimate_spec, params_in_range, reading_in_range, MAX_READINGS};
use crate::history::{slide, svg_path_chars, SensorHistory, HISTORY_POINTS};
use crate::text::{
    energy_suffix, energy_topic, micro_chars, micro_to_string, milli_chars, milli_to_string,
    sensor_topic, topic_chars,
};

verus! {

/// Fast cadence: milliseconds between two sampling ticks.
pub const SAMPLE_INTERVAL_MS: u64 = 2_000;

/// Slow cadence: milliseconds that must elapse between two history updates
/// (15 minutes, so 96 points span 24 hours).
pub const HISTORY_UPDATE_INTERVAL_MS: u64 = 900_000;

/// Delay before the broker connection is retried after an error, in
/// milliseconds.
pub const RECONNECT_DELAY_MS: u64 = 5_000;

/// Reading substituted when a sensor read fails, in millidegrees.
pub const SENSOR_FAILURE_SENTINEL_MILLI: i64 = 0;

/// Seed for a history window whose first read already failed at startup,
/// in millidegrees (20 degrees).
pub const SEED_FALLBACK_MILLI: i64 = 20_000;

/// The reading used for a sensor this tick: the measured value, or the
/// sentinel where the read failed. A failed sensor never aborts a tick.
pub open spec fn effective_spec(r: Option<i64>) -> i64 {
    match r {
        Some(v) => v,
        None => SENSOR_FAILURE_SENTINEL_MILLI,
    }
}

/// The slow cadence is due when the elapsed wall-clock time since the last
/// history update has reached the interval.
pub open spec fn due_spec(now_ms: u64, last_ms: u64, interval_ms: u64) -> bool
    recommends last_ms <= now_ms,
{
    now_ms - last_ms >= interval_ms
}

/// Substitutes the sentinel for a failed read.
pub fn effective_reading(r: &Option<i64>) -> (v: i64)
    ensures
        v == effective_spec(*r),
{
    match r {
        Some(x) => *x,
        None => SENSOR_FAILURE_SENTINEL_MILLI,
    }
}

/// Whether a history update is due, gated by elapsed wall-clock time, not
/// by tick count.
pub fn history_due(now_ms: u64, last_ms: u64, interval_ms: u64) -> (due: bool)
    requires
        last_ms <= now_ms,
    ensures
        due == due_spec(now_ms, last_ms, interval_ms),
{
    now_ms - last_ms >= interval_ms
}

/// One message for the broker: a topic and a decimal payload.
pub struct Publication {
    pub topic: String,
    pub payload: String,
}

/// Everything one tick decides; the shell performs it.
pub struct TickOutput {
    /// Effective reading per sensor, sentinel substituted.
    pub temps: Vec<i64>,
    /// One publication per sensor, then one for the energy value.
    pub publications: Vec<Publication>,
    /// Aggregate energy estimate in microkilowatt-hours.
    pub energy_microkwh: u128,
    /// Whether this tick slid the history windows.
    pub history_updated: bool,
    /// Rendered history path per sensor, for the display snapshot.
    pub history_paths: Vec<String>,
}

/// The orchestrator's state: configuration fixed at startup, one history
/// window per sensor, and the time of the last history update.
pub struct SampleLoop {
    pub mqtt: MqttConfig,
    pub sensors: Vec<SensorConfig>,
    pub boiler: BoilerConfig,
    pub histories: Vec<SensorHistory>,
    pub last_history_update_ms: u64,
}

impl SampleLoop {
    /// One history window per sensor, each of full capacity, and
    /// parameters the estimator accepts.
    pub open spec fn wf(&self) -> bool {
        &&& self.histories@.len() == self.sensors@.len()
        &&& forall|i: int| 0 <= i < self.histories@.len()
            ==> (#[trigger] self.histories@[i])@.len() == HISTORY_POINTS
        &&& params_in_range(self.boiler)
        &&& self.sensors@.len() <= MAX_READINGS
    }

    /// Creates the orchestrator with every history window seeded from one
    /// startup reading per sensor.
    pub fn new(
        mqtt: MqttConfig,
        sensors: Vec<SensorConfig>,
        boiler: BoilerConfig,
        seeds: &Vec<i64>,
        now_ms: u64,
    ) -> (s: Self)
        requires
            seeds@.len() == sensors@.len(),
            params_in_range(boiler),
            sensors@.len() <= MAX_READINGS,
        ensures
            s.wf(),
            s.mqtt == mqtt,
            s.sensors == sensors,
            s.boiler == boiler,
            s.last_history_update_ms == now_ms,
            forall|i: int| 0 <= i < seeds@.len()
                ==> (#[trigger] s.histories@[i])@
                    == Seq::new(HISTORY_POINTS as nat, |j: int| seeds@[i]),
            forall|i: int| 0 <= i < seeds@.len()
                ==> (#[trigger] s.histories@[i]).last_update_spec() == now_ms,
    {
        let n: usize = seeds.len();
        let mut histories: Vec<SensorHistory> = Vec::new();
        let mut i: usize = 0;
        while i < n
            invariant
                0 <= i <= n,
                n == seeds@.len(),
                histories@.len() == i,
                forall|k: int| 0 <= k < i
                    ==> (#[trigger] histories@[k])@
                        == Seq::new(HISTORY_POINTS as nat, |j: int| seeds@[k]),
                forall|k: int| 0 <= k < i
                    ==> (#[trigger] histories@[k])@.len() == HISTORY_POINTS,
                forall|k: int| 0 <= k < i
                    ==> (#[trigger] histories@[k]).last_update_spec() == now_ms,
            decreases n - i,
        {
            histories.push(SensorHistory::new(seeds[i], HISTORY_POINTS, now_ms));
            i = i + 1;
        }
        SampleLoop { mqtt, sensors, boiler, histories, last_history_update_ms: now_ms }
    }

    /// One execution of the fast cadence.
    ///
    /// Each sensor's effective reading, publication, and history update are
    /// determined by that sensor's own reading alone, so one failing sensor
    /// never affects the others. The history windows slide if and only if
    /// the elapsed wall-clock time since the last update has reached the
    /// slow interval; otherwise they are untouched.
    pub fn tick(&mut self, readings: &Vec<Option<i64>>, now_ms: u64) -> (out: TickOutput)
        requires
            old(self).wf(),
            readings@.len() == old(self).sensors@.len(),
            old(self).last_history_update_ms <= now_ms,
            forall|i: int| 0 <= i < readings@.len()
                ==> reading_in_range(effective_spec(#[trigger] readings@[i])),
        ensures
            final(self).wf(),
            final(self).mqtt == old(self).mqtt,
            final(self).sensors == old(self).sensors,
            final(self).boiler == old(self).boiler,
            out.history_updated
                == due_spec(now_ms, old(self).last_history_update_ms, HISTORY_UPDATE_INTERVAL_MS),
            final(self).last_history_update_ms
                == if out.history_updated { now_ms } else { old(self).last_history_update_ms },
            out.temps@.len() == readings@.len(),
            forall|i: int| 0 <= i < readings@.len()
                ==> out.temps@[i] == effective_spec(#[trigger] readings@[i]),
            final(self).histories@.len() == old(self).histories@.len(),
            forall|i: int| 0 <= i < readings@.len()
                ==> (#[trigger] final(self).histories@[i])@
                    == if out.history_updated {
                        slide((old(self).histories@[i])@, effective_spec(readings@[i]))
                    } else {
                        (old(self).histories@[i])@
                    },
            !out.history_updated ==> final(self).histories == old(self).histories,
            out.history_updated
                ==> forall|i: int| 0 <= i < readings@.len()
                    ==> (#[trigger] final(self).histories@[i]).last_update_spec() == now_ms,
            out.energy_microkwh == estimate_spec(out.temps@, old(self).boiler),
            out.publications@.len() == readings@.len() + 1,
            forall|i: int| 0 <= i < readings@.len() ==> {
                &&& (#[trigger] out.publications@[i]).topic@
                    == topic_chars(old(self).mqtt.base_topic@, old(self).sensors@[i].name@)
                &&& out.publications@[i].payload@
                    == milli_chars(effective_spec(readings@[i]) as int)
            },
            out.publications@[readings@.len() as int].topic@
                == topic_chars(old(self).mqtt.base_topic@, energy_suffix()),
            out.publications@[readings@.len() as int].payload@
                == micro_chars(out.energy_microkwh as nat),
            out.history_paths@.len() == readings@.len(),
            forall|i: int| 0 <= i < readings@.len()
                ==> (#[trigger] out.history_paths@[i])@
                    == svg_path_chars((final(self).histories@[i])@),
    {
        let n: usize = readings.len();

        // Effective readings and the per-sensor publications.
        let mut temps: Vec<i64> = Vec::new();
        let mut publications: Vec<Publication> = Vec::new();
        let mut i: usize = 0;
        while i < n
            invariant
                0 <= i <= n,
                n == readings@.len(),
                n == self.sensors@.len(),
                temps@.len() == i,
                publications@.len() == i,
                forall|j: int| 0 <= j < i ==> temps@[j] == effective_spec(#[trigger] readings@[j]),
                forall|j: int| 0 <= j < i ==> {
                    &&& (#[trigger] publications@[j]).topic@
                        == topic_chars(self.mqtt.base_topic@, self.sensors@[j].name@)
                    &&& publications@[j].payload@
                        == milli_chars(effective_spec(readings@[j]) as int)
                },
            decreases n - i,
        {
            let v: i64 = effective_reading(&readings[i]);
            temps.push(v);
            let topic = sensor_topic(self.mqtt.base_topic.as_str(), self.sensors[i].name.as_str());
            let payload = milli_to_string(v);
            publications.push(Publication { topic, payload });
            i = i + 1;
        }

        // The slow cadence, gated by elapsed wall-clock time.
        let updated: bool =
            history_due(now_ms, self.last_history_update_ms, HISTORY_UPDATE_INTERVAL_MS);
        if updated {
            let ghost prior = self.histories@;
            let mut slid: Vec<SensorHistory> = Vec::new();
            let mut k: usize = 0;
            while k < n
                invariant
                    0 <= k <= n,
                    n == readings@.len(),
                    n == temps@.len(),
                    prior.len() == n,
                    self.mqtt == old(self).mqtt,
                    self.sensors == old(self).sensors,
                    self.boiler == old(self).boiler,
                    self.last_history_update_ms == old(self).last_history_update_ms,
                    n == self.sensors@.len(),
                    forall|j: int| 0 <= j < n ==> temps@[j] == effective_spec(#[trigger] readings@[j]),
                    forall|j: int| 0 <= j < n ==> (#[trigger] prior[j])@.len() == HISTORY_POINTS,
                    self.histories@ == prior.skip(k as int),
                    slid@.len() == k,
                    forall|j: int| 0 <= j < k
                        ==> (#[trigger] slid@[j])@ == slide((prior[j])@, effective_spec(readings@[j])),
                    forall|j: int| 0 <= j < k
                        ==> (#[trigger] slid@[j])@.len() == HISTORY_POINTS,
                    forall|j: int| 0 <= j < k
                        ==> (#[trigger] slid@[j]).last_update_spec() == now_ms,
                decreases n - k,
            {
                let mut h: SensorHistory = self.histories.remove(0);
                proof {
                    assert(self.histories@ =~= prior.skip(k + 1));
                }
                h.add_point(temps[k], now_ms);
                slid.push(h);
                k = k + 1;
            }
            self.histories = slid;
            self.last_history_update_ms = now_ms;
        }

        // The aggregate energy estimate, over this tick's readings.
        proof {
            assert forall|j: int| 0 <= j < temps@.len()
                implies reading_in_range(#[trigger] temps@[j]) by {
                assert(temps@[j] == effective_spec(readings@[j]));
                assert(reading_in_range(effective_spec(readings@[j])));
            }
            assert(self.wf());
        }
        let energy: u128 = estimate(&temps, &self.boiler);

        // The energy publication.
        let energy_payload = micro_to_string(energy);
        publications.push(Publication {
            topic: energy_topic(self.mqtt.base_topic.as_str()),
            payload: energy_payload,
        });

        // The rendered history paths for the display snapshot.
        let mut history_paths: Vec<String> = Vec::new();
        let mut p: usize = 0;
        while p < n
            invariant
                0 <= p <= n,
                n == self.histories@.len(),
                history_paths@.len() == p,
                forall|j: int| 0 <= j < p
                    ==> (#[trigger] history_paths@[j])@ == svg_path_chars((self.histories@[j])@),
            decreases n - p,
        {
            history_paths.push(self.histories[p].to_svg_path());
            p = p + 1;
        }

        TickOutput {
            temps,
            publications,
            energy_microkwh: energy,
            history_updated: updated,
            history_paths,
        }
    }
}

/// A failing sensor is isolated: the quantities a tick derives for sensor
/// `j` — its effective reading, its slid history window, and its payload
/// text — depend on `j`'s own reading alone, never on what the other
/// sensors returned.
pub proof fn lemma_sensor_isolation(
    h: Seq<i64>,
    r1: Seq<Option<i64>>,
    r2: Seq<Option<i64>>,
    j: int,
)
    requires
        0 <= j < r1.len(),
        r1.len() == r2.len(),
        r1[j] == r2[j],
    ensures
        effective_spec(r1[j]) == effective_spec(r2[j]),
        slide(h, effective_spec(r1[j])) == slide(h, effective_spec(r2[j])),
        milli_chars(effective_spec(r1[j]) as int) == milli_chars(effective_spec(r2[j]) as int),
{
}

} // verus!
