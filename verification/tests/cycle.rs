use boilert::config::{BoilerConfig, MqttConfig, SensorConfig};
use boilert::cycle::{
    effective_reading, history_due, SampleLoop, HISTORY_UPDATE_INTERVAL_MS,
};

fn sensor(name: &str, id: &str) -> SensorConfig {
    SensorConfig { name: name.to_string(), id: id.to_string() }
}

fn three_sensor_loop() -> SampleLoop {
    let mqtt = MqttConfig {
        host: "localhost".to_string(),
        port: 1883,
        base_topic: "boiler".to_string(),
    };
    let sensors = vec![
        sensor("T1", "28-000000000001"),
        sensor("T2", "28-000000000002"),
        sensor("T3", "28-000000000003"),
    ];
    let boiler = BoilerConfig {
        volume_l: 100,
        reference_temp_milli_c: 15_000,
        energy_coefficient_milli: 1_162,
    };
    let seeds = vec![20_000, 21_000, 22_000];
    SampleLoop::new(mqtt, sensors, boiler, &seeds, 0)
}

#[test]
fn effective_reading_substitutes_sentinel() {
    assert_eq!(effective_reading(&Some(25_000)), 25_000);
    assert_eq!(effective_reading(&None), 0);
}

#[test]
fn gate_compares_elapsed_time_with_interval() {
    assert!(!history_due(1_000, 0, HISTORY_UPDATE_INTERVAL_MS));
    assert!(!history_due(899_999, 0, HISTORY_UPDATE_INTERVAL_MS));
    assert!(history_due(900_000, 0, HISTORY_UPDATE_INTERVAL_MS));
    assert!(history_due(1_800_000, 900_000, HISTORY_UPDATE_INTERVAL_MS));
}

#[test]
fn new_seeds_every_window() {
    let s = three_sensor_loop();
    assert_eq!(s.histories.len(), 3);
    for (i, seed) in [20_000i64, 21_000, 22_000].iter().enumerate() {
        assert_eq!(s.histories[i].len(), 96);
        assert_eq!(s.histories[i].point(0), *seed);
        assert_eq!(s.histories[i].point(95), *seed);
    }
}

#[test]
fn one_failing_sensor_does_not_affect_the_others() {
    let mut s = three_sensor_loop();
    let readings = vec![Some(25_000), None, Some(30_000)];
    let out = s.tick(&readings, HISTORY_UPDATE_INTERVAL_MS);

    // All three sensors are published, the failed one with the sentinel.
    assert_eq!(out.temps, vec![25_000, 0, 30_000]);
    assert_eq!(out.publications.len(), 4);
    assert_eq!(out.publications[0].topic, "boiler/T1");
    assert_eq!(out.publications[0].payload, "25.000");
    assert_eq!(out.publications[1].topic, "boiler/T2");
    assert_eq!(out.publications[1].payload, "0.000");
    assert_eq!(out.publications[2].topic, "boiler/T3");
    assert_eq!(out.publications[2].payload, "30.000");

    // The history update happened for every sensor.
    assert!(out.history_updated);
    assert_eq!(s.histories[0].point(95), 25_000);
    assert_eq!(s.histories[1].point(95), 0);
    assert_eq!(s.histories[2].point(95), 30_000);

    // Average 55/3 degrees against 15 degrees: excess 10 K over 3 sensors;
    // 100 l * 10000 milli-K * 1.162 / (3 * 1000) floors to 387333.
    assert_eq!(out.energy_microkwh, 387_333);
    assert_eq!(out.publications[3].topic, "boiler/energy");
    assert_eq!(out.publications[3].payload, "0.387333");
}

#[test]
fn history_updates_only_after_the_interval_elapses() {
    let mut s = three_sensor_loop();
    let readings = vec![Some(25_000), Some(26_000), Some(27_000)];

    // Ten fast ticks inside the slow interval: no history mutation.
    for k in 0..10u64 {
        let out = s.tick(&readings, k * 2_000);
        assert!(!out.history_updated);
        for i in 0..3 {
            assert_eq!(s.histories[i].point(95), [20_000i64, 21_000, 22_000][i]);
        }
    }

    // The first tick at or past the threshold mutates the history once.
    let out = s.tick(&readings, HISTORY_UPDATE_INTERVAL_MS);
    assert!(out.history_updated);
    assert_eq!(s.histories[0].point(95), 25_000);
    assert_eq!(s.histories[0].point(94), 20_000);

    // The slow timer was rearmed at the update: the next tick does not mutate.
    let out = s.tick(&readings, HISTORY_UPDATE_INTERVAL_MS + 2_000);
    assert!(!out.history_updated);
    assert_eq!(s.histories[0].point(95), 25_000);
}

#[test]
fn tick_renders_one_path_per_sensor() {
    let mut s = three_sensor_loop();
    let readings = vec![Some(25_000), Some(26_000), Some(27_000)];
    let out = s.tick(&readings, 0);
    assert_eq!(out.history_paths.len(), 3);
    // Seed 20 degrees everywhere: y = 80 at every x.
    assert!(out.history_paths[0].starts_with("M 0 80.000 L 1 80.000 "));
    assert!(out.history_paths[0].ends_with("L 95 80.000 "));
}

#[test]
fn empty_sensor_set_degrades_to_defaults() {
    let mqtt = MqttConfig {
        host: "localhost".to_string(),
        port: 1883,
        base_topic: "boiler".to_string(),
    };
    let boiler = BoilerConfig {
        volume_l: 100,
        reference_temp_milli_c: 15_000,
        energy_coefficient_milli: 1_162,
    };
    let mut s = SampleLoop::new(mqtt, vec![], boiler, &vec![], 0);
    let out = s.tick(&vec![], HISTORY_UPDATE_INTERVAL_MS);
    assert_eq!(out.temps.len(), 0);
    assert_eq!(out.energy_microkwh, 0);
    assert_eq!(out.publications.len(), 1);
    assert_eq!(out.publications[0].topic, "boiler/energy");
    assert_eq!(out.publications[0].payload, "0.000000");
    assert!(out.history_updated);
}
