use awc_control::config::{AwcConfig, ConfigError, DeviceInfo, GraphType};
use awc_control::curve::CoOrdinates;

fn curve(points: &[(u8, u8)]) -> Vec<CoOrdinates> {
    let mut v = Vec::new();
    for &(temp, fan_boost) in points {
        v.push(CoOrdinates { temp, fan_boost });
    }
    v
}

#[test]
fn valid_curve_is_accepted() {
    let d = DeviceInfo::new(GraphType::Linear, curve(&[(40, 0), (60, 50), (80, 255)]), 1, 50)
        .unwrap();
    assert_eq!(d.sensor, 1);
    assert_eq!(d.fan, 50);
    assert_eq!(d.graph.len(), 3);
    assert_eq!(d.graph[1], CoOrdinates { temp: 60, fan_boost: 50 });
}

#[test]
fn equal_temperatures_are_rejected_at_load() {
    let r = DeviceInfo::new(GraphType::Linear, curve(&[(40, 0), (40, 50), (80, 255)]), 1, 50);
    assert_eq!(r.unwrap_err(), ConfigError::TempsNotAscending);
}

#[test]
fn descending_temperatures_are_rejected_at_load() {
    let r = DeviceInfo::new(GraphType::Step, curve(&[(60, 0), (40, 50)]), 6, 51);
    assert_eq!(r.unwrap_err(), ConfigError::TempsNotAscending);
}

#[test]
fn empty_curve_is_rejected_at_load() {
    let r = DeviceInfo::new(GraphType::Linear, Vec::new(), 1, 50);
    assert_eq!(r.unwrap_err(), ConfigError::EmptyCurve);
}

#[test]
fn single_point_curve_is_accepted() {
    let d = DeviceInfo::new(GraphType::Step, curve(&[(50, 128)]), 6, 51).unwrap();
    assert_eq!(d.graph.len(), 1);
}

#[test]
fn config_aggregates_zones() {
    let cpu = DeviceInfo::new(GraphType::Linear, curve(&[(40, 0), (80, 255)]), 1, 50).unwrap();
    let gpu = DeviceInfo::new(GraphType::Step, curve(&[(45, 0), (85, 255)]), 6, 51).unwrap();
    let c = AwcConfig::new(true, cpu, gpu, 30);
    assert!(c.disable_power_mode_on_startup);
    assert_eq!(c.interval, 30);
    assert_eq!(c.cpu.fan, 50);
    assert_eq!(c.gpu.fan, 51);
}
