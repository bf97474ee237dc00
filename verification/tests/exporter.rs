use netmetrics::export::{encode_snapshot, seconds_string, summary_line, to_decimal};
use netmetrics::metrics::{NetworkMetrics, NetworkMetricsSnapshot};

#[test]
fn decimal_rendering() {
    assert_eq!(to_decimal(0), "0");
    assert_eq!(to_decimal(7), "7");
    assert_eq!(to_decimal(10), "10");
    assert_eq!(to_decimal(1604), "1604");
    assert_eq!(to_decimal(340_282_366_920_938_463_463_374_607_431_768_211_455), "340282366920938463463374607431768211455");
}

#[test]
fn seconds_rendering() {
    assert_eq!(seconds_string(0), "0.000");
    assert_eq!(seconds_string(5), "0.005");
    assert_eq!(seconds_string(50), "0.050");
    assert_eq!(seconds_string(500), "0.500");
    assert_eq!(seconds_string(999), "0.999");
    assert_eq!(seconds_string(1000), "1.000");
    assert_eq!(seconds_string(12345), "12.345");
}

#[test]
fn snapshot_encoding_exact() {
    let snapshot = NetworkMetricsSnapshot {
        packet_count: 3,
        byte_count: 1604,
        duration_millis: 12345,
    };
    let encoded = encode_snapshot(&snapshot);
    assert_eq!(
        encoded,
        "{\n  \"packet_count\": 3,\n  \"byte_count\": 1604,\n  \"duration\": 12.345\n}"
    );
}

#[test]
fn export_idempotent() {
    // Exporting the same snapshot twice produces byte-identical output.
    let snapshot = NetworkMetricsSnapshot {
        packet_count: 42,
        byte_count: 65000,
        duration_millis: 987,
    };
    let first = encode_snapshot(&snapshot);
    let second = encode_snapshot(&snapshot);
    assert_eq!(first.as_bytes(), second.as_bytes());
}

#[test]
fn encoding_is_machine_readable_json() {
    let mut metrics = NetworkMetrics::new();
    metrics.update(64);
    metrics.update(1500);
    let mut snapshot = metrics.snapshot();
    snapshot.duration_millis = 2750;
    let encoded = encode_snapshot(&snapshot);
    let value: serde_json::Value = serde_json::from_str(&encoded).unwrap();
    let object = value.as_object().unwrap();
    assert_eq!(object.len(), 3);
    assert_eq!(object.get("packet_count").unwrap().as_u64().unwrap(), 2);
    assert_eq!(object.get("byte_count").unwrap().as_u64().unwrap(), 1564);
    assert_eq!(object.get("duration").unwrap().as_f64().unwrap(), 2.75);
}

#[test]
fn summary_line_exact() {
    let snapshot = NetworkMetricsSnapshot {
        packet_count: 3,
        byte_count: 1604,
        duration_millis: 5000,
    };
    assert_eq!(
        summary_line(&snapshot),
        "Packets: 3, Bytes: 1604, Duration: 5.000s"
    );
}
