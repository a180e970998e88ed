use latency_handshake::latency::{HalfMillis, Latency, Millis};
use latency_handshake::{LatencyTest, MAGIC_NUMBER};

fn millis_f64(m: Millis) -> f64 {
    if m.negative {
        -(m.magnitude as f64)
    } else {
        m.magnitude as f64
    }
}

#[test]
fn calculator_example() {
    let complete = LatencyTest::Final {
        magic: MAGIC_NUMBER,
        server_time: 1000,
        client_time: 900,
        server_ack_time: 1050,
        client_ack_time: 1100,
    };
    let latency = complete.calculate_latency();
    assert_eq!(latency.server_processing, Millis { negative: false, magnitude: 50 });
    assert_eq!(latency.client_round_trip, Millis { negative: false, magnitude: 200 });
    assert_eq!(latency.round_trip_doubled, HalfMillis { negative: true, high: 0, low: 100 });
    let server = millis_f64(latency.server_processing);
    let client = millis_f64(latency.client_round_trip);
    assert_eq!(server, 50.0);
    assert_eq!(client, 200.0);
    assert_eq!(server - client * 0.5, -50.0);
}

#[test]
fn calculator_positive_estimate() {
    let complete = LatencyTest::Final {
        magic: MAGIC_NUMBER,
        server_time: 10,
        client_time: 5,
        server_ack_time: 110,
        client_ack_time: 36,
    };
    let latency = complete.calculate_latency();
    assert_eq!(
        latency,
        Latency {
            round_trip_doubled: HalfMillis { negative: false, high: 0, low: 169 },
            server_processing: Millis { negative: false, magnitude: 100 },
            client_round_trip: Millis { negative: false, magnitude: 31 },
        }
    );
}

#[test]
fn calculator_all_equal_is_zero_without_sign() {
    let complete = LatencyTest::Final {
        magic: MAGIC_NUMBER,
        server_time: 77,
        client_time: 77,
        server_ack_time: 77,
        client_ack_time: 77,
    };
    let latency = complete.calculate_latency();
    assert_eq!(latency.server_processing, Millis { negative: false, magnitude: 0 });
    assert_eq!(latency.client_round_trip, Millis { negative: false, magnitude: 0 });
    assert_eq!(latency.round_trip_doubled, HalfMillis { negative: false, high: 0, low: 0 });
}

#[test]
fn calculator_clocks_that_ran_backwards() {
    let complete = LatencyTest::Final {
        magic: MAGIC_NUMBER,
        server_time: 500,
        client_time: 40,
        server_ack_time: 100,
        client_ack_time: 10,
    };
    let latency = complete.calculate_latency();
    assert_eq!(latency.server_processing, Millis { negative: true, magnitude: 400 });
    assert_eq!(latency.client_round_trip, Millis { negative: true, magnitude: 30 });
    // 2 * (-400) - (-30) = -770
    assert_eq!(latency.round_trip_doubled, HalfMillis { negative: true, high: 0, low: 770 });
}

#[test]
fn calculator_largest_negative_estimate() {
    let complete = LatencyTest::Final {
        magic: MAGIC_NUMBER,
        server_time: u128::MAX,
        client_time: 0,
        server_ack_time: 0,
        client_ack_time: u128::MAX,
    };
    let latency = complete.calculate_latency();
    assert_eq!(latency.server_processing, Millis { negative: true, magnitude: u128::MAX });
    assert_eq!(latency.client_round_trip, Millis { negative: false, magnitude: u128::MAX });
    // -3 * (2^128 - 1) = -(2 * 2^128 + (2^128 - 3))
    assert_eq!(
        latency.round_trip_doubled,
        HalfMillis { negative: true, high: 2, low: u128::MAX - 2 }
    );
}

#[test]
fn calculator_largest_positive_estimate() {
    let complete = LatencyTest::Final {
        magic: MAGIC_NUMBER,
        server_time: 0,
        client_time: u128::MAX,
        server_ack_time: u128::MAX,
        client_ack_time: 0,
    };
    let latency = complete.calculate_latency();
    assert_eq!(latency.server_processing, Millis { negative: false, magnitude: u128::MAX });
    assert_eq!(latency.client_round_trip, Millis { negative: true, magnitude: u128::MAX });
    assert_eq!(
        latency.round_trip_doubled,
        HalfMillis { negative: false, high: 2, low: u128::MAX - 2 }
    );
}

#[test]
fn calculator_carry_into_high_part() {
    let complete = LatencyTest::Final {
        magic: MAGIC_NUMBER,
        server_time: 0,
        client_time: 0,
        server_ack_time: u128::MAX,
        client_ack_time: 0,
    };
    let latency = complete.calculate_latency();
    // 2 * (2^128 - 1) = 2^128 + (2^128 - 2)
    assert_eq!(
        latency.round_trip_doubled,
        HalfMillis { negative: false, high: 1, low: u128::MAX - 1 }
    );
}

#[test]
fn between_is_signed() {
    assert_eq!(Millis::between(3, 10), Millis { negative: false, magnitude: 7 });
    assert_eq!(Millis::between(10, 3), Millis { negative: true, magnitude: 7 });
    assert_eq!(Millis::between(4, 4), Millis { negative: false, magnitude: 0 });
}

#[test]
fn calculator_does_not_depend_on_clock_offsets() {
    let plain = LatencyTest::Final {
        magic: MAGIC_NUMBER,
        server_time: 1000,
        client_time: 900,
        server_ack_time: 1050,
        client_ack_time: 1100,
    };
    let shifted = LatencyTest::Final {
        magic: MAGIC_NUMBER,
        server_time: 1000 + 5_000_000,
        client_time: 900 - 850,
        server_ack_time: 1050 + 5_000_000,
        client_ack_time: 1100 - 850,
    };
    assert_eq!(plain.calculate_latency(), shifted.calculate_latency());
}
