use resource_core::idgen::{
    compose, encode_id, ConfigError, Generator, Issue, RegressionPolicy, MACHINE_LIMIT,
    SEQ_LIMIT,
};

fn fresh(machine_id: u64) -> Generator {
    Generator::new(machine_id, 0, 0, RegressionPolicy::Fail).unwrap()
}

fn must_id(r: Issue) -> u64 {
    match r {
        Issue::Id(id) => id,
        other => panic!("expected an identifier, got {:?}", other),
    }
}

#[test]
fn construction_rejects_wide_machine_id() {
    assert!(matches!(
        Generator::new(MACHINE_LIMIT, 0, 0, RegressionPolicy::Fail),
        Err(ConfigError::MachineIdOutOfRange)
    ));
    assert!(Generator::new(MACHINE_LIMIT - 1, 0, 0, RegressionPolicy::Fail).is_ok());
}

#[test]
fn construction_rejects_future_epoch() {
    assert!(matches!(
        Generator::new(0, 100, 99, RegressionPolicy::Fail),
        Err(ConfigError::EpochInFuture)
    ));
    assert!(Generator::new(0, 100, 100, RegressionPolicy::Fail).is_ok());
}

#[test]
fn ids_are_exact_compositions() {
    let mut g = fresh(0);
    assert_eq!(must_id(g.next_id(0)), 1);
    assert_eq!(must_id(g.next_id(0)), 2);
    assert_eq!(must_id(g.next_id(1)), 0x400000);
    assert_eq!(must_id(g.next_id(1)), 0x400001);

    let mut g5 = fresh(5);
    assert_eq!(must_id(g5.next_id(0)), 5 * 0x1000 + 1);
    assert_eq!(compose(7, 5, 3), 7 * 0x400000 + 5 * 0x1000 + 3);
}

#[test]
fn ids_unique_and_increasing_within_and_across_time_units() {
    let mut g = fresh(1);
    let mut ids = Vec::new();
    for now in [3u64, 3, 3, 4, 4, 7, 7, 7, 7, 9] {
        ids.push(must_id(g.next_id(now)));
    }
    for i in 0..ids.len() {
        for j in (i + 1)..ids.len() {
            assert!(ids[i] < ids[j]);
            assert_ne!(ids[i], ids[j]);
        }
    }
}

#[test]
fn distinct_machines_never_collide() {
    let mut a = fresh(1);
    let mut b = fresh(2);
    let mut ids = Vec::new();
    for now in 0u64..50 {
        ids.push(must_id(a.next_id(now)));
        ids.push(must_id(b.next_id(now)));
    }
    for i in 0..ids.len() {
        for j in (i + 1)..ids.len() {
            assert_ne!(ids[i], ids[j]);
        }
    }
}

#[test]
fn sequence_overflow_waits_then_rolls_into_next_unit() {
    let mut g = fresh(0);
    let mut last = 0u64;
    // The first call in time unit 10 takes sequence 0; the rest exhaust it.
    for _ in 0..SEQ_LIMIT {
        let id = must_id(g.next_id(10));
        assert!(id > last);
        last = id;
    }
    // Sequence exhausted: the generator asks the caller to wait, issuing
    // nothing, and repeating the call changes nothing.
    assert_eq!(g.next_id(10), Issue::Wait);
    assert_eq!(g.next_id(10), Issue::Wait);
    // The next time unit rolls over and keeps increasing.
    let rolled = must_id(g.next_id(11));
    assert!(rolled > last);
    assert_eq!(rolled, 11 * 0x400000);
}

#[test]
fn clock_regression_fails_or_waits_per_policy() {
    let mut g = fresh(0);
    let first = must_id(g.next_id(10));
    assert_eq!(g.next_id(9), Issue::ClockRegression);
    // The failed call left the state alone: issuance resumes at parity and
    // never goes below the issued time field.
    let next = must_id(g.next_id(10));
    assert!(next > first);
    assert!(next >> 22 >= 10);

    let mut w = Generator::new(0, 0, 0, RegressionPolicy::Wait).unwrap();
    let _ = must_id(w.next_id(10));
    assert_eq!(w.next_id(9), Issue::Wait);
    let caught_up = must_id(w.next_id(10));
    assert!(caught_up > first);
}

#[test]
fn identifiers_encode_as_plain_decimal_strings() {
    assert_eq!(encode_id(0), "0");
    assert_eq!(encode_id(7), "7");
    assert_eq!(encode_id(4_194_304), "4194304");
    assert_eq!(encode_id(u64::MAX), "18446744073709551615");

    let mut g = fresh(0);
    let id = must_id(g.next_id(1));
    assert_eq!(encode_id(id), id.to_string());
}

#[test]
fn readings_before_the_epoch_clamp_to_the_first_unit() {
    let mut g = Generator::new(0, 50, 50, RegressionPolicy::Fail).unwrap();
    assert_eq!(must_id(g.next_id(40)), 1);
}
