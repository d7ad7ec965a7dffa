//! Slot allocation, release, capacity and teardown behaviour of the
//! target registry.

use vigem_rust::{ClientError, Target, TargetRegistry, TargetType};

fn pad() -> Target {
    Target {
        kind: TargetType::Xbox360,
        serial_no: 0,
        vendor_id: 0x045E,
        product_id: 0x028E,
    }
}

#[test]
fn allocation_is_deterministic() {
    let mut reg = TargetRegistry::new(4);
    assert_eq!(reg.allocate(pad()), Ok(1));
    assert_eq!(reg.allocate(pad()), Ok(2));
    assert_eq!(reg.allocate(pad()), Ok(3));
    assert_eq!(reg.allocate(pad()), Ok(4));
}

#[test]
fn released_slot_is_reused_first() {
    let mut reg = TargetRegistry::new(8);
    assert_eq!(reg.allocate(pad()), Ok(1));
    assert_eq!(reg.allocate(pad()), Ok(2));
    assert_eq!(reg.allocate(pad()), Ok(3));
    assert!(reg.release(2));
    // slot 2 wins over the unused 4.
    assert_eq!(reg.allocate(pad()), Ok(2));
    assert_eq!(reg.allocate(pad()), Ok(4));
}

#[test]
fn allocation_beyond_capacity_fails() {
    let mut reg = TargetRegistry::new(2);
    assert_eq!(reg.allocate(pad()), Ok(1));
    assert_eq!(reg.allocate(pad()), Ok(2));
    assert_eq!(reg.allocate(pad()), Err(ClientError::NoFreeSlot));
    // the failed attempt added nothing.
    assert_eq!(reg.len(), 2);
    assert_eq!(reg.allocate(pad()), Err(ClientError::NoFreeSlot));
    assert_eq!(reg.len(), 2);
}

#[test]
fn zero_capacity_registry_never_allocates() {
    let mut reg = TargetRegistry::new(0);
    assert_eq!(reg.allocate(pad()), Err(ClientError::NoFreeSlot));
    assert_eq!(reg.len(), 0);
}

#[test]
fn release_fires_exactly_once() {
    let mut reg = TargetRegistry::new(4);
    assert_eq!(reg.allocate(pad()), Ok(1));
    // Two clones of a handle both route through release on drop; only the
    // first reaches the driver.
    let mut unplug_calls = 0;
    for _ in 0..3 {
        if reg.release(1) {
            unplug_calls += 1;
        }
    }
    assert_eq!(unplug_calls, 1);
}

#[test]
fn release_of_absent_slot_is_a_noop() {
    let mut reg = TargetRegistry::new(4);
    assert!(!reg.release(1));
    assert_eq!(reg.allocate(pad()), Ok(1));
    assert!(!reg.release(2));
    assert!(reg.contains_slot(1));
}

#[test]
fn operations_after_unplug_fail_loudly() {
    let mut reg = TargetRegistry::new(4);
    assert_eq!(reg.allocate(pad()), Ok(1));
    assert_eq!(reg.check_target_alive(1), Ok(()));
    assert!(reg.release(1));
    // any further update on any clone of the handle sees this error.
    assert_eq!(
        reg.check_target_alive(1),
        Err(ClientError::TargetDoesNotExist(1))
    );
    assert_eq!(
        reg.check_target_alive(1),
        Err(ClientError::TargetDoesNotExist(1))
    );
}

#[test]
fn next_free_slot_skips_occupied_and_resumes() {
    let mut reg = TargetRegistry::new(3);
    assert_eq!(reg.next_free_slot(1), Some(1));
    assert_eq!(reg.allocate(pad()), Ok(1));
    assert_eq!(reg.next_free_slot(1), Some(2));
    // a plug refusal on slot 2 resumes one past it.
    assert_eq!(reg.next_free_slot(3), Some(3));
    assert_eq!(reg.next_free_slot(4), None);
}

#[test]
fn teardown_unplugs_every_slot_once_despite_failures() {
    let mut reg = TargetRegistry::new(8);
    for k in 1..=5 {
        assert_eq!(reg.allocate(pad()), Ok(k));
    }
    reg.release(3);
    let slots = reg.drain_for_teardown();
    // one best-effort unplug per still-registered slot, even if each fails.
    let mut attempts = 0;
    let mut failures = 0;
    for &s in slots.iter() {
        attempts += 1;
        failures += 1; // simulate the driver refusing every unplug
        assert!(s >= 1 && s <= 8 && s != 3);
    }
    assert_eq!(attempts, 4);
    assert_eq!(failures, attempts);
    // the sweep completed: nothing is live any more.
    assert_eq!(reg.len(), 0);
    let mut sorted: Vec<u32> = slots.clone();
    sorted.sort();
    assert_eq!(sorted, vec![1, 2, 4, 5]);
}

#[test]
fn recorded_target_keeps_its_identifiers() {
    let mut reg = TargetRegistry::new(2);
    let t = Target {
        kind: TargetType::DualShock4,
        serial_no: 0,
        vendor_id: 0xAAAA,
        product_id: 0xBBBB,
    };
    assert_eq!(reg.allocate(t), Ok(1));
    assert_eq!(reg.targets[0].vendor_id, 0xAAAA);
    assert_eq!(reg.targets[0].product_id, 0xBBBB);
    assert_eq!(reg.targets[0].serial_no, 1);
    assert_eq!(reg.targets[0].kind, TargetType::DualShock4);
}
