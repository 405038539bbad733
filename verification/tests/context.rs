use eot::gas::{ExecutionContext, ExecutionContextBuilder};
use eot::GasError;

#[test]
fn test_storage_warming() {
    let mut context = ExecutionContext::new();
    let addr = vec![1u8; 20];
    let key = vec![2u8; 32];

    assert!(!context.is_storage_warm(&addr, &key));

    context.mark_storage_accessed(&addr, &key);
    assert!(context.is_storage_warm(&addr, &key));
}

#[test]
fn test_address_warming() {
    let mut context = ExecutionContext::new();
    let addr = vec![1u8; 20];

    assert!(!context.is_address_warm(&addr));

    context.mark_address_accessed(&addr);
    assert!(context.is_address_warm(&addr));
}

#[test]
fn context_test_memory_expansion() {
    let mut context = ExecutionContext::new();
    assert_eq!(context.memory_size, 0);

    context.expand_memory(64);
    assert_eq!(context.memory_size, 64);

    // Should not shrink
    context.expand_memory(32);
    assert_eq!(context.memory_size, 64);

    // Should expand further
    context.expand_memory(128);
    assert_eq!(context.memory_size, 128);
}

#[test]
fn test_call_depth_tracking() {
    let mut context = ExecutionContext::new();
    assert_eq!(context.call_depth, 0);

    context.enter_call();
    assert_eq!(context.call_depth, 1);

    context.enter_call();
    assert_eq!(context.call_depth, 2);

    context.exit_call();
    assert_eq!(context.call_depth, 1);

    context.exit_call();
    assert_eq!(context.call_depth, 0);

    // Should not go below 0
    context.exit_call();
    assert_eq!(context.call_depth, 0);
}

#[test]
fn test_gas_consumption() {
    let mut context = ExecutionContext::new();
    context.gas_remaining = 1000;

    assert!(context.consume_gas(500).is_ok());
    assert_eq!(context.gas_remaining, 500);

    assert!(context.consume_gas(600).is_err()); // Should fail - not enough gas
    assert_eq!(context.gas_remaining, 500); // Should not change on failure
}

#[test]
fn test_available_call_gas() {
    let context = ExecutionContext {
        gas_remaining: 64000,
        ..ExecutionContext::new()
    };

    let available = context.available_call_gas();
    assert_eq!(available, 63000); // 64000 - 64000/64 = 64000 - 1000
}

#[test]
fn test_context_builder() {
    let addr = vec![1u8; 20];
    let caller = vec![2u8; 20];
    let storage_slots = vec![(addr.clone(), vec![3u8; 32])];
    let warm_addresses = vec![addr.clone()];

    let context = ExecutionContextBuilder::new()
        .with_address(addr.clone())
        .with_caller(caller.clone())
        .with_value(1000)
        .with_gas(500000, 20_000_000_000, 30_000_000)
        .with_warm_storage(storage_slots)
        .with_warm_addresses(warm_addresses)
        .with_static(true)
        .build();

    assert_eq!(context.current_address, addr);
    assert_eq!(context.caller_address, caller);
    assert_eq!(context.call_value, 1000);
    assert_eq!(context.gas_remaining, 500000);
    assert!(context.is_static);
    assert!(context.is_address_warm(&addr));
}

#[test]
fn new_context_has_the_documented_defaults() {
    let context = ExecutionContext::new();
    assert_eq!(context.memory_size, 0);
    assert!(context.accessed_storage_keys.is_empty());
    assert!(context.accessed_addresses.is_empty());
    assert_eq!(context.call_depth, 0);
    assert!(!context.is_static);
    assert_eq!(context.gas_price, 20_000_000_000);
    assert_eq!(context.gas_limit, 30_000_000);
    assert_eq!(context.gas_remaining, 1_000_000);
    assert_eq!(context.current_address, vec![0u8; 20]);
    assert_eq!(context.caller_address, vec![0u8; 20]);
    assert_eq!(context.call_value, 0);
}

#[test]
fn default_context_is_all_zero() {
    let context = ExecutionContext::default();
    assert_eq!(context.gas_remaining, 0);
    assert_eq!(context.gas_price, 0);
    assert_eq!(context.gas_limit, 0);
    assert!(context.current_address.is_empty());
    assert!(context.caller_address.is_empty());
}

#[test]
fn expand_memory_twice_is_expand_memory_once() {
    for start in [0usize, 10, 64, 1000] {
        for n in [0usize, 1, 32, 64, 65, 4096] {
            let mut context = ExecutionContext::new();
            context.expand_memory(start);
            context.expand_memory(n);
            let after_first = context.memory_size;
            assert_eq!(after_first, start.max(n));
            context.expand_memory(n);
            assert_eq!(context.memory_size, after_first);
        }
    }
}

#[test]
fn a_slot_is_cold_until_marked_and_warm_ever_after() {
    let mut context = ExecutionContext::new();
    let addr = vec![7u8; 20];
    let key = vec![9u8; 32];
    let other_key = vec![8u8; 32];
    let other_addr = vec![6u8; 20];

    assert!(!context.is_storage_warm(&addr, &key));
    // Other activity does not warm the slot.
    context.mark_storage_accessed(&addr, &other_key);
    context.mark_storage_accessed(&other_addr, &key);
    context.mark_address_accessed(&addr);
    context.expand_memory(100);
    context.enter_call();
    assert!(!context.is_storage_warm(&addr, &key));

    context.mark_storage_accessed(&addr, &key);
    assert!(context.is_storage_warm(&addr, &key));
    let slots = context.accessed_storage_keys.len();

    // Marking again changes nothing.
    context.mark_storage_accessed(&addr, &key);
    assert!(context.is_storage_warm(&addr, &key));
    assert_eq!(context.accessed_storage_keys.len(), slots);

    // Nothing but a reset makes it cold.
    context.expand_memory(1000);
    context.enter_call();
    context.exit_call();
    context.set_static(true);
    let _ = context.consume_gas(10);
    assert!(context.is_storage_warm(&addr, &key));
    assert!(context.is_storage_warm(&addr, &other_key));

    context.reset_for_new_transaction();
    assert!(!context.is_storage_warm(&addr, &key));
    assert!(!context.is_address_warm(&addr));
}

#[test]
fn marking_an_address_twice_changes_nothing() {
    let mut context = ExecutionContext::new();
    let addr = vec![3u8; 20];
    context.mark_address_accessed(&addr);
    context.mark_address_accessed(&addr);
    assert_eq!(context.accessed_addresses.len(), 1);
    assert!(context.is_address_warm(&addr));
    assert!(!context.is_address_warm(&[3u8; 19]));
}

#[test]
fn call_depth_stops_at_255() {
    let mut context = ExecutionContext::new();
    for _ in 0..300 {
        context.enter_call();
    }
    assert_eq!(context.call_depth, 255);
    context.exit_call();
    assert_eq!(context.call_depth, 254);
}

#[test]
fn consume_gas_reports_out_of_gas() {
    let mut context = ExecutionContext::new();
    context.gas_remaining = 10;
    assert_eq!(
        context.consume_gas(11),
        Err(GasError::OutOfGas {
            requested: 11,
            available: 10
        })
    );
    assert_eq!(context.gas_remaining, 10);
    assert_eq!(context.consume_gas(10), Ok(()));
    assert_eq!(context.gas_remaining, 0);
    assert_eq!(context.consume_gas(0), Ok(()));
    assert_eq!(
        GasError::OutOfGas {
            requested: 11,
            available: 10
        }
        .message(),
        "Out of gas: need 11, have 10"
    );
}

#[test]
fn available_call_gas_keeps_one_sixty_fourth() {
    let mut context = ExecutionContext::new();
    for (remaining, expected) in [
        (0u64, 0u64),
        (1, 1),
        (63, 63),
        (64, 63),
        (65, 64),
        (1_000_000, 984_375),
        (u64::MAX, u64::MAX - u64::MAX / 64),
    ] {
        context.gas_remaining = remaining;
        assert_eq!(context.available_call_gas(), expected);
    }
}

#[test]
fn reset_keeps_gas_and_addresses() {
    let mut context = ExecutionContextBuilder::new()
        .with_address(vec![1u8; 20])
        .with_caller(vec![2u8; 20])
        .with_value(5)
        .with_gas(77, 88, 99)
        .with_static(true)
        .build();
    context.expand_memory(500);
    context.enter_call();
    context.mark_address_accessed(&[4u8; 20]);
    context.reset_for_new_transaction();
    assert_eq!(context.memory_size, 0);
    assert_eq!(context.call_depth, 0);
    assert!(!context.is_static);
    assert!(context.accessed_addresses.is_empty());
    assert!(context.accessed_storage_keys.is_empty());
    assert_eq!(context.gas_remaining, 77);
    assert_eq!(context.gas_price, 88);
    assert_eq!(context.gas_limit, 99);
    assert_eq!(context.current_address, vec![1u8; 20]);
    assert_eq!(context.caller_address, vec![2u8; 20]);
    assert_eq!(context.call_value, 5);
}

#[test]
fn simulate_is_independent_of_the_original() {
    let mut context = ExecutionContext::new();
    context.mark_address_accessed(&[1u8; 20]);
    let mut copy = context.simulate();
    copy.mark_address_accessed(&[2u8; 20]);
    copy.expand_memory(64);
    assert!(copy.is_address_warm(&[1u8; 20]));
    assert!(copy.is_address_warm(&[2u8; 20]));
    assert!(!context.is_address_warm(&[2u8; 20]));
    assert_eq!(context.memory_size, 0);
}

#[test]
fn builder_warms_every_listed_slot() {
    let context = ExecutionContextBuilder::default()
        .with_warm_storage(vec![
            (vec![1u8; 20], vec![1u8; 32]),
            (vec![1u8; 20], vec![2u8; 32]),
            (vec![1u8; 20], vec![1u8; 32]),
        ])
        .with_warm_addresses(vec![vec![5u8; 20], vec![6u8; 20]])
        .build();
    assert!(context.is_storage_warm(&[1u8; 20], &[1u8; 32]));
    assert!(context.is_storage_warm(&[1u8; 20], &[2u8; 32]));
    assert!(!context.is_storage_warm(&[1u8; 20], &[3u8; 32]));
    assert!(context.is_address_warm(&[5u8; 20]));
    assert!(context.is_address_warm(&[6u8; 20]));
    assert!(!context.is_address_warm(&[7u8; 20]));
}
