use eot::forks::{Berlin, Cancun, Frontier, London, Shanghai};
use eot::gas::{ExecutionContext, GasCostCategory};
use eot::traits::{ForkOpcodes, OpCode, OpcodeAnalysis, OpcodeComparison, OpcodeExt};
use eot::{Fork, Group, OpcodeRegistry};

fn frontier(byte: u8) -> Frontier {
    Frontier::new(byte).unwrap()
}

fn berlin(byte: u8) -> Berlin {
    Berlin::new(byte).unwrap()
}

#[test]
fn traits_test_gas_cost_category_classification() {
    let add_opcode = frontier(0x01);
    assert_eq!(add_opcode.gas_cost_category(), GasCostCategory::VeryLow);

    let sload_opcode = berlin(0x54);
    assert_eq!(sload_opcode.gas_cost_category(), GasCostCategory::High);
}

#[test]
fn test_dynamic_gas_detection() {
    let add_opcode = frontier(0x01);
    assert!(!add_opcode.has_dynamic_gas_cost());

    let sload_opcode = berlin(0x54);
    assert!(sload_opcode.has_dynamic_gas_cost());
}

#[test]
fn test_control_flow_detection() {
    let add_opcode = frontier(0x01);
    assert!(!add_opcode.is_control_flow());

    let jump_opcode = frontier(0x56);
    assert!(jump_opcode.is_control_flow());
}

#[test]
fn test_memory_affects_detection() {
    let add_opcode = frontier(0x01);
    assert!(!add_opcode.affects_memory());

    let mload_opcode = frontier(0x51);
    assert!(mload_opcode.affects_memory());
}

#[test]
fn test_storage_affects_detection() {
    let add_opcode = frontier(0x01);
    assert!(!add_opcode.affects_storage());

    let sload_opcode = frontier(0x54);
    assert!(sload_opcode.affects_storage());
}

#[test]
fn test_optimization_recommendations() {
    let sload_opcode = berlin(0x54);
    let recommendations = sload_opcode.optimization_recommendations();

    assert!(!recommendations.is_empty());
    assert!(recommendations.iter().any(|r| r.contains("caching")));
}

#[test]
fn fork_types_hold_the_opcodes_of_their_fork() {
    assert!(Frontier::new(0x01).is_some());
    assert!(Frontier::new(0xf4).is_none());
    assert!(Frontier::new(0x0c).is_none());
    assert!(London::new(0x48).is_some());
    assert!(London::new(0x5f).is_none());
    assert!(Shanghai::new(0x5f).is_some());
    assert!(Cancun::new(0x5e).is_some());
    assert_eq!(Frontier::fork(), Fork::Frontier);
    assert_eq!(Cancun::fork(), Fork::Cancun);
    assert_eq!(frontier(0x01).byte(), 0x01);
    for byte in 0..=255u8 {
        assert_eq!(
            Cancun::new(byte).is_some(),
            OpcodeRegistry::new().is_opcode_available(Fork::Cancun, byte)
        );
        assert_eq!(Cancun::has_opcode(byte), Cancun::new(byte).is_some());
    }
}

#[test]
fn opcode_getters_read_the_record() {
    let dup3 = frontier(0x82);
    assert_eq!(dup3.metadata().name, "DUP3");
    assert_eq!(dup3.stack_inputs(), 3);
    assert_eq!(dup3.stack_outputs(), 4);
    assert_eq!(dup3.group(), Group::Duplication);
    assert_eq!(dup3.description(), "Duplicate 3rd stack item");
    assert_eq!(dup3.introduced_in(), Fork::Frontier);
    assert_eq!(dup3.eip(), None);
    assert_eq!(dup3.gas_cost(), 3);
    assert_eq!(dup3.estimated_gas_cost(), 3);
    let create2 = Cancun::new(0xf5).unwrap();
    assert_eq!(create2.eip(), Some(1014));
    assert_eq!(create2.introduced_in(), Fork::Constantinople);
    assert_eq!(create2.group(), Group::System);
    // The cost of a type is the base cost in force at its fork.
    assert_eq!(frontier(0x54).gas_cost(), 50);
    assert_eq!(berlin(0x54).gas_cost(), 0);
    assert_eq!(berlin(0x31).gas_cost(), 0);
    assert_eq!(frontier(0x31).gas_cost(), 20);
}

#[test]
fn opcode_queries() {
    let push0 = Shanghai::new(0x5f).unwrap();
    assert!(push0.is_push());
    assert_eq!(push0.push_size(), Some(0));
    let push32 = frontier(0x7f);
    assert!(push32.is_push());
    assert_eq!(push32.push_size(), Some(32));
    assert_eq!(frontier(0x01).push_size(), None);
    assert!(frontier(0x80).is_dup() && !frontier(0x80).is_swap());
    assert!(frontier(0x9f).is_swap() && !frontier(0x9f).is_dup());
    assert_eq!(frontier(0x80).min_stack_depth(), 1);
    assert_eq!(frontier(0x8f).min_stack_depth(), 16);
    assert_eq!(frontier(0x90).min_stack_depth(), 2);
    assert_eq!(frontier(0x9f).min_stack_depth(), 17);
    assert_eq!(frontier(0x08).min_stack_depth(), 3);
    assert!(frontier(0x55).modifies_state());
    assert!(frontier(0xff).modifies_state());
    assert!(!Cancun::new(0xfa).unwrap().modifies_state());
    assert!(Cancun::new(0xfa).unwrap().can_revert());
    assert!(Cancun::new(0xfd).unwrap().can_revert());
    assert!(!frontier(0xf0).can_revert());
    assert!(frontier(0xf2).is_deprecated());
    assert!(frontier(0xff).is_deprecated());
    assert!(!frontier(0xf1).is_deprecated());
    assert!(frontier(0xa4).affects_memory());
    assert!(frontier(0xa4).has_dynamic_gas_cost());
    assert!(Cancun::new(0x5c).unwrap().affects_storage());
}

#[test]
fn recommendations_by_opcode_and_fork() {
    assert_eq!(
        frontier(0x54).optimization_recommendations(),
        vec!["Consider caching SLOAD results in memory if used multiple times".to_string()]
    );
    assert_eq!(
        berlin(0x54).optimization_recommendations(),
        vec![
            "Consider caching SLOAD results in memory if used multiple times".to_string(),
            "Pre-warm storage slots when possible to benefit from lower gas costs".to_string(),
        ]
    );
    assert!(frontier(0x60).optimization_recommendations().is_empty());
    assert_eq!(
        Shanghai::new(0x60).unwrap().optimization_recommendations(),
        vec!["Consider using PUSH0 instead of PUSH1 0x00 to save gas".to_string()]
    );
    assert_eq!(frontier(0x55).optimization_recommendations().len(), 2);
    assert_eq!(frontier(0xf1).optimization_recommendations().len(), 1);
    assert_eq!(berlin(0xf1).optimization_recommendations().len(), 2);
    assert_eq!(frontier(0xf0).optimization_recommendations().len(), 1);
    assert_eq!(Shanghai::new(0xf5).unwrap().optimization_recommendations().len(), 2);
    assert!(frontier(0x01).optimization_recommendations().is_empty());
}

#[test]
fn opcode_prices_itself_at_its_fork() {
    let context = ExecutionContext::new();
    assert_eq!(berlin(0x54).calculate_gas_cost(&context, &[1]), Ok(2100));
    assert_eq!(frontier(0x54).calculate_gas_cost(&context, &[1]), Ok(850));
    assert_eq!(frontier(0x01).calculate_gas_cost(&context, &[]), Ok(3));
}

#[test]
fn registry_answers_for_the_standard_tables() {
    assert!(<OpcodeRegistry as ForkOpcodes>::is_opcode_available(Fork::Cancun, 0x5c));
    assert!(!<OpcodeRegistry as ForkOpcodes>::is_opcode_available(Fork::London, 0x5c));
    assert_eq!(
        <OpcodeRegistry as ForkOpcodes>::get_opcodes_for_fork(Fork::Frontier).len(),
        OpcodeRegistry::new().get_opcodes(Fork::Frontier).len()
    );
    assert_eq!(
        <OpcodeRegistry as ForkOpcodes>::opcode_introduced_in(0xf4),
        Some(Fork::Homestead)
    );
    assert_eq!(
        <OpcodeRegistry as ForkOpcodes>::opcode_introduced_in(0x01),
        Some(Fork::Frontier)
    );
    assert_eq!(<OpcodeRegistry as ForkOpcodes>::opcode_introduced_in(0x0c), None);
    assert_eq!(
        <OpcodeRegistry as OpcodeComparison>::compare_gas_costs(0x54, Fork::Istanbul, Fork::Berlin),
        Some((800, 0))
    );
    let changes =
        <OpcodeRegistry as OpcodeComparison>::get_changes_between_forks(Fork::London, Fork::Shanghai);
    assert_eq!(
        changes,
        vec![eot::OpcodeChange {
            opcode: 0x5f,
            change_type: eot::ChangeType::Added,
            old_value: None,
            new_value: Some(2),
        }]
    );
}

#[test]
fn registry_analyses_sequences() {
    let opcodes = [0x60u8, 0x00, 0x54, 0x54];
    let analysis = <OpcodeRegistry as OpcodeAnalysis>::analyze_gas_usage(&opcodes, Fork::Shanghai);
    // 0x00 is STOP here: the sequence holds bare opcodes.
    assert_eq!(
        analysis.breakdown,
        vec![(0x60, 3), (0x00, 0), (0x54, 2100), (0x54, 100)]
    );
    assert_eq!(
        <OpcodeRegistry as OpcodeAnalysis>::validate_opcode_sequence(&opcodes, Fork::Shanghai),
        Ok(())
    );
    assert_eq!(
        <OpcodeRegistry as OpcodeAnalysis>::estimate_gas_savings(&[0x54, 0x54, 0x54], Fork::Berlin),
        2100
    );
    let suggestions =
        <OpcodeRegistry as OpcodeAnalysis>::get_optimization_suggestions(&opcodes, Fork::Shanghai);
    assert_eq!(
        suggestions,
        vec![
            "Consecutive storage operations detected - consider batching".to_string(),
            "Consider using PUSH0 instead of PUSH1 0x00 to save gas (available since Shanghai)"
                .to_string(),
            "Found 1 consecutive SLOAD operations - consider caching in memory".to_string(),
            "Found 1 PUSH1 0x00 operations - replace with PUSH0 to save 2 gas".to_string(),
            "Low gas efficiency detected - consider algorithmic improvements".to_string(),
        ]
    );
}
