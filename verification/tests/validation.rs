use eot::registry::OpcodeRegistry;
use eot::validation::{
    check_missing_eip_references, generate_coverage_info, generate_gas_analysis_info,
    get_previous_fork, run_check, run_comprehensive_validation, validate_fork_inheritance,
    validate_gas_analysis_integration, validate_gas_cost_consistency,
    validate_historical_accuracy, validate_known_gas_changes, validate_opcode_uniqueness,
    validate_registry, validate_stack_consistency, Check, ValidationReport,
};
use eot::{Fork, Group, OpcodeMetadata};

fn record(opcode: u8, name: &'static str) -> OpcodeMetadata {
    OpcodeMetadata {
        opcode,
        name,
        gas_cost: 3,
        stack_inputs: 0,
        stack_outputs: 0,
        description: "",
        introduced_in: Fork::Frontier,
        group: Group::StopArithmetic,
        eip: None,
        gas_history: vec![],
    }
}

fn strings(list: &[&str]) -> Vec<String> {
    list.iter().map(|s| s.to_string()).collect()
}

#[test]
fn the_standard_registry_is_valid() {
    let registry = OpcodeRegistry::new();
    assert_eq!(validate_registry(&registry), Ok(()));
    assert_eq!(registry.validate(), Ok(()));
    assert!(validate_opcode_uniqueness(&registry).is_empty());
    assert!(validate_fork_inheritance(&registry).is_empty());
    assert!(validate_historical_accuracy(&registry).is_empty());
    assert!(validate_gas_cost_consistency(&registry).is_empty());
    assert!(validate_stack_consistency(&registry).is_empty());
    assert!(validate_gas_analysis_integration(&registry).is_empty());
    assert!(check_missing_eip_references(&registry).is_empty());
    assert!(run_check(&registry, Check::Stack).is_empty());
}

#[test]
fn duplicates_are_found_per_fork() {
    let mut registry = OpcodeRegistry::empty();
    registry.register_fork(
        Fork::Frontier,
        vec![record(1, "A"), record(2, "B"), record(1, "C"), record(1, "D")],
    );
    registry.register_fork(Fork::Berlin, vec![record(1, "A"), record(0xab, "B"), record(0xab, "B")]);
    assert_eq!(
        validate_opcode_uniqueness(&registry),
        strings(&[
            "Duplicate opcode 0x01 found in fork Frontier",
            "Duplicate opcode 0x01 found in fork Frontier",
            "Duplicate opcode 0xab found in fork Berlin",
        ])
    );
}

#[test]
fn gas_cost_findings() {
    let mut high = record(0x10, "HIGH");
    high.gas_cost = 50001;
    let mut edge = record(0x11, "EDGE");
    edge.gas_cost = 50000;
    let mut unordered = record(0x12, "UNORDERED");
    unordered.gas_history = vec![
        (Fork::Berlin, 1),
        (Fork::Homestead, 2),
        (Fork::Homestead, 3),
        (Fork::Frontier, 4),
        (Fork::Cancun, 5),
    ];
    let mut registry = OpcodeRegistry::empty();
    registry.register_fork(Fork::London, vec![high, edge, unordered]);
    assert_eq!(
        validate_gas_cost_consistency(&registry),
        strings(&[
            "Unusually high gas cost 50001 for opcode 0x10 (HIGH) in fork London",
            "Gas history for opcode 0x12 (UNORDERED) is not in chronological order",
            "Gas history for opcode 0x12 (UNORDERED) is not in chronological order",
        ])
    );
}

#[test]
fn stack_findings() {
    let mut many_inputs = record(0x01, "MANY");
    many_inputs.stack_inputs = 18;
    let mut two_outputs = record(0x02, "TWO");
    two_outputs.stack_outputs = 2;
    let mut dup2 = record(0x81, "DUP2");
    dup2.stack_inputs = 1;
    dup2.stack_outputs = 2;
    let mut good_dup = record(0x8f, "DUP16");
    good_dup.stack_inputs = 16;
    good_dup.stack_outputs = 17;
    let mut swap3 = record(0x92, "SWAP3");
    swap3.stack_inputs = 3;
    swap3.stack_outputs = 5;
    let mut good_swap = record(0x9f, "SWAP16");
    good_swap.stack_inputs = 17;
    good_swap.stack_outputs = 17;
    let mut registry = OpcodeRegistry::empty();
    registry.register_fork(
        Fork::Frontier,
        vec![many_inputs, two_outputs, dup2, good_dup, swap3, good_swap],
    );
    assert_eq!(
        validate_stack_consistency(&registry),
        strings(&[
            "Opcode 0x01 (MANY) has more than 17 stack inputs (18), which exceeds EVM stack limit",
            "Non-DUP opcode 0x02 (TWO) produces 2 stack outputs",
            "DUP2 opcode should have 2 stack inputs, found 1",
            "DUP2 opcode should have 3 stack outputs, found 2",
            "SWAP3 opcode should have 4 stack inputs, found 3",
            "SWAP3 opcode should have 4 stack outputs, found 5",
        ])
    );
}

#[test]
fn missing_eip_references() {
    let mut late = record(0x21, "LATE");
    late.introduced_in = Fork::Homestead;
    let mut late_with_eip = record(0x22, "FINE");
    late_with_eip.introduced_in = Fork::Cancun;
    late_with_eip.eip = Some(1);
    let mut registry = OpcodeRegistry::empty();
    registry.register_fork(Fork::Cancun, vec![record(0x20, "OLD"), late, late_with_eip]);
    assert_eq!(
        check_missing_eip_references(&registry),
        strings(&["Opcode 0x21 (LATE) introduced in Homestead is missing EIP reference"])
    );
}

#[test]
fn historical_findings_of_an_incomplete_registry() {
    let mut delegatecall = record(0xf4, "DELEGATECALL");
    delegatecall.introduced_in = Fork::Byzantium;
    let mut revert = record(0xfd, "REVERT");
    revert.introduced_in = Fork::Byzantium;
    let mut registry = OpcodeRegistry::empty();
    registry.register_fork(Fork::Byzantium, vec![delegatecall, revert]);
    let errors = validate_historical_accuracy(&registry);
    assert_eq!(errors.len(), 15);
    assert_eq!(
        errors[0],
        "Opcode 0xf4 (DELEGATECALL) should be introduced in Homestead but found in Byzantium"
    );
    assert_eq!(
        errors[1],
        "Missing expected opcode 0x3d (RETURNDATASIZE) introduced in Byzantium"
    );
    assert_eq!(
        errors[14],
        "Missing expected opcode 0x4a (BLOBBASEFEE) introduced in Cancun"
    );
    // The inheritance check finds nothing, whatever the registry holds.
    assert!(validate_fork_inheritance(&registry).is_empty());
    match validate_registry(&registry) {
        Ok(()) => panic!("the registry lacks known opcodes"),
        Err(all) => assert_eq!(all, errors),
    }
}

#[test]
fn known_gas_changes_against_the_standard_registry() {
    let reason = "Reason: EIP-2929: Gas cost increases for state access opcodes";
    assert_eq!(
        validate_known_gas_changes(&OpcodeRegistry::new()),
        vec![
            "Expected gas cost 800 for opcode 0x54 before fork Berlin, found 50".to_string(),
            format!("Expected gas cost 2100 for opcode 0x54 after fork Berlin, found 0. {reason}"),
            "Expected gas cost 400 for opcode 0x31 before fork Berlin, found 20".to_string(),
            format!("Expected gas cost 2600 for opcode 0x31 after fork Berlin, found 0. {reason}"),
            "Expected gas cost 700 for opcode 0x3b before fork Berlin, found 20".to_string(),
            format!("Expected gas cost 2600 for opcode 0x3b after fork Berlin, found 0. {reason}"),
            "Expected gas cost 700 for opcode 0x3c before fork Berlin, found 20".to_string(),
            format!("Expected gas cost 2600 for opcode 0x3c after fork Berlin, found 0. {reason}"),
            format!("Expected gas cost 2600 for opcode 0x3f after fork Berlin, found 0. {reason}"),
        ]
    );
    // A registry whose records show the known costs has no finding.
    let mut registry = OpcodeRegistry::empty();
    let mut before = Vec::new();
    let mut after = Vec::new();
    for (opcode, old, new) in [
        (0x54u8, 800u16, 2100u16),
        (0x31, 400, 2600),
        (0x3b, 700, 2600),
        (0x3c, 700, 2600),
        (0x3f, 400, 2600),
    ] {
        let mut pre = record(opcode, "X");
        pre.gas_cost = old;
        before.push(pre);
        let mut post = record(opcode, "X");
        post.gas_cost = if opcode == 0x54 { 1 } else { new };
        if opcode == 0x54 {
            post.gas_history = vec![(Fork::Istanbul, 800), (Fork::Berlin, new), (Fork::Berlin, 7)];
        }
        after.push(post);
    }
    registry.register_fork(Fork::Istanbul, before);
    registry.register_fork(Fork::Berlin, after);
    assert!(validate_known_gas_changes(&registry).is_empty());
    // Opcodes that are missing on either side are passed over.
    assert!(validate_known_gas_changes(&OpcodeRegistry::empty()).is_empty());
}

#[test]
fn previous_forks() {
    assert_eq!(get_previous_fork(Fork::Frontier), Fork::Frontier);
    assert_eq!(get_previous_fork(Fork::IceAge), Fork::Frontier);
    assert_eq!(get_previous_fork(Fork::Homestead), Fork::IceAge);
    assert_eq!(get_previous_fork(Fork::Berlin), Fork::MuirGlacier);
    assert_eq!(get_previous_fork(Fork::Shanghai), Fork::Paris);
    assert_eq!(get_previous_fork(Fork::Cancun), Fork::Capella);
    assert_eq!(get_previous_fork(Fork::Deneb), Fork::Cancun);
}

#[test]
fn coverage_info_of_the_standard_registry() {
    assert_eq!(
        generate_coverage_info(&OpcodeRegistry::new()),
        strings(&[
            "Total opcodes implemented: 149 / 256 (58.0% coverage)",
            "Frontier: 130 opcodes",
            "Homestead: 131 opcodes",
            "Byzantium: 135 opcodes",
            "Constantinople: 140 opcodes",
            "Istanbul: 142 opcodes",
            "Berlin: 142 opcodes",
            "London: 143 opcodes",
            "Shanghai: 144 opcodes",
            "Cancun: 149 opcodes",
        ])
    );
    assert_eq!(
        generate_coverage_info(&OpcodeRegistry::empty())[0],
        "Total opcodes implemented: 0 / 256 (0.0% coverage)"
    );
}

#[test]
fn gas_analysis_info_lines() {
    assert_eq!(
        generate_gas_analysis_info(&OpcodeRegistry::new()),
        strings(&[
            "Simple arithmetic: 21011 gas (efficiency: 100%)",
            "Storage operations: 23200 gas (efficiency: 20%)",
            "Memory operations: 21015 gas (efficiency: 100%)",
            "Call operation: 23700 gas (efficiency: 20%)",
            "SLOAD gas costs (Berlin): cold=2100, warm=100",
            "MSTORE gas costs: small_memory=12, large_memory=1137",
            "Gas analysis system: ✅ Operational",
        ])
    );
}

#[test]
fn report_sections() {
    let mut report = ValidationReport::new();
    assert!(!report.has_errors());
    report.add_errors("A", vec![]);
    assert!(!report.has_errors());
    assert!(report.errors.is_empty());
    report.add_errors("A", strings(&["a1", "a2"]));
    report.add_errors("B", strings(&["b1"]));
    report.add_warnings("W", strings(&["w1"]));
    report.add_info("I", strings(&["i1"]));
    assert!(report.has_errors());
    // Messages filed under a name that is there take the place of its own.
    report.add_errors("A", strings(&["a3"]));
    // An empty list changes nothing.
    report.add_errors("B", vec![]);
    assert_eq!(
        report.errors,
        vec![
            ("A".to_string(), strings(&["a3"])),
            ("B".to_string(), strings(&["b1"])),
        ]
    );
    assert_eq!(report.warnings, vec![("W".to_string(), strings(&["w1"]))]);
    assert_eq!(report.info, vec![("I".to_string(), strings(&["i1"]))]);
    assert_eq!(
        report.summary_lines(),
        strings(&[
            "=== EOT Validation Report ===",
            "",
            "❌ ERRORS:",
            "  A:",
            "    - a3",
            "  B:",
            "    - b1",
            "",
            "⚠️  WARNINGS:",
            "  W:",
            "    - w1",
            "",
            "ℹ️  INFO:",
            "  I:",
            "    i1",
        ])
    );
    let mut clean = ValidationReport::default();
    clean.add_info("I", strings(&["i1", "i2"]));
    assert_eq!(
        clean.summary_lines(),
        strings(&[
            "=== EOT Validation Report ===",
            "",
            "ℹ️  INFO:",
            "  I:",
            "    i1",
            "    i2",
            "",
            "✅ All validations passed!",
        ])
    );
}

#[test]
fn comprehensive_validation_of_the_standard_registry() {
    let report = run_comprehensive_validation(&OpcodeRegistry::new());
    assert!(report.has_errors());
    assert_eq!(report.errors.len(), 1);
    assert_eq!(report.errors[0].0, "Known Gas Changes");
    assert_eq!(report.errors[0].1.len(), 9);
    assert!(report.warnings.is_empty());
    assert_eq!(report.info.len(), 2);
    assert_eq!(report.info[0].0, "Coverage");
    assert_eq!(report.info[0].1.len(), 10);
    assert_eq!(report.info[1].0, "Gas Analysis");
    assert_eq!(report.info[1].1.len(), 7);
}
