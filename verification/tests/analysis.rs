use eot::gas::{
    ChangeType, GasAnalysis, GasAnalyzer, GasChangeSummary, GasComparator, GasComparisonReport,
    GasCostCategory, GasOptimizationAdvisor, OpcodeChange,
};
use eot::Fork;

#[test]
fn test_gas_analysis_creation() {
    let analysis = GasAnalysis::new();
    assert_eq!(analysis.total_gas, 21000);
    assert!(analysis.breakdown.is_empty());
    assert!(analysis.optimizations.is_empty());
}

#[test]
fn test_efficiency_score_calculation() {
    let analysis = GasAnalysis {
        total_gas: 21009, // Base (21000) + 9 gas for 3 opcodes = 3 gas average
        breakdown: vec![(0x01, 3), (0x02, 3), (0x03, 3)],
        optimizations: vec![],
        warnings: vec![],
    };

    assert_eq!(analysis.efficiency_score(), 100); // Should be very efficient with 3 gas average
}

#[test]
fn test_gas_by_category() {
    let analysis = GasAnalysis {
        total_gas: 50000,
        breakdown: vec![
            (0x01, 3),    // VeryLow
            (0x54, 2100), // High
            (0x55, 5000), // VeryHigh
        ],
        optimizations: vec![],
        warnings: vec![],
    };

    let by_category = analysis.gas_by_category();
    assert_eq!(by_category.get(&GasCostCategory::VeryLow), Some(&3));
    assert_eq!(by_category.get(&GasCostCategory::High), Some(&2100));
    assert_eq!(by_category.get(&GasCostCategory::VeryHigh), Some(&5000));
}

#[test]
fn test_gas_bomb_detection() {
    let analysis = GasAnalysis {
        total_gas: 100000,
        breakdown: vec![
            (0x55, 20000), // Expensive SSTORE
            (0xf1, 15000), // Expensive CALL
        ],
        optimizations: vec![],
        warnings: vec![],
    };

    let bombs = analysis.find_gas_bombs();
    assert!(!bombs.is_empty());
    assert!(bombs.iter().any(|b| b.contains("SSTORE")));
    assert!(bombs.iter().any(|b| b.contains("Call")));
}

#[test]
fn test_gas_comparison() {
    let cost_before = GasComparator::compare_gas_costs(0x54, Fork::Istanbul, Fork::Berlin);
    // SLOAD cost should have changed between Istanbul and Berlin due to EIP-2929
    assert!(cost_before.is_some());
}

#[test]
fn test_fork_changes() {
    let changes = GasComparator::get_changes_between_forks(Fork::Istanbul, Fork::Berlin);

    // Print debug info
    println!(
        "Found {} changes between Istanbul and Berlin:",
        changes.len()
    );
    for change in &changes {
        println!(
            "  0x{:02x}: {:?} -> {:?} ({:?})",
            change.opcode, change.old_value, change.new_value, change.change_type
        );
    }

    // Should detect EIP-2929 changes
    assert!(
        !changes.is_empty(),
        "Should detect gas cost changes between Istanbul and Berlin"
    );

    // Verify we have some specific known changes
    let has_sload_change = changes.iter().any(|c| c.opcode == 0x54);
    let has_balance_change = changes.iter().any(|c| c.opcode == 0x31);

    assert!(has_sload_change, "Should detect SLOAD gas cost change");
    assert!(has_balance_change, "Should detect BALANCE gas cost change");

    // Should have at least the major EIP-2929 changes
    assert!(
        changes.len() >= 5,
        "Should detect at least 5 EIP-2929 changes, found {}",
        changes.len()
    );
}

#[test]
fn test_optimization_advisor() {
    let recommendations = GasOptimizationAdvisor::get_fork_optimizations(Fork::Shanghai);
    assert!(!recommendations.is_empty());
    assert!(recommendations.iter().any(|r| r.contains("PUSH0")));
}

#[test]
fn test_pattern_analysis() {
    let opcodes = vec![0x60, 0x00, 0x54, 0x54, 0x55]; // PUSH1 0, SLOAD, SLOAD, SSTORE
    let suggestions = GasOptimizationAdvisor::analyze_pattern(&opcodes, Fork::Shanghai);

    assert!(!suggestions.is_empty());
    // Should suggest PUSH0 and SLOAD optimization
    assert!(suggestions
        .iter()
        .any(|s| s.contains("PUSH0") || s.contains("SLOAD")));
}

fn usage(total_gas: u64, breakdown: Vec<(u8, u16)>) -> GasAnalysis {
    GasAnalysis {
        total_gas,
        breakdown,
        optimizations: vec![],
        warnings: vec![],
    }
}

#[test]
fn usage_score_is_zero_without_opcodes() {
    assert_eq!(GasAnalysis::new().efficiency_score(), 0);
    assert_eq!(GasAnalysis::default().efficiency_score(), 0);
    assert!(!GasAnalysis::new().is_optimized());
    assert_eq!(usage(21011, vec![(1, 11)]).efficiency_score(), 80);
    assert_eq!(usage(26001, vec![(1, 5001)]).efficiency_score(), 0);
    assert!(usage(21009, vec![(1, 3), (2, 3), (3, 3)]).is_optimized());
}

#[test]
fn gas_by_category_adds_up_each_category() {
    let analysis = usage(
        0,
        vec![(0x01, 3), (0x02, 5), (0x52, 6), (0x54, 100), (0x31, 2600), (0x00, 7)],
    );
    let totals = analysis.gas_by_category();
    assert_eq!(totals.get(&GasCostCategory::VeryLow), Some(&8));
    assert_eq!(totals.get(&GasCostCategory::Low), Some(&6));
    assert_eq!(totals.get(&GasCostCategory::Medium), None);
    assert_eq!(totals.get(&GasCostCategory::High), Some(&2700));
    assert_eq!(totals.get(&GasCostCategory::VeryHigh), None);
    assert_eq!(totals.get(&GasCostCategory::Unknown), Some(&7));
    assert!(totals.contains_key(&GasCostCategory::Low));
    assert!(!totals.contains_key(&GasCostCategory::Medium));
}

#[test]
fn gas_bombs_name_each_expensive_entry_in_order() {
    let analysis = usage(
        0,
        vec![
            (0x55, 5000),
            (0x55, 5001),
            (0xfa, 10001),
            (0xf4, 10000),
            (0xf0, 50001),
            (0xf5, 50000),
            (0x01, 60000),
        ],
    );
    assert_eq!(
        analysis.find_gas_bombs(),
        vec![
            "SSTORE operation with high gas cost - could cause out-of-gas".to_string(),
            "Call operation with high gas cost - ensure sufficient gas limit".to_string(),
            "Create operation with very high gas cost - check init code size".to_string(),
        ]
    );
}

#[test]
fn savings_count_undone_dups_and_repeated_sloads() {
    assert_eq!(usage(0, vec![]).estimate_optimization_savings(), 0);
    // A POP after a DUP saves the price of the POP.
    assert_eq!(
        usage(0, vec![(0x80, 3), (0x50, 2), (0x50, 2), (0x8f, 3), (0x50, 7)])
            .estimate_optimization_savings(),
        9
    );
    // Two SLOADs save nothing, three save one cold read, five save two.
    assert_eq!(usage(0, vec![(0x54, 1), (0x54, 1)]).estimate_optimization_savings(), 0);
    assert_eq!(
        usage(0, vec![(0x54, 1), (0x54, 1), (0x54, 1)]).estimate_optimization_savings(),
        2100
    );
    assert_eq!(
        usage(0, vec![(0x54, 1); 5]).estimate_optimization_savings(),
        4200
    );
    // A POP at the very start follows no DUP.
    assert_eq!(usage(0, vec![(0x50, 2)]).estimate_optimization_savings(), 0);
}

#[test]
fn estimated_operands_by_opcode() {
    assert_eq!(GasAnalyzer::estimate_operands(0x54), vec![0]);
    assert_eq!(GasAnalyzer::estimate_operands(0x5c), vec![0]);
    assert_eq!(GasAnalyzer::estimate_operands(0x55), vec![0, 1]);
    assert_eq!(GasAnalyzer::estimate_operands(0x5d), vec![0, 1]);
    assert_eq!(GasAnalyzer::estimate_operands(0x52), vec![0x40]);
    assert_eq!(GasAnalyzer::estimate_operands(0x5e), vec![0x40, 0x80, 0x20]);
    assert_eq!(
        GasAnalyzer::estimate_operands(0xf1),
        vec![100000, 0x123, 0, 0, 0, 0, 0]
    );
    assert_eq!(GasAnalyzer::estimate_operands(0x31), vec![0x123]);
    assert_eq!(GasAnalyzer::estimate_operands(0x37), vec![0x40, 0, 0x20]);
    assert_eq!(GasAnalyzer::estimate_operands(0xf5), vec![0, 0x40, 0x100]);
    assert_eq!(GasAnalyzer::estimate_operands(0x20), vec![0x40, 0x20]);
    assert_eq!(GasAnalyzer::estimate_operands(0xa3), vec![0x40, 0x20]);
    assert_eq!(GasAnalyzer::estimate_operands(0x01), Vec::<u64>::new());
}

#[test]
fn usage_analysis_of_simple_arithmetic() {
    let analysis = GasAnalyzer::analyze_gas_usage(&[0x01, 0x02, 0x03], Fork::London);
    assert_eq!(analysis.total_gas, 21000 + 3 + 5 + 3);
    assert_eq!(analysis.breakdown, vec![(0x01, 3), (0x02, 5), (0x03, 3)]);
    assert!(analysis.warnings.is_empty());
    assert_eq!(analysis.efficiency_score(), 100);
}

#[test]
fn usage_analysis_caps_prices_at_16_bits() {
    // A CREATE of 0x100 bytes at 0x40 costs more than 32000 but less than
    // 65536; a CALL to a cold account on Berlin costs 2700.
    let analysis = GasAnalyzer::analyze_gas_usage(&[0xf0, 0xf1], Fork::Berlin);
    // CREATE: 32000 + growth to 0x140 bytes (10 words: 30).
    assert_eq!(analysis.breakdown[0], (0xf0, 32030));
    assert_eq!(analysis.breakdown[1], (0xf1, 100 + 2600));
    assert_eq!(analysis.total_gas, 21000 + 32030 + 2700);
    assert_eq!(analysis.warnings.len(), 1);
    assert_eq!(
        analysis.warnings[0],
        "High gas cost operation: CREATE (0xf0) costs 32030 gas"
    );
}

#[test]
fn usage_analysis_falls_back_when_an_opcode_is_unknown() {
    // PUSH0 does not exist on London: the analysis fails and the base
    // costs of the known opcodes are added up.
    let analysis = GasAnalyzer::analyze_gas_usage(&[0x01, 0x5f, 0x54, 0x0c], Fork::London);
    assert_eq!(
        analysis.warnings,
        vec!["Gas analysis failed: Unknown opcode: 0x5f for fork London".to_string()]
    );
    // SLOAD is recorded with its introduction cost of 50.
    assert_eq!(analysis.breakdown, vec![(0x01, 3), (0x54, 50)]);
    assert_eq!(analysis.total_gas, 21000 + 3 + 50);
    assert!(analysis.optimizations.is_empty());
}

#[test]
fn sequence_validation_verdicts() {
    assert_eq!(
        GasAnalyzer::validate_opcode_sequence(&[0x01, 0x02, 0x03], Fork::London),
        Ok(())
    );
    assert_eq!(GasAnalyzer::validate_opcode_sequence(&[], Fork::London), Ok(()));
    assert_eq!(
        GasAnalyzer::validate_opcode_sequence(&[0x01, 0x56, 0x56], Fork::London),
        Err("Consecutive JUMP instructions detected".to_string())
    );
    assert_eq!(
        GasAnalyzer::validate_opcode_sequence(&[0x57, 0x55], Fork::London),
        Err("SSTORE after JUMPI may create expensive loop".to_string())
    );
    assert_eq!(
        GasAnalyzer::validate_opcode_sequence(&[0x8f, 0x50], Fork::London),
        Err("DUP followed by POP detected - inefficient pattern".to_string())
    );
    // The first faulty pair decides.
    assert_eq!(
        GasAnalyzer::validate_opcode_sequence(&[0x80, 0x50, 0x56, 0x56], Fork::London),
        Err("DUP followed by POP detected - inefficient pattern".to_string())
    );
}

#[test]
fn compared_costs_are_the_costs_in_force() {
    assert_eq!(
        GasComparator::compare_gas_costs(0x54, Fork::Istanbul, Fork::Berlin),
        Some((800, 0))
    );
    assert_eq!(
        GasComparator::compare_gas_costs(0x54, Fork::Frontier, Fork::TangerineWhistle),
        Some((50, 200))
    );
    assert_eq!(
        GasComparator::compare_gas_costs(0x01, Fork::Frontier, Fork::Cancun),
        Some((3, 3))
    );
    // PUSH0 does not exist on London.
    assert_eq!(
        GasComparator::compare_gas_costs(0x5f, Fork::London, Fork::Shanghai),
        None
    );
    assert_eq!(
        GasComparator::compare_gas_costs(0x0c, Fork::London, Fork::Shanghai),
        None
    );
}

fn gas_change(opcode: u8, old: u16, new: u16) -> OpcodeChange {
    OpcodeChange {
        opcode,
        change_type: ChangeType::GasCostChanged,
        old_value: Some(old),
        new_value: Some(new),
    }
}

#[test]
fn changes_from_istanbul_to_berlin() {
    let changes = GasComparator::get_changes_between_forks(Fork::Istanbul, Fork::Berlin);
    assert_eq!(
        changes,
        vec![
            gas_change(0x54, 800, 2100),
            gas_change(0x31, 400, 2600),
            gas_change(0x3b, 700, 2600),
            gas_change(0x3c, 700, 2600),
            gas_change(0x3f, 400, 2600),
            gas_change(0xf1, 700, 2600),
            gas_change(0xf2, 700, 2600),
            gas_change(0xf4, 700, 2600),
            gas_change(0xfa, 700, 2600),
            // SSTORE is not among the known changes: the tables show it.
            gas_change(0x55, 800, 100),
        ]
    );
}

#[test]
fn changes_from_london_to_shanghai_and_back() {
    assert_eq!(
        GasComparator::get_changes_between_forks(Fork::London, Fork::Shanghai),
        vec![OpcodeChange {
            opcode: 0x5f,
            change_type: ChangeType::Added,
            old_value: None,
            new_value: Some(2),
        }]
    );
    assert_eq!(
        GasComparator::get_changes_between_forks(Fork::Shanghai, Fork::London),
        vec![OpcodeChange {
            opcode: 0x5f,
            change_type: ChangeType::Removed,
            old_value: Some(2),
            new_value: None,
        }]
    );
    assert_eq!(
        GasComparator::get_changes_between_forks(Fork::Berlin, Fork::Berlin),
        vec![]
    );
}

#[test]
fn comparison_report_summary() {
    let report = GasComparator::generate_comparison_report(Fork::Istanbul, Fork::Berlin);
    assert_eq!(report.fork1, Fork::Istanbul);
    assert_eq!(report.fork2, Fork::Berlin);
    assert_eq!(report.changes.len(), 10);
    assert_eq!(
        report.summary,
        GasChangeSummary {
            opcodes_added: 0,
            opcodes_removed: 0,
            gas_cost_changes: 10,
            gas_increases: 9,
            gas_decreases: 1,
            total_gas_increase: 1300 + 2200 + 1900 + 1900 + 2200 + 4 * 1900,
            total_gas_decrease: 700,
            stack_behavior_changes: 0,
            semantic_changes: 0,
        }
    );
}

#[test]
fn summary_totals_stop_at_the_largest_value() {
    let report = GasComparisonReport {
        fork1: Fork::Frontier,
        fork2: Fork::Cancun,
        changes: vec![
            gas_change(1, 0, 60000),
            gas_change(2, 0, 60000),
            gas_change(3, 7, 7),
            OpcodeChange {
                opcode: 4,
                change_type: ChangeType::GasCostChanged,
                old_value: None,
                new_value: Some(9),
            },
            OpcodeChange {
                opcode: 5,
                change_type: ChangeType::StackBehaviorChanged,
                old_value: Some(1),
                new_value: Some(2),
            },
            OpcodeChange {
                opcode: 6,
                change_type: ChangeType::SemanticsChanged,
                old_value: None,
                new_value: None,
            },
        ],
        summary: GasChangeSummary::default(),
    };
    let summary = eot::gas::analysis::summarize(&report.changes);
    assert_eq!(summary.gas_cost_changes, 4);
    assert_eq!(summary.gas_increases, 2);
    assert_eq!(summary.gas_decreases, 1);
    assert_eq!(summary.total_gas_increase, u16::MAX);
    assert_eq!(summary.total_gas_decrease, 0);
    assert_eq!(summary.stack_behavior_changes, 1);
    assert_eq!(summary.semantic_changes, 1);
}

#[test]
fn most_impactful_changes_are_ranked_by_difference() {
    let report = GasComparisonReport {
        fork1: Fork::Frontier,
        fork2: Fork::Cancun,
        changes: vec![
            gas_change(1, 100, 150),
            OpcodeChange {
                opcode: 2,
                change_type: ChangeType::Added,
                old_value: None,
                new_value: Some(9000),
            },
            gas_change(3, 900, 100),
            gas_change(4, 50, 100),
            gas_change(5, 0, 2000),
        ],
        summary: GasChangeSummary::default(),
    };
    let top: Vec<u8> = report
        .get_most_impactful_changes(10)
        .iter()
        .map(|c| c.opcode)
        .collect();
    assert_eq!(top, vec![5, 3, 1, 4]);
    let top2: Vec<u8> = report
        .get_most_impactful_changes(2)
        .iter()
        .map(|c| c.opcode)
        .collect();
    assert_eq!(top2, vec![5, 3]);
    assert!(report.get_most_impactful_changes(0).is_empty());
}

#[test]
fn report_lines_of_a_comparison() {
    let report = GasComparator::generate_comparison_report(Fork::London, Fork::Shanghai);
    assert_eq!(
        report.report_lines(),
        vec![
            "=== Gas Cost Comparison Report ===".to_string(),
            "Comparing London → Shanghai".to_string(),
            "".to_string(),
            "Summary:".to_string(),
            "  Opcodes added: 1".to_string(),
            "  Opcodes removed: 0".to_string(),
            "  Gas cost changes: 0".to_string(),
            "  Gas increases: 0 (total: +0 gas)".to_string(),
            "  Gas decreases: 0 (total: -0 gas)".to_string(),
            "  Stack behavior changes: 0".to_string(),
            "".to_string(),
            "Detailed Changes:".to_string(),
            "  + Added opcode 0x5f (gas: 2)".to_string(),
        ]
    );
    let report = GasComparator::generate_comparison_report(Fork::Istanbul, Fork::Berlin);
    let lines = report.report_lines();
    assert_eq!(lines[12], "  ~ Opcode 0x54: 800 → 2100 gas");
    assert_eq!(lines.len(), 12 + 10);
    let none = GasComparator::generate_comparison_report(Fork::Berlin, Fork::Berlin);
    assert_eq!(none.report_lines().len(), 11);
}

#[test]
fn fork_optimizations_by_fork() {
    let general = vec![
        "Pack storage variables to minimize SSTORE operations".to_string(),
        "Use events instead of storage for data that doesn't need on-chain queries".to_string(),
        "Minimize external calls and account creations".to_string(),
        "Use short-circuit evaluation in conditional logic".to_string(),
        "Consider using libraries for common functionality to reduce deployment costs"
            .to_string(),
    ];
    let shanghai = GasOptimizationAdvisor::get_fork_optimizations(Fork::Shanghai);
    assert_eq!(
        shanghai[0],
        "Use PUSH0 instead of PUSH1 0x00 to save 2 gas per occurrence"
    );
    assert_eq!(shanghai[1..], general[..]);
    assert_eq!(GasOptimizationAdvisor::get_fork_optimizations(Fork::Cancun).len(), 9);
    assert_eq!(GasOptimizationAdvisor::get_fork_optimizations(Fork::Berlin).len(), 7);
    assert_eq!(GasOptimizationAdvisor::get_fork_optimizations(Fork::London).len(), 7);
    let frontier = GasOptimizationAdvisor::get_fork_optimizations(Fork::Frontier);
    assert_eq!(
        frontier[0],
        "Consider upgrading to a newer fork for gas optimizations"
    );
    assert_eq!(frontier[1..], general[..]);
}

#[test]
fn pattern_suggestions_in_order() {
    let opcodes = vec![0x60, 0x00, 0x54, 0x54, 0x54, 0x54, 0x60, 0x00];
    assert_eq!(
        GasOptimizationAdvisor::analyze_pattern(&opcodes, Fork::Shanghai),
        vec![
            "Found 3 consecutive SLOAD operations - consider caching in memory".to_string(),
            "Multiple SLOAD operations detected - consider storage packing or caching"
                .to_string(),
            "Found 2 PUSH1 0x00 operations - replace with PUSH0 to save 4 gas".to_string(),
            "Low gas efficiency detected - consider algorithmic improvements".to_string(),
        ]
    );
    // Before Shanghai a PUSH1 of zero cannot be replaced.
    assert_eq!(
        GasOptimizationAdvisor::analyze_pattern(&[0x60, 0x00, 0x01], Fork::London),
        Vec::<String>::new()
    );
}
