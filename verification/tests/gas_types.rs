use eot::gas::{ExecutionContext, GasAnalysisResult, GasCostCategory};

#[test]
fn gas_test_gas_cost_category_classification() {
    assert_eq!(GasCostCategory::classify_opcode(0x01), GasCostCategory::VeryLow); // ADD
    assert_eq!(GasCostCategory::classify_opcode(0x54), GasCostCategory::High); // SLOAD
    assert_eq!(GasCostCategory::classify_opcode(0x55), GasCostCategory::VeryHigh); // SSTORE
}

#[test]
fn test_gas_analysis_result_efficiency_score() {
    let result = GasAnalysisResult {
        total_gas: 21030,                                  // Base + 30 gas
        breakdown: vec![(0x01, 3), (0x02, 3), (0x03, 3)], // Simple operations
        warnings: vec![],
        context: ExecutionContext::default(),
        optimizations: vec![],
    };

    assert!(result.efficiency_score() > 80);
}

#[test]
fn test_top_expensive_operations() {
    let result = GasAnalysisResult {
        total_gas: 50000,
        breakdown: vec![
            (0x54, 2100), // SLOAD
            (0x01, 3),    // ADD
            (0x55, 5000), // SSTORE
            (0x02, 3),    // MUL
        ],
        warnings: vec![],
        context: ExecutionContext::default(),
        optimizations: vec![],
    };

    let top_ops = result.top_expensive_operations(2);
    assert_eq!(top_ops.len(), 2);
    assert_eq!(top_ops[0], (0x55, 5000)); // SSTORE should be most expensive
    assert_eq!(top_ops[1], (0x54, 2100)); // SLOAD should be second
}

#[test]
fn category_classification_covers_every_range() {
    assert_eq!(GasCostCategory::classify_opcode(0x00), GasCostCategory::Unknown);
    assert_eq!(GasCostCategory::classify_opcode(0x0b), GasCostCategory::VeryLow);
    assert_eq!(GasCostCategory::classify_opcode(0x1d), GasCostCategory::VeryLow);
    assert_eq!(GasCostCategory::classify_opcode(0x50), GasCostCategory::VeryLow);
    assert_eq!(GasCostCategory::classify_opcode(0x58), GasCostCategory::VeryLow);
    assert_eq!(GasCostCategory::classify_opcode(0x9f), GasCostCategory::VeryLow);
    assert_eq!(GasCostCategory::classify_opcode(0x52), GasCostCategory::Low);
    assert_eq!(GasCostCategory::classify_opcode(0x57), GasCostCategory::Low);
    assert_eq!(GasCostCategory::classify_opcode(0x5b), GasCostCategory::Low);
    assert_eq!(GasCostCategory::classify_opcode(0x20), GasCostCategory::Medium);
    assert_eq!(GasCostCategory::classify_opcode(0x30), GasCostCategory::Medium);
    assert_eq!(GasCostCategory::classify_opcode(0x3a), GasCostCategory::Medium);
    assert_eq!(GasCostCategory::classify_opcode(0x48), GasCostCategory::Medium);
    assert_eq!(GasCostCategory::classify_opcode(0x31), GasCostCategory::High);
    assert_eq!(GasCostCategory::classify_opcode(0x3f), GasCostCategory::High);
    assert_eq!(GasCostCategory::classify_opcode(0xf0), GasCostCategory::VeryHigh);
    assert_eq!(GasCostCategory::classify_opcode(0xff), GasCostCategory::VeryHigh);
    assert_eq!(GasCostCategory::classify_opcode(0x60), GasCostCategory::Unknown);
    assert_eq!(GasCostCategory::classify_opcode(0xa0), GasCostCategory::Unknown);
}

#[test]
fn category_ranges() {
    assert_eq!(GasCostCategory::VeryLow.gas_range(), (1, 3));
    assert_eq!(GasCostCategory::Low.gas_range(), (3, 8));
    assert_eq!(GasCostCategory::Medium.gas_range(), (8, 100));
    assert_eq!(GasCostCategory::High.gas_range(), (100, 2600));
    assert_eq!(GasCostCategory::VeryHigh.gas_range(), (2600, u64::MAX));
    assert_eq!(GasCostCategory::Unknown.gas_range(), (0, 0));
}

fn result_with(total_gas: u64, breakdown: Vec<(u8, u64)>) -> GasAnalysisResult {
    GasAnalysisResult {
        total_gas,
        breakdown,
        warnings: vec![],
        context: ExecutionContext::new(),
        optimizations: vec![],
    }
}

#[test]
fn result_efficiency_score_steps() {
    assert_eq!(result_with(21000, vec![]).efficiency_score(), 100);
    assert_eq!(result_with(21010, vec![(1, 10)]).efficiency_score(), 100);
    assert_eq!(result_with(21011, vec![(1, 11)]).efficiency_score(), 80);
    assert_eq!(result_with(21050, vec![(1, 50)]).efficiency_score(), 80);
    assert_eq!(result_with(21051, vec![(1, 51)]).efficiency_score(), 60);
    assert_eq!(result_with(21200, vec![(1, 200)]).efficiency_score(), 60);
    assert_eq!(result_with(21201, vec![(1, 201)]).efficiency_score(), 40);
    assert_eq!(result_with(22000, vec![(1, 1000)]).efficiency_score(), 40);
    assert_eq!(result_with(22001, vec![(1, 1001)]).efficiency_score(), 20);
    assert_eq!(result_with(26000, vec![(1, 5000)]).efficiency_score(), 20);
    assert_eq!(result_with(26001, vec![(1, 5001)]).efficiency_score(), 0);
    // A total below the base transaction cost is taken as it is.
    assert_eq!(result_with(100, vec![(1, 50), (2, 50)]).efficiency_score(), 80);
}

#[test]
fn result_bounds_and_optimized() {
    let plain = result_with(21009, vec![(1, 3), (2, 3), (3, 3)]);
    assert!(plain.is_within_bounds(21009));
    assert!(!plain.is_within_bounds(21008));
    assert!(plain.is_optimized());

    let mut warned = result_with(21009, vec![(1, 3), (2, 3), (3, 3)]);
    warned.warnings.push("High gas cost operation".to_string());
    assert!(!warned.is_optimized());

    let costly = result_with(21000 + 300, vec![(0x54, 300)]);
    assert!(!costly.is_optimized());
}

#[test]
fn top_expensive_operations_keeps_order_of_equal_prices() {
    let result = result_with(
        0,
        vec![(0x01, 3), (0x02, 5), (0x03, 3), (0x04, 5), (0x05, 9), (0x06, 3)],
    );
    assert_eq!(
        result.top_expensive_operations(10),
        vec![(0x05, 9), (0x02, 5), (0x04, 5), (0x01, 3), (0x03, 3), (0x06, 3)]
    );
    assert_eq!(result.top_expensive_operations(3), vec![(0x05, 9), (0x02, 5), (0x04, 5)]);
    assert_eq!(result.top_expensive_operations(0), vec![]);
    assert_eq!(result_with(0, vec![]).top_expensive_operations(4), vec![]);
}

#[test]
fn result_recommendations() {
    let mut result = result_with(
        0,
        vec![
            (0x54, 2100),
            (0x54, 100),
            (0x54, 100),
            (0x54, 100),
            (0x54, 100),
            (0x54, 100),
            (0xf4, 2700),
            (0x01, 3),
        ],
    );
    result.optimizations.push("first".to_string());
    // Two of eight entries cost more than 1000: not more than a quarter.
    assert_eq!(
        result.get_optimization_recommendations(),
        vec![
            "first".to_string(),
            "Opcode 0x54 used 6 times - consider batching or caching".to_string(),
        ]
    );

    let heavy = result_with(0, vec![(0x55, 5000), (0x55, 5000), (0x01, 3), (0x01, 3)]);
    assert_eq!(
        heavy.get_optimization_recommendations(),
        vec![
            "High proportion of expensive operations - consider algorithmic optimizations"
                .to_string()
        ]
    );
    let many_calls = result_with(0, vec![(0xf1, 1); 6]);
    assert_eq!(
        many_calls.get_optimization_recommendations(),
        vec!["Opcode 0xf1 used 6 times - consider batching or caching".to_string()]
    );
}
