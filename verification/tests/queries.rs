use eot::queries::{
    affects_memory, affects_storage, can_revert, has_dynamic_gas_cost, is_control_flow,
    is_deprecated, is_dup, is_push, is_swap, min_stack_depth, modifies_state,
    optimization_recommendations, push_size,
};
use eot::Fork;

fn bytes_where(query: fn(u8) -> bool) -> Vec<u8> {
    (0..=255u8).filter(|b| query(*b)).collect()
}

#[test]
fn queries_by_byte() {
    assert_eq!(
        bytes_where(modifies_state),
        vec![0x55, 0x5d, 0xf0, 0xf1, 0xf2, 0xf4, 0xf5, 0xff]
    );
    assert_eq!(bytes_where(can_revert), vec![0xf1, 0xf2, 0xf4, 0xf5, 0xfa, 0xfd]);
    assert_eq!(bytes_where(is_push), (0x5f..=0x7f).collect::<Vec<u8>>());
    assert_eq!(bytes_where(is_dup), (0x80..=0x8f).collect::<Vec<u8>>());
    assert_eq!(bytes_where(is_swap), (0x90..=0x9f).collect::<Vec<u8>>());
    assert_eq!(
        bytes_where(is_control_flow),
        vec![0x00, 0x56, 0x57, 0x5b, 0xf3, 0xfd, 0xfe, 0xff]
    );
    assert_eq!(bytes_where(affects_storage), vec![0x54, 0x55, 0x5c, 0x5d]);
    assert_eq!(bytes_where(is_deprecated), vec![0xf2, 0xff]);
    let mut memory = vec![0x20, 0x37, 0x39, 0x3e, 0x51, 0x52, 0x53, 0x5e];
    memory.extend(0xa0..=0xa4u8);
    memory.extend(0xf0..=0xffu8);
    assert_eq!(bytes_where(affects_memory), memory);
    let mut dynamic = vec![
        0x20, 0x31, 0x37, 0x39, 0x3b, 0x3c, 0x3e, 0x3f, 0x51, 0x52, 0x53, 0x54, 0x55, 0x5c, 0x5d,
        0x5e,
    ];
    dynamic.extend(0xa0..=0xa4u8);
    dynamic.extend(0xf0..=0xffu8);
    assert_eq!(bytes_where(has_dynamic_gas_cost), dynamic);
}

#[test]
fn push_sizes_and_stack_depths() {
    for byte in 0..=255u8 {
        let expected = if (0x5f..=0x7f).contains(&byte) {
            Some(byte - 0x5f)
        } else {
            None
        };
        assert_eq!(push_size(byte), expected);
    }
    assert_eq!(min_stack_depth(0x80, 9), 1);
    assert_eq!(min_stack_depth(0x8f, 9), 16);
    assert_eq!(min_stack_depth(0x90, 9), 2);
    assert_eq!(min_stack_depth(0x9f, 9), 17);
    assert_eq!(min_stack_depth(0x01, 2), 2);
    assert_eq!(min_stack_depth(0x7f, 0), 0);
}

#[test]
fn recommendations_for_bytes() {
    assert!(optimization_recommendations(0x60, Fork::Paris).is_empty());
    assert_eq!(optimization_recommendations(0x60, Fork::Shanghai).len(), 1);
    assert_eq!(
        optimization_recommendations(0x55, Fork::Frontier),
        vec![
            "Consider using TSTORE for temporary values that don't need persistence".to_string(),
            "Pack storage variables to minimize SSTORE operations".to_string(),
        ]
    );
    assert_eq!(
        optimization_recommendations(0xfa, Fork::Berlin),
        vec![
            "Minimize external calls as they are expensive and can fail".to_string(),
            "Pre-warm target addresses when possible".to_string(),
        ]
    );
    assert_eq!(
        optimization_recommendations(0xf0, Fork::Cancun),
        vec![
            "Consider using CREATE2 for deterministic addresses".to_string(),
            "Be aware of initcode size limits (EIP-3860)".to_string(),
        ]
    );
}
