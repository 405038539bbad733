//! Integration tests for the unified opcodes

use eot::{Fork, UnifiedOpcode};
use std::str::FromStr;

#[test]
fn test_parse_basic_opcodes() {
    let (opcode, size) = UnifiedOpcode::parse(0x00);
    assert_eq!(opcode, UnifiedOpcode::STOP);
    assert_eq!(size, 0);

    let (opcode, size) = UnifiedOpcode::parse(0x60);
    assert_eq!(opcode, UnifiedOpcode::PUSH(1));
    assert_eq!(size, 1);

    let (opcode, size) = UnifiedOpcode::parse(0x7f);
    assert_eq!(opcode, UnifiedOpcode::PUSH(32));
    assert_eq!(size, 32);
}

#[test]
fn test_from_str() {
    assert_eq!(
        UnifiedOpcode::from_str("PUSH1").unwrap(),
        UnifiedOpcode::PUSH(1)
    );
    assert_eq!(
        UnifiedOpcode::from_str("DUP1").unwrap(),
        UnifiedOpcode::DUP(1)
    );
    assert_eq!(
        UnifiedOpcode::from_str("SWAP1").unwrap(),
        UnifiedOpcode::SWAP(1)
    );
    assert_eq!(
        UnifiedOpcode::from_str("STOP").unwrap(),
        UnifiedOpcode::STOP
    );
    assert!(UnifiedOpcode::from_str("INVALID_OP").is_err());
}

#[test]
fn test_control_flow() {
    assert!(UnifiedOpcode::JUMP.is_control_flow());
    assert!(UnifiedOpcode::JUMPI.is_control_flow());
    assert!(UnifiedOpcode::RETURN.is_control_flow());
    assert!(!UnifiedOpcode::ADD.is_control_flow());
    assert!(!UnifiedOpcode::PUSH(1).is_control_flow());
}

#[test]
fn test_roundtrip() {
    for byte in 0u8..=255u8 {
        let opcode = UnifiedOpcode::from_byte(byte);
        assert_eq!(opcode.to_byte(), byte);
    }
}

#[test]
fn test_all_push_variants() {
    // Test PUSH0
    assert_eq!(
        UnifiedOpcode::from_str("PUSH0").unwrap(),
        UnifiedOpcode::PUSH0
    );
    assert_eq!(UnifiedOpcode::PUSH0.to_byte(), 0x5f);

    // Test PUSH1-PUSH32
    for i in 1..=32 {
        let opcode_str = format!("PUSH{}", i);
        let expected = UnifiedOpcode::PUSH(i);
        assert_eq!(UnifiedOpcode::from_str(&opcode_str).unwrap(), expected);
        assert_eq!(expected.to_byte(), 0x5f + i);
    }
}

#[test]
fn test_dup_and_swap() {
    // Test DUP1-DUP16
    for i in 1..=16 {
        let opcode_str = format!("DUP{}", i);
        let expected = UnifiedOpcode::DUP(i);
        assert_eq!(UnifiedOpcode::from_str(&opcode_str).unwrap(), expected);
        assert_eq!(expected.to_byte(), 0x7f + i);
    }

    // Test SWAP1-SWAP16
    for i in 1..=16 {
        let opcode_str = format!("SWAP{}", i);
        let expected = UnifiedOpcode::SWAP(i);
        assert_eq!(UnifiedOpcode::from_str(&opcode_str).unwrap(), expected);
        assert_eq!(expected.to_byte(), 0x8f + i);
    }
}

#[test]
fn test_edge_cases() {
    // Test invalid PUSH values
    assert!(UnifiedOpcode::from_str("PUSH0").is_ok());
    assert!(UnifiedOpcode::from_str("PUSH33").is_err());
    assert!(UnifiedOpcode::from_str("PUSH").is_err());

    // Test invalid DUP values
    assert!(UnifiedOpcode::from_str("DUP17").is_err());
    assert!(UnifiedOpcode::from_str("DUP0").is_err());

    // Test invalid SWAP values
    assert!(UnifiedOpcode::from_str("SWAP17").is_err());
    assert!(UnifiedOpcode::from_str("SWAP0").is_err());
}

#[test]
fn test_display_formatting() {
    assert_eq!(UnifiedOpcode::STOP.to_string(), "STOP");
    assert_eq!(UnifiedOpcode::PUSH(1).to_string(), "PUSH1");
    assert_eq!(UnifiedOpcode::DUP(5).to_string(), "DUP5");
    assert_eq!(UnifiedOpcode::SWAP(10).to_string(), "SWAP10");
    assert_eq!(UnifiedOpcode::UNKNOWN(0xff).to_string(), "UNKNOWNff");
}

#[test]
fn test_metadata_access() {
    let add_opcode = UnifiedOpcode::ADD;
    if let Some(metadata) = add_opcode.metadata(Fork::Cancun) {
        assert_eq!(metadata.name, "ADD");
        assert_eq!(metadata.opcode, 0x01);
        assert!(metadata.gas_cost > 0);
    }

    if let Some(metadata) = add_opcode.metadata_latest() {
        assert_eq!(metadata.name, "ADD");
    }
}

#[test]
fn parse_with_fork_knows_what_the_fork_has() {
    assert_eq!(
        UnifiedOpcode::parse_with_fork(0x5f, Fork::London),
        (UnifiedOpcode::UNKNOWN(0x5f), 0)
    );
    assert_eq!(
        UnifiedOpcode::parse_with_fork(0x5f, Fork::Shanghai),
        (UnifiedOpcode::PUSH0, 0)
    );
    assert_eq!(
        UnifiedOpcode::parse_with_fork(0x6f, Fork::Frontier),
        (UnifiedOpcode::PUSH(16), 16)
    );
    assert_eq!(
        UnifiedOpcode::parse_with_fork(0x8f, Fork::Frontier),
        (UnifiedOpcode::DUP(16), 0)
    );
    assert_eq!(
        UnifiedOpcode::parse(0x0c),
        (UnifiedOpcode::UNKNOWN(0x0c), 0)
    );
    assert_eq!(UnifiedOpcode::parse(0x5c), (UnifiedOpcode::TLOAD, 0));
    assert_eq!(
        UnifiedOpcode::parse_with_fork(0x5c, Fork::Shanghai),
        (UnifiedOpcode::UNKNOWN(0x5c), 0)
    );
}

#[test]
fn names_and_bytes_of_all_opcodes() {
    for byte in 0u8..=255u8 {
        let opcode = UnifiedOpcode::from_byte(byte);
        assert_eq!(UnifiedOpcode::from(byte), opcode);
        assert_eq!(u8::from(opcode), byte);
        let name = opcode.name();
        assert_eq!(opcode.to_string(), name);
        match opcode {
            UnifiedOpcode::UNKNOWN(b) => {
                assert_eq!(b, byte);
                assert_eq!(name, format!("UNKNOWN{:02x}", byte));
                assert!(UnifiedOpcode::from_str(&name).is_err());
            }
            _ => {
                // A name reads back as the opcode it names.
                assert_eq!(UnifiedOpcode::from_str(&name), Ok(opcode));
                let parsed: UnifiedOpcode = name.parse().unwrap();
                assert_eq!(parsed, opcode);
            }
        }
    }
    assert_eq!(UnifiedOpcode::KECCAK256.name(), "KECCAK256");
    assert_eq!(UnifiedOpcode::PUSH(200).name(), "PUSH200");
    assert_eq!(UnifiedOpcode::UNKNOWN(0x0c).name(), "UNKNOWN0c");
}

#[test]
fn names_that_stand_for_the_same_opcode() {
    assert_eq!(UnifiedOpcode::from_str("SHA3"), Ok(UnifiedOpcode::KECCAK256));
    assert_eq!(
        UnifiedOpcode::from_str("KECCAK256"),
        Ok(UnifiedOpcode::KECCAK256)
    );
    assert_eq!(
        UnifiedOpcode::from_str("PREVRANDAO"),
        Ok(UnifiedOpcode::DIFFICULTY)
    );
    assert_eq!(
        UnifiedOpcode::from_str("DIFFICULTY"),
        Ok(UnifiedOpcode::DIFFICULTY)
    );
}

#[test]
fn numbers_in_names() {
    // A plus sign and leading zeros are read as part of the number.
    assert_eq!(UnifiedOpcode::from_str("PUSH+7"), Ok(UnifiedOpcode::PUSH(7)));
    assert_eq!(UnifiedOpcode::from_str("PUSH007"), Ok(UnifiedOpcode::PUSH(7)));
    assert_eq!(UnifiedOpcode::from_str("DUP016"), Ok(UnifiedOpcode::DUP(16)));
    assert_eq!(
        UnifiedOpcode::from_str("PUSH00"),
        Err("Invalid PUSH opcode: PUSH00".to_string())
    );
    for bad in ["PUSH", "PUSH+", "PUSH-1", "PUSH1a", "PUSH 1", "PUSH256", "PUSH99999999999999999999", "PUSH33", "PUSH１"] {
        assert_eq!(
            UnifiedOpcode::from_str(bad),
            Err(format!("Invalid PUSH opcode: {}", bad))
        );
    }
    for bad in ["DUP", "DUP0", "DUP17", "DUPx"] {
        assert_eq!(
            UnifiedOpcode::from_str(bad),
            Err(format!("Invalid DUP opcode: {}", bad))
        );
    }
    for bad in ["SWAP", "SWAP0", "SWAP17", "SWAP+"] {
        assert_eq!(
            UnifiedOpcode::from_str(bad),
            Err(format!("Invalid SWAP opcode: {}", bad))
        );
    }
    for bad in ["", "push1", "INVALID_OP", "STOP ", "PUS", "ÄDD"] {
        assert_eq!(
            UnifiedOpcode::from_str(bad),
            Err(format!("Unknown opcode: {}", bad))
        );
    }
}

#[test]
fn control_flow_opcodes() {
    let mut found = Vec::new();
    for byte in 0u8..=255u8 {
        if UnifiedOpcode::from_byte(byte).is_control_flow() {
            found.push(byte);
        }
    }
    assert_eq!(
        found,
        vec![0x00, 0x56, 0x57, 0x5b, 0xf0, 0xf1, 0xf2, 0xf3, 0xf4, 0xf5, 0xfa, 0xfd, 0xfe, 0xff]
    );
}

#[test]
fn bytes_of_numbered_opcodes_wrap_around() {
    assert_eq!(UnifiedOpcode::PUSH(0).to_byte(), 0x5f);
    assert_eq!(UnifiedOpcode::PUSH(0xa0).to_byte(), 0xff);
    assert_eq!(UnifiedOpcode::PUSH(0xa1).to_byte(), 0x00);
    assert_eq!(UnifiedOpcode::DUP(0xff).to_byte(), 0x7e);
    assert_eq!(UnifiedOpcode::SWAP(0x71).to_byte(), 0x00);
}

#[test]
fn metadata_depends_on_the_fork() {
    assert!(UnifiedOpcode::PUSH0.metadata(Fork::London).is_none());
    assert_eq!(
        UnifiedOpcode::PUSH0.metadata(Fork::Shanghai).unwrap().name,
        "PUSH0"
    );
    assert!(UnifiedOpcode::UNKNOWN(0x0c).metadata_latest().is_none());
    assert_eq!(
        UnifiedOpcode::KECCAK256.metadata_latest().unwrap().opcode,
        0x20
    );
}
