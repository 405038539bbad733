use eot::registry::OpcodeRegistry;
use eot::tables::{canonical_metadata, fork_table};
use eot::{Fork, GasError, Group, OpcodeMetadata};

const ALL_FORKS: [Fork; 22] = [
    Fork::Frontier,
    Fork::IceAge,
    Fork::Homestead,
    Fork::DaoFork,
    Fork::TangerineWhistle,
    Fork::SpuriousDragon,
    Fork::Byzantium,
    Fork::Constantinople,
    Fork::Petersburg,
    Fork::Istanbul,
    Fork::MuirGlacier,
    Fork::Berlin,
    Fork::London,
    Fork::Altair,
    Fork::ArrowGlacier,
    Fork::GrayGlacier,
    Fork::Bellatrix,
    Fork::Paris,
    Fork::Shanghai,
    Fork::Capella,
    Fork::Cancun,
    Fork::Deneb,
];

fn record(opcode: u8, name: &'static str, gas_cost: u16) -> OpcodeMetadata {
    OpcodeMetadata {
        opcode,
        name,
        gas_cost,
        stack_inputs: 0,
        stack_outputs: 0,
        description: "",
        introduced_in: Fork::Frontier,
        group: Group::StopArithmetic,
        eip: None,
        gas_history: vec![],
    }
}

#[test]
fn fork_epochs_follow_the_timeline() {
    for (i, fork) in ALL_FORKS.iter().enumerate() {
        assert_eq!(fork.epoch() as usize, i);
        assert_eq!(Fork::from_epoch(i as u8), Some(*fork));
        assert_eq!(fork.name(), format!("{:?}", fork));
    }
    assert_eq!(Fork::from_epoch(22), None);
    assert_eq!(Fork::from_epoch(255), None);
    // The epochs order the forks as the declaration does.
    for a in ALL_FORKS {
        for b in ALL_FORKS {
            assert_eq!(a.at_least(b), a >= b);
            assert_eq!(a.epoch() < b.epoch(), a < b);
        }
    }
}

#[test]
fn an_opcode_once_available_stays_available() {
    let registry = OpcodeRegistry::new();
    for byte in 0..=255u8 {
        let mut seen = false;
        for fork in ALL_FORKS {
            let available = registry.is_opcode_available(fork, byte);
            assert!(available || !seen, "0x{:02x} disappears at {:?}", byte, fork);
            seen = available;
        }
    }
}

#[test]
fn standard_registry_counts() {
    let registry = OpcodeRegistry::new();
    for (fork, count) in [
        (Fork::Frontier, 130),
        (Fork::IceAge, 130),
        (Fork::Homestead, 131),
        (Fork::SpuriousDragon, 131),
        (Fork::Byzantium, 135),
        (Fork::Constantinople, 140),
        (Fork::Petersburg, 140),
        (Fork::Istanbul, 142),
        (Fork::Berlin, 142),
        (Fork::London, 143),
        (Fork::Paris, 143),
        (Fork::Shanghai, 144),
        (Fork::Capella, 144),
        (Fork::Cancun, 149),
        (Fork::Deneb, 149),
    ] {
        assert_eq!(registry.get_opcodes(fork).len(), count, "{:?}", fork);
        assert_eq!(
            (0..=255u8)
                .filter(|b| registry.is_opcode_available(fork, *b))
                .count(),
            count
        );
    }
    assert_eq!(fork_table(Fork::Cancun).len(), 149);
    assert_eq!(registry.own_table(Fork::Cancun).len(), 149);
    assert_eq!(registry.own_table(Fork::Deneb).len(), 0);
    assert_eq!(OpcodeRegistry::default().get_opcodes(Fork::London).len(), 143);
}

#[test]
fn the_table_in_effect_holds_the_canonical_records() {
    let registry = OpcodeRegistry::new();
    let cancun = registry.get_opcodes(Fork::Cancun);
    for byte in 0..=255u8 {
        match canonical_metadata(byte) {
            Some(canonical) => {
                let found = cancun.get(&byte).unwrap();
                assert_eq!(found.opcode, byte);
                assert_eq!(found.name, canonical.name);
                assert_eq!(found.gas_cost, canonical.gas_cost);
                assert_eq!(found.gas_history, canonical.gas_history);
                assert!(found.stack_inputs <= 17);
                // The introduction decides from which fork on it is there.
                for fork in ALL_FORKS {
                    assert_eq!(
                        registry.is_opcode_available(fork, byte),
                        fork >= canonical.introduced_in
                    );
                }
            }
            None => assert!(!cancun.contains_key(&byte)),
        }
    }
}

#[test]
fn records_of_dup_swap_and_push() {
    for n in 1..=16u8 {
        let dup = canonical_metadata(0x7f + n).unwrap();
        assert_eq!(dup.name, format!("DUP{}", n));
        assert_eq!((dup.stack_inputs, dup.stack_outputs), (n, n + 1));
        assert_eq!(dup.group, Group::Duplication);
        let swap = canonical_metadata(0x8f + n).unwrap();
        assert_eq!(swap.name, format!("SWAP{}", n));
        assert_eq!((swap.stack_inputs, swap.stack_outputs), (n + 1, n + 1));
        assert_eq!(swap.group, Group::Exchange);
    }
    for n in 1..=32u8 {
        let push = canonical_metadata(0x5f + n).unwrap();
        assert_eq!(push.name, format!("PUSH{}", n));
        assert_eq!((push.stack_inputs, push.stack_outputs), (0, 1));
        assert_eq!(push.gas_cost, 3);
        assert_eq!(push.group, Group::Push);
    }
    for n in 0..=4u8 {
        let log = canonical_metadata(0xa0 + n).unwrap();
        assert_eq!(log.name, format!("LOG{}", n));
        assert_eq!((log.stack_inputs, log.stack_outputs), (n + 2, 0));
        assert_eq!(log.group, Group::Logging);
    }
    let call = canonical_metadata(0xf1).unwrap();
    assert_eq!(
        call.gas_history,
        vec![(Fork::TangerineWhistle, 700), (Fork::Berlin, 100)]
    );
    assert_eq!(call.gas_cost, 40);
    let tload = canonical_metadata(0x5c).unwrap();
    assert_eq!(tload.introduced_in, Fork::Cancun);
    assert_eq!(tload.eip, Some(1153));
    assert!(canonical_metadata(0x0c).is_none());
    assert!(canonical_metadata(0xa5).is_none());
    assert!(canonical_metadata(0xfb).is_none());
}

#[test]
fn lookup_and_metadata() {
    let registry = OpcodeRegistry::new();
    assert_eq!(registry.lookup(Fork::London, 0x48).unwrap().name, "BASEFEE");
    assert!(registry.lookup(Fork::Berlin, 0x48).is_none());
    assert_eq!(registry.metadata(Fork::London, 0x48).unwrap().name, "BASEFEE");
    assert_eq!(
        registry.metadata(Fork::Berlin, 0x48).err(),
        Some(GasError::UnknownOpcode {
            opcode: 0x48,
            fork: Fork::Berlin
        })
    );
}

#[test]
fn an_empty_registry_has_no_opcodes() {
    let registry = OpcodeRegistry::empty();
    for fork in ALL_FORKS {
        assert!(registry.get_opcodes(fork).is_empty());
        assert!(registry.own_table(fork).is_empty());
    }
    assert!(!registry.is_opcode_available(Fork::Deneb, 0x01));
}

#[test]
fn later_tables_inherit_and_override() {
    let mut registry = OpcodeRegistry::empty();
    registry.register_fork(
        Fork::Homestead,
        vec![record(0x01, "ONE", 1), record(0x02, "TWO", 2)],
    );
    registry.register_fork(
        Fork::Berlin,
        vec![record(0x02, "TWO'", 20), record(0x03, "THREE", 3), record(0x03, "THREE'", 30)],
    );
    // Before the first table there is nothing.
    assert!(registry.get_opcodes(Fork::Frontier).is_empty());
    assert!(registry.get_opcodes(Fork::IceAge).is_empty());
    // From Homestead on the first table is in effect.
    for fork in [Fork::Homestead, Fork::Istanbul, Fork::MuirGlacier] {
        let opcodes = registry.get_opcodes(fork);
        assert_eq!(opcodes.len(), 2);
        assert_eq!(opcodes[&0x01].name, "ONE");
        assert_eq!(opcodes[&0x02].name, "TWO");
        assert!(!registry.is_opcode_available(fork, 0x03));
    }
    // From Berlin on the later table overrides and adds; within a table
    // the later record of a byte counts.
    for fork in [Fork::Berlin, Fork::Deneb] {
        let opcodes = registry.get_opcodes(fork);
        assert_eq!(opcodes.len(), 3);
        assert_eq!(opcodes[&0x01].name, "ONE");
        assert_eq!(opcodes[&0x02].name, "TWO'");
        assert_eq!(opcodes[&0x02].gas_cost, 20);
        assert_eq!(opcodes[&0x03].name, "THREE'");
    }
    // Registering again replaces the table of the fork.
    registry.register_fork(Fork::Homestead, vec![record(0x09, "NINE", 9)]);
    assert!(!registry.is_opcode_available(Fork::Homestead, 0x01));
    assert!(registry.is_opcode_available(Fork::Homestead, 0x09));
    assert!(registry.is_opcode_available(Fork::Deneb, 0x09));
    assert!(!registry.is_opcode_available(Fork::Deneb, 0x01));
    assert!(registry.is_opcode_available(Fork::Deneb, 0x02));
}

#[test]
fn effective_gas_cost_picks_the_last_change_in_force() {
    let mut m = record(0x01, "X", 7);
    m.gas_history = vec![
        (Fork::Homestead, 10),
        (Fork::Berlin, 20),
        (Fork::Berlin, 25),
        (Fork::Cancun, 30),
    ];
    assert_eq!(m.effective_gas_cost(Fork::Frontier), 7);
    assert_eq!(m.effective_gas_cost(Fork::IceAge), 7);
    assert_eq!(m.effective_gas_cost(Fork::Homestead), 10);
    assert_eq!(m.effective_gas_cost(Fork::MuirGlacier), 10);
    assert_eq!(m.effective_gas_cost(Fork::Berlin), 25);
    assert_eq!(m.effective_gas_cost(Fork::Capella), 25);
    assert_eq!(m.effective_gas_cost(Fork::Cancun), 30);
    assert_eq!(m.effective_gas_cost(Fork::Deneb), 30);
    // In a history that is out of order still the last entry in force counts.
    m.gas_history = vec![(Fork::Berlin, 20), (Fork::Homestead, 10)];
    assert_eq!(m.effective_gas_cost(Fork::Cancun), 10);
    assert_eq!(m.effective_gas_cost(Fork::Homestead), 10);
    assert_eq!(m.effective_gas_cost(Fork::Frontier), 7);
    let copy = m.clone();
    assert_eq!(copy.gas_history, m.gas_history);
    assert_eq!(copy.name, m.name);
}
