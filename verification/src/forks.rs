//! Fork-specific opcode types: for each fork that changed the
//! instruction set or its prices, the type of the opcodes that exist at
//! that fork. All of them read the one canonical table.

use vstd::prelude::*;
use crate::fork::Fork;
use crate::metadata::{MetadataView, OpcodeMetadata};
use crate::registry::lemma_table_below;
use crate::tables::{
    canonical_metadata,
    fork_table,
    fork_table_view,
    table_active,
    table_entry,
    table_view,
};
use crate::traits::OpCode;

verus! {

/// The bytes of the opcodes that exist at `fork`, in ascending order.
pub open spec fn active_bytes(fork: Fork) -> Seq<u8> {
    fork_table_view(fork).map_values(|m: MetadataView| m.opcode)
}

/// The bytes of a fork are those of the opcodes that exist at the fork,
/// and each of them names its canonical record.
pub proof fn lemma_active_bytes(fork: Fork)
    ensures
        forall|byte: u8| #[trigger] active_bytes(fork).contains(byte) <==> table_active(fork, byte),
        forall|i: int|
            0 <= i < active_bytes(fork).len() ==> table_active(fork, #[trigger] active_bytes(fork)[i]),
{
    lemma_table_below(fork, 256);
    let table = fork_table_view(fork);
    let bytes = active_bytes(fork);
    assert forall|byte: u8| #[trigger] bytes.contains(byte) <==> table_active(fork, byte) by {
        if bytes.contains(byte) {
            let i = choose|i: int| 0 <= i < bytes.len() && bytes[i] == byte;
            assert(table[i].opcode == byte);
        }
        if table_active(fork, byte) {
            let i = choose|i: int| 0 <= i < table.len() && (#[trigger] table[i]).opcode == byte;
            assert(bytes[i] == byte);
        }
    }
    assert forall|i: int| 0 <= i < bytes.len() implies table_active(fork, #[trigger] bytes[i]) by {
        assert(table[i].opcode == bytes[i]);
    }
}

/// Whether the opcode at `byte` exists at `fork`.
pub fn is_active(fork: Fork, byte: u8) -> (r: bool)
    ensures
        r == table_active(fork, byte),
{
    match canonical_metadata(byte) {
        Some(m) => fork.at_least(m.introduced_in),
        None => false,
    }
}

/// The record of an opcode that exists at `fork`.
fn active_metadata(fork: Fork, byte: u8) -> (m: OpcodeMetadata)
    requires
        table_active(fork, byte),
    ensures
        m@ == table_entry(byte),
{
    match canonical_metadata(byte) {
        Some(m) => m,
        None => vstd::pervasive::unreached(),
    }
}

/// The bytes of the opcodes that exist at `fork`, in ascending order.
fn active_byte_list(fork: Fork) -> (bytes: Vec<u8>)
    ensures
        bytes@ == active_bytes(fork),
{
    let table = fork_table(fork);
    let mut bytes: Vec<u8> = Vec::new();
    let mut i: usize = 0;
    while i < table.len()
        invariant
            i <= table.len(),
            table_view(table@) == fork_table_view(fork),
            bytes@ == active_bytes(fork).take(i as int),
        decreases table.len() - i,
    {
        proof {
            assert(table_view(table@)[i as int] == table@[i as int]@);
            assert(active_bytes(fork).take(i + 1) =~= active_bytes(fork).take(i as int).push(
                table@[i as int].opcode,
            ));
        }
        bytes.push(table[i].opcode);
        i += 1;
    }
    proof {
        assert(active_bytes(fork).take(table@.len() as int) =~= active_bytes(fork));
    }
    bytes
}

/// An opcode of Frontier, the first EVM instruction set.
#[derive(Clone, Copy, Debug, PartialOrd, Ord, PartialEq, Eq, Hash)]
pub struct Frontier {
    byte: u8,
}

impl Frontier {
    #[verifier::type_invariant]
    spec fn exists_at_fork(self) -> bool {
        table_active(Fork::Frontier, self.byte)
    }

    /// The opcode of Frontier at `byte`, if Frontier has one there.
    pub fn new(byte: u8) -> (opcode: Option<Self>)
        ensures
            opcode is Some <==> table_active(Fork::Frontier, byte),
            opcode is Some ==> opcode->0.spec_byte() == byte,
    {
        if is_active(Fork::Frontier, byte) {
            let opcode = Frontier { byte };
            assert(opcode.spec_byte() == byte);
            Some(opcode)
        } else {
            None
        }
    }
}

impl OpCode for Frontier {
    closed spec fn spec_byte(&self) -> u8 {
        self.byte
    }

    open spec fn spec_fork() -> Fork {
        Fork::Frontier
    }

    open spec fn spec_metadata(&self) -> MetadataView {
        table_entry(self.spec_byte())
    }

    open spec fn spec_all_opcodes() -> Seq<u8> {
        active_bytes(Fork::Frontier)
    }

    fn byte(&self) -> (b: u8) {
        let b = self.byte;
        assert(self.spec_byte() == b);
        b
    }

    fn metadata(&self) -> (m: OpcodeMetadata) {
        proof {
            use_type_invariant(self);
        }
        let m = active_metadata(Fork::Frontier, self.byte);
        assert(self.spec_metadata() == table_entry(self.byte));
        m
    }

    fn fork() -> (f: Fork) {
        let f = Fork::Frontier;
        assert(Self::spec_fork() == f);
        f
    }

    fn all_opcodes() -> (all: Vec<Self>) {
        let bytes = active_byte_list(Fork::Frontier);
        let mut all: Vec<Self> = Vec::new();
        let mut i: usize = 0;
        proof {
            lemma_active_bytes(Fork::Frontier);
            assert(Self::spec_all_opcodes() == active_bytes(Fork::Frontier));
        }
        while i < bytes.len()
            invariant
                i <= bytes.len(),
                bytes@ == active_bytes(Fork::Frontier),
                forall|k: int|
                    0 <= k < bytes@.len() ==> table_active(Fork::Frontier, #[trigger] bytes@[k]),
                all@.len() == i,
                forall|k: int| 0 <= k < i ==> (#[trigger] all@[k]).spec_byte() == bytes@[k],
            decreases bytes.len() - i,
        {
            let opcode = Frontier { byte: bytes[i] };
            assert(opcode.spec_byte() == bytes@[i as int]);
            all.push(opcode);
            i += 1;
        }
        all
    }
}

/// An opcode of Homestead, which added DELEGATECALL.
#[derive(Clone, Copy, Debug, PartialOrd, Ord, PartialEq, Eq, Hash)]
pub struct Homestead {
    byte: u8,
}

impl Homestead {
    #[verifier::type_invariant]
    spec fn exists_at_fork(self) -> bool {
        table_active(Fork::Homestead, self.byte)
    }

    /// The opcode of Homestead at `byte`, if Homestead has one there.
    pub fn new(byte: u8) -> (opcode: Option<Self>)
        ensures
            opcode is Some <==> table_active(Fork::Homestead, byte),
            opcode is Some ==> opcode->0.spec_byte() == byte,
    {
        if is_active(Fork::Homestead, byte) {
            let opcode = Homestead { byte };
            assert(opcode.spec_byte() == byte);
            Some(opcode)
        } else {
            None
        }
    }
}

impl OpCode for Homestead {
    closed spec fn spec_byte(&self) -> u8 {
        self.byte
    }

    open spec fn spec_fork() -> Fork {
        Fork::Homestead
    }

    open spec fn spec_metadata(&self) -> MetadataView {
        table_entry(self.spec_byte())
    }

    open spec fn spec_all_opcodes() -> Seq<u8> {
        active_bytes(Fork::Homestead)
    }

    fn byte(&self) -> (b: u8) {
        let b = self.byte;
        assert(self.spec_byte() == b);
        b
    }

    fn metadata(&self) -> (m: OpcodeMetadata) {
        proof {
            use_type_invariant(self);
        }
        let m = active_metadata(Fork::Homestead, self.byte);
        assert(self.spec_metadata() == table_entry(self.byte));
        m
    }

    fn fork() -> (f: Fork) {
        let f = Fork::Homestead;
        assert(Self::spec_fork() == f);
        f
    }

    fn all_opcodes() -> (all: Vec<Self>) {
        let bytes = active_byte_list(Fork::Homestead);
        let mut all: Vec<Self> = Vec::new();
        let mut i: usize = 0;
        proof {
            lemma_active_bytes(Fork::Homestead);
            assert(Self::spec_all_opcodes() == active_bytes(Fork::Homestead));
        }
        while i < bytes.len()
            invariant
                i <= bytes.len(),
                bytes@ == active_bytes(Fork::Homestead),
                forall|k: int|
                    0 <= k < bytes@.len() ==> table_active(Fork::Homestead, #[trigger] bytes@[k]),
                all@.len() == i,
                forall|k: int| 0 <= k < i ==> (#[trigger] all@[k]).spec_byte() == bytes@[k],
            decreases bytes.len() - i,
        {
            let opcode = Homestead { byte: bytes[i] };
            assert(opcode.spec_byte() == bytes@[i as int]);
            all.push(opcode);
            i += 1;
        }
        all
    }
}

/// An opcode of Byzantium, which added REVERT, STATICCALL and the return data opcodes.
#[derive(Clone, Copy, Debug, PartialOrd, Ord, PartialEq, Eq, Hash)]
pub struct Byzantium {
    byte: u8,
}

impl Byzantium {
    #[verifier::type_invariant]
    spec fn exists_at_fork(self) -> bool {
        table_active(Fork::Byzantium, self.byte)
    }

    /// The opcode of Byzantium at `byte`, if Byzantium has one there.
    pub fn new(byte: u8) -> (opcode: Option<Self>)
        ensures
            opcode is Some <==> table_active(Fork::Byzantium, byte),
            opcode is Some ==> opcode->0.spec_byte() == byte,
    {
        if is_active(Fork::Byzantium, byte) {
            let opcode = Byzantium { byte };
            assert(opcode.spec_byte() == byte);
            Some(opcode)
        } else {
            None
        }
    }
}

impl OpCode for Byzantium {
    closed spec fn spec_byte(&self) -> u8 {
        self.byte
    }

    open spec fn spec_fork() -> Fork {
        Fork::Byzantium
    }

    open spec fn spec_metadata(&self) -> MetadataView {
        table_entry(self.spec_byte())
    }

    open spec fn spec_all_opcodes() -> Seq<u8> {
        active_bytes(Fork::Byzantium)
    }

    fn byte(&self) -> (b: u8) {
        let b = self.byte;
        assert(self.spec_byte() == b);
        b
    }

    fn metadata(&self) -> (m: OpcodeMetadata) {
        proof {
            use_type_invariant(self);
        }
        let m = active_metadata(Fork::Byzantium, self.byte);
        assert(self.spec_metadata() == table_entry(self.byte));
        m
    }

    fn fork() -> (f: Fork) {
        let f = Fork::Byzantium;
        assert(Self::spec_fork() == f);
        f
    }

    fn all_opcodes() -> (all: Vec<Self>) {
        let bytes = active_byte_list(Fork::Byzantium);
        let mut all: Vec<Self> = Vec::new();
        let mut i: usize = 0;
        proof {
            lemma_active_bytes(Fork::Byzantium);
            assert(Self::spec_all_opcodes() == active_bytes(Fork::Byzantium));
        }
        while i < bytes.len()
            invariant
                i <= bytes.len(),
                bytes@ == active_bytes(Fork::Byzantium),
                forall|k: int|
                    0 <= k < bytes@.len() ==> table_active(Fork::Byzantium, #[trigger] bytes@[k]),
                all@.len() == i,
                forall|k: int| 0 <= k < i ==> (#[trigger] all@[k]).spec_byte() == bytes@[k],
            decreases bytes.len() - i,
        {
            let opcode = Byzantium { byte: bytes[i] };
            assert(opcode.spec_byte() == bytes@[i as int]);
            all.push(opcode);
            i += 1;
        }
        all
    }
}

/// An opcode of Constantinople, which added the shifts, EXTCODEHASH and CREATE2.
#[derive(Clone, Copy, Debug, PartialOrd, Ord, PartialEq, Eq, Hash)]
pub struct Constantinople {
    byte: u8,
}

impl Constantinople {
    #[verifier::type_invariant]
    spec fn exists_at_fork(self) -> bool {
        table_active(Fork::Constantinople, self.byte)
    }

    /// The opcode of Constantinople at `byte`, if Constantinople has one there.
    pub fn new(byte: u8) -> (opcode: Option<Self>)
        ensures
            opcode is Some <==> table_active(Fork::Constantinople, byte),
            opcode is Some ==> opcode->0.spec_byte() == byte,
    {
        if is_active(Fork::Constantinople, byte) {
            let opcode = Constantinople { byte };
            assert(opcode.spec_byte() == byte);
            Some(opcode)
        } else {
            None
        }
    }
}

impl OpCode for Constantinople {
    closed spec fn spec_byte(&self) -> u8 {
        self.byte
    }

    open spec fn spec_fork() -> Fork {
        Fork::Constantinople
    }

    open spec fn spec_metadata(&self) -> MetadataView {
        table_entry(self.spec_byte())
    }

    open spec fn spec_all_opcodes() -> Seq<u8> {
        active_bytes(Fork::Constantinople)
    }

    fn byte(&self) -> (b: u8) {
        let b = self.byte;
        assert(self.spec_byte() == b);
        b
    }

    fn metadata(&self) -> (m: OpcodeMetadata) {
        proof {
            use_type_invariant(self);
        }
        let m = active_metadata(Fork::Constantinople, self.byte);
        assert(self.spec_metadata() == table_entry(self.byte));
        m
    }

    fn fork() -> (f: Fork) {
        let f = Fork::Constantinople;
        assert(Self::spec_fork() == f);
        f
    }

    fn all_opcodes() -> (all: Vec<Self>) {
        let bytes = active_byte_list(Fork::Constantinople);
        let mut all: Vec<Self> = Vec::new();
        let mut i: usize = 0;
        proof {
            lemma_active_bytes(Fork::Constantinople);
            assert(Self::spec_all_opcodes() == active_bytes(Fork::Constantinople));
        }
        while i < bytes.len()
            invariant
                i <= bytes.len(),
                bytes@ == active_bytes(Fork::Constantinople),
                forall|k: int|
                    0 <= k < bytes@.len() ==> table_active(Fork::Constantinople, #[trigger] bytes@[k]),
                all@.len() == i,
                forall|k: int| 0 <= k < i ==> (#[trigger] all@[k]).spec_byte() == bytes@[k],
            decreases bytes.len() - i,
        {
            let opcode = Constantinople { byte: bytes[i] };
            assert(opcode.spec_byte() == bytes@[i as int]);
            all.push(opcode);
            i += 1;
        }
        all
    }
}

/// An opcode of Istanbul, which added CHAINID and SELFBALANCE.
#[derive(Clone, Copy, Debug, PartialOrd, Ord, PartialEq, Eq, Hash)]
pub struct Istanbul {
    byte: u8,
}

impl Istanbul {
    #[verifier::type_invariant]
    spec fn exists_at_fork(self) -> bool {
        table_active(Fork::Istanbul, self.byte)
    }

    /// The opcode of Istanbul at `byte`, if Istanbul has one there.
    pub fn new(byte: u8) -> (opcode: Option<Self>)
        ensures
            opcode is Some <==> table_active(Fork::Istanbul, byte),
            opcode is Some ==> opcode->0.spec_byte() == byte,
    {
        if is_active(Fork::Istanbul, byte) {
            let opcode = Istanbul { byte };
            assert(opcode.spec_byte() == byte);
            Some(opcode)
        } else {
            None
        }
    }
}

impl OpCode for Istanbul {
    closed spec fn spec_byte(&self) -> u8 {
        self.byte
    }

    open spec fn spec_fork() -> Fork {
        Fork::Istanbul
    }

    open spec fn spec_metadata(&self) -> MetadataView {
        table_entry(self.spec_byte())
    }

    open spec fn spec_all_opcodes() -> Seq<u8> {
        active_bytes(Fork::Istanbul)
    }

    fn byte(&self) -> (b: u8) {
        let b = self.byte;
        assert(self.spec_byte() == b);
        b
    }

    fn metadata(&self) -> (m: OpcodeMetadata) {
        proof {
            use_type_invariant(self);
        }
        let m = active_metadata(Fork::Istanbul, self.byte);
        assert(self.spec_metadata() == table_entry(self.byte));
        m
    }

    fn fork() -> (f: Fork) {
        let f = Fork::Istanbul;
        assert(Self::spec_fork() == f);
        f
    }

    fn all_opcodes() -> (all: Vec<Self>) {
        let bytes = active_byte_list(Fork::Istanbul);
        let mut all: Vec<Self> = Vec::new();
        let mut i: usize = 0;
        proof {
            lemma_active_bytes(Fork::Istanbul);
            assert(Self::spec_all_opcodes() == active_bytes(Fork::Istanbul));
        }
        while i < bytes.len()
            invariant
                i <= bytes.len(),
                bytes@ == active_bytes(Fork::Istanbul),
                forall|k: int|
                    0 <= k < bytes@.len() ==> table_active(Fork::Istanbul, #[trigger] bytes@[k]),
                all@.len() == i,
                forall|k: int| 0 <= k < i ==> (#[trigger] all@[k]).spec_byte() == bytes@[k],
            decreases bytes.len() - i,
        {
            let opcode = Istanbul { byte: bytes[i] };
            assert(opcode.spec_byte() == bytes@[i as int]);
            all.push(opcode);
            i += 1;
        }
        all
    }
}

/// An opcode of Berlin, which priced state access by warmth.
#[derive(Clone, Copy, Debug, PartialOrd, Ord, PartialEq, Eq, Hash)]
pub struct Berlin {
    byte: u8,
}

impl Berlin {
    #[verifier::type_invariant]
    spec fn exists_at_fork(self) -> bool {
        table_active(Fork::Berlin, self.byte)
    }

    /// The opcode of Berlin at `byte`, if Berlin has one there.
    pub fn new(byte: u8) -> (opcode: Option<Self>)
        ensures
            opcode is Some <==> table_active(Fork::Berlin, byte),
            opcode is Some ==> opcode->0.spec_byte() == byte,
    {
        if is_active(Fork::Berlin, byte) {
            let opcode = Berlin { byte };
            assert(opcode.spec_byte() == byte);
            Some(opcode)
        } else {
            None
        }
    }
}

impl OpCode for Berlin {
    closed spec fn spec_byte(&self) -> u8 {
        self.byte
    }

    open spec fn spec_fork() -> Fork {
        Fork::Berlin
    }

    open spec fn spec_metadata(&self) -> MetadataView {
        table_entry(self.spec_byte())
    }

    open spec fn spec_all_opcodes() -> Seq<u8> {
        active_bytes(Fork::Berlin)
    }

    fn byte(&self) -> (b: u8) {
        let b = self.byte;
        assert(self.spec_byte() == b);
        b
    }

    fn metadata(&self) -> (m: OpcodeMetadata) {
        proof {
            use_type_invariant(self);
        }
        let m = active_metadata(Fork::Berlin, self.byte);
        assert(self.spec_metadata() == table_entry(self.byte));
        m
    }

    fn fork() -> (f: Fork) {
        let f = Fork::Berlin;
        assert(Self::spec_fork() == f);
        f
    }

    fn all_opcodes() -> (all: Vec<Self>) {
        let bytes = active_byte_list(Fork::Berlin);
        let mut all: Vec<Self> = Vec::new();
        let mut i: usize = 0;
        proof {
            lemma_active_bytes(Fork::Berlin);
            assert(Self::spec_all_opcodes() == active_bytes(Fork::Berlin));
        }
        while i < bytes.len()
            invariant
                i <= bytes.len(),
                bytes@ == active_bytes(Fork::Berlin),
                forall|k: int|
                    0 <= k < bytes@.len() ==> table_active(Fork::Berlin, #[trigger] bytes@[k]),
                all@.len() == i,
                forall|k: int| 0 <= k < i ==> (#[trigger] all@[k]).spec_byte() == bytes@[k],
            decreases bytes.len() - i,
        {
            let opcode = Berlin { byte: bytes[i] };
            assert(opcode.spec_byte() == bytes@[i as int]);
            all.push(opcode);
            i += 1;
        }
        all
    }
}

/// An opcode of London, which added BASEFEE.
#[derive(Clone, Copy, Debug, PartialOrd, Ord, PartialEq, Eq, Hash)]
pub struct London {
    byte: u8,
}

impl London {
    #[verifier::type_invariant]
    spec fn exists_at_fork(self) -> bool {
        table_active(Fork::London, self.byte)
    }

    /// The opcode of London at `byte`, if London has one there.
    pub fn new(byte: u8) -> (opcode: Option<Self>)
        ensures
            opcode is Some <==> table_active(Fork::London, byte),
            opcode is Some ==> opcode->0.spec_byte() == byte,
    {
        if is_active(Fork::London, byte) {
            let opcode = London { byte };
            assert(opcode.spec_byte() == byte);
            Some(opcode)
        } else {
            None
        }
    }
}

impl OpCode for London {
    closed spec fn spec_byte(&self) -> u8 {
        self.byte
    }

    open spec fn spec_fork() -> Fork {
        Fork::London
    }

    open spec fn spec_metadata(&self) -> MetadataView {
        table_entry(self.spec_byte())
    }

    open spec fn spec_all_opcodes() -> Seq<u8> {
        active_bytes(Fork::London)
    }

    fn byte(&self) -> (b: u8) {
        let b = self.byte;
        assert(self.spec_byte() == b);
        b
    }

    fn metadata(&self) -> (m: OpcodeMetadata) {
        proof {
            use_type_invariant(self);
        }
        let m = active_metadata(Fork::London, self.byte);
        assert(self.spec_metadata() == table_entry(self.byte));
        m
    }

    fn fork() -> (f: Fork) {
        let f = Fork::London;
        assert(Self::spec_fork() == f);
        f
    }

    fn all_opcodes() -> (all: Vec<Self>) {
        let bytes = active_byte_list(Fork::London);
        let mut all: Vec<Self> = Vec::new();
        let mut i: usize = 0;
        proof {
            lemma_active_bytes(Fork::London);
            assert(Self::spec_all_opcodes() == active_bytes(Fork::London));
        }
        while i < bytes.len()
            invariant
                i <= bytes.len(),
                bytes@ == active_bytes(Fork::London),
                forall|k: int|
                    0 <= k < bytes@.len() ==> table_active(Fork::London, #[trigger] bytes@[k]),
                all@.len() == i,
                forall|k: int| 0 <= k < i ==> (#[trigger] all@[k]).spec_byte() == bytes@[k],
            decreases bytes.len() - i,
        {
            let opcode = London { byte: bytes[i] };
            assert(opcode.spec_byte() == bytes@[i as int]);
            all.push(opcode);
            i += 1;
        }
        all
    }
}

/// An opcode of Shanghai, which added PUSH0.
#[derive(Clone, Copy, Debug, PartialOrd, Ord, PartialEq, Eq, Hash)]
pub struct Shanghai {
    byte: u8,
}

impl Shanghai {
    #[verifier::type_invariant]
    spec fn exists_at_fork(self) -> bool {
        table_active(Fork::Shanghai, self.byte)
    }

    /// The opcode of Shanghai at `byte`, if Shanghai has one there.
    pub fn new(byte: u8) -> (opcode: Option<Self>)
        ensures
            opcode is Some <==> table_active(Fork::Shanghai, byte),
            opcode is Some ==> opcode->0.spec_byte() == byte,
    {
        if is_active(Fork::Shanghai, byte) {
            let opcode = Shanghai { byte };
            assert(opcode.spec_byte() == byte);
            Some(opcode)
        } else {
            None
        }
    }
}

impl OpCode for Shanghai {
    closed spec fn spec_byte(&self) -> u8 {
        self.byte
    }

    open spec fn spec_fork() -> Fork {
        Fork::Shanghai
    }

    open spec fn spec_metadata(&self) -> MetadataView {
        table_entry(self.spec_byte())
    }

    open spec fn spec_all_opcodes() -> Seq<u8> {
        active_bytes(Fork::Shanghai)
    }

    fn byte(&self) -> (b: u8) {
        let b = self.byte;
        assert(self.spec_byte() == b);
        b
    }

    fn metadata(&self) -> (m: OpcodeMetadata) {
        proof {
            use_type_invariant(self);
        }
        let m = active_metadata(Fork::Shanghai, self.byte);
        assert(self.spec_metadata() == table_entry(self.byte));
        m
    }

    fn fork() -> (f: Fork) {
        let f = Fork::Shanghai;
        assert(Self::spec_fork() == f);
        f
    }

    fn all_opcodes() -> (all: Vec<Self>) {
        let bytes = active_byte_list(Fork::Shanghai);
        let mut all: Vec<Self> = Vec::new();
        let mut i: usize = 0;
        proof {
            lemma_active_bytes(Fork::Shanghai);
            assert(Self::spec_all_opcodes() == active_bytes(Fork::Shanghai));
        }
        while i < bytes.len()
            invariant
                i <= bytes.len(),
                bytes@ == active_bytes(Fork::Shanghai),
                forall|k: int|
                    0 <= k < bytes@.len() ==> table_active(Fork::Shanghai, #[trigger] bytes@[k]),
                all@.len() == i,
                forall|k: int| 0 <= k < i ==> (#[trigger] all@[k]).spec_byte() == bytes@[k],
            decreases bytes.len() - i,
        {
            let opcode = Shanghai { byte: bytes[i] };
            assert(opcode.spec_byte() == bytes@[i as int]);
            all.push(opcode);
            i += 1;
        }
        all
    }
}

/// An opcode of Cancun, which added transient storage, MCOPY and the blob opcodes.
#[derive(Clone, Copy, Debug, PartialOrd, Ord, PartialEq, Eq, Hash)]
pub struct Cancun {
    byte: u8,
}

impl Cancun {
    #[verifier::type_invariant]
    spec fn exists_at_fork(self) -> bool {
        table_active(Fork::Cancun, self.byte)
    }

    /// The opcode of Cancun at `byte`, if Cancun has one there.
    pub fn new(byte: u8) -> (opcode: Option<Self>)
        ensures
            opcode is Some <==> table_active(Fork::Cancun, byte),
            opcode is Some ==> opcode->0.spec_byte() == byte,
    {
        if is_active(Fork::Cancun, byte) {
            let opcode = Cancun { byte };
            assert(opcode.spec_byte() == byte);
            Some(opcode)
        } else {
            None
        }
    }
}

impl OpCode for Cancun {
    closed spec fn spec_byte(&self) -> u8 {
        self.byte
    }

    open spec fn spec_fork() -> Fork {
        Fork::Cancun
    }

    open spec fn spec_metadata(&self) -> MetadataView {
        table_entry(self.spec_byte())
    }

    open spec fn spec_all_opcodes() -> Seq<u8> {
        active_bytes(Fork::Cancun)
    }

    fn byte(&self) -> (b: u8) {
        let b = self.byte;
        assert(self.spec_byte() == b);
        b
    }

    fn metadata(&self) -> (m: OpcodeMetadata) {
        proof {
            use_type_invariant(self);
        }
        let m = active_metadata(Fork::Cancun, self.byte);
        assert(self.spec_metadata() == table_entry(self.byte));
        m
    }

    fn fork() -> (f: Fork) {
        let f = Fork::Cancun;
        assert(Self::spec_fork() == f);
        f
    }

    fn all_opcodes() -> (all: Vec<Self>) {
        let bytes = active_byte_list(Fork::Cancun);
        let mut all: Vec<Self> = Vec::new();
        let mut i: usize = 0;
        proof {
            lemma_active_bytes(Fork::Cancun);
            assert(Self::spec_all_opcodes() == active_bytes(Fork::Cancun));
        }
        while i < bytes.len()
            invariant
                i <= bytes.len(),
                bytes@ == active_bytes(Fork::Cancun),
                forall|k: int|
                    0 <= k < bytes@.len() ==> table_active(Fork::Cancun, #[trigger] bytes@[k]),
                all@.len() == i,
                forall|k: int| 0 <= k < i ==> (#[trigger] all@[k]).spec_byte() == bytes@[k],
            decreases bytes.len() - i,
        {
            let opcode = Cancun { byte: bytes[i] };
            assert(opcode.spec_byte() == bytes@[i as int]);
            all.push(opcode);
            i += 1;
        }
        all
    }
}

} // verus!
