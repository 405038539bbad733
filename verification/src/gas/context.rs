//! Execution context for gas cost calculation.

use vstd::prelude::*;
use vstd::slice::slice_to_vec;
use crate::error::GasError;

verus! {

/// What an [`ExecutionContext`] holds, as plain mathematical values: the
/// warm slots and the warm addresses are sets.
pub struct ContextView {
    pub memory_size: usize,
    pub warm_storage: Set<(Seq<u8>, Seq<u8>)>,
    pub warm_addresses: Set<Seq<u8>>,
    pub call_depth: u8,
    pub is_static: bool,
    pub gas_price: u64,
    pub gas_limit: u64,
    pub gas_remaining: u64,
    pub current_address: Seq<u8>,
    pub caller_address: Seq<u8>,
    pub call_value: u64,
}

/// The address of twenty zero bytes.
pub open spec fn zero_address() -> Seq<u8> {
    Seq::new(20, |i: int| 0u8)
}

/// The context at the start of a simulation: no memory, nothing warm, a
/// gas price of 20 gwei, a block limit of 30 million and a budget of one
/// million gas.
pub open spec fn initial_context() -> ContextView {
    ContextView {
        memory_size: 0,
        warm_storage: Set::empty(),
        warm_addresses: Set::empty(),
        call_depth: 0,
        is_static: false,
        gas_price: 20_000_000_000,
        gas_limit: 30_000_000,
        gas_remaining: 1_000_000,
        current_address: zero_address(),
        caller_address: zero_address(),
        call_value: 0,
    }
}

/// The context after the slot `key` of `address` was touched.
pub open spec fn with_warm_slot(c: ContextView, address: Seq<u8>, key: Seq<u8>) -> ContextView {
    ContextView { warm_storage: c.warm_storage.insert((address, key)), ..c }
}

/// The context after `address` was touched.
pub open spec fn with_warm_address(c: ContextView, address: Seq<u8>) -> ContextView {
    ContextView { warm_addresses: c.warm_addresses.insert(address), ..c }
}

/// The context after memory was used up to `new_size`: the high-water
/// mark never falls.
pub open spec fn with_memory(c: ContextView, new_size: usize) -> ContextView {
    ContextView {
        memory_size: if new_size > c.memory_size {
            new_size
        } else {
            c.memory_size
        },
        ..c
    }
}

/// The context one call frame deeper; the depth stops at 255.
pub open spec fn with_call_entered(c: ContextView) -> ContextView {
    ContextView {
        call_depth: if c.call_depth < u8::MAX {
            (c.call_depth + 1) as u8
        } else {
            c.call_depth
        },
        ..c
    }
}

/// The context one call frame up; the depth stops at 0.
pub open spec fn with_call_exited(c: ContextView) -> ContextView {
    ContextView {
        call_depth: if c.call_depth > 0 {
            (c.call_depth - 1) as u8
        } else {
            c.call_depth
        },
        ..c
    }
}

/// The context at the start of the next transaction: nothing warm, no
/// memory, depth 0 and not static; the gas figures, the addresses and
/// the value stay.
pub open spec fn reset_context(c: ContextView) -> ContextView {
    ContextView {
        memory_size: 0,
        warm_storage: Set::empty(),
        warm_addresses: Set::empty(),
        call_depth: 0,
        is_static: false,
        ..c
    }
}

/// The slots that a list of (address, key) pairs names.
pub open spec fn slot_set(slots: Seq<(Vec<u8>, Vec<u8>)>) -> Set<(Seq<u8>, Seq<u8>)> {
    Set::new(
        |p: (Seq<u8>, Seq<u8>)|
            exists|i: int| 0 <= i < slots.len() && (#[trigger] slots[i]).0@ == p.0 && slots[i].1@ == p.1,
    )
}

/// The addresses that a list names.
pub open spec fn address_set(addresses: Seq<Vec<u8>>) -> Set<Seq<u8>> {
    Set::new(|a: Seq<u8>| exists|i: int| 0 <= i < addresses.len() && (#[trigger] addresses[i])@ == a)
}

/// No slot is listed twice.
pub open spec fn slots_are_distinct(slots: Seq<(Vec<u8>, Vec<u8>)>) -> bool {
    forall|i: int, j: int|
        0 <= i < j < slots.len() ==> !((#[trigger] slots[i]).0@ == (#[trigger] slots[j]).0@
            && slots[i].1@ == slots[j].1@)
}

/// No address is listed twice.
pub open spec fn addresses_are_distinct(addresses: Seq<Vec<u8>>) -> bool {
    forall|i: int, j: int|
        0 <= i < j < addresses.len() ==> (#[trigger] addresses[i])@ != (#[trigger] addresses[j])@
}

/// Execution context that affects gas costs.
///
/// This tracks the state that influences dynamic gas pricing,
/// particularly for EIP-2929 warm/cold access patterns. The warm slots
/// and addresses are kept as lists; which slots and addresses are warm
/// does not depend on the order or on repetitions. The operations of
/// the context list nothing twice: a context that [`lists_each_once`]
/// stays so under each of them.
///
/// [`lists_each_once`]: ExecutionContext::lists_each_once
#[derive(Debug)]
pub struct ExecutionContext {
    /// Current memory size in bytes
    pub memory_size: usize,
    /// Storage slots that have been accessed in this transaction (EIP-2929).
    /// Format: (address, storage_key)
    pub accessed_storage_keys: Vec<(Vec<u8>, Vec<u8>)>,
    /// Addresses that have been accessed in this transaction (EIP-2929)
    pub accessed_addresses: Vec<Vec<u8>>,
    /// Current call depth (affects gas availability)
    pub call_depth: u8,
    /// Whether we're in a static call context (affects state modifications)
    pub is_static: bool,
    /// Current gas price (for GASPRICE opcode)
    pub gas_price: u64,
    /// Current block gas limit
    pub gas_limit: u64,
    /// Available gas remaining in this execution
    pub gas_remaining: u64,
    /// Current contract address (20 bytes)
    pub current_address: Vec<u8>,
    /// Caller address (20 bytes)
    pub caller_address: Vec<u8>,
    /// Value sent with the current call
    pub call_value: u64,
}

impl View for ExecutionContext {
    type V = ContextView;

    open spec fn view(&self) -> ContextView {
        ContextView {
            memory_size: self.memory_size,
            warm_storage: slot_set(self.accessed_storage_keys@),
            warm_addresses: address_set(self.accessed_addresses@),
            call_depth: self.call_depth,
            is_static: self.is_static,
            gas_price: self.gas_price,
            gas_limit: self.gas_limit,
            gas_remaining: self.gas_remaining,
            current_address: self.current_address@,
            caller_address: self.caller_address@,
            call_value: self.call_value,
        }
    }
}

/// Whether two byte strings hold the same bytes.
pub fn bytes_equal(a: &[u8], b: &[u8]) -> (r: bool)
    ensures
        r == (a@ == b@),
{
    if a.len() != b.len() {
        return false;
    }
    let mut i: usize = 0;
    while i < a.len()
        invariant
            i <= a.len(),
            a@.len() == b@.len(),
            forall|j: int| 0 <= j < i ==> a@[j] == b@[j],
        decreases a.len() - i,
    {
        if a[i] != b[i] {
            return false;
        }
        i += 1;
    }
    proof {
        assert(a@ =~= b@);
    }
    true
}

/// Twenty zero bytes.
fn zero_address_bytes() -> (v: Vec<u8>)
    ensures
        v@ == zero_address(),
{
    let mut v: Vec<u8> = Vec::new();
    let mut i: usize = 0;
    while i < 20
        invariant
            i <= 20,
            v@.len() == i,
            forall|j: int| 0 <= j < i ==> v@[j] == 0u8,
        decreases 20 - i,
    {
        v.push(0u8);
        i += 1;
    }
    proof {
        assert(v@ =~= zero_address());
    }
    v
}

fn clone_slots(slots: &Vec<(Vec<u8>, Vec<u8>)>) -> (r: Vec<(Vec<u8>, Vec<u8>)>)
    ensures
        slot_set(r@) == slot_set(slots@),
        slots_are_distinct(slots@) ==> slots_are_distinct(r@),
{
    let mut r: Vec<(Vec<u8>, Vec<u8>)> = Vec::new();
    let mut i: usize = 0;
    while i < slots.len()
        invariant
            i <= slots.len(),
            r@.len() == i,
            forall|j: int| 0 <= j < i ==> (#[trigger] r@[j]).0@ == slots@[j].0@ && r@[j].1@ == slots@[j].1@,
        decreases slots.len() - i,
    {
        let address = slice_to_vec(slots[i].0.as_slice());
        let key = slice_to_vec(slots[i].1.as_slice());
        r.push((address, key));
        i += 1;
    }
    proof {
        assert forall|p: (Seq<u8>, Seq<u8>)| slot_set(r@).contains(p) <==> slot_set(
            slots@,
        ).contains(p) by {
            if slot_set(r@).contains(p) {
                let i = choose|i: int| 0 <= i < r@.len() && (#[trigger] r@[i]).0@ == p.0 && r@[i].1@ == p.1;
                assert(slots@[i].0@ == p.0 && slots@[i].1@ == p.1);
            }
            if slot_set(slots@).contains(p) {
                let i = choose|i: int|
                    0 <= i < slots@.len() && (#[trigger] slots@[i]).0@ == p.0 && slots@[i].1@ == p.1;
                assert(r@[i].0@ == p.0 && r@[i].1@ == p.1);
            }
        }
        assert(slot_set(r@) =~= slot_set(slots@));
    }
    r
}

fn clone_addresses(addresses: &Vec<Vec<u8>>) -> (r: Vec<Vec<u8>>)
    ensures
        address_set(r@) == address_set(addresses@),
        addresses_are_distinct(addresses@) ==> addresses_are_distinct(r@),
{
    let mut r: Vec<Vec<u8>> = Vec::new();
    let mut i: usize = 0;
    while i < addresses.len()
        invariant
            i <= addresses.len(),
            r@.len() == i,
            forall|j: int| 0 <= j < i ==> (#[trigger] r@[j])@ == addresses@[j]@,
        decreases addresses.len() - i,
    {
        let address = slice_to_vec(addresses[i].as_slice());
        r.push(address);
        i += 1;
    }
    proof {
        assert forall|a: Seq<u8>| address_set(r@).contains(a) <==> address_set(
            addresses@,
        ).contains(a) by {
            if address_set(r@).contains(a) {
                let i = choose|i: int| 0 <= i < r@.len() && (#[trigger] r@[i])@ == a;
                assert(addresses@[i]@ == a);
            }
            if address_set(addresses@).contains(a) {
                let i = choose|i: int| 0 <= i < addresses@.len() && (#[trigger] addresses@[i])@ == a;
                assert(r@[i]@ == a);
            }
        }
        assert(address_set(r@) =~= address_set(addresses@));
    }
    r
}

impl Clone for ExecutionContext {
    fn clone(&self) -> (r: Self)
        ensures
            r@ == self@,
            self.lists_each_once() ==> r.lists_each_once(),
    {
        ExecutionContext {
            memory_size: self.memory_size,
            accessed_storage_keys: clone_slots(&self.accessed_storage_keys),
            accessed_addresses: clone_addresses(&self.accessed_addresses),
            call_depth: self.call_depth,
            is_static: self.is_static,
            gas_price: self.gas_price,
            gas_limit: self.gas_limit,
            gas_remaining: self.gas_remaining,
            current_address: slice_to_vec(self.current_address.as_slice()),
            caller_address: slice_to_vec(self.caller_address.as_slice()),
            call_value: self.call_value,
        }
    }
}

impl Default for ExecutionContext {
    /// A context in which every figure is zero and every list is empty.
    fn default() -> (r: Self)
        ensures
            r.lists_each_once(),
            r@ == (ContextView {
                memory_size: 0,
                warm_storage: Set::empty(),
                warm_addresses: Set::empty(),
                call_depth: 0,
                is_static: false,
                gas_price: 0,
                gas_limit: 0,
                gas_remaining: 0,
                current_address: Seq::empty(),
                caller_address: Seq::empty(),
                call_value: 0,
            }),
    {
        let r = ExecutionContext {
            memory_size: 0,
            accessed_storage_keys: Vec::new(),
            accessed_addresses: Vec::new(),
            call_depth: 0,
            is_static: false,
            gas_price: 0,
            gas_limit: 0,
            gas_remaining: 0,
            current_address: Vec::new(),
            caller_address: Vec::new(),
            call_value: 0,
        };
        proof {
            assert(r@.warm_storage =~= Set::empty());
            assert(r@.warm_addresses =~= Set::empty());
            assert(r@.current_address =~= Seq::empty());
            assert(r@.caller_address =~= Seq::empty());
        }
        r
    }
}

impl ExecutionContext {
    /// The lists of warm slots and warm addresses hold nothing twice.
    pub open spec fn lists_each_once(&self) -> bool {
        slots_are_distinct(self.accessed_storage_keys@) && addresses_are_distinct(
            self.accessed_addresses@,
        )
    }

    /// Create a new execution context with default values.
    pub fn new() -> (r: Self)
        ensures
            r@ == initial_context(),
            r.lists_each_once(),
    {
        let r = ExecutionContext {
            memory_size: 0,
            accessed_storage_keys: Vec::new(),
            accessed_addresses: Vec::new(),
            call_depth: 0,
            is_static: false,
            gas_price: 20_000_000_000,
            gas_limit: 30_000_000,
            gas_remaining: 1_000_000,
            current_address: zero_address_bytes(),
            caller_address: zero_address_bytes(),
            call_value: 0,
        };
        proof {
            assert(r@.warm_storage =~= Set::empty());
            assert(r@.warm_addresses =~= Set::empty());
        }
        r
    }

    /// Check if a storage slot has been accessed (is warm).
    pub fn is_storage_warm(&self, address: &[u8], key: &[u8]) -> (warm: bool)
        ensures
            warm == self@.warm_storage.contains((address@, key@)),
    {
        let mut i: usize = 0;
        while i < self.accessed_storage_keys.len()
            invariant
                i <= self.accessed_storage_keys.len(),
                forall|j: int|
                    0 <= j < i ==> !((#[trigger] self.accessed_storage_keys@[j]).0@ == address@
                        && self.accessed_storage_keys@[j].1@ == key@),
            decreases self.accessed_storage_keys.len() - i,
        {
            let slot = &self.accessed_storage_keys[i];
            if bytes_equal(slot.0.as_slice(), address) && bytes_equal(slot.1.as_slice(), key) {
                return true;
            }
            i += 1;
        }
        false
    }

    /// Check if an address has been accessed (is warm).
    pub fn is_address_warm(&self, address: &[u8]) -> (warm: bool)
        ensures
            warm == self@.warm_addresses.contains(address@),
    {
        let mut i: usize = 0;
        while i < self.accessed_addresses.len()
            invariant
                i <= self.accessed_addresses.len(),
                forall|j: int| 0 <= j < i ==> (#[trigger] self.accessed_addresses@[j])@ != address@,
            decreases self.accessed_addresses.len() - i,
        {
            if bytes_equal(self.accessed_addresses[i].as_slice(), address) {
                return true;
            }
            i += 1;
        }
        false
    }

    /// Mark a storage slot as accessed (warm). Marking a warm slot
    /// changes nothing.
    pub fn mark_storage_accessed(&mut self, address: &[u8], key: &[u8])
        ensures
            final(self)@ == with_warm_slot(old(self)@, address@, key@),
            old(self).lists_each_once() ==> final(self).lists_each_once(),
    {
        if !self.is_storage_warm(address, key) {
            let slot = (slice_to_vec(address), slice_to_vec(key));
            let ghost before = self.accessed_storage_keys@;
            self.accessed_storage_keys.push(slot);
            proof {
                let after = self.accessed_storage_keys@;
                assert forall|p: (Seq<u8>, Seq<u8>)| slot_set(after).contains(p) <==> slot_set(
                    before,
                ).insert((address@, key@)).contains(p) by {
                    if slot_set(after).contains(p) {
                        let i = choose|i: int|
                            0 <= i < after.len() && (#[trigger] after[i]).0@ == p.0 && after[i].1@ == p.1;
                        if i < before.len() {
                            assert(before[i].0@ == p.0 && before[i].1@ == p.1);
                        }
                    }
                    if slot_set(before).contains(p) {
                        let i = choose|i: int|
                            0 <= i < before.len() && (#[trigger] before[i]).0@ == p.0 && before[i].1@
                                == p.1;
                        assert(after[i].0@ == p.0 && after[i].1@ == p.1);
                    }
                    if p == (address@, key@) {
                        assert(after[before.len() as int].0@ == p.0);
                    }
                }
                assert(slot_set(after) =~= slot_set(before).insert((address@, key@)));
            }
        } else {
            proof {
                assert(self@.warm_storage.insert((address@, key@)) =~= self@.warm_storage);
            }
        }
    }

    /// Mark an address as accessed (warm). Marking a warm address
    /// changes nothing.
    pub fn mark_address_accessed(&mut self, address: &[u8])
        ensures
            final(self)@ == with_warm_address(old(self)@, address@),
            old(self).lists_each_once() ==> final(self).lists_each_once(),
    {
        if !self.is_address_warm(address) {
            let ghost before = self.accessed_addresses@;
            self.accessed_addresses.push(slice_to_vec(address));
            proof {
                let after = self.accessed_addresses@;
                assert forall|a: Seq<u8>| address_set(after).contains(a) <==> address_set(
                    before,
                ).insert(address@).contains(a) by {
                    if address_set(after).contains(a) {
                        let i = choose|i: int| 0 <= i < after.len() && (#[trigger] after[i])@ == a;
                        if i < before.len() {
                            assert(before[i]@ == a);
                        }
                    }
                    if address_set(before).contains(a) {
                        let i = choose|i: int| 0 <= i < before.len() && (#[trigger] before[i])@ == a;
                        assert(after[i]@ == a);
                    }
                    if a == address@ {
                        assert(after[before.len() as int]@ == a);
                    }
                }
                assert(address_set(after) =~= address_set(before).insert(address@));
            }
        } else {
            proof {
                assert(self@.warm_addresses.insert(address@) =~= self@.warm_addresses);
            }
        }
    }

    /// Update memory size if the new size is larger.
    pub fn expand_memory(&mut self, new_size: usize)
        ensures
            final(self)@ == with_memory(old(self)@, new_size),
            old(self).lists_each_once() ==> final(self).lists_each_once(),
    {
        if new_size > self.memory_size {
            self.memory_size = new_size;
        }
    }

    /// Enter a new call frame (increment depth, which stops at 255).
    pub fn enter_call(&mut self)
        ensures
            final(self)@ == with_call_entered(old(self)@),
            old(self).lists_each_once() ==> final(self).lists_each_once(),
    {
        if self.call_depth < u8::MAX {
            self.call_depth += 1;
        }
    }

    /// Exit a call frame (decrement depth, which stops at 0).
    pub fn exit_call(&mut self)
        ensures
            final(self)@ == with_call_exited(old(self)@),
            old(self).lists_each_once() ==> final(self).lists_each_once(),
    {
        if self.call_depth > 0 {
            self.call_depth -= 1;
        }
    }

    /// Set static call mode.
    pub fn set_static(&mut self, is_static: bool)
        ensures
            final(self)@ == (ContextView { is_static, ..old(self)@ }),
            old(self).lists_each_once() ==> final(self).lists_each_once(),
    {
        self.is_static = is_static;
    }

    /// Consume gas from remaining amount. Fails, and changes nothing,
    /// when more is asked for than is left.
    pub fn consume_gas(&mut self, amount: u64) -> (r: Result<(), GasError>)
        ensures
            amount > old(self)@.gas_remaining ==> r == Err::<(), GasError>(
                GasError::OutOfGas { requested: amount, available: old(self)@.gas_remaining },
            ) && final(self)@ == old(self)@,
            amount <= old(self)@.gas_remaining ==> r is Ok && final(self)@ == (ContextView {
                gas_remaining: (old(self)@.gas_remaining - amount) as u64,
                ..old(self)@
            }),
            old(self).lists_each_once() ==> final(self).lists_each_once(),
    {
        if self.gas_remaining < amount {
            Err(GasError::OutOfGas { requested: amount, available: self.gas_remaining })
        } else {
            self.gas_remaining -= amount;
            Ok(())
        }
    }

    /// Get the gas available for a sub-call: all but one 64th of what is
    /// left (EIP-150).
    pub fn available_call_gas(&self) -> (gas: u64)
        ensures
            gas == self@.gas_remaining - self@.gas_remaining / 64,
    {
        self.gas_remaining - (self.gas_remaining / 64)
    }

    /// Reset context for a new transaction.
    pub fn reset_for_new_transaction(&mut self)
        ensures
            final(self)@ == reset_context(old(self)@),
            final(self).lists_each_once(),
    {
        self.accessed_storage_keys.clear();
        self.accessed_addresses.clear();
        self.call_depth = 0;
        self.is_static = false;
        self.memory_size = 0;
        proof {
            assert(self@.warm_storage =~= Set::empty());
            assert(self@.warm_addresses =~= Set::empty());
        }
    }

    /// Clone context for simulation: what is done to the copy leaves
    /// this context as it is.
    pub fn simulate(&self) -> (r: Self)
        ensures
            r@ == self@,
            self.lists_each_once() ==> r.lists_each_once(),
    {
        self.clone()
    }
}

/// Growing memory twice to the same size is growing it once: the second
/// call leaves the size where the first one put it.
pub proof fn lemma_expand_memory_idempotent(c: ContextView, new_size: usize)
    ensures
        with_memory(with_memory(c, new_size), new_size) == with_memory(c, new_size),
        with_memory(c, new_size).memory_size >= c.memory_size,
        with_memory(c, new_size).memory_size >= new_size,
{
}

/// A slot is cold in a fresh context, warm after it was marked once, and
/// marking it again changes nothing.
pub proof fn lemma_marking_a_slot(c: ContextView, address: Seq<u8>, key: Seq<u8>)
    ensures
        !initial_context().warm_storage.contains((address, key)),
        with_warm_slot(c, address, key).warm_storage.contains((address, key)),
        with_warm_slot(with_warm_slot(c, address, key), address, key) == with_warm_slot(
            c,
            address,
            key,
        ),
{
    assert(c.warm_storage.insert((address, key)).insert((address, key)) =~= c.warm_storage.insert(
        (address, key),
    ));
}

/// Marking a slot changes the warmth of no other slot: a slot that is
/// warm stays warm, and a slot that is cold stays cold unless it is the
/// one that was marked.
pub proof fn lemma_marking_touches_one_slot(
    c: ContextView,
    address: Seq<u8>,
    key: Seq<u8>,
    other: (Seq<u8>, Seq<u8>),
)
    ensures
        c.warm_storage.contains(other) ==> with_warm_slot(c, address, key).warm_storage.contains(
            other,
        ),
        other != (address, key) ==> (with_warm_slot(c, address, key).warm_storage.contains(other)
            <==> c.warm_storage.contains(other)),
{
}

/// No step of a simulation but a reset makes a warm slot or address
/// cold: marking, growing memory, entering and leaving calls keep them.
pub proof fn lemma_warmth_persists(
    c: ContextView,
    slot: (Seq<u8>, Seq<u8>),
    address: Seq<u8>,
    key: Seq<u8>,
    new_size: usize,
)
    requires
        c.warm_storage.contains(slot),
    ensures
        with_warm_slot(c, address, key).warm_storage.contains(slot),
        with_warm_address(c, address).warm_storage.contains(slot),
        with_memory(c, new_size).warm_storage.contains(slot),
        with_call_entered(c).warm_storage.contains(slot),
        with_call_exited(c).warm_storage.contains(slot),
{
}

/// Only marking a slot warms a slot: marking an address, growing memory,
/// entering and leaving calls leave the warm slots as they are, so a
/// slot that is cold stays cold until it is marked itself.
pub proof fn lemma_only_marking_warms_slots(c: ContextView, address: Seq<u8>, new_size: usize)
    ensures
        with_warm_address(c, address).warm_storage == c.warm_storage,
        with_memory(c, new_size).warm_storage == c.warm_storage,
        with_call_entered(c).warm_storage == c.warm_storage,
        with_call_exited(c).warm_storage == c.warm_storage,
{
}

/// Builder pattern for creating execution contexts.
pub struct ExecutionContextBuilder {
    context: ExecutionContext,
}

impl View for ExecutionContextBuilder {
    type V = ContextView;

    /// The context that `build` would hand out.
    closed spec fn view(&self) -> ContextView {
        self.context@
    }
}

impl ExecutionContextBuilder {
    /// The context that `build` would hand out lists nothing twice.
    pub closed spec fn lists_each_once(&self) -> bool {
        self.context.lists_each_once()
    }

    /// Create a new builder, which starts from the initial context.
    pub fn new() -> (b: Self)
        ensures
            b@ == initial_context(),
            b.lists_each_once(),
    {
        ExecutionContextBuilder { context: ExecutionContext::new() }
    }

    /// Set the current contract address.
    pub fn with_address(self, address: Vec<u8>) -> (b: Self)
        ensures
            b@ == (ContextView { current_address: address@, ..self@ }),
            self.lists_each_once() ==> b.lists_each_once(),
    {
        let mut context = self.context;
        context.current_address = address;
        ExecutionContextBuilder { context }
    }

    /// Set the caller address.
    pub fn with_caller(self, caller: Vec<u8>) -> (b: Self)
        ensures
            b@ == (ContextView { caller_address: caller@, ..self@ }),
            self.lists_each_once() ==> b.lists_each_once(),
    {
        let mut context = self.context;
        context.caller_address = caller;
        ExecutionContextBuilder { context }
    }

    /// Set the call value.
    pub fn with_value(self, value: u64) -> (b: Self)
        ensures
            b@ == (ContextView { call_value: value, ..self@ }),
            self.lists_each_once() ==> b.lists_each_once(),
    {
        let mut context = self.context;
        context.call_value = value;
        ExecutionContextBuilder { context }
    }

    /// Set gas parameters.
    pub fn with_gas(self, gas_remaining: u64, gas_price: u64, gas_limit: u64) -> (b: Self)
        ensures
            b@ == (ContextView { gas_remaining, gas_price, gas_limit, ..self@ }),
            self.lists_each_once() ==> b.lists_each_once(),
    {
        let mut context = self.context;
        context.gas_remaining = gas_remaining;
        context.gas_price = gas_price;
        context.gas_limit = gas_limit;
        ExecutionContextBuilder { context }
    }

    /// Pre-warm storage slots.
    pub fn with_warm_storage(self, slots: Vec<(Vec<u8>, Vec<u8>)>) -> (b: Self)
        ensures
            b@ == (ContextView {
                warm_storage: self@.warm_storage.union(slot_set(slots@)),
                ..self@
            }),
            self.lists_each_once() ==> b.lists_each_once(),
    {
        let mut context = self.context;
        let ghost start = context@;
        let mut i: usize = 0;
        proof {
            assert(start.warm_storage.union(slot_set(slots@.take(0))) =~= start.warm_storage);
        }
        while i < slots.len()
            invariant
                i <= slots.len(),
                self.lists_each_once() ==> context.lists_each_once(),
                context@ == (ContextView {
                    warm_storage: start.warm_storage.union(slot_set(slots@.take(i as int))),
                    ..start
                }),
            decreases slots.len() - i,
        {
            let ghost before = slot_set(slots@.take(i as int));
            context.mark_storage_accessed(slots[i].0.as_slice(), slots[i].1.as_slice());
            proof {
                let after = slot_set(slots@.take(i + 1));
                let added = (slots@[i as int].0@, slots@[i as int].1@);
                assert forall|p: (Seq<u8>, Seq<u8>)| after.contains(p) <==> before.insert(
                    added,
                ).contains(p) by {
                    if after.contains(p) {
                        let j = choose|j: int|
                            0 <= j < i + 1 && (#[trigger] slots@.take(i + 1)[j]).0@ == p.0
                                && slots@.take(i + 1)[j].1@ == p.1;
                        if j < i {
                            assert(slots@.take(i as int)[j].0@ == p.0);
                        }
                    }
                    if before.contains(p) {
                        let j = choose|j: int|
                            0 <= j < i && (#[trigger] slots@.take(i as int)[j]).0@ == p.0
                                && slots@.take(i as int)[j].1@ == p.1;
                        assert(slots@.take(i + 1)[j].0@ == p.0);
                    }
                    if p == added {
                        assert(slots@.take(i + 1)[i as int].0@ == p.0);
                    }
                }
                assert(after =~= before.insert(added));
                assert(start.warm_storage.union(before).insert(added)
                    =~= start.warm_storage.union(after));
            }
            i += 1;
        }
        proof {
            assert(slots@.take(slots@.len() as int) =~= slots@);
        }
        ExecutionContextBuilder { context }
    }

    /// Pre-warm addresses.
    pub fn with_warm_addresses(self, addresses: Vec<Vec<u8>>) -> (b: Self)
        ensures
            b@ == (ContextView {
                warm_addresses: self@.warm_addresses.union(address_set(addresses@)),
                ..self@
            }),
            self.lists_each_once() ==> b.lists_each_once(),
    {
        let mut context = self.context;
        let ghost start = context@;
        let mut i: usize = 0;
        proof {
            assert(start.warm_addresses.union(address_set(addresses@.take(0)))
                =~= start.warm_addresses);
        }
        while i < addresses.len()
            invariant
                i <= addresses.len(),
                self.lists_each_once() ==> context.lists_each_once(),
                context@ == (ContextView {
                    warm_addresses: start.warm_addresses.union(
                        address_set(addresses@.take(i as int)),
                    ),
                    ..start
                }),
            decreases addresses.len() - i,
        {
            let ghost before = address_set(addresses@.take(i as int));
            context.mark_address_accessed(addresses[i].as_slice());
            proof {
                let after = address_set(addresses@.take(i + 1));
                let added = addresses@[i as int]@;
                assert forall|a: Seq<u8>| after.contains(a) <==> before.insert(added).contains(
                    a,
                ) by {
                    if after.contains(a) {
                        let j = choose|j: int|
                            0 <= j < i + 1 && (#[trigger] addresses@.take(i + 1)[j])@ == a;
                        if j < i {
                            assert(addresses@.take(i as int)[j]@ == a);
                        }
                    }
                    if before.contains(a) {
                        let j = choose|j: int|
                            0 <= j < i && (#[trigger] addresses@.take(i as int)[j])@ == a;
                        assert(addresses@.take(i + 1)[j]@ == a);
                    }
                    if a == added {
                        assert(addresses@.take(i + 1)[i as int]@ == a);
                    }
                }
                assert(after =~= before.insert(added));
                assert(start.warm_addresses.union(before).insert(added)
                    =~= start.warm_addresses.union(after));
            }
            i += 1;
        }
        proof {
            assert(addresses@.take(addresses@.len() as int) =~= addresses@);
        }
        ExecutionContextBuilder { context }
    }

    /// Set static call mode.
    pub fn with_static(self, is_static: bool) -> (b: Self)
        ensures
            b@ == (ContextView { is_static, ..self@ }),
            self.lists_each_once() ==> b.lists_each_once(),
    {
        let mut context = self.context;
        context.is_static = is_static;
        ExecutionContextBuilder { context }
    }

    /// Build the execution context.
    pub fn build(self) -> (c: ExecutionContext)
        ensures
            c@ == self@,
            self.lists_each_once() ==> c.lists_each_once(),
    {
        self.context
    }
}

impl Default for ExecutionContextBuilder {
    fn default() -> (b: Self)
        ensures
            b@ == initial_context(),
            b.lists_each_once(),
    {
        ExecutionContextBuilder::new()
    }
}

} // verus!
