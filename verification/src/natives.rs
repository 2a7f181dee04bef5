//! Native-function registrations and the catalogue the machine is built
//! from: the reserved built-in slots plus the registrations a gas-parameter
//! set carries.

use vstd::prelude::*;

verus! {

/// The module slot holding the machine's reserved built-in natives.
pub const RESERVED_MODULE: u64 = 0;

/// Reserved function slot: storage-table operations.
pub const TABLE_NATIVE: u64 = 1;

/// Reserved function slot: transaction metadata.
pub const TRANSACTION_CONTEXT_NATIVE: u64 = 2;

/// Reserved function slot: code publishing.
pub const CODE_NATIVE: u64 = 3;

/// Reserved function slot: content hashing.
pub const HASH_NATIVE: u64 = 4;

/// One native-function registration: the module/function slot it binds and
/// the gas cost charged per call.
#[derive(Clone, Copy, Debug, PartialEq, Eq, Structural)]
pub struct NativeRegistration {
    pub module: u64,
    pub function: u64,
    pub gas_cost: u64,
}

/// The gas-parameter set a host is created from. Besides per-call costs it
/// names the native registrations to install, and is passed through
/// unchanged into catalogue construction.
#[derive(Clone, Debug)]
pub struct NativeGasParameters {
    pub registrations: Vec<NativeRegistration>,
}

impl Default for NativeGasParameters {
    /// The empty parameter set: no registrations beyond the reserved slots.
    fn default() -> (r: Self)
        ensures
            r.registrations@ == Seq::<NativeRegistration>::empty(),
    {
        NativeGasParameters { registrations: Vec::new() }
    }
}

/// Whether two registrations claim the same module/function slot.
pub open spec fn same_slot(a: NativeRegistration, b: NativeRegistration) -> bool {
    a.module == b.module && a.function == b.function
}

/// Whether no two registrations of the catalogue claim the same slot: the
/// condition under which the machine accepts a catalogue.
pub open spec fn slots_distinct(s: Seq<NativeRegistration>) -> bool {
    forall|i: int, j: int|
        0 <= i < j < s.len() ==> !#[trigger] same_slot(s[i], s[j])
}

/// The machine's built-in catalogue: the reserved slots that every host
/// starts from and that no gas-parameter registration may collide with.
pub open spec fn base_natives() -> Seq<NativeRegistration> {
    seq![
        NativeRegistration { module: RESERVED_MODULE, function: TABLE_NATIVE, gas_cost: 0 },
        NativeRegistration { module: RESERVED_MODULE, function: TRANSACTION_CONTEXT_NATIVE, gas_cost: 0 },
        NativeRegistration { module: RESERVED_MODULE, function: CODE_NATIVE, gas_cost: 0 },
        NativeRegistration { module: RESERVED_MODULE, function: HASH_NATIVE, gas_cost: 0 },
    ]
}

/// Builds the machine's built-in catalogue.
pub fn base_natives_table() -> (r: Vec<NativeRegistration>)
    ensures
        r@ == base_natives(),
{
    let mut v: Vec<NativeRegistration> = Vec::new();
    v.push(NativeRegistration { module: RESERVED_MODULE, function: TABLE_NATIVE, gas_cost: 0 });
    v.push(NativeRegistration { module: RESERVED_MODULE, function: TRANSACTION_CONTEXT_NATIVE, gas_cost: 0 });
    v.push(NativeRegistration { module: RESERVED_MODULE, function: CODE_NATIVE, gas_cost: 0 });
    v.push(NativeRegistration { module: RESERVED_MODULE, function: HASH_NATIVE, gas_cost: 0 });
    proof {
        assert(v@ =~= base_natives());
    }
    v
}

/// Assembles the full native catalogue from a gas-parameter set: the
/// reserved built-in slots followed by the registrations the parameters
/// carry, in order.
pub fn aptos_natives(gas_params: NativeGasParameters) -> (r: Vec<NativeRegistration>)
    ensures
        r@ == base_natives() + gas_params.registrations@,
{
    let mut table = base_natives_table();
    let mut registrations = gas_params.registrations;
    table.append(&mut registrations);
    table
}

/// Decides whether a catalogue is free of slot collisions.
pub fn catalogue_slots_distinct(entries: &Vec<NativeRegistration>) -> (b: bool)
    ensures
        b == slots_distinct(entries@),
{
    let n = entries.len();
    let mut i: usize = 0;
    while i < n
        invariant
            n == entries@.len(),
            i <= n,
            forall|p: int, q: int|
                0 <= p < q < entries@.len() && p < i
                    ==> !#[trigger] same_slot(entries@[p], entries@[q]),
        decreases n - i,
    {
        let mut j: usize = i + 1;
        while j < n
            invariant
                n == entries@.len(),
                i < j,
                j <= n,
                i < n,
                forall|q: int|
                    i < q < j ==> !#[trigger] same_slot(entries@[i as int], entries@[q]),
        decreases n - j,
        {
            if entries[i].module == entries[j].module && entries[i].function == entries[j].function {
                proof {
                    assert(same_slot(entries@[i as int], entries@[j as int]));
                }
                return false;
            }
            j += 1;
        }
        i += 1;
    }
    true
}

/// The machine's own built-in catalogue is free of slot collisions, so a
/// host created from the empty gas-parameter set is always accepted.
pub proof fn lemma_base_natives_distinct()
    ensures
        slots_distinct(base_natives()),
{
}

/// Every gas-parameter set whose registrations are mutually distinct and
/// stay out of the reserved module is accepted by the catalogue: together
/// with the built-in slots it is still collision-free.
pub proof fn lemma_accepted_params(regs: Seq<NativeRegistration>)
    requires
        slots_distinct(regs),
        forall|i: int| 0 <= i < regs.len() ==> #[trigger] regs[i].module != RESERVED_MODULE,
    ensures
        slots_distinct(base_natives() + regs),
{
    let full = base_natives() + regs;
    let b = base_natives().len() as int;
    assert forall|i: int, j: int| 0 <= i < j < full.len() implies !#[trigger] same_slot(
        full[i],
        full[j],
    ) by {
        if j < b {
            assert(same_slot(base_natives()[i], base_natives()[j]) == same_slot(full[i], full[j]));
            assert(!same_slot(base_natives()[i], base_natives()[j]));
        } else if i >= b {
            assert(full[i] == regs[i - b] && full[j] == regs[j - b]);
            assert(!same_slot(regs[i - b], regs[j - b]));
        } else {
            assert(full[i] == base_natives()[i] && full[j] == regs[j - b]);
            assert(full[i].module == RESERVED_MODULE);
            assert(full[j].module != RESERVED_MODULE);
        }
    }
}

} // verus!
