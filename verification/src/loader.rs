//! Function slots and the resolver contract.
//!
//! A host supplies a symbol resolver: a callback from an entry-point name to
//! a raw function address, null when the operation is unavailable. A table
//! is loaded by invoking the resolver once per declared operation name; a
//! null answer is kept as a null slot, never reported as a load failure.

use vstd::prelude::*;

verus! {

/// One operation slot of a function table: a raw native function address,
/// null (zero) when the resolver could not find the operation.
///
/// A null slot must never be invoked; every invoking method requires its
/// slot to be non-null, so that obligation rests on the caller who checked
/// capability availability out of band.
#[derive(Clone, Copy, PartialEq, Eq, Structural, Debug)]
pub struct FnSlot {
    pub addr: u64,
}

impl FnSlot {
    /// Whether the slot holds no address.
    pub open spec fn is_null_spec(self) -> bool {
        self.addr == 0
    }

    pub fn is_null(&self) -> (r: bool)
        ensures
            r == self.is_null_spec(),
    {
        self.addr == 0
    }

    /// The null slot.
    pub fn null() -> (r: Self)
        ensures
            r.is_null_spec(),
    {
        FnSlot { addr: 0 }
    }
}

/// A resolver accepts every name: the host callback takes any entry-point
/// name and answers with an address or null.
pub open spec fn resolver_total<F: Fn(&'static str) -> FnSlot>(resolver: F) -> bool {
    forall|n: &'static str| #[trigger] call_requires(resolver, (n,))
}

/// The slot `slot` is an answer the resolver can give for the name whose
/// characters are `name`.
pub open spec fn resolves<F: Fn(&'static str) -> FnSlot>(
    resolver: F,
    name: Seq<char>,
    slot: FnSlot,
) -> bool {
    exists|n: &'static str| n@ == name && #[trigger] call_ensures(resolver, (n,), slot)
}

/// Every slot of `slots` was produced by the resolver for the name at the
/// same position of `names`: the shape of every table-load postcondition.
pub open spec fn loaded_from<F: Fn(&'static str) -> FnSlot>(
    resolver: F,
    names: Seq<Seq<char>>,
    slots: Seq<FnSlot>,
) -> bool {
    &&& slots.len() == names.len()
    &&& forall|i: int| 0 <= i < names.len() ==> resolves(resolver, names[i], #[trigger] slots[i])
}

/// The resolver's behaviour is a function of the name alone: whenever it
/// answers for a name, the address it gives is `addresses` of that name's
/// characters.
pub open spec fn resolver_fixed<F: Fn(&'static str) -> FnSlot>(
    resolver: F,
    addresses: spec_fn(Seq<char>) -> u64,
) -> bool {
    forall|n: &'static str, slot: FnSlot|
        #[trigger] call_ensures(resolver, (n,), slot) ==> slot.addr == addresses(n@)
}

/// A name the resolver answers null for loads as a null slot, and the load
/// as a whole still succeeds: absence is silent and local to the one slot.
pub proof fn lemma_unresolved_slot_is_null<F: Fn(&'static str) -> FnSlot>(
    resolver: F,
    addresses: spec_fn(Seq<char>) -> u64,
    names: Seq<Seq<char>>,
    slots: Seq<FnSlot>,
    i: int,
)
    requires
        loaded_from(resolver, names, slots),
        resolver_fixed(resolver, addresses),
        0 <= i < names.len(),
        addresses(names[i]) == 0,
    ensures
        slots[i].is_null_spec(),
{
    let n = choose|n: &'static str| n@ == names[i] && #[trigger] call_ensures(resolver, (n,), slots[i]);
    assert(slots[i].addr == addresses(n@));
}

/// Table loading is pure given the resolver's behaviour: two slot sequences
/// loaded over the same names from resolvers with one fixed behaviour are
/// equal, so independently constructed tables are interchangeable.
pub proof fn lemma_loading_is_pure<F: Fn(&'static str) -> FnSlot>(
    resolver: F,
    addresses: spec_fn(Seq<char>) -> u64,
    names: Seq<Seq<char>>,
    first: Seq<FnSlot>,
    second: Seq<FnSlot>,
)
    requires
        loaded_from(resolver, names, first),
        loaded_from(resolver, names, second),
        resolver_fixed(resolver, addresses),
    ensures
        first == second,
{
    assert forall|i: int| 0 <= i < names.len() implies first[i] == second[i] by {
        let n1 = choose|n: &'static str| n@ == names[i] && #[trigger] call_ensures(resolver, (n,), first[i]);
        let n2 = choose|n: &'static str| n@ == names[i] && #[trigger] call_ensures(resolver, (n,), second[i]);
        assert(first[i].addr == addresses(names[i]));
        assert(second[i].addr == addresses(names[i]));
    }
    assert(first =~= second);
}

} // verus!
