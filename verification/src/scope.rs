use vstd::prelude::*;
use crate::bigint::{big_clone, big_eq, big_from_u64, big_le, big_is_zero, big_sub, big_value};

verus! {

/// Gas charged by a simulated storage write.
pub const WRITE_GAS_SIM_COST: u64 = 1000;

/// Gas charged by a simulated storage read.
pub const READ_GAS_SIM_COST: u64 = 100;

/// The simulated persistent storage of one run: address to stored value.
pub struct StarknetExecScope {
    pub storage: Vec<(num_bigint::BigInt, num_bigint::BigInt)>,
}

/// The mapping a storage entry list stands for; a later entry overrides an
/// earlier one with the same address.
pub open spec fn entries_view(s: Seq<(num_bigint::BigInt, num_bigint::BigInt)>) -> Map<int, int>
    decreases s.len(),
{
    if s.len() == 0 {
        Map::empty()
    } else {
        entries_view(s.drop_last()).insert(big_value(s.last().0), big_value(s.last().1))
    }
}

/// Entry addresses are pairwise distinct.
pub open spec fn entries_wf(s: Seq<(num_bigint::BigInt, num_bigint::BigInt)>) -> bool {
    forall|i: int, j: int|
        0 <= i < j < s.len() ==> big_value(#[trigger] s[i].0) != big_value(#[trigger] s[j].0)
}

/// An entry's address and value stand in the mapping.
proof fn lemma_view_found(s: Seq<(num_bigint::BigInt, num_bigint::BigInt)>, i: int)
    requires
        entries_wf(s),
        0 <= i < s.len(),
    ensures
        entries_view(s).contains_key(big_value(s[i].0)),
        entries_view(s)[big_value(s[i].0)] == big_value(s[i].1),
    decreases s.len(),
{
    if i == s.len() - 1 {
    } else {
        lemma_view_found(s.drop_last(), i);
    }
}

/// An address on no entry is not in the mapping.
proof fn lemma_view_absent(s: Seq<(num_bigint::BigInt, num_bigint::BigInt)>, k: int)
    requires
        forall|i: int| 0 <= i < s.len() ==> big_value(#[trigger] s[i].0) != k,
    ensures
        !entries_view(s).contains_key(k),
    decreases s.len(),
{
    if s.len() > 0 {
        lemma_view_absent(s.drop_last(), k);
    }
}

impl StarknetExecScope {
    /// The mapping this scope's storage stands for.
    pub open spec fn view_map(&self) -> Map<int, int> {
        entries_view(self.storage@)
    }

    /// The scope's entries carry pairwise distinct addresses.
    pub open spec fn wf(&self) -> bool {
        entries_wf(self.storage@)
    }

    /// A scope with empty storage.
    pub fn new() -> (r: Self)
        ensures
            r.wf(),
            r.view_map() == Map::<int, int>::empty(),
    {
        StarknetExecScope { storage: Vec::new() }
    }

    /// The value stored at `addr`, zero where nothing was stored.
    pub fn storage_read_value(&self, addr: &num_bigint::BigInt) -> (r: num_bigint::BigInt)
        requires
            self.wf(),
        ensures
            big_value(r) == if self.view_map().contains_key(big_value(*addr)) {
                self.view_map()[big_value(*addr)]
            } else {
                0
            },
    {
        let n: usize = self.storage.len();
        let mut i: usize = 0;
        while i < n
            invariant
                self.wf(),
                n == self.storage@.len(),
                i <= n,
                forall|j: int| 0 <= j < i ==> big_value(#[trigger] self.storage@[j].0) != big_value(
                    *addr,
                ),
            decreases n - i,
        {
            if big_eq(&self.storage[i].0, addr) {
                proof {
                    lemma_view_found(self.storage@, i as int);
                }
                return big_clone(&self.storage[i].1);
            }
            i += 1;
        }
        proof {
            lemma_view_absent(self.storage@, big_value(*addr));
        }
        big_from_u64(0)
    }

    /// Stores `value` at `addr`, replacing what was there.
    pub fn storage_insert(
        &mut self,
        addr: num_bigint::BigInt,
        value: num_bigint::BigInt,
    )
        requires
            old(self).wf(),
        ensures
            final(self).wf(),
            final(self).view_map() == old(self).view_map().insert(
                big_value(addr),
                big_value(value),
            ),
    {
        let n: usize = self.storage.len();
        let mut i: usize = 0;
        while i < n
            invariant
                self.wf(),
                self.storage@ == old(self).storage@,
                n == self.storage@.len(),
                i <= n,
                forall|j: int| 0 <= j < i ==> big_value(#[trigger] self.storage@[j].0) != big_value(
                    addr,
                ),
            decreases n - i,
        {
            if big_eq(&self.storage[i].0, &addr) {
                proof {
                    lemma_set_entry(self.storage@, i as int, addr, value);
                }
                self.storage.set(i, (addr, value));
                return ;
            }
            i += 1;
        }
        proof {
            lemma_view_absent(self.storage@, big_value(addr));
            assert(self.storage@.push((addr, value)).drop_last() =~= self.storage@);
        }
        self.storage.push((addr, value));
    }
}

/// Replacing the value of the entry carrying an address updates the
/// mapping at that address and keeps addresses distinct.
proof fn lemma_set_entry(
    s: Seq<(num_bigint::BigInt, num_bigint::BigInt)>,
    i: int,
    addr: num_bigint::BigInt,
    value: num_bigint::BigInt,
)
    requires
        entries_wf(s),
        0 <= i < s.len(),
        big_value(s[i].0) == big_value(addr),
    ensures
        entries_wf(s.update(i, (addr, value))),
        entries_view(s.update(i, (addr, value))) == entries_view(s).insert(
            big_value(addr),
            big_value(value),
        ),
    decreases s.len(),
{
    let t = s.update(i, (addr, value));
    if i == s.len() - 1 {
        assert(t.drop_last() =~= s.drop_last());
        assert(entries_view(t) =~= entries_view(s).insert(big_value(addr), big_value(value)));
    } else {
        lemma_set_entry(s.drop_last(), i, addr, value);
        assert(t.drop_last() =~= s.drop_last().update(i, (addr, value)));
        assert(t.last() == s.last());
        assert(big_value(s.last().0) != big_value(addr));
        assert(entries_view(t) == entries_view(t.drop_last()).insert(
            big_value(t.last().0),
            big_value(t.last().1),
        ));
        assert(entries_view(t) =~= entries_view(s).insert(big_value(addr), big_value(value)));
    }
}

/// What a storage write does: with domain zero and enough gas the store
/// changes and the write cost is charged; otherwise everything stays and
/// the revert reason is one.
pub open spec fn write_outcome(storage: Map<int, int>, gas: int, domain: int, addr: int, value: int) -> (
    Map<int, int>,
    int,
    int,
) {
    if domain == 0 && gas >= WRITE_GAS_SIM_COST {
        (storage.insert(addr, value), gas - WRITE_GAS_SIM_COST, 0)
    } else {
        (storage, gas, 1)
    }
}

/// What a storage read does: with domain zero and enough gas the stored
/// value (zero if absent) comes back and the read cost is charged;
/// otherwise gas stays, the revert reason is one, and nothing is read.
pub open spec fn read_outcome(storage: Map<int, int>, gas: int, domain: int, addr: int) -> (
    int,
    int,
    Option<int>,
) {
    if domain == 0 && gas >= READ_GAS_SIM_COST {
        (
            gas - READ_GAS_SIM_COST,
            0,
            Some(if storage.contains_key(addr) {
                storage[addr]
            } else {
                0
            }),
        )
    } else {
        (gas, 1, None)
    }
}

/// Runs the storage-write rule against the scope: returns the updated gas
/// counter and the revert reason.
pub fn storage_write_syscall(
    scope: &mut StarknetExecScope,
    gas_counter: &num_bigint::BigInt,
    addr_domain: &num_bigint::BigInt,
    addr: num_bigint::BigInt,
    value: num_bigint::BigInt,
) -> (r: (num_bigint::BigInt, num_bigint::BigInt))
    requires
        old(scope).wf(),
    ensures
        final(scope).wf(),
        ({
            let (s2, gas2, revert) = write_outcome(
                old(scope).view_map(),
                big_value(*gas_counter),
                big_value(*addr_domain),
                big_value(addr),
                big_value(value),
            );
            final(scope).view_map() == s2 && big_value(r.0) == gas2 && big_value(r.1) == revert
        }),
{
    let cost: num_bigint::BigInt = big_from_u64(WRITE_GAS_SIM_COST);
    if big_is_zero(addr_domain) && big_le(&cost, gas_counter) {
        scope.storage_insert(addr, value);
        (big_sub(gas_counter, &cost), big_from_u64(0))
    } else {
        (big_clone(gas_counter), big_from_u64(1))
    }
}

/// Runs the storage-read rule against the scope: returns the updated gas
/// counter, the revert reason, and the read value where the read went
/// through.
pub fn storage_read_syscall(
    scope: &StarknetExecScope,
    gas_counter: &num_bigint::BigInt,
    addr_domain: &num_bigint::BigInt,
    addr: &num_bigint::BigInt,
) -> (r: (num_bigint::BigInt, num_bigint::BigInt, Option<num_bigint::BigInt>))
    requires
        scope.wf(),
    ensures
        ({
            let (gas2, revert, read) = read_outcome(
                scope.view_map(),
                big_value(*gas_counter),
                big_value(*addr_domain),
                big_value(*addr),
            );
            &&& big_value(r.0) == gas2
            &&& big_value(r.1) == revert
            &&& match r.2 {
                Some(v) => read == Some(big_value(v)),
                None => read is None,
            }
        }),
{
    let cost: num_bigint::BigInt = big_from_u64(READ_GAS_SIM_COST);
    if big_is_zero(addr_domain) && big_le(&cost, gas_counter) {
        let value = scope.storage_read_value(addr);
        (big_sub(gas_counter, &cost), big_from_u64(0), Some(value))
    } else {
        (big_clone(gas_counter), big_from_u64(1), None)
    }
}

/// A written value is what the next read of the same address in the same
/// run returns; the read charges its exact cost and does not revert.
pub proof fn lemma_write_then_read(
    storage: Map<int, int>,
    write_gas: int,
    read_gas: int,
    addr: int,
    value: int,
)
    requires
        write_gas >= WRITE_GAS_SIM_COST,
        read_gas >= READ_GAS_SIM_COST,
    ensures
        ({
            let (s2, gas2, revert) = write_outcome(storage, write_gas, 0, addr, value);
            &&& gas2 == write_gas - WRITE_GAS_SIM_COST
            &&& revert == 0
            &&& read_outcome(s2, read_gas, 0, addr) == (
                read_gas - READ_GAS_SIM_COST,
                0int,
                Some(value),
            )
        }),
{
}

/// Reading an address nothing was written to returns zero, charges the
/// read cost, and does not revert.
pub proof fn lemma_read_unwritten(storage: Map<int, int>, gas: int, addr: int)
    requires
        gas >= READ_GAS_SIM_COST,
        !storage.contains_key(addr),
    ensures
        read_outcome(storage, gas, 0, addr) == (gas - READ_GAS_SIM_COST, 0int, Some(0int)),
{
}

/// A write with a nonzero domain or too little gas leaves the storage and
/// the gas counter as they were and reverts; so does such a read.
pub proof fn lemma_revert_leaves_state(
    storage: Map<int, int>,
    gas: int,
    domain: int,
    addr: int,
    value: int,
)
    ensures
        domain != 0 || gas < WRITE_GAS_SIM_COST ==> write_outcome(storage, gas, domain, addr, value)
            == (storage, gas, 1int),
        domain != 0 || gas < READ_GAS_SIM_COST ==> read_outcome(storage, gas, domain, addr) == (
            gas,
            1int,
            None::<int>,
        ),
{
}

/// The gas boundary: a write with exactly the write cost succeeds and
/// leaves zero gas; one short by one reverts. The same holds of reads at
/// the read cost.
pub proof fn lemma_gas_boundary(storage: Map<int, int>, addr: int, value: int)
    ensures
        write_outcome(storage, WRITE_GAS_SIM_COST as int, 0, addr, value) == (
            storage.insert(addr, value),
            0int,
            0int,
        ),
        write_outcome(storage, WRITE_GAS_SIM_COST - 1, 0, addr, value) == (
            storage,
            WRITE_GAS_SIM_COST - 1,
            1int,
        ),
        read_outcome(storage, READ_GAS_SIM_COST as int, 0, addr).0 == 0,
        read_outcome(storage, READ_GAS_SIM_COST as int, 0, addr).1 == 0,
        read_outcome(storage, READ_GAS_SIM_COST - 1, 0, addr) == (
            READ_GAS_SIM_COST - 1,
            1int,
            None::<int>,
        ),
{
}

} // verus!
