//! What holds of the wallet whatever it is asked: stated over the
//! mathematical registry and the outcome functions of the workflows.

use crate::error::WalletError;
use crate::identity::anonymous_bytes;
use crate::registry::{storable, RegistryView};
use crate::signer::{address_of_key, path_segments, PublicKeyRequest};
use crate::workflow::{address_outcome, count_outcome};
use vstd::prelude::*;

verus! {

/// The registry after each of `calls` has been recorded, in order.
pub open spec fn record_all(registry: RegistryView, calls: Seq<Seq<char>>) -> RegistryView
    decreases calls.len(),
{
    if calls.len() == 0 {
        registry
    } else {
        record_all(registry, calls.drop_last()).record(calls.last())
    }
}

/// Whether the call at position `i` of `calls`, made after those before it,
/// finds its address new.
pub open spec fn newly_created_at(registry: RegistryView, calls: Seq<Seq<char>>, i: int) -> bool {
    !record_all(registry, calls.take(i)).holds(calls[i])
}

/// The registry after each of `addresses` has been registered, in order.
pub open spec fn register_all(registry: RegistryView, addresses: Seq<Seq<char>>) -> RegistryView
    decreases addresses.len(),
{
    if addresses.len() == 0 {
        registry
    } else {
        register_all(registry, addresses.drop_last()).register(addresses.last())
    }
}

/// Recording never forgets: the addresses held after a run of calls are
/// those held before and those recorded, and the counters are untouched.
pub proof fn lemma_record_all_holds(registry: RegistryView, calls: Seq<Seq<char>>)
    ensures
        record_all(registry, calls).accounts.dom() == registry.accounts.dom().union(
            calls.to_set(),
        ),
        record_all(registry, calls).counters == registry.counters,
    decreases calls.len(),
{
    if calls.len() == 0 {
        assert(calls.to_set() =~= Set::<Seq<char>>::empty());
        assert(registry.accounts.dom().union(calls.to_set()) =~= registry.accounts.dom());
    } else {
        let before = calls.drop_last();
        lemma_record_all_holds(registry, before);
        assert(calls.to_set() =~= before.to_set().insert(calls.last())) by {
            assert forall|a: Seq<char>| calls.to_set().contains(a) implies before.to_set().insert(
                calls.last(),
            ).contains(a) by {
                let i = choose|i: int| 0 <= i < calls.len() && calls[i] == a;
                if i < calls.len() - 1 {
                    assert(before[i] == a);
                }
            }
            assert forall|a: Seq<char>|
                before.to_set().insert(calls.last()).contains(a) implies calls.to_set().contains(
                a,
            ) by {
                if a == calls.last() {
                    assert(calls[calls.len() - 1] == a);
                } else {
                    let i = choose|i: int| 0 <= i < before.len() && before[i] == a;
                    assert(calls[i] == a);
                }
            }
        }
        assert(registry.accounts.dom().union(before.to_set()).insert(calls.last())
            =~= registry.accounts.dom().union(calls.to_set()));
    }
}

/// Idempotent registration: recording an address a second time finds it
/// held and changes nothing.
pub proof fn lemma_record_twice(registry: RegistryView, address: Seq<char>)
    ensures
        registry.record(address).holds(address),
        registry.record(address).record(address) == registry.record(address),
{
}

/// Of two calls for the same address, in any run of calls, the later one
/// does not find it new.
pub proof fn lemma_later_call_is_not_new(
    registry: RegistryView,
    calls: Seq<Seq<char>>,
    i: int,
    j: int,
)
    requires
        0 <= i < j < calls.len(),
        calls[i] == calls[j],
    ensures
        !newly_created_at(registry, calls, j),
{
    lemma_record_all_holds(registry, calls.take(j));
    assert(calls.take(j)[i] == calls[j]);
    assert(calls.take(j).to_set().contains(calls[j]));
}

/// The first call for an address that the registry does not hold finds it
/// new: so of all calls for one such address exactly one does.
pub proof fn lemma_first_call_is_new(registry: RegistryView, calls: Seq<Seq<char>>, i: int)
    requires
        0 <= i < calls.len(),
        !registry.holds(calls[i]),
        forall|k: int| 0 <= k < i ==> calls[k] != calls[i],
    ensures
        newly_created_at(registry, calls, i),
{
    lemma_record_all_holds(registry, calls.take(i));
    if calls.take(i).to_set().contains(calls[i]) {
        let k = choose|k: int| 0 <= k < calls.take(i).len() && calls.take(i)[k] == calls[i];
        assert(calls[k] == calls[i]);
    }
}

/// Counter exactness, one step: where the `accounts` counter equals the
/// number of addresses held, it still does after any registration; and an
/// address that is held already moves nothing.
pub proof fn lemma_register_keeps_count(registry: RegistryView, address: Seq<char>)
    requires
        registry.consistent(),
    ensures
        registry.register(address).consistent(),
        registry.holds(address) ==> registry.register(address) == registry,
        registry.counters.accounts <= registry.register(address).counters.accounts,
        registry.counters.transactions == registry.register(address).counters.transactions,
{
}

/// Counter monotonicity: neither registering an address nor counting a
/// transaction lowers a counter, and each moves only its own.
pub proof fn lemma_counters_never_fall(registry: RegistryView, address: Seq<char>)
    ensures
        registry.counters.accounts <= registry.register(address).counters.accounts,
        registry.counters.transactions == registry.register(address).counters.transactions,
        registry.counters.accounts == registry.count_transaction().counters.accounts,
        registry.counters.transactions <= registry.count_transaction().counters.transactions,
{
}

/// Accounts are created once and then left alone: whatever is registered or
/// counted afterwards, an address that is held stays held, with the marker it
/// had.
pub proof fn lemma_accounts_are_kept(registry: RegistryView, held: Seq<char>, address: Seq<char>)
    requires
        registry.holds(held),
    ensures
        registry.record(address).holds(held),
        registry.record(address).accounts[held] == registry.accounts[held],
        registry.register(address).holds(held),
        registry.register(address).accounts[held] == registry.accounts[held],
        registry.count_transaction().accounts == registry.accounts,
{
}

/// Counter exactness, from the start: after any run of registrations on a
/// fresh registry the `accounts` counter equals the number of distinct
/// addresses held.
pub proof fn lemma_accounts_count_addresses(addresses: Seq<Seq<char>>)
    ensures
        register_all(RegistryView::empty(), addresses).consistent(),
    decreases addresses.len(),
{
    if addresses.len() > 0 {
        lemma_accounts_count_addresses(addresses.drop_last());
        lemma_register_keeps_count(
            register_all(RegistryView::empty(), addresses.drop_last()),
            addresses.last(),
        );
    }
}

/// Counter exactness, in full: while every address can be registered, the
/// addresses held after a run of registrations on a fresh registry are
/// exactly those of the run, and `accounts` is their number.
pub proof fn lemma_accounts_count_distinct(addresses: Seq<Seq<char>>)
    requires
        addresses.len() < u64::MAX,
        forall|i: int| 0 <= i < addresses.len() ==> storable(#[trigger] addresses[i]),
    ensures
        register_all(RegistryView::empty(), addresses).accounts.dom() == addresses.to_set(),
        register_all(RegistryView::empty(), addresses).counters.accounts
            == addresses.to_set().len(),
    decreases addresses.len(),
{
    lemma_accounts_count_addresses(addresses);
    if addresses.len() == 0 {
        assert(addresses.to_set() =~= Set::<Seq<char>>::empty());
    } else {
        let before = addresses.drop_last();
        let last = addresses.last();
        lemma_accounts_count_distinct(before);
        lemma_accounts_count_addresses(before);
        let held = register_all(RegistryView::empty(), before);
        before.lemma_cardinality_of_set();
        assert(held.counters.accounts < u64::MAX);
        assert(held.can_register(last));
        assert(addresses.to_set() =~= before.to_set().insert(last)) by {
            assert forall|a: Seq<char>| addresses.to_set().contains(a) implies before.to_set().insert(
                last,
            ).contains(a) by {
                let i = choose|i: int| 0 <= i < addresses.len() && addresses[i] == a;
                if i < addresses.len() - 1 {
                    assert(before[i] == a);
                }
            }
            assert forall|a: Seq<char>|
                before.to_set().insert(last).contains(a) implies addresses.to_set().contains(
                a,
            ) by {
                if a == last {
                    assert(addresses[addresses.len() - 1] == a);
                } else {
                    let i = choose|i: int| 0 <= i < before.len() && before[i] == a;
                    assert(addresses[i] == a);
                }
            }
        }
        if held.holds(last) {
            assert(held.accounts.dom().insert(last) =~= held.accounts.dom());
        }
    }
}

/// Determinism of the request: two requests for the public key of one
/// identity name the same derivation path and the same key.
pub proof fn lemma_same_identity_same_request(
    first: PublicKeyRequest,
    second: PublicKeyRequest,
    identity: Seq<u8>,
)
    requires
        first.is_for(identity),
        second.is_for(identity),
    ensures
        path_segments(first.derivation_path) == path_segments(second.derivation_path),
        first.key_id.algorithm == second.key_id.algorithm,
        first.key_id.name@ == second.key_id.name@,
        first.canister_id == second.canister_id,
{
}

/// Determinism of the address: it is the address of the public key, whatever
/// the registry holds and whoever asks.
pub proof fn lemma_address_depends_on_key(
    registry: RegistryView,
    identity: Seq<u8>,
    reply: Result<Vec<u8>, String>,
)
    ensures
        address_outcome(registry, identity, reply).1 matches Ok(address) ==> reply matches Ok(
            public_key,
        ) && address_of_key(public_key@) == Ok::<Seq<char>, WalletError>(address),
{
}

/// Idempotence of derivation: deriving the address of one identity again,
/// from the same public key, gives the same address and changes nothing.
pub proof fn lemma_address_is_stable(
    registry: RegistryView,
    identity: Seq<u8>,
    reply: Result<Vec<u8>, String>,
)
    requires
        address_outcome(registry, identity, reply).1 is Ok,
    ensures
        address_outcome(address_outcome(registry, identity, reply).0, identity, reply)
            == address_outcome(registry, identity, reply),
{
    let first = address_outcome(registry, identity, reply);
    let address = first.1->Ok_0;
    assert(first.0.holds(address));
}

/// Anonymous rejection: the reserved anonymous identity is refused, and the
/// registry is left as it was.
pub proof fn lemma_anonymous_is_refused(registry: RegistryView, reply: Result<Vec<u8>, String>)
    ensures
        address_outcome(registry, anonymous_bytes(), reply) == (
            registry,
            Err::<Seq<char>, WalletError>(WalletError::UnauthorizedCaller),
        ),
        count_outcome(registry, anonymous_bytes()) == (
            registry,
            Err::<u64, WalletError>(WalletError::UnauthorizedCaller),
        ),
{
}

} // verus!
