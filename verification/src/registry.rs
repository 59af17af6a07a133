//! The voter registry: a host map from voter address to a "has voted" marker.
//!
//! The map lives in the Soroban host and is reached through `soroban_sdk::Map`.
//! Nothing in this file is proved. It declares the host types that the ledger
//! carries, names what a registry holds, and states for each host call that
//! the ledger makes what the SDK documents of it.
//!
//! A `soroban_sdk::Map<K, V>` is a typed window on an untyped host object: the
//! SDK does not promise that every pair in it is a `K` with a `V`. The names
//! below are therefore defined for every host map, and none of the calls made
//! here decodes a stored value, so none can fail on an ill-typed one.
//!
//! Every host call can end the whole invocation when the host's resource
//! budget is spent; like running out of memory, that is outside these
//! contracts. All handles are taken to belong to one environment, as they do
//! inside a contract invocation.

use soroban_sdk::{Address, Env};
use vstd::prelude::*;

verus! {

/// `soroban_sdk::Env`, the handle to the host environment. Opaque here.
#[verifier::external_type_specification]
#[verifier::external_body]
pub struct ExEnv(Env);

/// `soroban_sdk::Address`, the opaque identifier of an account or a contract.
/// Two addresses are equal in specifications when they identify the same
/// party, which is how the host compares them as map keys.
#[verifier::external_type_specification]
#[verifier::external_body]
pub struct ExAddress(Address);

/// `soroban_sdk::Map`, the host's dictionary with at most one pair per key.
/// Opaque here; what a registry holds is named by [`registry_markers`] and
/// [`registry_size`].
#[verifier::external_type_specification]
#[verifier::external_body]
#[verifier::reject_recursive_types(K)]
#[verifier::reject_recursive_types(V)]
pub struct ExHostMap<K, V>(soroban_sdk::Map<K, V>);

/// The markers of a registry: each address that is a key of the host map,
/// mapped to `Some(b)` where the value stored for it is the boolean `b` and
/// to `None` where it is anything else.
pub uninterp spec fn registry_markers(registry: soroban_sdk::Map<Address, bool>) -> Map<Address, Option<bool>>;

/// The number of pairs in the host map, whatever their keys are.
pub uninterp spec fn registry_size(registry: soroban_sdk::Map<Address, bool>) -> nat;

/// The markers of a registry that nobody has signed yet.
pub open spec fn no_markers() -> Map<Address, Option<bool>> {
    Map::empty()
}

/// The size of a registry after a marker was set for `voter`: one more pair
/// if the voter is new, the same number if a marker was replaced.
pub open spec fn size_with(markers: Map<Address, Option<bool>>, size: nat, voter: Address) -> nat {
    if markers.contains_key(voter) {
        size
    } else {
        size + 1
    }
}

/// Calls `soroban_sdk::Map::new`, which asks the host for a new map object.
/// Claimed: the map holds no pair.
#[verifier::external_body]
pub(crate) fn registry_new(env: &Env) -> (registry: soroban_sdk::Map<Address, bool>)
    ensures
        registry_markers(registry) == no_markers(),
        registry_size(registry) == 0,
{
    soroban_sdk::Map::new(env)
}

/// Calls `soroban_sdk::Map::contains_key`, documented to return true if a
/// pair with the given key exists in the map. The stored value is not read.
#[verifier::external_body]
pub(crate) fn registry_contains(
    registry: &soroban_sdk::Map<Address, bool>,
    voter: &Address,
) -> (found: bool)
    ensures
        found == registry_markers(*registry).contains_key(*voter),
{
    registry.contains_key(voter.clone())
}

/// Calls `soroban_sdk::Map::set`, documented to store the value for the key
/// and to replace the value of a key that is present. Claimed: the markers
/// afterwards are the old ones with this one put in, and the map has grown by
/// one pair exactly if the key was new.
#[verifier::external_body]
pub(crate) fn registry_set(
    registry: &mut soroban_sdk::Map<Address, bool>,
    voter: Address,
    marker: bool,
)
    ensures
        registry_markers(*final(registry)) == registry_markers(*old(registry)).insert(
            voter,
            Some(marker),
        ),
        registry_size(*final(registry)) == size_with(
            registry_markers(*old(registry)),
            registry_size(*old(registry)),
            voter,
        ),
{
    registry.set(voter, marker)
}

/// Calls `soroban_sdk::Map::len`, documented to return the number of
/// key-value pairs in the map.
#[verifier::external_body]
pub(crate) fn registry_len(registry: &soroban_sdk::Map<Address, bool>) -> (len: u32)
    ensures
        len == registry_size(*registry),
{
    registry.len()
}

/// Calls `Clone::clone` of `soroban_sdk::Map`, which copies the handle: the
/// copy stands for the same host map.
#[verifier::external_body]
pub(crate) fn registry_clone(
    registry: &soroban_sdk::Map<Address, bool>,
) -> (copy: soroban_sdk::Map<Address, bool>)
    ensures
        copy == *registry,
{
    registry.clone()
}

} // verus!
