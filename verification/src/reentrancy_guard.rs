//! The guard that keeps one operation from starting inside another.

use soroban_sdk::Env;
use vstd::prelude::*;

use crate::host::{
    host_view, instance_has, instance_remove, instance_set_flag, pending_auths, HostView,
    StoredValue,
};
use crate::types::DataKey;

verus! {

/// Whether the guard is taken.
pub fn is_held(env: &Env) -> (r: bool)
    ensures
        r == host_view(*env).guarded(),
{
    instance_has(env, DataKey::ReentrancyGuard.name())
}

/// Takes the guard, which must be free.
pub fn acquire(env: &mut Env)
    requires
        !host_view(*old(env)).guarded(),
    ensures
        host_view(*final(env)) == (HostView {
            instance: host_view(*old(env)).instance.insert(
                DataKey::ReentrancyGuard.spec_name(),
                StoredValue::Flag(true),
            ),
            ..host_view(*old(env))
        }),
        pending_auths(*final(env)) == pending_auths(*old(env)),
{
    instance_set_flag(env, DataKey::ReentrancyGuard.name(), true);
}

/// Frees the guard.
pub fn release(env: &mut Env)
    ensures
        host_view(*final(env)) == (HostView {
            instance: host_view(*old(env)).instance.remove(DataKey::ReentrancyGuard.spec_name()),
            ..host_view(*old(env))
        }),
        pending_auths(*final(env)) == pending_auths(*old(env)),
{
    instance_remove(env, DataKey::ReentrancyGuard.name());
}

} // verus!
