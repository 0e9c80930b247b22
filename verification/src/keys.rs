//! The fixed names this engine works with: the store keys it backs up,
//! restores or deletes, the store's file name, and the host application's
//! process name.

use vstd::prelude::*;

verus! {

/// The session-state key that restore writes back.
pub open spec fn spec_agent_state_key() -> Seq<char> {
    "jetskiStateSync.agentManagerInitState"@
}

pub fn agent_state_key() -> (r: &'static str)
    ensures
        r@ == spec_agent_state_key(),
{
    "jetskiStateSync.agentManagerInitState"
}

/// The cached auth flag that a restored identity must not inherit.
pub open spec fn spec_auth_status_key() -> Seq<char> {
    "antigravityAuthStatus"@
}

pub fn auth_status_key() -> (r: &'static str)
    ensures
        r@ == spec_auth_status_key(),
{
    "antigravityAuthStatus"
}

/// The opaque storage marker, preserved verbatim and never interpreted.
pub open spec fn spec_storage_marker_key() -> Seq<char> {
    "__$__targetStorageMarker"@
}

pub fn storage_marker_key() -> (r: &'static str)
    ensures
        r@ == spec_storage_marker_key(),
{
    "__$__targetStorageMarker"
}

/// The allow-listed keys a backup captures and a restore writes back. The
/// auth status key is deliberately not among them.
pub open spec fn spec_allow_listed_keys() -> Seq<Seq<char>> {
    seq![spec_agent_state_key()]
}

pub fn allow_listed_keys() -> (r: Vec<String>)
    ensures
        r.deep_view() == spec_allow_listed_keys(),
{
    let mut v: Vec<String> = Vec::new();
    v.push(agent_state_key().to_owned());
    proof {
        assert(v.deep_view() =~= spec_allow_listed_keys());
    }
    v
}

/// The store's file name inside the host application's data directory.
pub open spec fn spec_db_file_name() -> Seq<char> {
    "state.vscdb"@
}

pub fn db_file_name() -> (r: &'static str)
    ensures
        r@ == spec_db_file_name(),
{
    "state.vscdb"
}

/// The host application's exact process name.
pub open spec fn spec_host_process_name() -> Seq<char> {
    "Antigravity"@
}

pub fn host_process_name() -> (r: &'static str)
    ensures
        r@ == spec_host_process_name(),
{
    "Antigravity"
}

} // verus!
