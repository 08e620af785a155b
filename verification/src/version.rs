//! The version of the runtime, as the node and its peers see it.
use vstd::prelude::*;

use std::collections::HashSet;

verus! {

/// The version information of a runtime, but for the list of the APIs it
/// implements.
pub struct RuntimeVersionInfo {
    /// Identifies the runtime's specification; nodes refuse blocks authored by
    /// a runtime of another name.
    pub spec_name: &'static str,
    /// Name of the implementation of the specification.
    pub impl_name: &'static str,
    /// Version of the authorship interface.
    pub authoring_version: u32,
    /// Version of the runtime specification.
    pub spec_version: u32,
    /// Version of the implementation of the specification.
    pub impl_version: u32,
    /// Version of the format of transactions.
    pub transaction_version: u32,
    /// Version of the state trie.
    pub state_version: u8,
}

/// The version of this runtime.
pub fn version() -> (v: RuntimeVersionInfo)
    ensures
        v.spec_name@ == "metaquity-network"@,
        v.impl_name@ == "metaquity-network"@,
        v.authoring_version == 1,
        v.spec_version == 100,
        v.impl_version == 0,
        v.transaction_version == 1,
        v.state_version == 1,
{
    RuntimeVersionInfo {
        spec_name: "metaquity-network",
        impl_name: "metaquity-network",
        authoring_version: 1,
        spec_version: 100,
        impl_version: 0,
        transaction_version: 1,
        state_version: 1,
    }
}

/// The version of the runtime when it is compiled natively.
pub struct NativeVersionInfo {
    /// The version of the runtime.
    pub runtime_version: RuntimeVersionInfo,
    /// Spec versions of other runtimes that this native runtime can author
    /// blocks for.
    pub can_author_with: HashSet<u32>,
}

/// The version information used to identify this runtime when compiled
/// natively: the runtime's version, and no other spec version it can author with.
pub fn native_version() -> (v: NativeVersionInfo)
    ensures
        v.runtime_version.spec_name@ == "metaquity-network"@,
        v.runtime_version.impl_name@ == "metaquity-network"@,
        v.runtime_version.authoring_version == 1,
        v.runtime_version.spec_version == 100,
        v.runtime_version.impl_version == 0,
        v.runtime_version.transaction_version == 1,
        v.runtime_version.state_version == 1,
        v.can_author_with@ == Set::<u32>::empty(),
{
    NativeVersionInfo { runtime_version: version(), can_author_with: HashSet::new() }
}

} // verus!
