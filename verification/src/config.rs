//! The workflow's configuration: which endpoint to reach, which store and
//! key to address, what value to write, and how long to wait for the
//! backing service before connecting.

use vstd::prelude::*;
use vstd::string::StrSliceExecFns;
use vstd::string::StringSliceAdditionalSpecFns;

verus! {

/// Everything a round-trip run needs. A single run addresses exactly one
/// store and one key throughout.
pub struct Config {
    /// Endpoint of the state-store service.
    pub address: String,
    /// Name of the logical state store on the remote side.
    pub store_name: String,
    /// The key written, read back, deleted and confirmed absent.
    pub key: String,
    /// The value written under the key.
    pub value: Vec<u8>,
    /// Fixed readiness delay, in seconds, before connecting.
    pub delay_seconds: u64,
}

impl Config {
    /// A configuration is usable when its key is non-empty: keys of a
    /// record are non-empty strings.
    pub open spec fn wf(self) -> bool {
        self.key@.len() > 0
    }
}

/// The demonstration configuration: a local endpoint, the store named
/// `statestore`, the key `K1` holding `Hello World`, and a two-second
/// readiness delay.
pub fn demo_config() -> (c: Config)
    ensures
        c.address@ == "https://127.0.0.1"@,
        c.store_name@ == "statestore"@,
        c.key@ == "K1"@,
        c.value@ == "Hello World".spec_bytes(),
        c.delay_seconds == 2,
        c.wf(),
{
    proof {
        reveal_strlit("K1");
    }
    Config {
        address: "https://127.0.0.1".to_owned(),
        store_name: "statestore".to_owned(),
        key: "K1".to_owned(),
        value: "Hello World".as_bytes_vec(),
        delay_seconds: 2,
    }
}

} // verus!
