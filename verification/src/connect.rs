//! Which cluster a new client connects to.

use vstd::prelude::*;

verus! {

/// Where a new client connects: a cluster at the given host address, with
/// the choice of SPU addresses where it was made; or the cluster of the
/// active profile.
pub enum ConnectTarget {
    Host { host: String, use_spu_local_address: Option<bool> },
    Profile,
}

/// Where a client made with these arguments connects.
pub fn connect_target(host_addr: Option<String>, use_spu_local_address: Option<bool>) -> (r:
    ConnectTarget)
    ensures
        match host_addr {
            Some(h) => r matches ConnectTarget::Host { host, use_spu_local_address: u } && host
                == h && u == use_spu_local_address,
            None => r is Profile,
        },
{
    match host_addr {
        Some(host) => ConnectTarget::Host { host, use_spu_local_address },
        None => ConnectTarget::Profile,
    }
}

} // verus!
