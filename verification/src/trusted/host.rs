//! What only the machine can tell.
use vstd::prelude::*;

verus! {

/// `local_ip_address::local_ip`: the machine's address in its local network, in text, if
/// it has one. It depends on the machine, so nothing is claimed of it.
#[verifier::external_body]
pub(crate) fn local_ip() -> (res: Option<String>) {
    local_ip_address::local_ip().ok().map(|ip| ip.to_string())
}

/// `whoami::username`: the name of the user that runs the process. It depends on the machine,
/// so nothing is claimed of it.
#[verifier::external_body]
pub(crate) fn current_username() -> (res: String) {
    whoami::username()
}

} // verus!
