use vstd::prelude::*;

verus! {

/// How the helper gains the privileges it acts with.
#[derive(Debug, Clone, Copy, PartialEq, Eq, Structural)]
pub enum HelperPrivilegeMode {
    DevelopmentNoPrivilegeDrop,
    SetuidRoot,
    FileCapabilities,
    SystemdMediated,
}

/// The helper's client, as the server holds it.
#[derive(Debug, Clone, Copy, PartialEq, Eq, Structural)]
pub struct HelperClient;

} // verus!
