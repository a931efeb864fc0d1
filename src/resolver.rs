use vstd::prelude::*;

verus! {

/// The name of the network interface that sockets are bound to when the
/// system has it.
pub const PREFERRED_INTERFACE: &'static str = "en0";

/// The warning given when the preferred interface is missing; sockets are
/// then opened without binding to any interface.
pub const NO_INTERFACE_WARNING: &'static str = "Failed to get best interface index";

/// Reads the system's answer to a name-to-index lookup: the lookup reports
/// an unknown interface as 0, and any other value is the interface's index.
pub fn interface_index(raw: u32) -> (r: Option<u32>)
    ensures
        raw == 0 ==> r is None,
        raw != 0 ==> r == Some(raw),
{
    if raw == 0 {
        None
    } else {
        Some(raw)
    }
}

} // verus!
