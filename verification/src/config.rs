//! The engine's listening port: set once, read many times.
use vstd::prelude::*;
use crate::types::EngineError;

verus! {

/// The slot after an attempt to set the port to `port`, and whether the
/// attempt succeeded: only an empty slot takes a port.
pub open spec fn port_after_set(slot: Option<u16>, port: u16) -> (Option<u16>, bool) {
    match slot {
        None => (Some(port), true),
        Some(p) => (Some(p), false),
    }
}

/// Records `port` as the engine's port. A port that was already set stays,
/// and the call fails with `PortAlreadySet`.
pub fn set_port(slot: &mut Option<u16>, port: u16) -> (r: Result<(), EngineError>)
    ensures
        *final(slot) == port_after_set(*old(slot), port).0,
        r is Ok <==> port_after_set(*old(slot), port).1,
        r matches Err(e) ==> e is PortAlreadySet,
        *old(slot) is None ==> (r is Ok && *final(slot) == Some(port)),
        *old(slot) matches Some(p) ==> (r matches Err(e) && e is PortAlreadySet && *final(slot)
            == Some(p)),
{
    match slot {
        Some(_) => Err(EngineError::PortAlreadySet),
        None => {
            *slot = Some(port);
            Ok(())
        },
    }
}

/// The engine's port, or `PortNotSet` while none was set.
pub fn get_port(slot: &Option<u16>) -> (r: Result<u16, EngineError>)
    ensures
        slot matches Some(p) ==> (r matches Ok(q) && q == p),
        slot is None ==> (r matches Err(e) && e is PortNotSet),
{
    match slot {
        Some(p) => Ok(*p),
        None => Err(EngineError::PortNotSet),
    }
}

/// Once a port has been set, reading gives it back, and every later
/// attempt to set a port fails and leaves it in place.
pub proof fn law_port_is_write_once(slot: Option<u16>, first: u16, later: u16)
    requires
        port_after_set(slot, first).1,
    ensures
        port_after_set(slot, first).0 == Some(first),
        !port_after_set(port_after_set(slot, first).0, later).1,
        port_after_set(port_after_set(slot, first).0, later).0 == Some(first),
{
}

} // verus!
