use vstd::prelude::*;

use crate::error::GsbError;

verus! {

/// Relies on `machine_uid::get`: the host's machine id, or an error when the
/// system does not give one.
#[verifier::external_body]
fn machine_id() -> (r: Option<String>) {
    machine_uid::get().ok()
}

/// Turns the host's answer into the canonical device id, or the error that
/// ends the invocation.
pub fn device_name_from(id: Option<String>) -> (r: Result<String, GsbError>)
    ensures
        id is None ==> r matches Err(GsbError::DeviceNameError),
        id matches Some(s) ==> (r matches Ok(t) && t@ == s@),
{
    match id {
        Some(s) => Ok(s),
        None => Err(GsbError::DeviceNameError),
    }
}

/// The canonical id of this device, or `DeviceNameError`.
pub fn get_current_device_name() -> (r: Result<String, GsbError>)
    ensures
        r is Err ==> r matches Err(GsbError::DeviceNameError),
{
    device_name_from(machine_id())
}

} // verus!
