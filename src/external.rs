use vstd::prelude::*;
use vstd::utf8::{decode_utf8, valid_utf8};

use idevice::services::simulate_location::LocationSimulationService;
use idevice::{Idevice, IdeviceError};

verus! {

/// An established connection to a device, owned by whoever holds it.
#[verifier::external_type_specification]
#[verifier::external_body]
pub struct ExIdevice(Idevice);

/// A failure reported by the device-communication library.
#[verifier::external_type_specification]
#[verifier::external_body]
pub struct ExIdeviceError(IdeviceError);

/// The location simulation service object of the device-communication library.
#[verifier::external_type_specification]
#[verifier::external_body]
pub struct ExLocationSimulationService(LocationSimulationService);

/// Relies on `LocationSimulationService::new`, which wraps the connection it is given and
/// performs no I/O, so it always returns.
pub assume_specification[ LocationSimulationService::new ](idevice: Idevice) -> (r: LocationSimulationService);

/// Relies on `std::str::from_utf8`: it succeeds exactly when the bytes are valid UTF-8,
/// and then the text is those bytes decoded.
#[verifier::external_body]
pub(crate) fn decode_text(bytes: &[u8]) -> (r: Option<&str>)
    ensures
        r is Some <==> valid_utf8(bytes@),
        r matches Some(s) ==> s@ == decode_utf8(bytes@),
{
    std::str::from_utf8(bytes).ok()
}

} // verus!
