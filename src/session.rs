use vstd::prelude::*;
use vstd::utf8::{decode_utf8, valid_utf8};

use idevice::services::simulate_location::LocationSimulationService;
use idevice::{Idevice, IdeviceError};

use crate::error::LocationError;
use crate::external::decode_text;

verus! {

/// Owns exactly one location simulation service object; callers across the
/// boundary know it only by the address it is boxed at.
pub struct LocationSimulationServiceHandle(pub LocationSimulationService);

/// Every required argument of a call is present (none of its pointers is null).
pub open spec fn all_present(present: Seq<bool>) -> bool {
    forall|i: int| 0 <= i < present.len() ==> #[trigger] present[i]
}

/// The argument check shared by every fallible call: it succeeds exactly when every
/// required argument is present, and fails with `InvalidArg` otherwise.
pub fn check_present(present: &[bool]) -> (r: Result<(), LocationError>)
    ensures
        r is Ok <==> all_present(present@),
        r matches Err(e) ==> e is InvalidArg,
{
    let mut i: usize = 0;
    while i < present.len()
        invariant
            0 <= i <= present@.len(),
            forall|j: int| 0 <= j < i ==> #[trigger] present@[j],
        decreases present@.len() - i,
    {
        if !present[i] {
            return Err(LocationError::InvalidArg);
        }
        i = i + 1;
    }
    Ok(())
}

/// Decodes one coordinate argument: absent or not valid UTF-8 is `InvalidArg`,
/// otherwise the decoded text.
pub fn coordinate_text<'a>(text: Option<&'a [u8]>) -> (r: Result<&'a str, LocationError>)
    ensures
        r is Ok <==> (text matches Some(b) && valid_utf8(b@)),
        r matches Ok(s) ==> (text matches Some(b) && s@ == decode_utf8(b@)),
        r matches Err(e) ==> e is InvalidArg,
{
    match text {
        None => Err(LocationError::InvalidArg),
        Some(bytes) => match decode_text(bytes) {
            Some(s) => Ok(s),
            None => Err(LocationError::InvalidArg),
        },
    }
}

/// The arguments of `set` are usable: the handle is present and both coordinates
/// are present and valid UTF-8.
pub open spec fn set_args_valid(
    client_present: bool,
    latitude: Option<&[u8]>,
    longitude: Option<&[u8]>,
) -> bool {
    &&& client_present
    &&& latitude matches Some(la) && valid_utf8(la@)
    &&& longitude matches Some(lo) && valid_utf8(lo@)
}

/// Validates the arguments of `set` before any I/O: on success it hands back the
/// latitude and longitude as text, decoded from exactly the bytes given.
pub fn set_arguments<'a>(
    client_present: bool,
    latitude: Option<&'a [u8]>,
    longitude: Option<&'a [u8]>,
) -> (r: Result<(&'a str, &'a str), LocationError>)
    ensures
        r is Ok <==> set_args_valid(client_present, latitude, longitude),
        r matches Ok((la, lo)) ==> (latitude matches Some(b) && la@ == decode_utf8(b@)),
        r matches Ok((la, lo)) ==> (longitude matches Some(b) && lo@ == decode_utf8(b@)),
        r matches Err(e) ==> e is InvalidArg,
{
    let present = [client_present, latitude.is_some(), longitude.is_some()];
    match check_present(&present) {
        Ok(()) => {},
        Err(e) => return Err(e),
    }
    let la = match coordinate_text(latitude) {
        Ok(s) => s,
        Err(e) => return Err(e),
    };
    let lo = match coordinate_text(longitude) {
        Ok(s) => s,
        Err(e) => return Err(e),
    };
    Ok((la, lo))
}

/// Turns the outcome of negotiating a session into a handle, or into a connect
/// failure carrying the device library's error unchanged.
pub fn connect_outcome(res: Result<LocationSimulationService, IdeviceError>) -> (r: Result<
    LocationSimulationServiceHandle,
    LocationError,
>)
    ensures
        res matches Ok(s) ==> r == Ok::<_, LocationError>(LocationSimulationServiceHandle(s)),
        res matches Err(e) ==> r == Err::<LocationSimulationServiceHandle, _>(
            LocationError::Connect(e),
        ),
{
    match res {
        Ok(s) => Ok(LocationSimulationServiceHandle(s)),
        Err(e) => Err(LocationError::Connect(e)),
    }
}

/// Adopts an already open connection as a new session. The connection is consumed
/// whatever the outcome; the call fails, with `InvalidArg`, only when the connection
/// or the place for the new handle is missing.
pub fn adopt_transport(socket: Option<Idevice>, client_present: bool) -> (r: Result<
    LocationSimulationServiceHandle,
    LocationError,
>)
    ensures
        r is Ok <==> (socket is Some && client_present),
        r matches Err(e) ==> e is InvalidArg,
{
    match socket {
        Some(idevice) => {
            if !client_present {
                return Err(LocationError::InvalidArg);
            }
            Ok(LocationSimulationServiceHandle(LocationSimulationService::new(idevice)))
        },
        None => Err(LocationError::InvalidArg),
    }
}

/// Turns the outcome of a `set` or `clear` into the boundary's single signal:
/// nothing on success, an operation failure carrying the device library's error otherwise.
pub fn operation_outcome(res: Result<(), IdeviceError>) -> (r: Option<LocationError>)
    ensures
        res is Ok ==> r is None,
        res matches Err(e) ==> r == Some(LocationError::Operation(e)),
{
    match res {
        Ok(()) => None,
        Err(e) => Some(LocationError::Operation(e)),
    }
}

/// Whichever of the handle, the latitude and the longitude is missing, `set`'s
/// arguments are rejected.
pub proof fn lemma_missing_set_argument_rejected(
    client_present: bool,
    latitude: Option<&[u8]>,
    longitude: Option<&[u8]>,
)
    requires
        !client_present || latitude is None || longitude is None,
    ensures
        !set_args_valid(client_present, latitude, longitude),
{
}

/// Whichever required argument is missing, the argument check fails.
pub proof fn lemma_missing_argument_rejected(present: Seq<bool>, i: int)
    requires
        0 <= i < present.len(),
        !present[i],
    ensures
        !all_present(present),
{
}

} // verus!
