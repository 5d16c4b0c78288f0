//! The gateway between the vehicle's OBD bus and the control bus: which OBD
//! frames are forwarded, and when transport errors matter.
use crate::can_frame::{CanError, CanFrame, OxccError};
use crate::vehicle::ObdAllowList;
use vstd::prelude::*;

verus! {

/// The frame to forward to the control bus for an OBD frame: the frame
/// itself, unchanged, where its identifier is allowed; nothing otherwise.
pub fn republish_obd_frame(allow_list: &ObdAllowList, frame: CanFrame) -> (r: Option<CanFrame>)
    ensures
        r == if allow_list.allows(frame.id_spec()) {
            Some(frame)
        } else {
            None
        },
{
    let id = frame.id();
    if allow_list.contains(id) {
        Some(frame)
    } else {
        None
    }
}

/// A receive result as the main loop sees it: an empty queue is no error
/// and no frame; any other receive error is escalated.
pub fn receive_outcome(received: Result<CanFrame, CanError>) -> (r: Result<Option<CanFrame>, OxccError>)
    ensures
        r == match received {
            Ok(frame) => Ok(Some(frame)),
            Err(CanError::BufferExhausted) => Ok(None),
            Err(e) => Err(OxccError::Can(e)),
        },
{
    match received {
        Ok(frame) => Ok(Some(frame)),
        Err(CanError::BufferExhausted) => Ok(None),
        Err(e) => Err(OxccError::from(e)),
    }
}

/// A transmit result as the main loop sees it: a timeout (no other node
/// acknowledging) is tolerated; any other transmit error is escalated.
pub fn transmit_outcome(sent: Result<(), CanError>) -> (r: Result<(), OxccError>)
    ensures
        r == match sent {
            Err(CanError::Timeout) | Ok(()) => Ok(()),
            Err(e) => Err(OxccError::Can(e)),
        },
{
    match sent {
        Ok(()) => Ok(()),
        Err(CanError::Timeout) => Ok(()),
        Err(e) => Err(OxccError::from(e)),
    }
}

/// Whether a transmit result escalates to the error handler.
pub open spec fn escalates(sent: Result<(), CanError>) -> bool {
    sent is Err && sent->Err_0 != CanError::Timeout
}

/// Combines the results of publishing the brake, throttle and steering
/// reports, each attempted whatever happened to the others: the last error
/// that escalates, if any.
pub fn combine_publish_results(
    brake: Result<(), CanError>,
    throttle: Result<(), CanError>,
    steering: Result<(), CanError>,
) -> (r: Result<(), OxccError>)
    ensures
        r == if escalates(steering) {
            Err(OxccError::Can(steering->Err_0))
        } else if escalates(throttle) {
            Err(OxccError::Can(throttle->Err_0))
        } else if escalates(brake) {
            Err(OxccError::Can(brake->Err_0))
        } else {
            Ok(())
        },
{
    let mut result: Result<(), OxccError> = Ok(());
    if let Err(e) = transmit_outcome(brake) {
        result = Err(e);
    }
    if let Err(e) = transmit_outcome(throttle) {
        result = Err(e);
    }
    if let Err(e) = transmit_outcome(steering) {
        result = Err(e);
    }
    result
}

} // verus!
