//! Verified core of a wrapper around a fixed-function hardware media pipeline.
//!
//! The pipeline itself, a camera sensor and the encoders behind it, is reached
//! through an opaque native layer. This crate holds what sits between the
//! application and that layer: the handles of stages and connections, the
//! ports and their configuration, the pool that lends buffers to a port, the
//! bridge that turns completions into queued buffers and wake-ups, and the
//! typed parameters with the records that carry them.

pub mod native;
pub mod error;
pub mod mmalcore;
pub mod buffer;
pub mod sink;
pub mod param;
pub mod camera_info;
pub mod camera;
pub mod camera_modes;
pub mod camera_params;
pub mod encoder;
pub mod video_encoder;
pub mod video_modes;

use vstd::prelude::*;
use vstd::string::*;
use crate::error::{convert_status, Cause, MmalError, MmalStatus};
use crate::native::MMAL_SUCCESS;

verus! {

/// Turns the status of a native call into a result: success is `Ok`, anything else an
/// error that carries the status and the message that `msg_f` writes.
pub fn cst<F: FnOnce() -> String>(status: MmalStatus, msg_f: F) -> (r: Result<(), MmalError>)
    requires
        status != MMAL_SUCCESS ==> call_requires(msg_f, ()),
    ensures
        status == MMAL_SUCCESS <==> r is Ok,
        r matches Err(e) ==> e@.cause == Cause::Status(status) && exists|m: String|
            #[trigger] call_ensures(msg_f, (), m) && e@.message == m@,
{
    convert_status(status, msg_f)
}

/// The message that says `message` of `entity`: the two with a blank between
/// them.
pub fn msgf(message: &str, entity: &str) -> (m: String)
    ensures
        m@ == message@ + " "@ + entity@,
{
    let mut m = String::from_str(message);
    m.append(" ");
    m.append(entity);
    m
}

} // verus!

