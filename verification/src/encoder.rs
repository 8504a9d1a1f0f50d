//! The stage that encodes stills.

use vstd::prelude::*;
use crate::error::{MmalError, MmalStatus};
use crate::mmalcore::{
    creation,
    floor_at,
    Component,
    ComponentEntity,
    ComponentHandle,
    ComponentPort,
    Entity,
    Port,
    PortConfig,
    PortFormat,
    PortSelector,
    DEFAULT_PORT_OFFSET,
};
use crate::native::{MMAL_COMPONENT_DEFAULT_IMAGE_ENCODER, MMAL_ENCODING_JPEG};
use crate::param::{ParId, Param, Uint32};

verus! {

/// The stage that encodes stills.
#[derive(Debug)]
pub struct EncoderEntity;

impl Entity for EncoderEntity {
    open spec fn spec_name() -> Seq<char> {
        "encoder"@
    }

    fn name() -> (r: &'static str) {
        "encoder"
    }
}

impl ComponentEntity for EncoderEntity {

}

pub type EncoderComponentHandle = ComponentHandle<EncoderEntity>;

impl ComponentHandle<EncoderEntity> {
    /// Creates the stage. `native` asks the native layer for the stage under
    /// its name and answers with its description, or with the status of the
    /// refusal.
    pub fn create<F: FnOnce(&str) -> Result<Component, MmalStatus>>(native: F) -> (r: Result<
        Self,
        MmalError,
    >)
        requires
            call_requires(native, (MMAL_COMPONENT_DEFAULT_IMAGE_ENCODER,)),
        ensures
            exists|answer: Result<Component, MmalStatus>| #[trigger]
                call_ensures(native, (MMAL_COMPONENT_DEFAULT_IMAGE_ENCODER,), answer) && creation(answer, r),
    {
        Self::create_from(MMAL_COMPONENT_DEFAULT_IMAGE_ENCODER, native)
    }
}

//------------------------------------------------------------------------------------------------------------------------------
#[derive(Debug)]
pub struct EncoderInputPort;

impl ComponentPort for EncoderInputPort {
    type E = EncoderEntity;

    open spec fn spec_name() -> Seq<char> {
        "encoder input port"@
    }

    open spec fn spec_selector() -> PortSelector {
        PortSelector::Input(DEFAULT_PORT_OFFSET)
    }

    fn selector() -> (s: PortSelector) {
        PortSelector::Input(DEFAULT_PORT_OFFSET)
    }

    fn name() -> (r: &'static str) {
        "encoder input port"
    }
}

#[derive(Debug)]
pub struct EncoderOutputPort;

impl ComponentPort for EncoderOutputPort {
    type E = EncoderEntity;

    open spec fn spec_name() -> Seq<char> {
        "encoder output port"@
    }

    open spec fn spec_selector() -> PortSelector {
        PortSelector::Output(DEFAULT_PORT_OFFSET)
    }

    fn selector() -> (s: PortSelector) {
        PortSelector::Output(DEFAULT_PORT_OFFSET)
    }

    fn name() -> (r: &'static str) {
        "encoder output port"
    }
}

//------------------------------------------------------------------------------------------------------------------------------
#[allow(non_camel_case_types)]
#[derive(Debug)]
pub struct MMAL_PARAMETER_JPEG_Q_FACTOR;

impl ParId for MMAL_PARAMETER_JPEG_Q_FACTOR {
    open spec fn spec_name() -> Seq<char> {
        "MMAL_PARAMETER_JPEG_Q_FACTOR"@
    }

    open spec fn spec_n() -> u32 {
        crate::native::MMAL_PARAMETER_JPEG_Q_FACTOR
    }

    fn name() -> (r: &'static str) {
        "MMAL_PARAMETER_JPEG_Q_FACTOR"
    }

    fn n() -> (r: u32) {
        crate::native::MMAL_PARAMETER_JPEG_Q_FACTOR
    }
}

#[allow(non_camel_case_types)]
#[derive(Debug)]
pub struct MMAL_PARAMETER_JPEG_RESTART_INTERVAL;

impl ParId for MMAL_PARAMETER_JPEG_RESTART_INTERVAL {
    open spec fn spec_name() -> Seq<char> {
        "MMAL_PARAMETER_JPEG_RESTART_INTERVAL"@
    }

    open spec fn spec_n() -> u32 {
        crate::native::MMAL_PARAMETER_JPEG_RESTART_INTERVAL
    }

    fn name() -> (r: &'static str) {
        "MMAL_PARAMETER_JPEG_RESTART_INTERVAL"
    }

    fn n() -> (r: u32) {
        crate::native::MMAL_PARAMETER_JPEG_RESTART_INTERVAL
    }
}

/// Quality factor of the encoding, 90 unless it is set.
pub type JpegQFactor = Param<EncoderOutputPort, Uint32<MMAL_PARAMETER_JPEG_Q_FACTOR>>;

/// Restart interval of the encoding, 0 unless it is set.
pub type JpegRestartInterval = Param<
    EncoderOutputPort,
    Uint32<MMAL_PARAMETER_JPEG_RESTART_INTERVAL>,
>;

//------------------------------------------------------------------------------------------------------------------------------
/// The port with the number and the size of buffers that the native layer
/// recommends, each raised to the minimum of the native layer where it is
/// below.
pub open spec fn recommended_buffers(port: Port) -> Port {
    Port {
        buffer_num: floor_at(port.buffer_num_recommended, port.buffer_num_min),
        buffer_size: floor_at(port.buffer_size_recommended, port.buffer_size_min),
        ..port
    }
}

/// Gives a port the buffers of [`recommended_buffers`].
pub fn apply_recommended_buffers(port: &mut Port)
    ensures
        *final(port) == recommended_buffers(*old(port)),
{
    port.buffer_num = port.buffer_num_recommended;
    if port.buffer_num < port.buffer_num_min {
        port.buffer_num = port.buffer_num_min;
    }
    port.buffer_size = port.buffer_size_recommended;
    if port.buffer_size < port.buffer_size_min {
        port.buffer_size = port.buffer_size_min;
    }
}

/// Configuration of the output port of the encoder of stills.
#[derive(Debug, Clone, Copy, PartialEq, Eq, Structural)]
pub struct EncoderOutFormat {
    encoding: u32,
}

impl EncoderOutFormat {
    /// The encoding of the format.
    pub closed spec fn spec_encoding(&self) -> u32 {
        self.encoding
    }

    pub fn encoding(&self) -> (e: u32)
        ensures
            e == self.spec_encoding(),
    {
        self.encoding
    }
}

impl Default for EncoderOutFormat {
    fn default() -> (r: Self)
        ensures
            r.spec_encoding() == MMAL_ENCODING_JPEG,
    {
        Self { encoding: MMAL_ENCODING_JPEG }
    }
}

impl PortConfig for EncoderOutFormat {
    /// The port takes the encoding; all else stays.
    open spec fn formatted(&self, port: Port) -> Port {
        Port { format: PortFormat { encoding: self.spec_encoding(), ..port.format }, ..port }
    }

    open spec fn sized(&self, port: Port) -> Port {
        recommended_buffers(port)
    }

    fn apply_format(&self, port: &mut Port) {
        port.format.encoding = self.encoding;
    }

    fn apply_buffer_policy(&self, port: &mut Port) {
        apply_recommended_buffers(port)
    }
}

} // verus!
