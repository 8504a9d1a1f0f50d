//! The stage that encodes video.

use vstd::prelude::*;
use crate::encoder::{apply_recommended_buffers, recommended_buffers};
use crate::error::{Cause, MmalError, MmalStatus};
use crate::mmalcore::{
    creation,
    Component,
    ComponentEntity,
    ComponentHandle,
    ComponentPort,
    Entity,
    Port,
    PortConfig,
    PortFormat,
    PortSelector,
    DEFAULT_PORT_OFFSET,
};
use crate::native::{
    MMAL_COMPONENT_DEFAULT_VIDEO_ENCODER,
    MMAL_ENCODING_H264,
    MMAL_PARAMETER_PROFILE,
    MMAL_PARAMETER_VIDEO_PROFILE_SIZE,
    MMAL_SUCCESS,
};
use crate::param::{decode, Apply, InnerParamType, NativeEnum, Param, ParameterHeader};

pub use crate::video_modes::{VideoLevel, VideoProfile};

verus! {

/// The stage that encodes video.
#[derive(Debug)]
pub struct VideoEncoderEntity;

impl Entity for VideoEncoderEntity {
    open spec fn spec_name() -> Seq<char> {
        "video_encoder"@
    }

    fn name() -> (r: &'static str) {
        "video_encoder"
    }
}

impl ComponentEntity for VideoEncoderEntity {

}

pub type VideoEncoderComponentHandle = ComponentHandle<VideoEncoderEntity>;

impl ComponentHandle<VideoEncoderEntity> {
    /// Creates the stage. `native` asks the native layer for the stage under
    /// its name and answers with its description, or with the status of the
    /// refusal.
    pub fn create<F: FnOnce(&str) -> Result<Component, MmalStatus>>(native: F) -> (r: Result<
        Self,
        MmalError,
    >)
        requires
            call_requires(native, (MMAL_COMPONENT_DEFAULT_VIDEO_ENCODER,)),
        ensures
            exists|answer: Result<Component, MmalStatus>| #[trigger]
                call_ensures(native, (MMAL_COMPONENT_DEFAULT_VIDEO_ENCODER,), answer) && creation(answer, r),
    {
        Self::create_from(MMAL_COMPONENT_DEFAULT_VIDEO_ENCODER, native)
    }
}

//------------------------------------------------------------------------------------------------------------------------------
#[derive(Debug)]
pub struct VideoEncoderInputPort;

impl ComponentPort for VideoEncoderInputPort {
    type E = VideoEncoderEntity;

    open spec fn spec_name() -> Seq<char> {
        "video_encoder input port"@
    }

    open spec fn spec_selector() -> PortSelector {
        PortSelector::Input(DEFAULT_PORT_OFFSET)
    }

    fn selector() -> (s: PortSelector) {
        PortSelector::Input(DEFAULT_PORT_OFFSET)
    }

    fn name() -> (r: &'static str) {
        "video_encoder input port"
    }
}

#[derive(Debug)]
pub struct VideoEncoderOutputPort;

impl ComponentPort for VideoEncoderOutputPort {
    type E = VideoEncoderEntity;

    open spec fn spec_name() -> Seq<char> {
        "video_encoder output port"@
    }

    open spec fn spec_selector() -> PortSelector {
        PortSelector::Output(DEFAULT_PORT_OFFSET)
    }

    fn selector() -> (s: PortSelector) {
        PortSelector::Output(DEFAULT_PORT_OFFSET)
    }

    fn name() -> (r: &'static str) {
        "video_encoder output port"
    }
}

//------------------------------------------------------------------------------------------------------------------------------
/// The native record of the profile of a video encoding.
#[derive(Debug, Clone, Copy, PartialEq, Eq, Structural)]
pub struct VideoProfileBlock {
    pub hdr: ParameterHeader,
    pub profile: u32,
    pub level: u32,
}

/// The profile of a video encoding as a parameter.
#[derive(Debug)]
pub struct VideoProfileInnerType {
    inner: VideoProfileBlock,
}

impl View for VideoProfileInnerType {
    type V = VideoProfileBlock;

    closed spec fn view(&self) -> VideoProfileBlock {
        self.inner
    }
}

impl Default for VideoProfileInnerType {
    fn default() -> (r: Self)
        ensures
            r@ == (VideoProfileBlock {
                hdr: ParameterHeader {
                    id: MMAL_PARAMETER_PROFILE,
                    size: MMAL_PARAMETER_VIDEO_PROFILE_SIZE,
                },
                profile: 0,
                level: 0,
            }),
    {
        Self {
            inner: VideoProfileBlock {
                hdr: ParameterHeader {
                    id: MMAL_PARAMETER_PROFILE,
                    size: MMAL_PARAMETER_VIDEO_PROFILE_SIZE,
                },
                profile: 0,
                level: 0,
            },
        }
    }
}

/// How the reading of a profile and a level off a record ends: with the two
/// that the record holds, or with the invalid-enum error where either
/// integer of the record is the integer of no value.
pub open spec fn profile_read(
    b: VideoProfileBlock,
    r: Result<(VideoProfile, VideoLevel), MmalError>,
) -> bool {
    match (VideoProfile::of_native(b.profile), VideoLevel::of_native(b.level)) {
        (Some(profile), Some(level)) => r == Ok::<(VideoProfile, VideoLevel), MmalError>(
            (profile, level),
        ),
        _ => r is Err && r->Err_0@.cause == Cause::InvalidEnumValue,
    }
}

impl VideoProfileInnerType {
    pub fn set(&mut self, profile: VideoProfile, level: VideoLevel)
        ensures
            final(self)@ == (VideoProfileBlock {
                hdr: old(self)@.hdr,
                profile: profile.native(),
                level: level.native(),
            }),
    {
        self.inner.profile = profile.to_native();
        self.inner.level = level.to_native();
    }

    pub fn new(profile: VideoProfile, level: VideoLevel) -> (r: Self)
        ensures
            r@ == (VideoProfileBlock {
                hdr: ParameterHeader {
                    id: MMAL_PARAMETER_PROFILE,
                    size: MMAL_PARAMETER_VIDEO_PROFILE_SIZE,
                },
                profile: profile.native(),
                level: level.native(),
            }),
    {
        let mut rv = Self::default();
        rv.set(profile, level);
        rv
    }

    /// The profile and the level.
    pub fn get(&self) -> (r: Result<(VideoProfile, VideoLevel), MmalError>)
        ensures
            profile_read(self@, r),
    {
        let profile: VideoProfile = match decode(self.inner.profile) {
            Ok(profile) => profile,
            Err(e) => {
                return Err(e);
            },
        };
        let level: VideoLevel = match decode(self.inner.level) {
            Ok(level) => level,
            Err(e) => {
                return Err(e);
            },
        };
        Ok((profile, level))
    }

    /// The record of the parameter.
    pub fn block(&self) -> (b: VideoProfileBlock)
        ensures
            b == self@,
    {
        self.inner
    }
}

impl Apply<(VideoProfile, VideoLevel)> for VideoProfileInnerType {
    closed spec fn applied(self, source: (VideoProfile, VideoLevel)) -> Self {
        Self {
            inner: VideoProfileBlock {
                hdr: self.inner.hdr,
                profile: source.0.native(),
                level: source.1.native(),
            },
        }
    }

    fn apply(&mut self, source: (VideoProfile, VideoLevel)) {
        self.set(source.0, source.1);
    }
}

impl InnerParamType for VideoProfileInnerType {
    type Raw = VideoProfileBlock;

    open spec fn spec_name() -> Seq<char> {
        "VideoProfileInnerType"@
    }

    open spec fn spec_id(&self) -> u32 {
        self@.hdr.id
    }

    open spec fn raw(&self) -> VideoProfileBlock {
        self@
    }

    closed spec fn absorb(self, raw: VideoProfileBlock) -> Self {
        Self { inner: raw }
    }

    fn name() -> (r: &'static str) {
        "VideoProfileInnerType"
    }

    fn set_param<F: FnOnce(usize, u32, &VideoProfileBlock) -> MmalStatus>(
        &self,
        port: usize,
        native: F,
    ) -> (status: MmalStatus) {
        native(port, self.inner.hdr.id, &self.inner)
    }

    fn get_param<F: FnOnce(usize, u32, &VideoProfileBlock) -> (MmalStatus, VideoProfileBlock)>(
        &mut self,
        port: usize,
        native: F,
    ) -> (status: MmalStatus) {
        let (status, raw) = native(port, self.inner.hdr.id, &self.inner);
        if status == MMAL_SUCCESS {
            self.inner = raw;
        }
        status
    }
}

/// A profile and a level that a record took in read back from it as they
/// were.
pub proof fn lemma_profile_round_trip(
    record: VideoProfileInnerType,
    source: (VideoProfile, VideoLevel),
    r: Result<(VideoProfile, VideoLevel), MmalError>,
)
    requires
        profile_read(record.applied(source)@, r),
    ensures
        r == Ok::<(VideoProfile, VideoLevel), MmalError>(source),
{
    VideoProfile::lemma_native_round_trip(source.0);
    VideoLevel::lemma_native_round_trip(source.1);
}

/// The profile of the video encoding.
pub type PVideoProfile = Param<VideoEncoderOutputPort, VideoProfileInnerType>;

//------------------------------------------------------------------------------------------------------------------------------
/// Configuration of the output port of the video encoder.
#[derive(Debug, Clone, Copy, PartialEq, Eq, Structural)]
pub struct VideoEncoderOutFormat {
    pub encoding: u32,
    pub bitrate: u32,
}

impl Default for VideoEncoderOutFormat {
    fn default() -> (r: Self)
        ensures
            r == (VideoEncoderOutFormat { encoding: MMAL_ENCODING_H264, bitrate: 300_000 }),
    {
        Self { encoding: MMAL_ENCODING_H264, bitrate: 300_000 }
    }
}

impl PortConfig for VideoEncoderOutFormat {
    /// The port takes the encoding and the bit rate; all else stays.
    open spec fn formatted(&self, port: Port) -> Port {
        Port {
            format: PortFormat { encoding: self.encoding, bitrate: self.bitrate, ..port.format },
            ..port
        }
    }

    open spec fn sized(&self, port: Port) -> Port {
        recommended_buffers(port)
    }

    fn apply_format(&self, port: &mut Port) {
        port.format.encoding = self.encoding;
        port.format.bitrate = self.bitrate;
    }

    fn apply_buffer_policy(&self, port: &mut Port) {
        apply_recommended_buffers(port)
    }
}

} // verus!
