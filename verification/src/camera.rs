//! The camera stage: its ports, the configuration of its ports, and its
//! settings as a whole.

use vstd::prelude::*;
use vstd::std_specs::convert::TryFromSpecImpl;
use crate::camera_info::CameraInstanceInfo;
use crate::error::{Cause, MmalError, MmalStatus};
use crate::mmalcore::{
    creation,
    floor_at,
    Component,
    ComponentEntity,
    ComponentHandle,
    ComponentPort,
    Entity,
    Port,
    PortConfig,
    PortFormat,
    PortSelector,
};
use crate::native::{
    MMAL_COMPONENT_DEFAULT_CAMERA,
    MMAL_ENCODING_BGR24,
    MMAL_ENCODING_OPAQUE,
    MMAL_ENCODING_RGB24,
    MMAL_FALSE,
    MMAL_PARAMETER_CAMERA_CONFIG_SIZE,
    MMAL_SUCCESS,
    MMAL_TRUE,
};
use crate::param::{decode, Apply, InnerParamType, NativeEnum, ParameterHeader};

pub use crate::camera_modes::{
    AwbMode,
    CameraTimestampMode,
    ExposureMeteringMode,
    ExposureMode,
    FlickerAvoid,
    ImageFX,
    Mirror,
    Rotation,
    StereoMode,
    DRC,
};
pub use crate::camera_params::{
    Annotate,
    AnnotateBlock,
    AnnotateInnerType,
    AwbGainsBlock,
    AwbGainsInnerType,
    AwbModeInnerType,
    ColourFxBlock,
    ColourFxInnerType,
    CropInnerType,
    DRCInnerType,
    ExposureMeteringModeInnerType,
    ExposureModeInnerType,
    FlickerAvoidInnerType,
    ImageFXInnerType,
    InputCropBlock,
    MirrorInnerType,
    PAnalogGain,
    PAnnotate,
    PAwbGains,
    PAwbMode,
    PBrightness,
    PCameraConfig,
    PCameraNum,
    PCapture,
    PCaptureVideo,
    PColourFX,
    PContrast,
    PDRC,
    PDigitalGain,
    PExposureCompensation,
    PExposureMeteringMode,
    PExposureMode,
    PFlickerAvoid,
    PFocusWindow,
    PImageFX,
    PIso,
    PMirrorCapture,
    PMirrorPreview,
    PMirrorVideo,
    PROI,
    PRotationCapture,
    PRotationPreview,
    PRotationVideo,
    PSaturation,
    PSharpness,
    PShutterSpeed,
    PStatsPass,
    PStereoModeCapture,
    PStereoModePreview,
    PStereoModeVideo,
    PVideoStabilization,
    Rect,
    StereoModeInnerType,
    StereoscopicModeBlock,
    AWB_GAIN_SCALE,
    MMAL_PARAMETER_CAMERA_CONFIG,
    MMAL_PARAMETER_SATURATION,
    MMAL_PARAMETER_SHARPNESS,
    MMAL_PARAMETER_CONTRAST,
    MMAL_PARAMETER_BRIGHTNESS,
    MMAL_PARAMETER_ISO,
    MMAL_PARAMETER_SHUTTER_SPEED,
    MMAL_PARAMETER_CAMERA_NUM,
    MMAL_PARAMETER_CAPTURE,
    MMAL_PARAMETER_EXPOSURE_MODE,
    MMAL_PARAMETER_EXP_METERING_MODE,
    MMAL_PARAMETER_EXPOSURE_COMP,
    MMAL_PARAMETER_AWB_MODE,
    MMAL_PARAMETER_IMAGE_EFFECT,
    MMAL_PARAMETER_ROTATION,
    MMAL_PARAMETER_MIRROR,
    MMAL_PARAMETER_DYNAMIC_RANGE_COMPRESSION,
    MMAL_PARAMETER_CAPTURE_STATS_PASS,
    MMAL_PARAMETER_VIDEO_STABILISATION,
    MMAL_PARAMETER_FLICKER_AVOID,
    MMAL_PARAMETER_ANALOG_GAIN,
    MMAL_PARAMETER_DIGITAL_GAIN,
    MMAL_PARAMETER_DRAW_BOX_FACES_AND_FOCUS,
};

verus! {

/// The camera stage.
#[derive(Debug)]
pub struct CameraEntity;

impl Entity for CameraEntity {
    open spec fn spec_name() -> Seq<char> {
        "camera"@
    }

    fn name() -> (r: &'static str) {
        "camera"
    }
}

impl ComponentEntity for CameraEntity {

}

pub type CameraComponentHandle = ComponentHandle<CameraEntity>;

impl ComponentHandle<CameraEntity> {
    /// Creates the stage. `native` asks the native layer for the stage under
    /// its name and answers with its description, or with the status of the
    /// refusal.
    pub fn create<F: FnOnce(&str) -> Result<Component, MmalStatus>>(native: F) -> (r: Result<
        Self,
        MmalError,
    >)
        requires
            call_requires(native, (MMAL_COMPONENT_DEFAULT_CAMERA,)),
        ensures
            exists|answer: Result<Component, MmalStatus>| #[trigger]
                call_ensures(native, (MMAL_COMPONENT_DEFAULT_CAMERA,), answer) && creation(answer, r),
    {
        Self::create_from(MMAL_COMPONENT_DEFAULT_CAMERA, native)
    }
}

//------------------------------------------------------------------------------------------------------------------------------
/// Indices of the output ports of the camera stage.
pub const CAMERA_PREVIEW_PORT: usize = 0;

pub const CAMERA_VIDEO_PORT: usize = 1;

pub const CAMERA_CAPTURE_PORT: usize = 2;

/// Policy for the size of the buffers of a port.
#[derive(Debug, Clone, Copy, PartialEq, Eq, Structural)]
pub enum BufferSizePolicy {
    /// What the native layer recommends, or its minimum, whichever is higher.
    Recommended,
    /// This size, or the minimum of the native layer, whichever is higher.
    Explicit(u32),
}

/// Policy for the number of the buffers of a port.
#[derive(Debug, Clone, Copy, PartialEq, Eq, Structural)]
pub enum BufferCountPolicy {
    /// What the native layer recommends, or its minimum, whichever is higher.
    Recommended,
    /// This number, or the minimum of the native layer, whichever is higher.
    Explicit(u32),
}

/// The encoding that a port is given for a requested one. Firmware of before
/// June 2016 has the two 24 bit colour encodings reversed: where either is
/// requested, the port gets the one that its firmware takes for it. Every
/// other encoding passes as it is.
pub open spec fn fixed_encoding(port: Port, encoding: u32) -> u32 {
    if encoding == MMAL_ENCODING_RGB24 || encoding == MMAL_ENCODING_BGR24 {
        if port.rgb_order_fixed {
            MMAL_ENCODING_RGB24
        } else {
            MMAL_ENCODING_BGR24
        }
    } else {
        encoding
    }
}

/// Computes [`fixed_encoding`].
pub fn fix_encoding(port: &Port, encoding: u32) -> (r: u32)
    ensures
        r == fixed_encoding(*port, encoding),
{
    if encoding == MMAL_ENCODING_RGB24 || encoding == MMAL_ENCODING_BGR24 {
        if port.rgb_order_fixed {
            MMAL_ENCODING_RGB24
        } else {
            MMAL_ENCODING_BGR24
        }
    } else {
        encoding
    }
}

/// Configuration of a port that carries video frames. It is handed to
/// `ComponentPort::configure`.
#[derive(Debug, Clone, Copy, PartialEq, Eq, Structural)]
pub struct GenericPortConfig {
    pub encoding: u32,
    pub encoding_variant: u32,
    pub es_video_width: u32,
    pub es_video_height: u32,
    pub es_video_crop_x: i32,
    pub es_video_crop_y: i32,
    pub es_video_crop_width: i32,
    pub es_video_crop_height: i32,
    pub es_video_frame_rate_num: i32,
    pub es_video_frame_rate_den: i32,
    pub buffer_count_policy: BufferCountPolicy,
    pub buffer_size_policy: BufferSizePolicy,
}

impl GenericPortConfig {
    /// The number of buffers that the count policy asks of a port.
    pub open spec fn requested_count(&self, port: Port) -> u32 {
        match self.buffer_count_policy {
            BufferCountPolicy::Recommended => port.buffer_num_recommended,
            BufferCountPolicy::Explicit(n) => n,
        }
    }

    /// The size of buffers that the size policy asks of a port.
    pub open spec fn requested_size(&self, port: Port) -> u32 {
        match self.buffer_size_policy {
            BufferSizePolicy::Recommended => port.buffer_size_recommended,
            BufferSizePolicy::Explicit(n) => n,
        }
    }
}

impl PortConfig for GenericPortConfig {
    /// The port takes every field of the format from the configuration, the
    /// encoding as its firmware wants it; its bit rate and all else stay.
    open spec fn formatted(&self, port: Port) -> Port {
        Port {
            format: PortFormat {
                encoding: fixed_encoding(port, self.encoding),
                encoding_variant: self.encoding_variant,
                bitrate: port.format.bitrate,
                es_video_width: self.es_video_width,
                es_video_height: self.es_video_height,
                es_video_crop_x: self.es_video_crop_x,
                es_video_crop_y: self.es_video_crop_y,
                es_video_crop_width: self.es_video_crop_width,
                es_video_crop_height: self.es_video_crop_height,
                es_video_frame_rate_num: self.es_video_frame_rate_num,
                es_video_frame_rate_den: self.es_video_frame_rate_den,
            },
            ..port
        }
    }

    /// The port gets the number and the size of buffers that the policies
    /// ask for, each raised to the minimum of the native layer where it is
    /// below; all else stays.
    open spec fn sized(&self, port: Port) -> Port {
        Port {
            buffer_num: floor_at(self.requested_count(port), port.buffer_num_min),
            buffer_size: floor_at(self.requested_size(port), port.buffer_size_min),
            ..port
        }
    }

    fn apply_format(&self, port: &mut Port) {
        port.format.encoding = fix_encoding(port, self.encoding);
        port.format.encoding_variant = self.encoding_variant;
        port.format.es_video_width = self.es_video_width;
        port.format.es_video_height = self.es_video_height;
        port.format.es_video_crop_x = self.es_video_crop_x;
        port.format.es_video_crop_y = self.es_video_crop_y;
        port.format.es_video_crop_width = self.es_video_crop_width;
        port.format.es_video_crop_height = self.es_video_crop_height;
        port.format.es_video_frame_rate_num = self.es_video_frame_rate_num;
        port.format.es_video_frame_rate_den = self.es_video_frame_rate_den;
    }

    fn apply_buffer_policy(&self, port: &mut Port) {
        match self.buffer_count_policy {
            BufferCountPolicy::Recommended => {
                port.buffer_num = port.buffer_num_recommended;
                if port.buffer_num < port.buffer_num_min {
                    port.buffer_num = port.buffer_num_min;
                }
            },
            BufferCountPolicy::Explicit(n) => {
                port.buffer_num = n;
                if port.buffer_num < port.buffer_num_min {
                    port.buffer_num = port.buffer_num_min;
                }
            },
        }
        match self.buffer_size_policy {
            BufferSizePolicy::Recommended => {
                port.buffer_size = port.buffer_size_recommended;
                if port.buffer_size < port.buffer_size_min {
                    port.buffer_size = port.buffer_size_min;
                }
            },
            BufferSizePolicy::Explicit(n) => {
                port.buffer_size = n;
                if port.buffer_size < port.buffer_size_min {
                    port.buffer_size = port.buffer_size_min;
                }
            },
        }
    }
}

/// The least multiple of `n` that is not below `value`.
pub open spec fn aligned_up(value: int, n: int) -> int {
    (value + n - 1) / n * n
}

/// What [`aligned_up`] returns is a multiple of `n`, is not below `value`,
/// and is less than `n` above it.
pub proof fn lemma_aligned_up(value: int, n: int)
    requires
        value >= 0,
        n > 0,
    ensures
        aligned_up(value, n) % n == 0,
        value <= aligned_up(value, n) < value + n,
{
    let v = value + n - 1;
    vstd::arithmetic::div_mod::lemma_fundamental_div_mod(v, n);
    vstd::arithmetic::div_mod::lemma_mod_bound(v, n);
    assert(v == n * (v / n) + v % n);
    assert(n * (v / n) == (v / n) * n) by (nonlinear_arith);
    vstd::arithmetic::div_mod::lemma_mod_multiples_basic(v / n, n);
}

/// Rounds `value` up to a multiple of `n`.
pub fn align_up(value: u32, n: u32) -> (r: u32)
    requires
        n > 0,
        value + n - 1 <= u32::MAX,
    ensures
        r == aligned_up(value as int, n as int),
{
    let q: u32 = (value + (n - 1)) / n;
    proof {
        lemma_aligned_up(value as int, n as int);
    }
    q * n
}

/// The configuration of a camera port for frames of `width` by `height`
/// pixels: opaque encoding, the frame rounded up to multiples of 32 by 16 and
/// cropped to the size asked for, a variable frame rate, three buffers of
/// the recommended size. It is meant to be adjusted and then handed to
/// `ComponentPort::configure`.
pub fn camera_port_config(width: u32, height: u32) -> (c: GenericPortConfig)
    requires
        width + 31 <= i32::MAX,
        height + 15 <= i32::MAX,
    ensures
        c == (GenericPortConfig {
            encoding: MMAL_ENCODING_OPAQUE,
            encoding_variant: 0,
            es_video_width: aligned_up(width as int, 32) as u32,
            es_video_height: aligned_up(height as int, 16) as u32,
            es_video_crop_x: 0,
            es_video_crop_y: 0,
            es_video_crop_width: width as i32,
            es_video_crop_height: height as i32,
            es_video_frame_rate_num: 0,
            es_video_frame_rate_den: 1,
            buffer_count_policy: BufferCountPolicy::Explicit(3),
            buffer_size_policy: BufferSizePolicy::Recommended,
        }),
{
    GenericPortConfig {
        encoding: MMAL_ENCODING_OPAQUE,
        encoding_variant: 0,
        es_video_width: align_up(width, 32),
        es_video_height: align_up(height, 16),
        es_video_crop_x: 0,
        es_video_crop_y: 0,
        es_video_crop_width: width as i32,
        es_video_crop_height: height as i32,
        es_video_frame_rate_num: 0,
        es_video_frame_rate_den: 1,
        buffer_count_policy: BufferCountPolicy::Explicit(3),
        buffer_size_policy: BufferSizePolicy::Recommended,
    }
}

/// The configuration for the full field of view at four by three.
pub fn camera_port_config_1024x768() -> (c: GenericPortConfig)
    ensures
        c.es_video_width == 1024,
        c.es_video_height == 768,
        c.es_video_crop_width == 1024,
        c.es_video_crop_height == 768,
{
    camera_port_config(1024, 768)
}

/// A configuration of 320 by 240 pixels, good for streaming.
pub fn camera_port_config_320x240() -> (c: GenericPortConfig)
    ensures
        c.es_video_width == 320,
        c.es_video_height == 240,
        c.es_video_crop_width == 320,
        c.es_video_crop_height == 240,
{
    camera_port_config(320, 240)
}

//------------------------------------------------------------------------------------------------------------------------------
#[derive(Debug)]
pub struct CameraControlPort;

impl ComponentPort for CameraControlPort {
    type E = CameraEntity;

    open spec fn spec_name() -> Seq<char> {
        "camera control port"@
    }

    open spec fn spec_selector() -> PortSelector {
        PortSelector::Control
    }

    fn selector() -> (s: PortSelector) {
        PortSelector::Control
    }

    fn name() -> (r: &'static str) {
        "camera control port"
    }
}

#[derive(Debug)]
pub struct CameraPreviewPort;

impl ComponentPort for CameraPreviewPort {
    type E = CameraEntity;

    open spec fn spec_name() -> Seq<char> {
        "camera preview port"@
    }

    open spec fn spec_selector() -> PortSelector {
        PortSelector::Output(CAMERA_PREVIEW_PORT)
    }

    fn selector() -> (s: PortSelector) {
        PortSelector::Output(CAMERA_PREVIEW_PORT)
    }

    fn name() -> (r: &'static str) {
        "camera preview port"
    }
}

#[derive(Debug)]
pub struct CameraVideoPort;

impl ComponentPort for CameraVideoPort {
    type E = CameraEntity;

    open spec fn spec_name() -> Seq<char> {
        "camera video port"@
    }

    open spec fn spec_selector() -> PortSelector {
        PortSelector::Output(CAMERA_VIDEO_PORT)
    }

    fn selector() -> (s: PortSelector) {
        PortSelector::Output(CAMERA_VIDEO_PORT)
    }

    fn name() -> (r: &'static str) {
        "camera video port"
    }
}

#[derive(Debug)]
pub struct CameraCapturePort;

impl ComponentPort for CameraCapturePort {
    type E = CameraEntity;

    open spec fn spec_name() -> Seq<char> {
        "camera capture port"@
    }

    open spec fn spec_selector() -> PortSelector {
        PortSelector::Output(CAMERA_CAPTURE_PORT)
    }

    fn selector() -> (s: PortSelector) {
        PortSelector::Output(CAMERA_CAPTURE_PORT)
    }

    fn name() -> (r: &'static str) {
        "camera capture port"
    }
}

//------------------------------------------------------------------------------------------------------------------------------
/// Settings of the camera as a whole.
#[derive(Debug, Clone, Copy, PartialEq, Eq, Structural)]
pub struct CameraConfig {
    /// Greatest width of a still.
    pub max_stills_w: u32,
    /// Greatest height of a still.
    pub max_stills_h: u32,
    /// Whether stills may be captured in YUV422.
    pub stills_yuv422: bool,
    /// Whether stills are captured one by one, or continuously.
    pub one_shot_stills: bool,
    /// Greatest width of a preview or video frame.
    pub max_preview_video_w: u32,
    /// Greatest height of a preview or video frame.
    pub max_preview_video_h: u32,
    pub num_preview_video_frames: u32,
    /// Height of the circular buffer for the capture of stills.
    pub stills_capture_circular_buffer_height: u32,
    /// Whether preview and encoding resume at once after a still was taken,
    /// while the still is processed in the background.
    pub fast_preview_resume: bool,
    pub use_stc_timestamp: CameraTimestampMode,
}

impl Default for CameraConfig {
    fn default() -> (r: Self)
        ensures
            r == (CameraConfig {
                max_stills_w: 0,
                max_stills_h: 0,
                stills_yuv422: false,
                one_shot_stills: false,
                max_preview_video_w: 0,
                max_preview_video_h: 0,
                num_preview_video_frames: 0,
                stills_capture_circular_buffer_height: 0,
                fast_preview_resume: false,
                use_stc_timestamp: CameraTimestampMode::Zero,
            }),
    {
        CameraConfig {
            max_stills_w: 0,
            max_stills_h: 0,
            stills_yuv422: false,
            one_shot_stills: false,
            max_preview_video_w: 0,
            max_preview_video_h: 0,
            num_preview_video_frames: 0,
            stills_capture_circular_buffer_height: 0,
            fast_preview_resume: false,
            use_stc_timestamp: CameraTimestampMode::Zero,
        }
    }
}

impl CameraConfig {
    /// The settings for a camera as the camera information describes it:
    /// stills and frames up to the size of the sensor, stills one by one, one
    /// preview frame, time stamps counted from the first frame.
    pub fn from_instance_info(instance: &CameraInstanceInfo) -> (r: Self)
        ensures
            r == (CameraConfig {
                max_stills_w: instance.max_width,
                max_stills_h: instance.max_height,
                stills_yuv422: false,
                one_shot_stills: true,
                max_preview_video_w: instance.max_width,
                max_preview_video_h: instance.max_height,
                num_preview_video_frames: 1,
                stills_capture_circular_buffer_height: 0,
                fast_preview_resume: false,
                use_stc_timestamp: CameraTimestampMode::ResetSTC,
            }),
    {
        Self {
            max_stills_w: instance.max_width,
            max_stills_h: instance.max_height,
            stills_yuv422: false,
            one_shot_stills: true,
            max_preview_video_w: instance.max_width,
            max_preview_video_h: instance.max_height,
            num_preview_video_frames: 1,
            stills_capture_circular_buffer_height: 0,
            fast_preview_resume: false,
            use_stc_timestamp: CameraTimestampMode::ResetSTC,
        }
    }
}

/// The native record of the camera settings.
#[derive(Debug, Clone, Copy, PartialEq, Eq, Structural)]
pub struct CameraConfigBlock {
    pub hdr: ParameterHeader,
    pub max_stills_w: u32,
    pub max_stills_h: u32,
    pub stills_yuv422: u32,
    pub one_shot_stills: u32,
    pub max_preview_video_w: u32,
    pub max_preview_video_h: u32,
    pub num_preview_video_frames: u32,
    pub stills_capture_circular_buffer_height: u32,
    pub fast_preview_resume: u32,
    pub use_stc_timestamp: u32,
}

/// The native integer of a truth value.
pub open spec fn mmal_u32_of(w: bool) -> u32 {
    if w {
        MMAL_TRUE
    } else {
        MMAL_FALSE
    }
}

/// The truth value of a native integer: whatever is not the native false is
/// true.
pub open spec fn bool_of_mmal_u32(w: u32) -> bool {
    w != MMAL_FALSE
}

/// The native signed integer of a truth value.
pub open spec fn mmal_of(w: bool) -> i32 {
    if w {
        1
    } else {
        0
    }
}

/// The truth value of a native signed integer: whatever is not zero is true.
pub open spec fn bool_of_mmal(w: i32) -> bool {
    w != 0
}

pub fn bool_rust_to_mmal_u32(w: bool) -> (r: u32)
    ensures
        r == mmal_u32_of(w),
{
    if w {
        MMAL_TRUE
    } else {
        MMAL_FALSE
    }
}

pub fn bool_mmal_u32_to_rust(w: u32) -> (r: bool)
    ensures
        r == bool_of_mmal_u32(w),
{
    w != MMAL_FALSE
}

pub fn bool_rust_to_mmal(w: bool) -> (r: i32)
    ensures
        r == mmal_of(w),
{
    if w {
        1
    } else {
        0
    }
}

pub fn bool_mmal_to_rust(w: i32) -> (r: bool)
    ensures
        r == bool_of_mmal(w),
{
    w != 0
}

/// Wherever a truth value crosses the boundary to the native layer and comes
/// back, it comes back as it went: there is one mapping, and it is its own
/// way back.
pub proof fn lemma_bool_round_trip(w: bool)
    ensures
        bool_of_mmal_u32(mmal_u32_of(w)) == w,
        bool_of_mmal(mmal_of(w)) == w,
        mmal_u32_of(w) == mmal_of(w),
{
}

/// The record that holds the settings `c` under the head `hdr`.
pub open spec fn config_block(hdr: ParameterHeader, c: CameraConfig) -> CameraConfigBlock {
    CameraConfigBlock {
        hdr,
        max_stills_w: c.max_stills_w,
        max_stills_h: c.max_stills_h,
        stills_yuv422: mmal_u32_of(c.stills_yuv422),
        one_shot_stills: mmal_u32_of(c.one_shot_stills),
        max_preview_video_w: c.max_preview_video_w,
        max_preview_video_h: c.max_preview_video_h,
        num_preview_video_frames: c.num_preview_video_frames,
        stills_capture_circular_buffer_height: c.stills_capture_circular_buffer_height,
        fast_preview_resume: mmal_u32_of(c.fast_preview_resume),
        use_stc_timestamp: c.use_stc_timestamp.native(),
    }
}

/// The settings that a record holds, if its time stamp mode is one.
pub open spec fn block_config(b: CameraConfigBlock) -> Option<CameraConfig> {
    match CameraTimestampMode::of_native(b.use_stc_timestamp) {
        Some(mode) => Some(
            CameraConfig {
                max_stills_w: b.max_stills_w,
                max_stills_h: b.max_stills_h,
                stills_yuv422: bool_of_mmal_u32(b.stills_yuv422),
                one_shot_stills: bool_of_mmal_u32(b.one_shot_stills),
                max_preview_video_w: b.max_preview_video_w,
                max_preview_video_h: b.max_preview_video_h,
                num_preview_video_frames: b.num_preview_video_frames,
                stills_capture_circular_buffer_height: b.stills_capture_circular_buffer_height,
                fast_preview_resume: bool_of_mmal_u32(b.fast_preview_resume),
                use_stc_timestamp: mode,
            },
        ),
        None => None,
    }
}

/// Settings that are written into a record read back from it as they were.
pub proof fn lemma_camera_config_round_trip(hdr: ParameterHeader, c: CameraConfig)
    ensures
        block_config(config_block(hdr, c)) == Some(c),
{
    CameraTimestampMode::lemma_native_round_trip(c.use_stc_timestamp);
}

/// The camera settings as a parameter.
#[derive(Debug)]
pub struct CameraConfigInnerType {
    inner: CameraConfigBlock,
}

impl View for CameraConfigInnerType {
    type V = CameraConfigBlock;

    closed spec fn view(&self) -> CameraConfigBlock {
        self.inner
    }
}

impl Default for CameraConfigInnerType {
    fn default() -> (r: Self)
        ensures
            r@ == (CameraConfigBlock {
                hdr: ParameterHeader {
                    id: crate::native::MMAL_PARAMETER_CAMERA_CONFIG,
                    size: MMAL_PARAMETER_CAMERA_CONFIG_SIZE,
                },
                max_stills_w: 0,
                max_stills_h: 0,
                stills_yuv422: 0,
                one_shot_stills: 0,
                max_preview_video_w: 0,
                max_preview_video_h: 0,
                num_preview_video_frames: 0,
                stills_capture_circular_buffer_height: 0,
                fast_preview_resume: 0,
                use_stc_timestamp: 0,
            }),
    {
        Self {
            inner: CameraConfigBlock {
                hdr: ParameterHeader {
                    id: crate::native::MMAL_PARAMETER_CAMERA_CONFIG,
                    size: MMAL_PARAMETER_CAMERA_CONFIG_SIZE,
                },
                max_stills_w: 0,
                max_stills_h: 0,
                stills_yuv422: 0,
                one_shot_stills: 0,
                max_preview_video_w: 0,
                max_preview_video_h: 0,
                num_preview_video_frames: 0,
                stills_capture_circular_buffer_height: 0,
                fast_preview_resume: 0,
                use_stc_timestamp: 0,
            },
        }
    }
}

impl CameraConfigInnerType {
    /// The record of the parameter.
    pub fn block(&self) -> (b: CameraConfigBlock)
        ensures
            b == self@,
    {
        self.inner
    }
}

impl InnerParamType for CameraConfigInnerType {
    type Raw = CameraConfigBlock;

    open spec fn spec_name() -> Seq<char> {
        "CameraConfig"@
    }

    open spec fn spec_id(&self) -> u32 {
        self@.hdr.id
    }

    open spec fn raw(&self) -> CameraConfigBlock {
        self@
    }

    closed spec fn absorb(self, raw: CameraConfigBlock) -> Self {
        Self { inner: raw }
    }

    fn name() -> (r: &'static str) {
        "CameraConfig"
    }

    fn set_param<F: FnOnce(usize, u32, &CameraConfigBlock) -> MmalStatus>(
        &self,
        port: usize,
        native: F,
    ) -> (status: MmalStatus) {
        native(port, self.inner.hdr.id, &self.inner)
    }

    fn get_param<F: FnOnce(usize, u32, &CameraConfigBlock) -> (MmalStatus, CameraConfigBlock)>(
        &mut self,
        port: usize,
        native: F,
    ) -> (status: MmalStatus) {
        let (status, raw) = native(port, self.inner.hdr.id, &self.inner);
        if status == MMAL_SUCCESS {
            self.inner = raw;
        }
        status
    }
}

impl Apply<CameraConfig> for CameraConfigInnerType {
    /// Every field is copied; the truth values become native integers, the
    /// time stamp mode its native integer. The head stays.
    closed spec fn applied(self, source: CameraConfig) -> Self {
        Self { inner: config_block(self.inner.hdr, source) }
    }

    fn apply(&mut self, source: CameraConfig) {
        self.inner.max_stills_w = source.max_stills_w;
        self.inner.max_stills_h = source.max_stills_h;
        self.inner.stills_yuv422 = bool_rust_to_mmal_u32(source.stills_yuv422);
        self.inner.one_shot_stills = bool_rust_to_mmal_u32(source.one_shot_stills);
        self.inner.max_preview_video_w = source.max_preview_video_w;
        self.inner.max_preview_video_h = source.max_preview_video_h;
        self.inner.num_preview_video_frames = source.num_preview_video_frames;
        self.inner.stills_capture_circular_buffer_height =
            source.stills_capture_circular_buffer_height;
        self.inner.fast_preview_resume = bool_rust_to_mmal_u32(source.fast_preview_resume);
        self.inner.use_stc_timestamp = source.use_stc_timestamp.to_native();
    }
}

/// How the reading of camera settings off a record ends: with the settings
/// that the record holds, or with the invalid-enum error where the time
/// stamp mode of the record is none.
pub open spec fn config_read(b: CameraConfigBlock, r: Result<CameraConfig, MmalError>) -> bool {
    match block_config(b) {
        Some(c) => r == Ok::<CameraConfig, MmalError>(c),
        None => r is Err && r->Err_0@.cause == Cause::InvalidEnumValue,
    }
}

impl<'a> TryFrom<&'a CameraConfigInnerType> for CameraConfig {
    type Error = MmalError;

    fn try_from(value: &'a CameraConfigInnerType) -> (r: Result<Self, MmalError>)
        ensures
            config_read(value@, r),
    {
        let mode: CameraTimestampMode = match decode(value.inner.use_stc_timestamp) {
            Ok(mode) => mode,
            Err(e) => {
                return Err(e);
            },
        };
        Ok(
            Self {
                max_stills_w: value.inner.max_stills_w,
                max_stills_h: value.inner.max_stills_h,
                stills_yuv422: bool_mmal_u32_to_rust(value.inner.stills_yuv422),
                one_shot_stills: bool_mmal_u32_to_rust(value.inner.one_shot_stills),
                max_preview_video_w: value.inner.max_preview_video_w,
                max_preview_video_h: value.inner.max_preview_video_h,
                num_preview_video_frames: value.inner.num_preview_video_frames,
                stills_capture_circular_buffer_height: value.inner.stills_capture_circular_buffer_height,
                fast_preview_resume: bool_mmal_u32_to_rust(value.inner.fast_preview_resume),
                use_stc_timestamp: mode,
            },
        )
    }
}

impl<'a> TryFromSpecImpl<&'a CameraConfigInnerType> for CameraConfig {
    open spec fn obeys_try_from_spec() -> bool {
        false
    }

    open spec fn try_from_spec(v: &'a CameraConfigInnerType) -> Result<Self, MmalError> {
        match block_config(v@) {
            Some(c) => Ok(c),
            None => Err(choose|e: MmalError| e@.cause == Cause::InvalidEnumValue),
        }
    }
}

/// Camera settings that a record took in read back from it as they were.
pub proof fn lemma_applied_camera_config(
    record: CameraConfigInnerType,
    c: CameraConfig,
    r: Result<CameraConfig, MmalError>,
)
    requires
        config_read(record.applied(c)@, r),
    ensures
        record.applied(c)@ == config_block(record@.hdr, c),
        r == Ok::<CameraConfig, MmalError>(c),
{
    lemma_camera_config_round_trip(record@.hdr, c);
}

} // verus!
