//! The parameters of the camera: their identifiers, their records, and the
//! kinds of port that they belong to.

use vstd::prelude::*;
use vstd::std_specs::convert::TryFromSpecImpl;
use crate::camera::{
    bool_mmal_to_rust,
    bool_of_mmal,
    bool_rust_to_mmal,
    mmal_of,
    CameraCapturePort,
    CameraConfigInnerType,
    CameraControlPort,
    CameraPreviewPort,
    CameraVideoPort,
};
use crate::camera_modes::{
    AwbMode,
    ExposureMeteringMode,
    ExposureMode,
    FlickerAvoid,
    ImageFX,
    Mirror,
    StereoMode,
    DRC,
};
use crate::error::{Cause, MmalError, MmalStatus};
use crate::native::{
    MMAL_CAMERA_ANNOTATE_MAX_TEXT_LEN_V4,
    MMAL_PARAMETER_AWB_GAINS_SIZE,
    MMAL_PARAMETER_CAMERA_ANNOTATE_V4_SIZE,
    MMAL_PARAMETER_COLOURFX_SIZE,
    MMAL_PARAMETER_INPUT_CROP_SIZE,
    MMAL_PARAMETER_STEREOSCOPIC_MODE_SIZE,
    MMAL_SUCCESS,
};
use crate::param::{
    decode,
    decoded,
    decoded_value,
    Apply,
    Boolean,
    Enumerated,
    InnerParamType,
    Int32,
    NativeEnum,
    ParId,
    Param,
    ParameterHeader,
    Rational,
    RationalValue,
    Uint32,
};

verus! {

// Identifiers of the camera parameters.
#[allow(non_camel_case_types)]
#[derive(Debug)]
pub struct MMAL_PARAMETER_CAMERA_CONFIG;

impl ParId for MMAL_PARAMETER_CAMERA_CONFIG {
    open spec fn spec_name() -> Seq<char> {
        "MMAL_PARAMETER_CAMERA_CONFIG"@
    }

    open spec fn spec_n() -> u32 {
        crate::native::MMAL_PARAMETER_CAMERA_CONFIG
    }

    fn name() -> (r: &'static str) {
        "MMAL_PARAMETER_CAMERA_CONFIG"
    }

    fn n() -> (r: u32) {
        crate::native::MMAL_PARAMETER_CAMERA_CONFIG
    }
}

#[allow(non_camel_case_types)]
#[derive(Debug)]
pub struct MMAL_PARAMETER_SATURATION;

impl ParId for MMAL_PARAMETER_SATURATION {
    open spec fn spec_name() -> Seq<char> {
        "MMAL_PARAMETER_SATURATION"@
    }

    open spec fn spec_n() -> u32 {
        crate::native::MMAL_PARAMETER_SATURATION
    }

    fn name() -> (r: &'static str) {
        "MMAL_PARAMETER_SATURATION"
    }

    fn n() -> (r: u32) {
        crate::native::MMAL_PARAMETER_SATURATION
    }
}

#[allow(non_camel_case_types)]
#[derive(Debug)]
pub struct MMAL_PARAMETER_SHARPNESS;

impl ParId for MMAL_PARAMETER_SHARPNESS {
    open spec fn spec_name() -> Seq<char> {
        "MMAL_PARAMETER_SHARPNESS"@
    }

    open spec fn spec_n() -> u32 {
        crate::native::MMAL_PARAMETER_SHARPNESS
    }

    fn name() -> (r: &'static str) {
        "MMAL_PARAMETER_SHARPNESS"
    }

    fn n() -> (r: u32) {
        crate::native::MMAL_PARAMETER_SHARPNESS
    }
}

#[allow(non_camel_case_types)]
#[derive(Debug)]
pub struct MMAL_PARAMETER_CONTRAST;

impl ParId for MMAL_PARAMETER_CONTRAST {
    open spec fn spec_name() -> Seq<char> {
        "MMAL_PARAMETER_CONTRAST"@
    }

    open spec fn spec_n() -> u32 {
        crate::native::MMAL_PARAMETER_CONTRAST
    }

    fn name() -> (r: &'static str) {
        "MMAL_PARAMETER_CONTRAST"
    }

    fn n() -> (r: u32) {
        crate::native::MMAL_PARAMETER_CONTRAST
    }
}

#[allow(non_camel_case_types)]
#[derive(Debug)]
pub struct MMAL_PARAMETER_BRIGHTNESS;

impl ParId for MMAL_PARAMETER_BRIGHTNESS {
    open spec fn spec_name() -> Seq<char> {
        "MMAL_PARAMETER_BRIGHTNESS"@
    }

    open spec fn spec_n() -> u32 {
        crate::native::MMAL_PARAMETER_BRIGHTNESS
    }

    fn name() -> (r: &'static str) {
        "MMAL_PARAMETER_BRIGHTNESS"
    }

    fn n() -> (r: u32) {
        crate::native::MMAL_PARAMETER_BRIGHTNESS
    }
}

#[allow(non_camel_case_types)]
#[derive(Debug)]
pub struct MMAL_PARAMETER_ISO;

impl ParId for MMAL_PARAMETER_ISO {
    open spec fn spec_name() -> Seq<char> {
        "MMAL_PARAMETER_ISO"@
    }

    open spec fn spec_n() -> u32 {
        crate::native::MMAL_PARAMETER_ISO
    }

    fn name() -> (r: &'static str) {
        "MMAL_PARAMETER_ISO"
    }

    fn n() -> (r: u32) {
        crate::native::MMAL_PARAMETER_ISO
    }
}

#[allow(non_camel_case_types)]
#[derive(Debug)]
pub struct MMAL_PARAMETER_SHUTTER_SPEED;

impl ParId for MMAL_PARAMETER_SHUTTER_SPEED {
    open spec fn spec_name() -> Seq<char> {
        "MMAL_PARAMETER_SHUTTER_SPEED"@
    }

    open spec fn spec_n() -> u32 {
        crate::native::MMAL_PARAMETER_SHUTTER_SPEED
    }

    fn name() -> (r: &'static str) {
        "MMAL_PARAMETER_SHUTTER_SPEED"
    }

    fn n() -> (r: u32) {
        crate::native::MMAL_PARAMETER_SHUTTER_SPEED
    }
}

#[allow(non_camel_case_types)]
#[derive(Debug)]
pub struct MMAL_PARAMETER_CAMERA_NUM;

impl ParId for MMAL_PARAMETER_CAMERA_NUM {
    open spec fn spec_name() -> Seq<char> {
        "MMAL_PARAMETER_CAMERA_NUM"@
    }

    open spec fn spec_n() -> u32 {
        crate::native::MMAL_PARAMETER_CAMERA_NUM
    }

    fn name() -> (r: &'static str) {
        "MMAL_PARAMETER_CAMERA_NUM"
    }

    fn n() -> (r: u32) {
        crate::native::MMAL_PARAMETER_CAMERA_NUM
    }
}

#[allow(non_camel_case_types)]
#[derive(Debug)]
pub struct MMAL_PARAMETER_CAPTURE;

impl ParId for MMAL_PARAMETER_CAPTURE {
    open spec fn spec_name() -> Seq<char> {
        "MMAL_PARAMETER_CAPTURE"@
    }

    open spec fn spec_n() -> u32 {
        crate::native::MMAL_PARAMETER_CAPTURE
    }

    fn name() -> (r: &'static str) {
        "MMAL_PARAMETER_CAPTURE"
    }

    fn n() -> (r: u32) {
        crate::native::MMAL_PARAMETER_CAPTURE
    }
}

#[allow(non_camel_case_types)]
#[derive(Debug)]
pub struct MMAL_PARAMETER_EXPOSURE_MODE;

impl ParId for MMAL_PARAMETER_EXPOSURE_MODE {
    open spec fn spec_name() -> Seq<char> {
        "MMAL_PARAMETER_EXPOSURE_MODE"@
    }

    open spec fn spec_n() -> u32 {
        crate::native::MMAL_PARAMETER_EXPOSURE_MODE
    }

    fn name() -> (r: &'static str) {
        "MMAL_PARAMETER_EXPOSURE_MODE"
    }

    fn n() -> (r: u32) {
        crate::native::MMAL_PARAMETER_EXPOSURE_MODE
    }
}

#[allow(non_camel_case_types)]
#[derive(Debug)]
pub struct MMAL_PARAMETER_EXP_METERING_MODE;

impl ParId for MMAL_PARAMETER_EXP_METERING_MODE {
    open spec fn spec_name() -> Seq<char> {
        "MMAL_PARAMETER_EXP_METERING_MODE"@
    }

    open spec fn spec_n() -> u32 {
        crate::native::MMAL_PARAMETER_EXP_METERING_MODE
    }

    fn name() -> (r: &'static str) {
        "MMAL_PARAMETER_EXP_METERING_MODE"
    }

    fn n() -> (r: u32) {
        crate::native::MMAL_PARAMETER_EXP_METERING_MODE
    }
}

#[allow(non_camel_case_types)]
#[derive(Debug)]
pub struct MMAL_PARAMETER_EXPOSURE_COMP;

impl ParId for MMAL_PARAMETER_EXPOSURE_COMP {
    open spec fn spec_name() -> Seq<char> {
        "MMAL_PARAMETER_EXPOSURE_COMP"@
    }

    open spec fn spec_n() -> u32 {
        crate::native::MMAL_PARAMETER_EXPOSURE_COMP
    }

    fn name() -> (r: &'static str) {
        "MMAL_PARAMETER_EXPOSURE_COMP"
    }

    fn n() -> (r: u32) {
        crate::native::MMAL_PARAMETER_EXPOSURE_COMP
    }
}

#[allow(non_camel_case_types)]
#[derive(Debug)]
pub struct MMAL_PARAMETER_AWB_MODE;

impl ParId for MMAL_PARAMETER_AWB_MODE {
    open spec fn spec_name() -> Seq<char> {
        "MMAL_PARAMETER_AWB_MODE"@
    }

    open spec fn spec_n() -> u32 {
        crate::native::MMAL_PARAMETER_AWB_MODE
    }

    fn name() -> (r: &'static str) {
        "MMAL_PARAMETER_AWB_MODE"
    }

    fn n() -> (r: u32) {
        crate::native::MMAL_PARAMETER_AWB_MODE
    }
}

#[allow(non_camel_case_types)]
#[derive(Debug)]
pub struct MMAL_PARAMETER_IMAGE_EFFECT;

impl ParId for MMAL_PARAMETER_IMAGE_EFFECT {
    open spec fn spec_name() -> Seq<char> {
        "MMAL_PARAMETER_IMAGE_EFFECT"@
    }

    open spec fn spec_n() -> u32 {
        crate::native::MMAL_PARAMETER_IMAGE_EFFECT
    }

    fn name() -> (r: &'static str) {
        "MMAL_PARAMETER_IMAGE_EFFECT"
    }

    fn n() -> (r: u32) {
        crate::native::MMAL_PARAMETER_IMAGE_EFFECT
    }
}

#[allow(non_camel_case_types)]
#[derive(Debug)]
pub struct MMAL_PARAMETER_ROTATION;

impl ParId for MMAL_PARAMETER_ROTATION {
    open spec fn spec_name() -> Seq<char> {
        "MMAL_PARAMETER_ROTATION"@
    }

    open spec fn spec_n() -> u32 {
        crate::native::MMAL_PARAMETER_ROTATION
    }

    fn name() -> (r: &'static str) {
        "MMAL_PARAMETER_ROTATION"
    }

    fn n() -> (r: u32) {
        crate::native::MMAL_PARAMETER_ROTATION
    }
}

#[allow(non_camel_case_types)]
#[derive(Debug)]
pub struct MMAL_PARAMETER_MIRROR;

impl ParId for MMAL_PARAMETER_MIRROR {
    open spec fn spec_name() -> Seq<char> {
        "MMAL_PARAMETER_MIRROR"@
    }

    open spec fn spec_n() -> u32 {
        crate::native::MMAL_PARAMETER_MIRROR
    }

    fn name() -> (r: &'static str) {
        "MMAL_PARAMETER_MIRROR"
    }

    fn n() -> (r: u32) {
        crate::native::MMAL_PARAMETER_MIRROR
    }
}

#[allow(non_camel_case_types)]
#[derive(Debug)]
pub struct MMAL_PARAMETER_DYNAMIC_RANGE_COMPRESSION;

impl ParId for MMAL_PARAMETER_DYNAMIC_RANGE_COMPRESSION {
    open spec fn spec_name() -> Seq<char> {
        "MMAL_PARAMETER_DYNAMIC_RANGE_COMPRESSION"@
    }

    open spec fn spec_n() -> u32 {
        crate::native::MMAL_PARAMETER_DYNAMIC_RANGE_COMPRESSION
    }

    fn name() -> (r: &'static str) {
        "MMAL_PARAMETER_DYNAMIC_RANGE_COMPRESSION"
    }

    fn n() -> (r: u32) {
        crate::native::MMAL_PARAMETER_DYNAMIC_RANGE_COMPRESSION
    }
}

#[allow(non_camel_case_types)]
#[derive(Debug)]
pub struct MMAL_PARAMETER_CAPTURE_STATS_PASS;

impl ParId for MMAL_PARAMETER_CAPTURE_STATS_PASS {
    open spec fn spec_name() -> Seq<char> {
        "MMAL_PARAMETER_CAPTURE_STATS_PASS"@
    }

    open spec fn spec_n() -> u32 {
        crate::native::MMAL_PARAMETER_CAPTURE_STATS_PASS
    }

    fn name() -> (r: &'static str) {
        "MMAL_PARAMETER_CAPTURE_STATS_PASS"
    }

    fn n() -> (r: u32) {
        crate::native::MMAL_PARAMETER_CAPTURE_STATS_PASS
    }
}

#[allow(non_camel_case_types)]
#[derive(Debug)]
pub struct MMAL_PARAMETER_VIDEO_STABILISATION;

impl ParId for MMAL_PARAMETER_VIDEO_STABILISATION {
    open spec fn spec_name() -> Seq<char> {
        "MMAL_PARAMETER_VIDEO_STABILISATION"@
    }

    open spec fn spec_n() -> u32 {
        crate::native::MMAL_PARAMETER_VIDEO_STABILISATION
    }

    fn name() -> (r: &'static str) {
        "MMAL_PARAMETER_VIDEO_STABILISATION"
    }

    fn n() -> (r: u32) {
        crate::native::MMAL_PARAMETER_VIDEO_STABILISATION
    }
}

#[allow(non_camel_case_types)]
#[derive(Debug)]
pub struct MMAL_PARAMETER_FLICKER_AVOID;

impl ParId for MMAL_PARAMETER_FLICKER_AVOID {
    open spec fn spec_name() -> Seq<char> {
        "MMAL_PARAMETER_FLICKER_AVOID"@
    }

    open spec fn spec_n() -> u32 {
        crate::native::MMAL_PARAMETER_FLICKER_AVOID
    }

    fn name() -> (r: &'static str) {
        "MMAL_PARAMETER_FLICKER_AVOID"
    }

    fn n() -> (r: u32) {
        crate::native::MMAL_PARAMETER_FLICKER_AVOID
    }
}

#[allow(non_camel_case_types)]
#[derive(Debug)]
pub struct MMAL_PARAMETER_ANALOG_GAIN;

impl ParId for MMAL_PARAMETER_ANALOG_GAIN {
    open spec fn spec_name() -> Seq<char> {
        "MMAL_PARAMETER_ANALOG_GAIN"@
    }

    open spec fn spec_n() -> u32 {
        crate::native::MMAL_PARAMETER_ANALOG_GAIN
    }

    fn name() -> (r: &'static str) {
        "MMAL_PARAMETER_ANALOG_GAIN"
    }

    fn n() -> (r: u32) {
        crate::native::MMAL_PARAMETER_ANALOG_GAIN
    }
}

#[allow(non_camel_case_types)]
#[derive(Debug)]
pub struct MMAL_PARAMETER_DIGITAL_GAIN;

impl ParId for MMAL_PARAMETER_DIGITAL_GAIN {
    open spec fn spec_name() -> Seq<char> {
        "MMAL_PARAMETER_DIGITAL_GAIN"@
    }

    open spec fn spec_n() -> u32 {
        crate::native::MMAL_PARAMETER_DIGITAL_GAIN
    }

    fn name() -> (r: &'static str) {
        "MMAL_PARAMETER_DIGITAL_GAIN"
    }

    fn n() -> (r: u32) {
        crate::native::MMAL_PARAMETER_DIGITAL_GAIN
    }
}

#[allow(non_camel_case_types)]
#[derive(Debug)]
pub struct MMAL_PARAMETER_DRAW_BOX_FACES_AND_FOCUS;

impl ParId for MMAL_PARAMETER_DRAW_BOX_FACES_AND_FOCUS {
    open spec fn spec_name() -> Seq<char> {
        "MMAL_PARAMETER_DRAW_BOX_FACES_AND_FOCUS"@
    }

    open spec fn spec_n() -> u32 {
        crate::native::MMAL_PARAMETER_DRAW_BOX_FACES_AND_FOCUS
    }

    fn name() -> (r: &'static str) {
        "MMAL_PARAMETER_DRAW_BOX_FACES_AND_FOCUS"
    }

    fn n() -> (r: u32) {
        crate::native::MMAL_PARAMETER_DRAW_BOX_FACES_AND_FOCUS
    }
}

/// Basic camera configuration.
pub type PCameraConfig = Param<CameraControlPort, CameraConfigInnerType>;

/// Saturation, from -100 to 100.
pub type PSaturation = Param<CameraControlPort, Rational<MMAL_PARAMETER_SATURATION>>;

/// Sharpness, from -100 to 100.
pub type PSharpness = Param<CameraControlPort, Rational<MMAL_PARAMETER_SHARPNESS>>;

/// Contrast, from -100 to 100.
pub type PContrast = Param<CameraControlPort, Rational<MMAL_PARAMETER_CONTRAST>>;

/// Brightness, from 0 to 100.
pub type PBrightness = Param<CameraControlPort, Rational<MMAL_PARAMETER_BRIGHTNESS>>;

/// Sensitivity.
pub type PIso = Param<CameraControlPort, Uint32<MMAL_PARAMETER_ISO>>;

/// Shutter speed in microseconds.
pub type PShutterSpeed = Param<CameraControlPort, Uint32<MMAL_PARAMETER_SHUTTER_SPEED>>;

/// Ordinal of the camera.
pub type PCameraNum = Param<CameraControlPort, Int32<MMAL_PARAMETER_CAMERA_NUM>>;

/// Starts and stops the capture of stills.
pub type PCapture = Param<CameraCapturePort, Boolean<MMAL_PARAMETER_CAPTURE>>;

/// Starts and stops the capture of video.
pub type PCaptureVideo = Param<CameraVideoPort, Boolean<MMAL_PARAMETER_CAPTURE>>;

/// The exposure mode.
pub type ExposureModeInnerType = Enumerated<ExposureMode, MMAL_PARAMETER_EXPOSURE_MODE>;

pub type PExposureMode = Param<CameraControlPort, ExposureModeInnerType>;

impl<'a> TryFrom<&'a ExposureModeInnerType> for ExposureMode {
    type Error = MmalError;

    /// The value that the record of the parameter holds.
    fn try_from(value: &'a ExposureModeInnerType) -> (r: Result<Self, MmalError>)
        ensures
            decoded::<ExposureMode>(value@.value, r),
    {
        value.value()
    }
}

impl<'a> TryFromSpecImpl<&'a ExposureModeInnerType> for ExposureMode {
    open spec fn obeys_try_from_spec() -> bool {
        false
    }

    open spec fn try_from_spec(v: &'a ExposureModeInnerType) -> Result<Self, MmalError> {
        decoded_value::<ExposureMode>(v@.value)
    }
}

/// The metering mode.
pub type ExposureMeteringModeInnerType = Enumerated<
    ExposureMeteringMode,
    MMAL_PARAMETER_EXP_METERING_MODE,
>;

pub type PExposureMeteringMode = Param<CameraControlPort, ExposureMeteringModeInnerType>;

impl<'a> TryFrom<&'a ExposureMeteringModeInnerType> for ExposureMeteringMode {
    type Error = MmalError;

    /// The value that the record of the parameter holds.
    fn try_from(value: &'a ExposureMeteringModeInnerType) -> (r: Result<Self, MmalError>)
        ensures
            decoded::<ExposureMeteringMode>(value@.value, r),
    {
        value.value()
    }
}

impl<'a> TryFromSpecImpl<&'a ExposureMeteringModeInnerType> for ExposureMeteringMode {
    open spec fn obeys_try_from_spec() -> bool {
        false
    }

    open spec fn try_from_spec(v: &'a ExposureMeteringModeInnerType) -> Result<Self, MmalError> {
        decoded_value::<ExposureMeteringMode>(v@.value)
    }
}

/// Exposure compensation, from -10 to 10.
pub type PExposureCompensation = Param<CameraControlPort, Uint32<MMAL_PARAMETER_EXPOSURE_COMP>>;

/// The mode of the automatic white balance.
pub type AwbModeInnerType = Enumerated<AwbMode, MMAL_PARAMETER_AWB_MODE>;

pub type PAwbMode = Param<CameraControlPort, AwbModeInnerType>;

impl<'a> TryFrom<&'a AwbModeInnerType> for AwbMode {
    type Error = MmalError;

    /// The value that the record of the parameter holds.
    fn try_from(value: &'a AwbModeInnerType) -> (r: Result<Self, MmalError>)
        ensures
            decoded::<AwbMode>(value@.value, r),
    {
        value.value()
    }
}

impl<'a> TryFromSpecImpl<&'a AwbModeInnerType> for AwbMode {
    open spec fn obeys_try_from_spec() -> bool {
        false
    }

    open spec fn try_from_spec(v: &'a AwbModeInnerType) -> Result<Self, MmalError> {
        decoded_value::<AwbMode>(v@.value)
    }
}

/// The gains of the white balance, red and blue.
pub type PAwbGains = Param<CameraControlPort, AwbGainsInnerType>;

/// The image effect.
pub type ImageFXInnerType = Enumerated<ImageFX, MMAL_PARAMETER_IMAGE_EFFECT>;

pub type PImageFX = Param<CameraControlPort, ImageFXInnerType>;

impl<'a> TryFrom<&'a ImageFXInnerType> for ImageFX {
    type Error = MmalError;

    /// The value that the record of the parameter holds.
    fn try_from(value: &'a ImageFXInnerType) -> (r: Result<Self, MmalError>)
        ensures
            decoded::<ImageFX>(value@.value, r),
    {
        value.value()
    }
}

impl<'a> TryFromSpecImpl<&'a ImageFXInnerType> for ImageFX {
    open spec fn obeys_try_from_spec() -> bool {
        false
    }

    open spec fn try_from_spec(v: &'a ImageFXInnerType) -> Result<Self, MmalError> {
        decoded_value::<ImageFX>(v@.value)
    }
}

/// The colour effect: whether it is on, and the U and V values to set, where
/// 128 and 128 give black and white.
pub type PColourFX = Param<CameraControlPort, ColourFxInnerType>;

/// Rotation in degrees: 0, 90, 180 or 270.
pub type PRotationVideo = Param<CameraVideoPort, Int32<MMAL_PARAMETER_ROTATION>>;

pub type PRotationPreview = Param<CameraPreviewPort, Int32<MMAL_PARAMETER_ROTATION>>;

pub type PRotationCapture = Param<CameraCapturePort, Int32<MMAL_PARAMETER_ROTATION>>;

/// The mirroring of the image.
pub type MirrorInnerType = Enumerated<Mirror, MMAL_PARAMETER_MIRROR>;

pub type PMirrorVideo = Param<CameraVideoPort, MirrorInnerType>;

pub type PMirrorPreview = Param<CameraPreviewPort, MirrorInnerType>;

pub type PMirrorCapture = Param<CameraCapturePort, MirrorInnerType>;

impl<'a> TryFrom<&'a MirrorInnerType> for Mirror {
    type Error = MmalError;

    /// The value that the record of the parameter holds.
    fn try_from(value: &'a MirrorInnerType) -> (r: Result<Self, MmalError>)
        ensures
            decoded::<Mirror>(value@.value, r),
    {
        value.value()
    }
}

impl<'a> TryFromSpecImpl<&'a MirrorInnerType> for Mirror {
    open spec fn obeys_try_from_spec() -> bool {
        false
    }

    open spec fn try_from_spec(v: &'a MirrorInnerType) -> Result<Self, MmalError> {
        decoded_value::<Mirror>(v@.value)
    }
}

/// The region of the sensor that captures and previews use.
pub type PROI = Param<CameraControlPort, MirrorInnerType>;

/// The strength of the compression of the dynamic range.
pub type DRCInnerType = Enumerated<DRC, MMAL_PARAMETER_DYNAMIC_RANGE_COMPRESSION>;

pub type PDRC = Param<CameraControlPort, DRCInnerType>;

impl<'a> TryFrom<&'a DRCInnerType> for DRC {
    type Error = MmalError;

    /// The value that the record of the parameter holds.
    fn try_from(value: &'a DRCInnerType) -> (r: Result<Self, MmalError>)
        ensures
            decoded::<DRC>(value@.value, r),
    {
        value.value()
    }
}

impl<'a> TryFromSpecImpl<&'a DRCInnerType> for DRC {
    open spec fn obeys_try_from_spec() -> bool {
        false
    }

    open spec fn try_from_spec(v: &'a DRCInnerType) -> Result<Self, MmalError> {
        decoded_value::<DRC>(v@.value)
    }
}

/// Statistics pass.
pub type PStatsPass = Param<CameraControlPort, Boolean<MMAL_PARAMETER_CAPTURE_STATS_PASS>>;

/// The stereoscopic mode.
pub type PStereoModePreview = Param<CameraPreviewPort, StereoModeInnerType>;

pub type PStereoModeVideo = Param<CameraVideoPort, StereoModeInnerType>;

pub type PStereoModeCapture = Param<CameraCapturePort, StereoModeInnerType>;

/// Video stabilisation, which works in video mode only.
pub type PVideoStabilization = Param<
    CameraControlPort,
    Boolean<MMAL_PARAMETER_VIDEO_STABILISATION>,
>;

/// The avoidance of flicker.
pub type FlickerAvoidInnerType = Enumerated<FlickerAvoid, MMAL_PARAMETER_FLICKER_AVOID>;

pub type PFlickerAvoid = Param<CameraControlPort, FlickerAvoidInnerType>;

impl<'a> TryFrom<&'a FlickerAvoidInnerType> for FlickerAvoid {
    type Error = MmalError;

    /// The value that the record of the parameter holds.
    fn try_from(value: &'a FlickerAvoidInnerType) -> (r: Result<Self, MmalError>)
        ensures
            decoded::<FlickerAvoid>(value@.value, r),
    {
        value.value()
    }
}

impl<'a> TryFromSpecImpl<&'a FlickerAvoidInnerType> for FlickerAvoid {
    open spec fn obeys_try_from_spec() -> bool {
        false
    }

    open spec fn try_from_spec(v: &'a FlickerAvoidInnerType) -> Result<Self, MmalError> {
        decoded_value::<FlickerAvoid>(v@.value)
    }
}

/// Analog gain.
pub type PAnalogGain = Param<CameraControlPort, Rational<MMAL_PARAMETER_ANALOG_GAIN>>;

/// Digital gain.
pub type PDigitalGain = Param<CameraControlPort, Rational<MMAL_PARAMETER_DIGITAL_GAIN>>;

/// Whether the focus window is drawn.
pub type PFocusWindow = Param<
    CameraControlPort,
    Boolean<MMAL_PARAMETER_DRAW_BOX_FACES_AND_FOCUS>,
>;

/// The annotation of the image.
pub type PAnnotate = Param<CameraControlPort, AnnotateInnerType>;

//------------------------------------------------------------------------------------------------------------------------------
/// Denominator of the gains of the white balance.
pub const AWB_GAIN_SCALE: i32 = 0x1_0000;

/// The native record of the gains of the white balance.
#[derive(Debug, Clone, Copy, PartialEq, Eq, Structural)]
pub struct AwbGainsBlock {
    pub hdr: ParameterHeader,
    pub r_gain: RationalValue,
    pub b_gain: RationalValue,
}

/// The gains of the white balance as a parameter. The gains are ratios over
/// 65536.
#[derive(Debug)]
pub struct AwbGainsInnerType {
    inner: AwbGainsBlock,
}

impl View for AwbGainsInnerType {
    type V = AwbGainsBlock;

    closed spec fn view(&self) -> AwbGainsBlock {
        self.inner
    }
}

impl Default for AwbGainsInnerType {
    fn default() -> (r: Self)
        ensures
            r@ == (AwbGainsBlock {
                hdr: ParameterHeader {
                    id: crate::native::MMAL_PARAMETER_CUSTOM_AWB_GAINS,
                    size: MMAL_PARAMETER_AWB_GAINS_SIZE,
                },
                r_gain: RationalValue { num: 0, den: 0 },
                b_gain: RationalValue { num: 0, den: 0 },
            }),
    {
        Self {
            inner: AwbGainsBlock {
                hdr: ParameterHeader {
                    id: crate::native::MMAL_PARAMETER_CUSTOM_AWB_GAINS,
                    size: MMAL_PARAMETER_AWB_GAINS_SIZE,
                },
                r_gain: RationalValue { num: 0, den: 0 },
                b_gain: RationalValue { num: 0, den: 0 },
            },
        }
    }
}

impl AwbGainsInnerType {
    /// The record of the parameter.
    pub fn block(&self) -> (b: AwbGainsBlock)
        ensures
            b == self@,
    {
        self.inner
    }

    /// Sets the gains to `r_gain` and `b_gain` parts of 65536.
    pub fn set_fixed(&mut self, r_gain: i32, b_gain: i32)
        ensures
            final(self)@ == (AwbGainsBlock {
                hdr: old(self)@.hdr,
                r_gain: RationalValue { num: r_gain, den: AWB_GAIN_SCALE },
                b_gain: RationalValue { num: b_gain, den: AWB_GAIN_SCALE },
            }),
    {
        self.inner.r_gain = RationalValue { num: r_gain, den: AWB_GAIN_SCALE };
        self.inner.b_gain = RationalValue { num: b_gain, den: AWB_GAIN_SCALE };
    }

    /// The gains of `r_gain` and `b_gain` parts of 65536.
    pub fn new_fixed(r_gain: i32, b_gain: i32) -> (r: Self)
        ensures
            r@ == (AwbGainsBlock {
                hdr: ParameterHeader {
                    id: crate::native::MMAL_PARAMETER_CUSTOM_AWB_GAINS,
                    size: MMAL_PARAMETER_AWB_GAINS_SIZE,
                },
                r_gain: RationalValue { num: r_gain, den: AWB_GAIN_SCALE },
                b_gain: RationalValue { num: b_gain, den: AWB_GAIN_SCALE },
            }),
    {
        let mut rv = Self::default();
        rv.set_fixed(r_gain, b_gain);
        rv
    }

    /// The gains, red then blue, each as a ratio.
    pub fn get(&self) -> (r: (RationalValue, RationalValue))
        ensures
            r == (self@.r_gain, self@.b_gain),
    {
        (self.inner.r_gain, self.inner.b_gain)
    }
}

impl InnerParamType for AwbGainsInnerType {
    type Raw = AwbGainsBlock;

    open spec fn spec_name() -> Seq<char> {
        "AwbGainsInnerType"@
    }

    open spec fn spec_id(&self) -> u32 {
        self@.hdr.id
    }

    open spec fn raw(&self) -> AwbGainsBlock {
        self@
    }

    closed spec fn absorb(self, raw: AwbGainsBlock) -> Self {
        Self { inner: raw }
    }

    fn name() -> (r: &'static str) {
        "AwbGainsInnerType"
    }

    fn set_param<F: FnOnce(usize, u32, &AwbGainsBlock) -> MmalStatus>(
        &self,
        port: usize,
        native: F,
    ) -> (status: MmalStatus) {
        native(port, self.inner.hdr.id, &self.inner)
    }

    fn get_param<F: FnOnce(usize, u32, &AwbGainsBlock) -> (MmalStatus, AwbGainsBlock)>(
        &mut self,
        port: usize,
        native: F,
    ) -> (status: MmalStatus) {
        let (status, raw) = native(port, self.inner.hdr.id, &self.inner);
        if status == MMAL_SUCCESS {
            self.inner = raw;
        }
        status
    }
}

//------------------------------------------------------------------------------------------------------------------------------
/// The native record of the colour effect.
#[derive(Debug, Clone, Copy, PartialEq, Eq, Structural)]
pub struct ColourFxBlock {
    pub hdr: ParameterHeader,
    pub enable: i32,
    pub u: u32,
    pub v: u32,
}

/// The colour effect as a parameter.
#[derive(Debug)]
pub struct ColourFxInnerType {
    inner: ColourFxBlock,
}

impl View for ColourFxInnerType {
    type V = ColourFxBlock;

    closed spec fn view(&self) -> ColourFxBlock {
        self.inner
    }
}

impl Default for ColourFxInnerType {
    fn default() -> (r: Self)
        ensures
            r@ == (ColourFxBlock {
                hdr: ParameterHeader {
                    id: crate::native::MMAL_PARAMETER_COLOUR_EFFECT,
                    size: MMAL_PARAMETER_COLOURFX_SIZE,
                },
                enable: 0,
                u: 0,
                v: 0,
            }),
    {
        Self {
            inner: ColourFxBlock {
                hdr: ParameterHeader {
                    id: crate::native::MMAL_PARAMETER_COLOUR_EFFECT,
                    size: MMAL_PARAMETER_COLOURFX_SIZE,
                },
                enable: 0,
                u: 0,
                v: 0,
            },
        }
    }
}

impl ColourFxInnerType {
    /// The record of the parameter.
    pub fn block(&self) -> (b: ColourFxBlock)
        ensures
            b == self@,
    {
        self.inner
    }

    pub fn set(&mut self, enable: bool, u: u32, v: u32)
        ensures
            final(self)@ == (ColourFxBlock { hdr: old(self)@.hdr, enable: mmal_of(enable), u, v }),
    {
        self.inner.enable = bool_rust_to_mmal(enable);
        self.inner.u = u;
        self.inner.v = v;
    }

    pub fn new(enable: bool, u: u32, v: u32) -> (r: Self)
        ensures
            r@ == (ColourFxBlock {
                hdr: ParameterHeader {
                    id: crate::native::MMAL_PARAMETER_COLOUR_EFFECT,
                    size: MMAL_PARAMETER_COLOURFX_SIZE,
                },
                enable: mmal_of(enable),
                u,
                v,
            }),
    {
        let mut rv = Self::default();
        rv.set(enable, u, v);
        rv
    }

    /// Whether the effect is on, and its U and V values.
    pub fn get(&self) -> (r: (bool, u32, u32))
        ensures
            r == (bool_of_mmal(self@.enable), self@.u, self@.v),
    {
        (bool_mmal_to_rust(self.inner.enable), self.inner.u, self.inner.v)
    }
}

impl Apply<(bool, u32, u32)> for ColourFxInnerType {
    closed spec fn applied(self, source: (bool, u32, u32)) -> Self {
        Self {
            inner: ColourFxBlock {
                hdr: self.inner.hdr,
                enable: mmal_of(source.0),
                u: source.1,
                v: source.2,
            },
        }
    }

    fn apply(&mut self, source: (bool, u32, u32)) {
        self.set(source.0, source.1, source.2);
    }
}

impl InnerParamType for ColourFxInnerType {
    type Raw = ColourFxBlock;

    open spec fn spec_name() -> Seq<char> {
        "ColourFxInnerType"@
    }

    open spec fn spec_id(&self) -> u32 {
        self@.hdr.id
    }

    open spec fn raw(&self) -> ColourFxBlock {
        self@
    }

    closed spec fn absorb(self, raw: ColourFxBlock) -> Self {
        Self { inner: raw }
    }

    fn name() -> (r: &'static str) {
        "ColourFxInnerType"
    }

    fn set_param<F: FnOnce(usize, u32, &ColourFxBlock) -> MmalStatus>(
        &self,
        port: usize,
        native: F,
    ) -> (status: MmalStatus) {
        native(port, self.inner.hdr.id, &self.inner)
    }

    fn get_param<F: FnOnce(usize, u32, &ColourFxBlock) -> (MmalStatus, ColourFxBlock)>(
        &mut self,
        port: usize,
        native: F,
    ) -> (status: MmalStatus) {
        let (status, raw) = native(port, self.inner.hdr.id, &self.inner);
        if status == MMAL_SUCCESS {
            self.inner = raw;
        }
        status
    }
}

//------------------------------------------------------------------------------------------------------------------------------
/// A rectangle, as the native layer stores it.
#[derive(Debug, Clone, Copy, PartialEq, Eq, Structural)]
pub struct Rect {
    pub x: i32,
    pub y: i32,
    pub width: i32,
    pub height: i32,
}

/// The native record of the crop of the sensor.
#[derive(Debug, Clone, Copy, PartialEq, Eq, Structural)]
pub struct InputCropBlock {
    pub hdr: ParameterHeader,
    pub rect: Rect,
}

/// The crop of the sensor as a parameter.
#[derive(Debug)]
pub struct CropInnerType {
    inner: InputCropBlock,
}

impl View for CropInnerType {
    type V = InputCropBlock;

    closed spec fn view(&self) -> InputCropBlock {
        self.inner
    }
}

impl Default for CropInnerType {
    fn default() -> (r: Self)
        ensures
            r@ == (InputCropBlock {
                hdr: ParameterHeader {
                    id: crate::native::MMAL_PARAMETER_INPUT_CROP,
                    size: MMAL_PARAMETER_INPUT_CROP_SIZE,
                },
                rect: Rect { x: 0, y: 0, width: 0, height: 0 },
            }),
    {
        Self {
            inner: InputCropBlock {
                hdr: ParameterHeader {
                    id: crate::native::MMAL_PARAMETER_INPUT_CROP,
                    size: MMAL_PARAMETER_INPUT_CROP_SIZE,
                },
                rect: Rect { x: 0, y: 0, width: 0, height: 0 },
            },
        }
    }
}

impl CropInnerType {
    /// The record of the parameter.
    pub fn block(&self) -> (b: InputCropBlock)
        ensures
            b == self@,
    {
        self.inner
    }

    /// Sets the crop: the left edge and the width, then the upper edge and
    /// the height.
    pub fn set(&mut self, xw: (i32, i32), yh: (i32, i32))
        ensures
            final(self)@ == (InputCropBlock {
                hdr: old(self)@.hdr,
                rect: Rect { x: xw.0, y: yh.0, width: xw.1, height: yh.1 },
            }),
    {
        self.inner.rect.x = xw.0;
        self.inner.rect.width = xw.1;
        self.inner.rect.y = yh.0;
        self.inner.rect.height = yh.1;
    }

    pub fn new(xw: (i32, i32), yh: (i32, i32)) -> (r: Self)
        ensures
            r@ == (InputCropBlock {
                hdr: ParameterHeader {
                    id: crate::native::MMAL_PARAMETER_INPUT_CROP,
                    size: MMAL_PARAMETER_INPUT_CROP_SIZE,
                },
                rect: Rect { x: xw.0, y: yh.0, width: xw.1, height: yh.1 },
            }),
    {
        let mut rv = Self::default();
        rv.set(xw, yh);
        rv
    }

    /// The crop: the left edge and the width, then the upper edge and the
    /// height.
    pub fn get(&self) -> (r: ((i32, i32), (i32, i32)))
        ensures
            r == ((self@.rect.x, self@.rect.width), (self@.rect.y, self@.rect.height)),
    {
        (
            (self.inner.rect.x, self.inner.rect.width),
            (self.inner.rect.y, self.inner.rect.height),
        )
    }
}

impl Apply<((i32, i32), (i32, i32))> for CropInnerType {
    closed spec fn applied(self, source: ((i32, i32), (i32, i32))) -> Self {
        Self {
            inner: InputCropBlock {
                hdr: self.inner.hdr,
                rect: Rect {
                    x: source.0.0,
                    y: source.1.0,
                    width: source.0.1,
                    height: source.1.1,
                },
            },
        }
    }

    fn apply(&mut self, source: ((i32, i32), (i32, i32))) {
        self.set(source.0, source.1);
    }
}

impl InnerParamType for CropInnerType {
    type Raw = InputCropBlock;

    open spec fn spec_name() -> Seq<char> {
        "CropInnerType"@
    }

    open spec fn spec_id(&self) -> u32 {
        self@.hdr.id
    }

    open spec fn raw(&self) -> InputCropBlock {
        self@
    }

    closed spec fn absorb(self, raw: InputCropBlock) -> Self {
        Self { inner: raw }
    }

    fn name() -> (r: &'static str) {
        "CropInnerType"
    }

    fn set_param<F: FnOnce(usize, u32, &InputCropBlock) -> MmalStatus>(
        &self,
        port: usize,
        native: F,
    ) -> (status: MmalStatus) {
        native(port, self.inner.hdr.id, &self.inner)
    }

    fn get_param<F: FnOnce(usize, u32, &InputCropBlock) -> (MmalStatus, InputCropBlock)>(
        &mut self,
        port: usize,
        native: F,
    ) -> (status: MmalStatus) {
        let (status, raw) = native(port, self.inner.hdr.id, &self.inner);
        if status == MMAL_SUCCESS {
            self.inner = raw;
        }
        status
    }
}

//------------------------------------------------------------------------------------------------------------------------------
/// The native record of the stereoscopic mode.
#[derive(Debug, Clone, Copy, PartialEq, Eq, Structural)]
pub struct StereoscopicModeBlock {
    pub hdr: ParameterHeader,
    pub mode: u32,
    pub decimate: i32,
    pub swap_eyes: i32,
}

/// The stereoscopic mode as a parameter.
#[derive(Debug)]
pub struct StereoModeInnerType {
    inner: StereoscopicModeBlock,
}

impl View for StereoModeInnerType {
    type V = StereoscopicModeBlock;

    closed spec fn view(&self) -> StereoscopicModeBlock {
        self.inner
    }
}

impl Default for StereoModeInnerType {
    fn default() -> (r: Self)
        ensures
            r@ == (StereoscopicModeBlock {
                hdr: ParameterHeader {
                    id: crate::native::MMAL_PARAMETER_STEREOSCOPIC_MODE,
                    size: MMAL_PARAMETER_STEREOSCOPIC_MODE_SIZE,
                },
                mode: 0,
                decimate: 0,
                swap_eyes: 0,
            }),
    {
        Self {
            inner: StereoscopicModeBlock {
                hdr: ParameterHeader {
                    id: crate::native::MMAL_PARAMETER_STEREOSCOPIC_MODE,
                    size: MMAL_PARAMETER_STEREOSCOPIC_MODE_SIZE,
                },
                mode: 0,
                decimate: 0,
                swap_eyes: 0,
            },
        }
    }
}

/// How the reading of a stereoscopic mode off a record ends: with the mode
/// and the two truth values of the record, or with the invalid-enum error
/// where the mode of the record is none.
pub open spec fn stereo_read(
    b: StereoscopicModeBlock,
    r: Result<(StereoMode, bool, bool), MmalError>,
) -> bool {
    match StereoMode::of_native(b.mode) {
        Some(mode) => r == Ok::<(StereoMode, bool, bool), MmalError>(
            (mode, bool_of_mmal(b.decimate), bool_of_mmal(b.swap_eyes)),
        ),
        None => r is Err && r->Err_0@.cause == Cause::InvalidEnumValue,
    }
}

impl StereoModeInnerType {
    /// The record of the parameter.
    pub fn block(&self) -> (b: StereoscopicModeBlock)
        ensures
            b == self@,
    {
        self.inner
    }

    pub fn set(&mut self, mode: StereoMode, decimate: bool, swap_eyes: bool)
        ensures
            final(self)@ == (StereoscopicModeBlock {
                hdr: old(self)@.hdr,
                mode: mode.native(),
                decimate: mmal_of(decimate),
                swap_eyes: mmal_of(swap_eyes),
            }),
    {
        self.inner.mode = mode.to_native();
        self.inner.decimate = bool_rust_to_mmal(decimate);
        self.inner.swap_eyes = bool_rust_to_mmal(swap_eyes);
    }

    pub fn new(mode: StereoMode, decimate: bool, swap_eyes: bool) -> (r: Self)
        ensures
            r@ == (StereoscopicModeBlock {
                hdr: ParameterHeader {
                    id: crate::native::MMAL_PARAMETER_STEREOSCOPIC_MODE,
                    size: MMAL_PARAMETER_STEREOSCOPIC_MODE_SIZE,
                },
                mode: mode.native(),
                decimate: mmal_of(decimate),
                swap_eyes: mmal_of(swap_eyes),
            }),
    {
        let mut rv = Self::default();
        rv.set(mode, decimate, swap_eyes);
        rv
    }

    /// The mode, whether the image is decimated, and whether the eyes are
    /// swapped.
    pub fn get(&self) -> (r: Result<(StereoMode, bool, bool), MmalError>)
        ensures
            stereo_read(self@, r),
    {
        let mode: StereoMode = match decode(self.inner.mode) {
            Ok(mode) => mode,
            Err(e) => {
                return Err(e);
            },
        };
        Ok(
            (
                mode,
                bool_mmal_to_rust(self.inner.decimate),
                bool_mmal_to_rust(self.inner.swap_eyes),
            ),
        )
    }
}

impl Apply<(StereoMode, bool, bool)> for StereoModeInnerType {
    closed spec fn applied(self, source: (StereoMode, bool, bool)) -> Self {
        Self {
            inner: StereoscopicModeBlock {
                hdr: self.inner.hdr,
                mode: source.0.native(),
                decimate: mmal_of(source.1),
                swap_eyes: mmal_of(source.2),
            },
        }
    }

    fn apply(&mut self, source: (StereoMode, bool, bool)) {
        self.set(source.0, source.1, source.2);
    }
}

impl InnerParamType for StereoModeInnerType {
    type Raw = StereoscopicModeBlock;

    open spec fn spec_name() -> Seq<char> {
        "StereoModeInnerType"@
    }

    open spec fn spec_id(&self) -> u32 {
        self@.hdr.id
    }

    open spec fn raw(&self) -> StereoscopicModeBlock {
        self@
    }

    closed spec fn absorb(self, raw: StereoscopicModeBlock) -> Self {
        Self { inner: raw }
    }

    fn name() -> (r: &'static str) {
        "StereoModeInnerType"
    }

    fn set_param<F: FnOnce(usize, u32, &StereoscopicModeBlock) -> MmalStatus>(
        &self,
        port: usize,
        native: F,
    ) -> (status: MmalStatus) {
        native(port, self.inner.hdr.id, &self.inner)
    }

    fn get_param<
        F: FnOnce(usize, u32, &StereoscopicModeBlock) -> (MmalStatus, StereoscopicModeBlock),
    >(&mut self, port: usize, native: F) -> (status: MmalStatus) {
        let (status, raw) = native(port, self.inner.hdr.id, &self.inner);
        if status == MMAL_SUCCESS {
            self.inner = raw;
        }
        status
    }
}

/// A stereoscopic mode that a record took in reads back from it as it was.
pub proof fn lemma_stereo_round_trip(
    record: StereoModeInnerType,
    source: (StereoMode, bool, bool),
    r: Result<(StereoMode, bool, bool), MmalError>,
)
    requires
        stereo_read(record.applied(source)@, r),
    ensures
        r == Ok::<(StereoMode, bool, bool), MmalError>(source),
{
    StereoMode::lemma_native_round_trip(source.0);
}

//------------------------------------------------------------------------------------------------------------------------------
/// What is written over the image, and how.
#[derive(Debug, Clone)]
pub struct Annotate {
    pub enable: bool,
    pub show_shutter: bool,
    pub show_analog_gain: bool,
    pub show_lens: bool,
    pub show_caf: bool,
    pub show_motion: bool,
    pub show_frame_num: bool,
    pub enable_text_background: bool,
    pub custom_background_colour: bool,
    pub custom_background_y: u8,
    pub custom_background_u: u8,
    pub custom_background_v: u8,
    pub custom_text_colour: bool,
    pub custom_text_y: u8,
    pub custom_text_u: u8,
    pub custom_text_v: u8,
    pub text_size: u8,
    pub text: String,
    /// 0 for the centre, 1 for the left, 2 for the right.
    pub justify: u32,
    /// Horizontal offset from the edge of the justification.
    pub x_offset: u32,
    /// Vertical offset from the edge of the justification.
    pub y_offset: u32,
}

impl Default for Annotate {
    fn default() -> (r: Self)
        ensures
            !r.enable,
            !r.show_shutter,
            !r.show_analog_gain,
            !r.show_lens,
            !r.show_caf,
            !r.show_motion,
            !r.show_frame_num,
            !r.enable_text_background,
            !r.custom_background_colour,
            r.custom_background_y == 0,
            r.custom_background_u == 0,
            r.custom_background_v == 0,
            !r.custom_text_colour,
            r.custom_text_y == 0,
            r.custom_text_u == 0,
            r.custom_text_v == 0,
            r.text_size == 0,
            r.text@ == Seq::<char>::empty(),
            r.justify == 0,
            r.x_offset == 0,
            r.y_offset == 0,
    {
        Self {
            enable: false,
            show_shutter: false,
            show_analog_gain: false,
            show_lens: false,
            show_caf: false,
            show_motion: false,
            show_frame_num: false,
            enable_text_background: false,
            custom_background_colour: false,
            custom_background_y: 0,
            custom_background_u: 0,
            custom_background_v: 0,
            custom_text_colour: false,
            custom_text_y: 0,
            custom_text_u: 0,
            custom_text_v: 0,
            text_size: 0,
            text: String::new(),
            justify: 0,
            x_offset: 0,
            y_offset: 0,
        }
    }
}

/// The native record of the annotation. Its text is a string of bytes that
/// a zero byte ends.
#[derive(Debug, Clone, Copy)]
pub struct AnnotateBlock {
    pub hdr: ParameterHeader,
    pub enable: i32,
    pub show_shutter: i32,
    pub show_analog_gain: i32,
    pub show_lens: i32,
    pub show_caf: i32,
    pub show_motion: i32,
    pub show_frame_num: i32,
    pub enable_text_background: i32,
    pub custom_background_colour: i32,
    pub custom_background_y: u8,
    pub custom_background_u: u8,
    pub custom_background_v: u8,
    pub custom_text_colour: i32,
    pub custom_text_y: u8,
    pub custom_text_u: u8,
    pub custom_text_v: u8,
    pub text_size: u8,
    pub text: [u8; 256],
    pub justify: u32,
    pub x_offset: u32,
    pub y_offset: u32,
}

/// Whether a text has room in the record and can be ended by a zero byte:
/// it is shorter than the text field, and holds no zero byte itself.
pub open spec fn text_fits(bytes: Seq<u8>) -> bool {
    &&& bytes.len() < MMAL_CAMERA_ANNOTATE_MAX_TEXT_LEN_V4
    &&& forall|i: int| 0 <= i < bytes.len() ==> bytes[i] != 0
}

/// What is written at the head of the text field for a text: the text and
/// the zero byte that ends it, or the zero byte alone, which is the empty
/// text, for a text that does not fit.
pub open spec fn text_head(bytes: Seq<u8>) -> Seq<u8> {
    if text_fits(bytes) {
        bytes.push(0u8)
    } else {
        seq![0u8]
    }
}

/// The text field after a text was written to it: the head is written, the
/// bytes behind it stay as they were.
pub open spec fn annotated_text(before: Seq<u8>, bytes: Seq<u8>) -> Seq<u8> {
    text_head(bytes) + before.skip(text_head(bytes).len() as int)
}

/// The text field that holds the given bytes.
pub open spec fn text_field(bytes: Seq<u8>) -> [u8; 256] {
    choose|t: [u8; 256]| t@ == bytes
}

/// The text field `base` with its first `k` bytes replaced by those of
/// `bytes`.
spec fn overwritten(base: [u8; 256], bytes: Seq<u8>, k: nat) -> [u8; 256]
    decreases k,
{
    if k == 0 {
        base
    } else {
        vstd::array::spec_array_update(
            overwritten(base, bytes, (k - 1) as nat),
            k - 1,
            bytes[k - 1],
        )
    }
}

proof fn lemma_overwritten(base: [u8; 256], bytes: Seq<u8>, k: nat)
    requires
        k <= 256,
        bytes.len() == 256,
    ensures
        overwritten(base, bytes, k)@ == bytes.take(k as int) + base@.skip(k as int),
    decreases k,
{
    broadcast use {vstd::array::array_len_matches_n, vstd::array::axiom_spec_array_update};

    if k == 0 {
        assert(base@ =~= bytes.take(0) + base@.skip(0));
    } else {
        lemma_overwritten(base, bytes, (k - 1) as nat);
        let before = overwritten(base, bytes, (k - 1) as nat);
        assert(before@.len() == 256);
        assert(overwritten(base, bytes, k)@ == before@.update(k - 1, bytes[k - 1]));
        assert(before@.update(k - 1, bytes[k - 1]) =~= bytes.take(k as int) + base@.skip(
            k as int,
        ));
    }
}

/// Every 256 bytes are held by a text field, and [`text_field`] is one that
/// holds them.
pub proof fn lemma_text_field(bytes: Seq<u8>)
    requires
        bytes.len() == 256,
    ensures
        text_field(bytes)@ == bytes,
{
    let zeros: [u8; 256] = vstd::array::spec_array_fill_for_copy_type(0u8);
    lemma_overwritten(zeros, bytes, 256);
    let held = overwritten(zeros, bytes, 256);
    assert(held@ =~= bytes);
}

/// The record under the head `hdr` that holds the annotation `w`, in a text
/// field that held `text` before. Every truth value is stored as its native
/// integer.
pub open spec fn annotate_block(hdr: ParameterHeader, text: Seq<u8>, w: Annotate) -> AnnotateBlock {
    AnnotateBlock {
        hdr,
        enable: mmal_of(w.enable),
        show_shutter: mmal_of(w.show_shutter),
        show_analog_gain: mmal_of(w.show_analog_gain),
        show_lens: mmal_of(w.show_lens),
        show_caf: mmal_of(w.show_caf),
        show_motion: mmal_of(w.show_motion),
        show_frame_num: mmal_of(w.show_frame_num),
        enable_text_background: mmal_of(w.enable_text_background),
        custom_background_colour: mmal_of(w.custom_background_colour),
        custom_background_y: w.custom_background_y,
        custom_background_u: w.custom_background_u,
        custom_background_v: w.custom_background_v,
        custom_text_colour: mmal_of(w.custom_text_colour),
        custom_text_y: w.custom_text_y,
        custom_text_u: w.custom_text_u,
        custom_text_v: w.custom_text_v,
        text_size: w.text_size,
        text: text_field(annotated_text(text, vstd::utf8::encode_utf8(w.text@))),
        justify: w.justify,
        x_offset: w.x_offset,
        y_offset: w.y_offset,
    }
}

/// The annotation as a parameter.
#[derive(Debug)]
pub struct AnnotateInnerType {
    inner: AnnotateBlock,
}

impl View for AnnotateInnerType {
    type V = AnnotateBlock;

    closed spec fn view(&self) -> AnnotateBlock {
        self.inner
    }
}

impl Default for AnnotateInnerType {
    fn default() -> (r: Self)
        ensures
            r@.hdr == (ParameterHeader {
                id: crate::native::MMAL_PARAMETER_ANNOTATE,
                size: MMAL_PARAMETER_CAMERA_ANNOTATE_V4_SIZE,
            }),
            r@.enable == 0,
            r@.text@ == Seq::new(256, |i: int| 0u8),
    {
        let text: [u8; 256] = vstd::array::array_fill_for_copy_types(0u8);
        proof {
            broadcast use vstd::array::axiom_spec_array_fill_for_copy_type;

            assert(text@ =~= Seq::new(256, |i: int| 0u8));
        }
        Self {
            inner: AnnotateBlock {
                hdr: ParameterHeader {
                    id: crate::native::MMAL_PARAMETER_ANNOTATE,
                    size: MMAL_PARAMETER_CAMERA_ANNOTATE_V4_SIZE,
                },
                enable: 0,
                show_shutter: 0,
                show_analog_gain: 0,
                show_lens: 0,
                show_caf: 0,
                show_motion: 0,
                show_frame_num: 0,
                enable_text_background: 0,
                custom_background_colour: 0,
                custom_background_y: 0,
                custom_background_u: 0,
                custom_background_v: 0,
                custom_text_colour: 0,
                custom_text_y: 0,
                custom_text_u: 0,
                custom_text_v: 0,
                text_size: 0,
                text,
                justify: 0,
                x_offset: 0,
                y_offset: 0,
            },
        }
    }
}

impl AnnotateInnerType {
    pub fn new() -> (r: Self)
        ensures
            r@.hdr == (ParameterHeader {
                id: crate::native::MMAL_PARAMETER_ANNOTATE,
                size: MMAL_PARAMETER_CAMERA_ANNOTATE_V4_SIZE,
            }),
            r@.enable == 0,
            r@.text@ == Seq::new(256, |i: int| 0u8),
    {
        Self::default()
    }

    /// The record of the parameter.
    pub fn block(&self) -> (b: AnnotateBlock)
        ensures
            b == self@,
    {
        self.inner
    }

    /// Writes a text to the text field: the text and the zero byte that ends
    /// it, or the zero byte alone for a text that does not fit.
    fn write_text(&mut self, bytes: &[u8])
        ensures
            final(self).inner.text@ == annotated_text(old(self).inner.text@, bytes@),
            final(self).inner == (AnnotateBlock { text: final(self).inner.text, ..old(self).inner }),
    {
        broadcast use vstd::array::array_len_matches_n;

        let ghost before = self.inner.text@;
        let n = bytes.len();
        let mut fits = n < MMAL_CAMERA_ANNOTATE_MAX_TEXT_LEN_V4;
        if fits {
            let mut i: usize = 0;
            while i < n
                invariant
                    n == bytes@.len(),
                    i <= n,
                    fits <==> forall|j: int| 0 <= j < i ==> bytes@[j] != 0,
                decreases n - i,
            {
                if bytes[i] == 0 {
                    fits = false;
                }
                i = i + 1;
            }
        }
        assert(fits == text_fits(bytes@));
        if fits {
            let mut i: usize = 0;
            while i < n
                invariant
                    n == bytes@.len(),
                    n < 256,
                    i <= n,
                    before.len() == 256,
                    self.inner.text@ == bytes@.take(i as int) + before.skip(i as int),
                    self.inner == (AnnotateBlock { text: self.inner.text, ..old(self).inner }),
                decreases n - i,
            {
                self.inner.text[i] = bytes[i];
                assert(self.inner.text@ =~= bytes@.take(i + 1) + before.skip(i + 1));
                i = i + 1;
            }
            self.inner.text[n] = 0u8;
            assert(self.inner.text@ =~= annotated_text(before, bytes@));
        } else {
            self.inner.text[0] = 0u8;
            assert(self.inner.text@ =~= annotated_text(before, bytes@));
        }
    }
}

impl<'a> Apply<&'a Annotate> for AnnotateInnerType {
    /// Every field is copied, the truth values as native integers. The text
    /// is written over the head of the text field, ended by a zero byte; a
    /// text that holds a zero byte, or that has no room with its end, is
    /// written as the empty text.
    closed spec fn applied(self, source: &'a Annotate) -> Self {
        Self { inner: annotate_block(self.inner.hdr, self.inner.text@, *source) }
    }

    fn apply(&mut self, w: &'a Annotate) {
        self.inner.enable = bool_rust_to_mmal(w.enable);
        self.inner.show_shutter = bool_rust_to_mmal(w.show_shutter);
        self.inner.show_analog_gain = bool_rust_to_mmal(w.show_analog_gain);
        self.inner.show_lens = bool_rust_to_mmal(w.show_lens);
        self.inner.show_caf = bool_rust_to_mmal(w.show_caf);
        self.inner.show_motion = bool_rust_to_mmal(w.show_motion);
        self.inner.show_frame_num = bool_rust_to_mmal(w.show_frame_num);
        self.inner.enable_text_background = bool_rust_to_mmal(w.enable_text_background);
        self.inner.custom_background_colour = bool_rust_to_mmal(w.custom_background_colour);
        self.inner.custom_background_y = w.custom_background_y;
        self.inner.custom_background_u = w.custom_background_u;
        self.inner.custom_background_v = w.custom_background_v;
        self.inner.custom_text_colour = bool_rust_to_mmal(w.custom_text_colour);
        self.inner.custom_text_y = w.custom_text_y;
        self.inner.custom_text_u = w.custom_text_u;
        self.inner.custom_text_v = w.custom_text_v;
        self.inner.text_size = w.text_size;
        self.write_text(w.text.as_str().as_bytes());
        self.inner.justify = w.justify;
        self.inner.x_offset = w.x_offset;
        self.inner.y_offset = w.y_offset;
        proof {
            broadcast use vstd::array::axiom_array_ext_equal;

            let target = annotated_text(
                old(self).inner.text@,
                vstd::utf8::encode_utf8(w.text@),
            );
            assert(self.inner.text@ == target);
            assert(text_field(target)@ == target);
            assert(text_field(target) =~= self.inner.text);
        }
    }
}

impl InnerParamType for AnnotateInnerType {
    type Raw = AnnotateBlock;

    open spec fn spec_name() -> Seq<char> {
        "AnnotateInnerType"@
    }

    open spec fn spec_id(&self) -> u32 {
        self@.hdr.id
    }

    open spec fn raw(&self) -> AnnotateBlock {
        self@
    }

    closed spec fn absorb(self, raw: AnnotateBlock) -> Self {
        Self { inner: raw }
    }

    fn name() -> (r: &'static str) {
        "AnnotateInnerType"
    }

    fn set_param<F: FnOnce(usize, u32, &AnnotateBlock) -> MmalStatus>(
        &self,
        port: usize,
        native: F,
    ) -> (status: MmalStatus) {
        native(port, self.inner.hdr.id, &self.inner)
    }

    fn get_param<F: FnOnce(usize, u32, &AnnotateBlock) -> (MmalStatus, AnnotateBlock)>(
        &mut self,
        port: usize,
        native: F,
    ) -> (status: MmalStatus) {
        let (status, raw) = native(port, self.inner.hdr.id, &self.inner);
        if status == MMAL_SUCCESS {
            self.inner = raw;
        }
        status
    }
}

/// The record that took an annotation in holds the annotation under its own
/// head. A text that fits stands at the head of the text field with a zero
/// byte behind it; for any other text the field begins with the zero byte.
/// The field keeps its length.
pub proof fn lemma_applied_annotation(record: AnnotateInnerType, w: Annotate)
    ensures
        record.applied(&w)@ == annotate_block(record@.hdr, record@.text@, w),
        record.applied(&w)@.text@ == annotated_text(
            record@.text@,
            vstd::utf8::encode_utf8(w.text@),
        ),
        ({
            let bytes = vstd::utf8::encode_utf8(w.text@);
            let text = annotated_text(record@.text@, bytes);
            &&& text.len() == 256
            &&& text_fits(bytes) ==> text.take(bytes.len() as int) == bytes && text[bytes.len() as int]
                == 0
            &&& !text_fits(bytes) ==> text[0] == 0
        }),
{
    broadcast use vstd::array::array_len_matches_n;

    let bytes = vstd::utf8::encode_utf8(w.text@);
    let text = annotated_text(record@.text@, bytes);
    assert(record@.text@.len() == 256);
    if text_fits(bytes) {
        assert(text.take(bytes.len() as int) =~= bytes);
    }
    assert(text.len() == 256);
    lemma_text_field(text);
}

} // verus!
