//! Numeric constants of the native media pipeline.
//!
//! Every value here mirrors a definition of the pipeline's C headers. They are
//! the only place where the library and the native layer have to agree on
//! numbers: parameter identifiers, enumeration values, encodings, record sizes.

use vstd::prelude::*;

verus! {

/// Status code with which the native layer reports that a call went through.
pub const MMAL_SUCCESS: u32 = 0;

/// Native truth values, as stored in the boolean fields of parameter records.
pub const MMAL_TRUE: u32 = 1;

pub const MMAL_FALSE: u32 = 0;

// Well-known names under which the native layer creates pipeline stages.
pub const MMAL_COMPONENT_DEFAULT_CAMERA: &'static str = "vc.ril.camera";

pub const MMAL_COMPONENT_DEFAULT_CAMERA_INFO: &'static str = "vc.camera_info";

pub const MMAL_COMPONENT_DEFAULT_IMAGE_ENCODER: &'static str = "vc.ril.image_encode";

pub const MMAL_COMPONENT_DEFAULT_VIDEO_ENCODER: &'static str = "vc.ril.video_encode";

pub const MMAL_COMPONENT_NULL_SINK: &'static str = "vc.null_sink";

// Connection flags.
pub const MMAL_CONNECTION_FLAG_TUNNELLING: u32 = 1;

pub const MMAL_CONNECTION_FLAG_ALLOCATION_ON_INPUT: u32 = 2;

// Encodings (four character codes, first character in the low byte).
pub const MMAL_ENCODING_OPAQUE: u32 = 0x5651_504f;

pub const MMAL_ENCODING_JPEG: u32 = 0x4745_504a;

pub const MMAL_ENCODING_H264: u32 = 0x3436_3248;

pub const MMAL_ENCODING_MJPEG: u32 = 0x4750_4a4d;

pub const MMAL_ENCODING_RGB24: u32 = 0x3342_4752;

pub const MMAL_ENCODING_BGR24: u32 = 0x3352_4742;

// Parameter identifiers.
pub const MMAL_PARAMETER_ROTATION: u32 = 0x1_0002;

pub const MMAL_PARAMETER_AWB_MODE: u32 = 0x1_0005;

pub const MMAL_PARAMETER_IMAGE_EFFECT: u32 = 0x1_0006;

pub const MMAL_PARAMETER_COLOUR_EFFECT: u32 = 0x1_0007;

pub const MMAL_PARAMETER_FLICKER_AVOID: u32 = 0x1_0008;

pub const MMAL_PARAMETER_EXPOSURE_COMP: u32 = 0x1_000d;

pub const MMAL_PARAMETER_MIRROR: u32 = 0x1_000f;

pub const MMAL_PARAMETER_CAMERA_NUM: u32 = 0x1_0010;

pub const MMAL_PARAMETER_CAPTURE: u32 = 0x1_0011;

pub const MMAL_PARAMETER_EXPOSURE_MODE: u32 = 0x1_0012;

pub const MMAL_PARAMETER_EXP_METERING_MODE: u32 = 0x1_0013;

pub const MMAL_PARAMETER_CAMERA_CONFIG: u32 = 0x1_0015;

pub const MMAL_PARAMETER_DRAW_BOX_FACES_AND_FOCUS: u32 = 0x1_0018;

pub const MMAL_PARAMETER_JPEG_Q_FACTOR: u32 = 0x1_0019;

pub const MMAL_PARAMETER_CAMERA_INFO: u32 = 0x1_001c;

pub const MMAL_PARAMETER_VIDEO_STABILISATION: u32 = 0x1_001d;

pub const MMAL_PARAMETER_INPUT_CROP: u32 = 0x1_0025;

pub const MMAL_PARAMETER_DYNAMIC_RANGE_COMPRESSION: u32 = 0x1_002a;

pub const MMAL_PARAMETER_SHARPNESS: u32 = 0x1_002c;

pub const MMAL_PARAMETER_CONTRAST: u32 = 0x1_002d;

pub const MMAL_PARAMETER_BRIGHTNESS: u32 = 0x1_002e;

pub const MMAL_PARAMETER_SATURATION: u32 = 0x1_002f;

pub const MMAL_PARAMETER_ISO: u32 = 0x1_0030;

pub const MMAL_PARAMETER_CAPTURE_STATS_PASS: u32 = 0x1_0036;

pub const MMAL_PARAMETER_SHUTTER_SPEED: u32 = 0x1_0043;

pub const MMAL_PARAMETER_CUSTOM_AWB_GAINS: u32 = 0x1_0044;

pub const MMAL_PARAMETER_ANNOTATE: u32 = 0x1_0049;

pub const MMAL_PARAMETER_STEREOSCOPIC_MODE: u32 = 0x1_004a;

pub const MMAL_PARAMETER_JPEG_RESTART_INTERVAL: u32 = 0x1_0050;

pub const MMAL_PARAMETER_ANALOG_GAIN: u32 = 0x1_0059;

pub const MMAL_PARAMETER_DIGITAL_GAIN: u32 = 0x1_005a;

pub const MMAL_PARAMETER_PROFILE: u32 = 0x2_0002;

/// Value that closes the native enumerations of stereoscopic modes, video
/// profiles and video levels.
pub const MMAL_ENUM_LIMIT: u32 = 0x7fff_ffff;

// Sizes in bytes of the native parameter records, header included.
pub const MMAL_PARAMETER_HEADER_SIZE: u32 = 8;

pub const MMAL_PARAMETER_CAMERA_CONFIG_SIZE: u32 = 48;

pub const MMAL_PARAMETER_ENUM_SIZE: u32 = 12;

pub const MMAL_PARAMETER_AWB_GAINS_SIZE: u32 = 24;

pub const MMAL_PARAMETER_COLOURFX_SIZE: u32 = 20;

pub const MMAL_PARAMETER_INPUT_CROP_SIZE: u32 = 24;

pub const MMAL_PARAMETER_STEREOSCOPIC_MODE_SIZE: u32 = 20;

pub const MMAL_PARAMETER_CAMERA_ANNOTATE_V4_SIZE: u32 = 324;

pub const MMAL_PARAMETER_VIDEO_PROFILE_SIZE: u32 = 16;

pub const MMAL_PARAMETER_CAMERA_INFO_SIZE: u32 = 152;

/// Capacity in bytes of the text field of an annotation record, the
/// terminating zero included.
pub const MMAL_CAMERA_ANNOTATE_MAX_TEXT_LEN_V4: usize = 256;

/// Number of camera slots in a camera information record.
pub const MMAL_PARAMETER_CAMERA_INFO_MAX_CAMERAS: usize = 4;

/// Capacity in bytes of a camera name in a camera information record.
pub const MMAL_PARAMETER_CAMERA_INFO_MAX_STR_LEN: usize = 16;

} // verus!
