//! The profiles and levels of the video encodings.

use vstd::prelude::*;
use vstd::std_specs::convert::TryFromSpecImpl;
use crate::error::MmalError;
use crate::param::{decode, decoded, decoded_value, parse, parsed, same_text, NativeEnum};

verus! {

/// Profiles of the video encodings.
#[allow(non_camel_case_types)]
#[derive(Debug, Clone, Copy, PartialEq, Eq, Structural)]
pub enum VideoProfile {
    H263Baseline,
    H263H320coding,
    H263Backwardcompatible,
    H263Iswv2,
    H263Iswv3,
    H263Highcompression,
    H263Internet,
    H263Interlace,
    H263Highlatency,
    Mp4vSimple,
    Mp4vSimplescalable,
    Mp4vCore,
    Mp4vMain,
    Mp4vNbit,
    Mp4vScalabletexture,
    Mp4vSimpleface,
    Mp4vSimplefba,
    Mp4vBasicanimated,
    Mp4vHybrid,
    Mp4vAdvancedrealtime,
    Mp4vCorescalable,
    Mp4vAdvancedcoding,
    Mp4vAdvancedcore,
    Mp4vAdvancedscalable,
    Mp4vAdvancedsimple,
    H264Baseline,
    H264Main,
    H264Extended,
    H264High,
    H264High10,
    H264High422,
    H264High444,
    H264ConstrainedBaseline,
    Dummy,
}

impl NativeEnum for VideoProfile {
    open spec fn native(self) -> u32 {
        match self {
            VideoProfile::H263Baseline => 0,
            VideoProfile::H263H320coding => 1,
            VideoProfile::H263Backwardcompatible => 2,
            VideoProfile::H263Iswv2 => 3,
            VideoProfile::H263Iswv3 => 4,
            VideoProfile::H263Highcompression => 5,
            VideoProfile::H263Internet => 6,
            VideoProfile::H263Interlace => 7,
            VideoProfile::H263Highlatency => 8,
            VideoProfile::Mp4vSimple => 9,
            VideoProfile::Mp4vSimplescalable => 10,
            VideoProfile::Mp4vCore => 11,
            VideoProfile::Mp4vMain => 12,
            VideoProfile::Mp4vNbit => 13,
            VideoProfile::Mp4vScalabletexture => 14,
            VideoProfile::Mp4vSimpleface => 15,
            VideoProfile::Mp4vSimplefba => 16,
            VideoProfile::Mp4vBasicanimated => 17,
            VideoProfile::Mp4vHybrid => 18,
            VideoProfile::Mp4vAdvancedrealtime => 19,
            VideoProfile::Mp4vCorescalable => 20,
            VideoProfile::Mp4vAdvancedcoding => 21,
            VideoProfile::Mp4vAdvancedcore => 22,
            VideoProfile::Mp4vAdvancedscalable => 23,
            VideoProfile::Mp4vAdvancedsimple => 24,
            VideoProfile::H264Baseline => 25,
            VideoProfile::H264Main => 26,
            VideoProfile::H264Extended => 27,
            VideoProfile::H264High => 28,
            VideoProfile::H264High10 => 29,
            VideoProfile::H264High422 => 30,
            VideoProfile::H264High444 => 31,
            VideoProfile::H264ConstrainedBaseline => 32,
            VideoProfile::Dummy => 2147483647,
        }
    }

    open spec fn of_native(value: u32) -> Option<Self> {
        if value == 0 {
            Some(VideoProfile::H263Baseline)
        } else if value == 1 {
            Some(VideoProfile::H263H320coding)
        } else if value == 2 {
            Some(VideoProfile::H263Backwardcompatible)
        } else if value == 3 {
            Some(VideoProfile::H263Iswv2)
        } else if value == 4 {
            Some(VideoProfile::H263Iswv3)
        } else if value == 5 {
            Some(VideoProfile::H263Highcompression)
        } else if value == 6 {
            Some(VideoProfile::H263Internet)
        } else if value == 7 {
            Some(VideoProfile::H263Interlace)
        } else if value == 8 {
            Some(VideoProfile::H263Highlatency)
        } else if value == 9 {
            Some(VideoProfile::Mp4vSimple)
        } else if value == 10 {
            Some(VideoProfile::Mp4vSimplescalable)
        } else if value == 11 {
            Some(VideoProfile::Mp4vCore)
        } else if value == 12 {
            Some(VideoProfile::Mp4vMain)
        } else if value == 13 {
            Some(VideoProfile::Mp4vNbit)
        } else if value == 14 {
            Some(VideoProfile::Mp4vScalabletexture)
        } else if value == 15 {
            Some(VideoProfile::Mp4vSimpleface)
        } else if value == 16 {
            Some(VideoProfile::Mp4vSimplefba)
        } else if value == 17 {
            Some(VideoProfile::Mp4vBasicanimated)
        } else if value == 18 {
            Some(VideoProfile::Mp4vHybrid)
        } else if value == 19 {
            Some(VideoProfile::Mp4vAdvancedrealtime)
        } else if value == 20 {
            Some(VideoProfile::Mp4vCorescalable)
        } else if value == 21 {
            Some(VideoProfile::Mp4vAdvancedcoding)
        } else if value == 22 {
            Some(VideoProfile::Mp4vAdvancedcore)
        } else if value == 23 {
            Some(VideoProfile::Mp4vAdvancedscalable)
        } else if value == 24 {
            Some(VideoProfile::Mp4vAdvancedsimple)
        } else if value == 25 {
            Some(VideoProfile::H264Baseline)
        } else if value == 26 {
            Some(VideoProfile::H264Main)
        } else if value == 27 {
            Some(VideoProfile::H264Extended)
        } else if value == 28 {
            Some(VideoProfile::H264High)
        } else if value == 29 {
            Some(VideoProfile::H264High10)
        } else if value == 30 {
            Some(VideoProfile::H264High422)
        } else if value == 31 {
            Some(VideoProfile::H264High444)
        } else if value == 32 {
            Some(VideoProfile::H264ConstrainedBaseline)
        } else if value == 2147483647 {
            Some(VideoProfile::Dummy)
        } else {
            None
        }
    }

    open spec fn of_label(label: Seq<char>) -> Option<Self> {
        if label == "H263Baseline"@ {
            Some(VideoProfile::H263Baseline)
        } else if label == "H263H320coding"@ {
            Some(VideoProfile::H263H320coding)
        } else if label == "H263Backwardcompatible"@ {
            Some(VideoProfile::H263Backwardcompatible)
        } else if label == "H263Iswv2"@ {
            Some(VideoProfile::H263Iswv2)
        } else if label == "H263Iswv3"@ {
            Some(VideoProfile::H263Iswv3)
        } else if label == "H263Highcompression"@ {
            Some(VideoProfile::H263Highcompression)
        } else if label == "H263Internet"@ {
            Some(VideoProfile::H263Internet)
        } else if label == "H263Interlace"@ {
            Some(VideoProfile::H263Interlace)
        } else if label == "H263Highlatency"@ {
            Some(VideoProfile::H263Highlatency)
        } else if label == "Mp4vSimple"@ {
            Some(VideoProfile::Mp4vSimple)
        } else if label == "Mp4vSimplescalable"@ {
            Some(VideoProfile::Mp4vSimplescalable)
        } else if label == "Mp4vCore"@ {
            Some(VideoProfile::Mp4vCore)
        } else if label == "Mp4vMain"@ {
            Some(VideoProfile::Mp4vMain)
        } else if label == "Mp4vNbit"@ {
            Some(VideoProfile::Mp4vNbit)
        } else if label == "Mp4vScalabletexture"@ {
            Some(VideoProfile::Mp4vScalabletexture)
        } else if label == "Mp4vSimpleface"@ {
            Some(VideoProfile::Mp4vSimpleface)
        } else if label == "Mp4vSimplefba"@ {
            Some(VideoProfile::Mp4vSimplefba)
        } else if label == "Mp4vBasicanimated"@ {
            Some(VideoProfile::Mp4vBasicanimated)
        } else if label == "Mp4vHybrid"@ {
            Some(VideoProfile::Mp4vHybrid)
        } else if label == "Mp4vAdvancedrealtime"@ {
            Some(VideoProfile::Mp4vAdvancedrealtime)
        } else if label == "Mp4vCorescalable"@ {
            Some(VideoProfile::Mp4vCorescalable)
        } else if label == "Mp4vAdvancedcoding"@ {
            Some(VideoProfile::Mp4vAdvancedcoding)
        } else if label == "Mp4vAdvancedcore"@ {
            Some(VideoProfile::Mp4vAdvancedcore)
        } else if label == "Mp4vAdvancedscalable"@ {
            Some(VideoProfile::Mp4vAdvancedscalable)
        } else if label == "Mp4vAdvancedsimple"@ {
            Some(VideoProfile::Mp4vAdvancedsimple)
        } else if label == "H264Baseline"@ {
            Some(VideoProfile::H264Baseline)
        } else if label == "H264Main"@ {
            Some(VideoProfile::H264Main)
        } else if label == "H264Extended"@ {
            Some(VideoProfile::H264Extended)
        } else if label == "H264High"@ {
            Some(VideoProfile::H264High)
        } else if label == "H264High10"@ {
            Some(VideoProfile::H264High10)
        } else if label == "H264High422"@ {
            Some(VideoProfile::H264High422)
        } else if label == "H264High444"@ {
            Some(VideoProfile::H264High444)
        } else if label == "H264ConstrainedBaseline"@ {
            Some(VideoProfile::H264ConstrainedBaseline)
        } else if label == "Dummy"@ {
            Some(VideoProfile::Dummy)
        } else {
            None
        }
    }

    open spec fn spec_label(self) -> Seq<char> {
        match self {
            VideoProfile::H263Baseline => "H263Baseline"@,
            VideoProfile::H263H320coding => "H263H320coding"@,
            VideoProfile::H263Backwardcompatible => "H263Backwardcompatible"@,
            VideoProfile::H263Iswv2 => "H263Iswv2"@,
            VideoProfile::H263Iswv3 => "H263Iswv3"@,
            VideoProfile::H263Highcompression => "H263Highcompression"@,
            VideoProfile::H263Internet => "H263Internet"@,
            VideoProfile::H263Interlace => "H263Interlace"@,
            VideoProfile::H263Highlatency => "H263Highlatency"@,
            VideoProfile::Mp4vSimple => "Mp4vSimple"@,
            VideoProfile::Mp4vSimplescalable => "Mp4vSimplescalable"@,
            VideoProfile::Mp4vCore => "Mp4vCore"@,
            VideoProfile::Mp4vMain => "Mp4vMain"@,
            VideoProfile::Mp4vNbit => "Mp4vNbit"@,
            VideoProfile::Mp4vScalabletexture => "Mp4vScalabletexture"@,
            VideoProfile::Mp4vSimpleface => "Mp4vSimpleface"@,
            VideoProfile::Mp4vSimplefba => "Mp4vSimplefba"@,
            VideoProfile::Mp4vBasicanimated => "Mp4vBasicanimated"@,
            VideoProfile::Mp4vHybrid => "Mp4vHybrid"@,
            VideoProfile::Mp4vAdvancedrealtime => "Mp4vAdvancedrealtime"@,
            VideoProfile::Mp4vCorescalable => "Mp4vCorescalable"@,
            VideoProfile::Mp4vAdvancedcoding => "Mp4vAdvancedcoding"@,
            VideoProfile::Mp4vAdvancedcore => "Mp4vAdvancedcore"@,
            VideoProfile::Mp4vAdvancedscalable => "Mp4vAdvancedscalable"@,
            VideoProfile::Mp4vAdvancedsimple => "Mp4vAdvancedsimple"@,
            VideoProfile::H264Baseline => "H264Baseline"@,
            VideoProfile::H264Main => "H264Main"@,
            VideoProfile::H264Extended => "H264Extended"@,
            VideoProfile::H264High => "H264High"@,
            VideoProfile::H264High10 => "H264High10"@,
            VideoProfile::H264High422 => "H264High422"@,
            VideoProfile::H264High444 => "H264High444"@,
            VideoProfile::H264ConstrainedBaseline => "H264ConstrainedBaseline"@,
            VideoProfile::Dummy => "Dummy"@,
        }
    }

    open spec fn spec_enum_name() -> Seq<char> {
        "VideoProfile"@
    }

    fn to_native(self) -> (v: u32) {
        match self {
            VideoProfile::H263Baseline => 0,
            VideoProfile::H263H320coding => 1,
            VideoProfile::H263Backwardcompatible => 2,
            VideoProfile::H263Iswv2 => 3,
            VideoProfile::H263Iswv3 => 4,
            VideoProfile::H263Highcompression => 5,
            VideoProfile::H263Internet => 6,
            VideoProfile::H263Interlace => 7,
            VideoProfile::H263Highlatency => 8,
            VideoProfile::Mp4vSimple => 9,
            VideoProfile::Mp4vSimplescalable => 10,
            VideoProfile::Mp4vCore => 11,
            VideoProfile::Mp4vMain => 12,
            VideoProfile::Mp4vNbit => 13,
            VideoProfile::Mp4vScalabletexture => 14,
            VideoProfile::Mp4vSimpleface => 15,
            VideoProfile::Mp4vSimplefba => 16,
            VideoProfile::Mp4vBasicanimated => 17,
            VideoProfile::Mp4vHybrid => 18,
            VideoProfile::Mp4vAdvancedrealtime => 19,
            VideoProfile::Mp4vCorescalable => 20,
            VideoProfile::Mp4vAdvancedcoding => 21,
            VideoProfile::Mp4vAdvancedcore => 22,
            VideoProfile::Mp4vAdvancedscalable => 23,
            VideoProfile::Mp4vAdvancedsimple => 24,
            VideoProfile::H264Baseline => 25,
            VideoProfile::H264Main => 26,
            VideoProfile::H264Extended => 27,
            VideoProfile::H264High => 28,
            VideoProfile::H264High10 => 29,
            VideoProfile::H264High422 => 30,
            VideoProfile::H264High444 => 31,
            VideoProfile::H264ConstrainedBaseline => 32,
            VideoProfile::Dummy => 2147483647,
        }
    }

    fn from_native(value: u32) -> (e: Option<Self>) {
        if value == 0 {
            Some(VideoProfile::H263Baseline)
        } else if value == 1 {
            Some(VideoProfile::H263H320coding)
        } else if value == 2 {
            Some(VideoProfile::H263Backwardcompatible)
        } else if value == 3 {
            Some(VideoProfile::H263Iswv2)
        } else if value == 4 {
            Some(VideoProfile::H263Iswv3)
        } else if value == 5 {
            Some(VideoProfile::H263Highcompression)
        } else if value == 6 {
            Some(VideoProfile::H263Internet)
        } else if value == 7 {
            Some(VideoProfile::H263Interlace)
        } else if value == 8 {
            Some(VideoProfile::H263Highlatency)
        } else if value == 9 {
            Some(VideoProfile::Mp4vSimple)
        } else if value == 10 {
            Some(VideoProfile::Mp4vSimplescalable)
        } else if value == 11 {
            Some(VideoProfile::Mp4vCore)
        } else if value == 12 {
            Some(VideoProfile::Mp4vMain)
        } else if value == 13 {
            Some(VideoProfile::Mp4vNbit)
        } else if value == 14 {
            Some(VideoProfile::Mp4vScalabletexture)
        } else if value == 15 {
            Some(VideoProfile::Mp4vSimpleface)
        } else if value == 16 {
            Some(VideoProfile::Mp4vSimplefba)
        } else if value == 17 {
            Some(VideoProfile::Mp4vBasicanimated)
        } else if value == 18 {
            Some(VideoProfile::Mp4vHybrid)
        } else if value == 19 {
            Some(VideoProfile::Mp4vAdvancedrealtime)
        } else if value == 20 {
            Some(VideoProfile::Mp4vCorescalable)
        } else if value == 21 {
            Some(VideoProfile::Mp4vAdvancedcoding)
        } else if value == 22 {
            Some(VideoProfile::Mp4vAdvancedcore)
        } else if value == 23 {
            Some(VideoProfile::Mp4vAdvancedscalable)
        } else if value == 24 {
            Some(VideoProfile::Mp4vAdvancedsimple)
        } else if value == 25 {
            Some(VideoProfile::H264Baseline)
        } else if value == 26 {
            Some(VideoProfile::H264Main)
        } else if value == 27 {
            Some(VideoProfile::H264Extended)
        } else if value == 28 {
            Some(VideoProfile::H264High)
        } else if value == 29 {
            Some(VideoProfile::H264High10)
        } else if value == 30 {
            Some(VideoProfile::H264High422)
        } else if value == 31 {
            Some(VideoProfile::H264High444)
        } else if value == 32 {
            Some(VideoProfile::H264ConstrainedBaseline)
        } else if value == 2147483647 {
            Some(VideoProfile::Dummy)
        } else {
            None
        }
    }

    fn from_label(label: &str) -> (e: Option<Self>) {
        if same_text(label, "H263Baseline") {
            Some(VideoProfile::H263Baseline)
        } else if same_text(label, "H263H320coding") {
            Some(VideoProfile::H263H320coding)
        } else if same_text(label, "H263Backwardcompatible") {
            Some(VideoProfile::H263Backwardcompatible)
        } else if same_text(label, "H263Iswv2") {
            Some(VideoProfile::H263Iswv2)
        } else if same_text(label, "H263Iswv3") {
            Some(VideoProfile::H263Iswv3)
        } else if same_text(label, "H263Highcompression") {
            Some(VideoProfile::H263Highcompression)
        } else if same_text(label, "H263Internet") {
            Some(VideoProfile::H263Internet)
        } else if same_text(label, "H263Interlace") {
            Some(VideoProfile::H263Interlace)
        } else if same_text(label, "H263Highlatency") {
            Some(VideoProfile::H263Highlatency)
        } else if same_text(label, "Mp4vSimple") {
            Some(VideoProfile::Mp4vSimple)
        } else if same_text(label, "Mp4vSimplescalable") {
            Some(VideoProfile::Mp4vSimplescalable)
        } else if same_text(label, "Mp4vCore") {
            Some(VideoProfile::Mp4vCore)
        } else if same_text(label, "Mp4vMain") {
            Some(VideoProfile::Mp4vMain)
        } else if same_text(label, "Mp4vNbit") {
            Some(VideoProfile::Mp4vNbit)
        } else if same_text(label, "Mp4vScalabletexture") {
            Some(VideoProfile::Mp4vScalabletexture)
        } else if same_text(label, "Mp4vSimpleface") {
            Some(VideoProfile::Mp4vSimpleface)
        } else if same_text(label, "Mp4vSimplefba") {
            Some(VideoProfile::Mp4vSimplefba)
        } else if same_text(label, "Mp4vBasicanimated") {
            Some(VideoProfile::Mp4vBasicanimated)
        } else if same_text(label, "Mp4vHybrid") {
            Some(VideoProfile::Mp4vHybrid)
        } else if same_text(label, "Mp4vAdvancedrealtime") {
            Some(VideoProfile::Mp4vAdvancedrealtime)
        } else if same_text(label, "Mp4vCorescalable") {
            Some(VideoProfile::Mp4vCorescalable)
        } else if same_text(label, "Mp4vAdvancedcoding") {
            Some(VideoProfile::Mp4vAdvancedcoding)
        } else if same_text(label, "Mp4vAdvancedcore") {
            Some(VideoProfile::Mp4vAdvancedcore)
        } else if same_text(label, "Mp4vAdvancedscalable") {
            Some(VideoProfile::Mp4vAdvancedscalable)
        } else if same_text(label, "Mp4vAdvancedsimple") {
            Some(VideoProfile::Mp4vAdvancedsimple)
        } else if same_text(label, "H264Baseline") {
            Some(VideoProfile::H264Baseline)
        } else if same_text(label, "H264Main") {
            Some(VideoProfile::H264Main)
        } else if same_text(label, "H264Extended") {
            Some(VideoProfile::H264Extended)
        } else if same_text(label, "H264High") {
            Some(VideoProfile::H264High)
        } else if same_text(label, "H264High10") {
            Some(VideoProfile::H264High10)
        } else if same_text(label, "H264High422") {
            Some(VideoProfile::H264High422)
        } else if same_text(label, "H264High444") {
            Some(VideoProfile::H264High444)
        } else if same_text(label, "H264ConstrainedBaseline") {
            Some(VideoProfile::H264ConstrainedBaseline)
        } else if same_text(label, "Dummy") {
            Some(VideoProfile::Dummy)
        } else {
            None
        }
    }

    fn label(self) -> (r: &'static str) {
        match self {
            VideoProfile::H263Baseline => "H263Baseline",
            VideoProfile::H263H320coding => "H263H320coding",
            VideoProfile::H263Backwardcompatible => "H263Backwardcompatible",
            VideoProfile::H263Iswv2 => "H263Iswv2",
            VideoProfile::H263Iswv3 => "H263Iswv3",
            VideoProfile::H263Highcompression => "H263Highcompression",
            VideoProfile::H263Internet => "H263Internet",
            VideoProfile::H263Interlace => "H263Interlace",
            VideoProfile::H263Highlatency => "H263Highlatency",
            VideoProfile::Mp4vSimple => "Mp4vSimple",
            VideoProfile::Mp4vSimplescalable => "Mp4vSimplescalable",
            VideoProfile::Mp4vCore => "Mp4vCore",
            VideoProfile::Mp4vMain => "Mp4vMain",
            VideoProfile::Mp4vNbit => "Mp4vNbit",
            VideoProfile::Mp4vScalabletexture => "Mp4vScalabletexture",
            VideoProfile::Mp4vSimpleface => "Mp4vSimpleface",
            VideoProfile::Mp4vSimplefba => "Mp4vSimplefba",
            VideoProfile::Mp4vBasicanimated => "Mp4vBasicanimated",
            VideoProfile::Mp4vHybrid => "Mp4vHybrid",
            VideoProfile::Mp4vAdvancedrealtime => "Mp4vAdvancedrealtime",
            VideoProfile::Mp4vCorescalable => "Mp4vCorescalable",
            VideoProfile::Mp4vAdvancedcoding => "Mp4vAdvancedcoding",
            VideoProfile::Mp4vAdvancedcore => "Mp4vAdvancedcore",
            VideoProfile::Mp4vAdvancedscalable => "Mp4vAdvancedscalable",
            VideoProfile::Mp4vAdvancedsimple => "Mp4vAdvancedsimple",
            VideoProfile::H264Baseline => "H264Baseline",
            VideoProfile::H264Main => "H264Main",
            VideoProfile::H264Extended => "H264Extended",
            VideoProfile::H264High => "H264High",
            VideoProfile::H264High10 => "H264High10",
            VideoProfile::H264High422 => "H264High422",
            VideoProfile::H264High444 => "H264High444",
            VideoProfile::H264ConstrainedBaseline => "H264ConstrainedBaseline",
            VideoProfile::Dummy => "Dummy",
        }
    }

    fn enum_name() -> (r: &'static str) {
        "VideoProfile"
    }

    proof fn lemma_of_native(value: u32) {
    }

    proof fn lemma_native_round_trip(e: Self) {
    }
}

impl TryFrom<u32> for VideoProfile {
    type Error = MmalError;

    fn try_from(value: u32) -> (r: Result<Self, MmalError>)
        ensures
            decoded::<VideoProfile>(value, r),
    {
        decode(value)
    }
}

impl TryFromSpecImpl<u32> for VideoProfile {
    open spec fn obeys_try_from_spec() -> bool {
        false
    }

    open spec fn try_from_spec(v: u32) -> Result<Self, MmalError> {
        decoded_value::<VideoProfile>(v)
    }
}

impl VideoProfile {
    /// The value with the name `s`, letter for letter.
    pub fn from_str(s: &str) -> (r: Result<Self, MmalError>)
        ensures
            parsed::<VideoProfile>(s@, r),
    {
        parse(s)
    }
}
/// Levels of the video encodings.
#[allow(non_camel_case_types)]
#[derive(Debug, Clone, Copy, PartialEq, Eq, Structural)]
pub enum VideoLevel {
    H263_10,
    H263_20,
    H263_30,
    H263_40,
    H263_45,
    H263_50,
    H263_60,
    H263_70,
    MP4V_0,
    MP4V_0b,
    MP4V_1,
    MP4V_2,
    MP4V_3,
    MP4V_4,
    MP4V_4a,
    MP4V_5,
    MP4V_6,
    H264_1,
    H264_1b,
    H264_11,
    H264_12,
    H264_13,
    H264_2,
    H264_21,
    H264_22,
    H264_3,
    H264_31,
    H264_32,
    H264_4,
    H264_41,
    H264_42,
    H264_5,
    H264_51,
    Dummy,
}

impl NativeEnum for VideoLevel {
    open spec fn native(self) -> u32 {
        match self {
            VideoLevel::H263_10 => 0,
            VideoLevel::H263_20 => 1,
            VideoLevel::H263_30 => 2,
            VideoLevel::H263_40 => 3,
            VideoLevel::H263_45 => 4,
            VideoLevel::H263_50 => 5,
            VideoLevel::H263_60 => 6,
            VideoLevel::H263_70 => 7,
            VideoLevel::MP4V_0 => 8,
            VideoLevel::MP4V_0b => 9,
            VideoLevel::MP4V_1 => 10,
            VideoLevel::MP4V_2 => 11,
            VideoLevel::MP4V_3 => 12,
            VideoLevel::MP4V_4 => 13,
            VideoLevel::MP4V_4a => 14,
            VideoLevel::MP4V_5 => 15,
            VideoLevel::MP4V_6 => 16,
            VideoLevel::H264_1 => 17,
            VideoLevel::H264_1b => 18,
            VideoLevel::H264_11 => 19,
            VideoLevel::H264_12 => 20,
            VideoLevel::H264_13 => 21,
            VideoLevel::H264_2 => 22,
            VideoLevel::H264_21 => 23,
            VideoLevel::H264_22 => 24,
            VideoLevel::H264_3 => 25,
            VideoLevel::H264_31 => 26,
            VideoLevel::H264_32 => 27,
            VideoLevel::H264_4 => 28,
            VideoLevel::H264_41 => 29,
            VideoLevel::H264_42 => 30,
            VideoLevel::H264_5 => 31,
            VideoLevel::H264_51 => 32,
            VideoLevel::Dummy => 2147483647,
        }
    }

    open spec fn of_native(value: u32) -> Option<Self> {
        if value == 0 {
            Some(VideoLevel::H263_10)
        } else if value == 1 {
            Some(VideoLevel::H263_20)
        } else if value == 2 {
            Some(VideoLevel::H263_30)
        } else if value == 3 {
            Some(VideoLevel::H263_40)
        } else if value == 4 {
            Some(VideoLevel::H263_45)
        } else if value == 5 {
            Some(VideoLevel::H263_50)
        } else if value == 6 {
            Some(VideoLevel::H263_60)
        } else if value == 7 {
            Some(VideoLevel::H263_70)
        } else if value == 8 {
            Some(VideoLevel::MP4V_0)
        } else if value == 9 {
            Some(VideoLevel::MP4V_0b)
        } else if value == 10 {
            Some(VideoLevel::MP4V_1)
        } else if value == 11 {
            Some(VideoLevel::MP4V_2)
        } else if value == 12 {
            Some(VideoLevel::MP4V_3)
        } else if value == 13 {
            Some(VideoLevel::MP4V_4)
        } else if value == 14 {
            Some(VideoLevel::MP4V_4a)
        } else if value == 15 {
            Some(VideoLevel::MP4V_5)
        } else if value == 16 {
            Some(VideoLevel::MP4V_6)
        } else if value == 17 {
            Some(VideoLevel::H264_1)
        } else if value == 18 {
            Some(VideoLevel::H264_1b)
        } else if value == 19 {
            Some(VideoLevel::H264_11)
        } else if value == 20 {
            Some(VideoLevel::H264_12)
        } else if value == 21 {
            Some(VideoLevel::H264_13)
        } else if value == 22 {
            Some(VideoLevel::H264_2)
        } else if value == 23 {
            Some(VideoLevel::H264_21)
        } else if value == 24 {
            Some(VideoLevel::H264_22)
        } else if value == 25 {
            Some(VideoLevel::H264_3)
        } else if value == 26 {
            Some(VideoLevel::H264_31)
        } else if value == 27 {
            Some(VideoLevel::H264_32)
        } else if value == 28 {
            Some(VideoLevel::H264_4)
        } else if value == 29 {
            Some(VideoLevel::H264_41)
        } else if value == 30 {
            Some(VideoLevel::H264_42)
        } else if value == 31 {
            Some(VideoLevel::H264_5)
        } else if value == 32 {
            Some(VideoLevel::H264_51)
        } else if value == 2147483647 {
            Some(VideoLevel::Dummy)
        } else {
            None
        }
    }

    open spec fn of_label(label: Seq<char>) -> Option<Self> {
        if label == "H263_10"@ {
            Some(VideoLevel::H263_10)
        } else if label == "H263_20"@ {
            Some(VideoLevel::H263_20)
        } else if label == "H263_30"@ {
            Some(VideoLevel::H263_30)
        } else if label == "H263_40"@ {
            Some(VideoLevel::H263_40)
        } else if label == "H263_45"@ {
            Some(VideoLevel::H263_45)
        } else if label == "H263_50"@ {
            Some(VideoLevel::H263_50)
        } else if label == "H263_60"@ {
            Some(VideoLevel::H263_60)
        } else if label == "H263_70"@ {
            Some(VideoLevel::H263_70)
        } else if label == "MP4V_0"@ {
            Some(VideoLevel::MP4V_0)
        } else if label == "MP4V_0b"@ {
            Some(VideoLevel::MP4V_0b)
        } else if label == "MP4V_1"@ {
            Some(VideoLevel::MP4V_1)
        } else if label == "MP4V_2"@ {
            Some(VideoLevel::MP4V_2)
        } else if label == "MP4V_3"@ {
            Some(VideoLevel::MP4V_3)
        } else if label == "MP4V_4"@ {
            Some(VideoLevel::MP4V_4)
        } else if label == "MP4V_4a"@ {
            Some(VideoLevel::MP4V_4a)
        } else if label == "MP4V_5"@ {
            Some(VideoLevel::MP4V_5)
        } else if label == "MP4V_6"@ {
            Some(VideoLevel::MP4V_6)
        } else if label == "H264_1"@ {
            Some(VideoLevel::H264_1)
        } else if label == "H264_1b"@ {
            Some(VideoLevel::H264_1b)
        } else if label == "H264_11"@ {
            Some(VideoLevel::H264_11)
        } else if label == "H264_12"@ {
            Some(VideoLevel::H264_12)
        } else if label == "H264_13"@ {
            Some(VideoLevel::H264_13)
        } else if label == "H264_2"@ {
            Some(VideoLevel::H264_2)
        } else if label == "H264_21"@ {
            Some(VideoLevel::H264_21)
        } else if label == "H264_22"@ {
            Some(VideoLevel::H264_22)
        } else if label == "H264_3"@ {
            Some(VideoLevel::H264_3)
        } else if label == "H264_31"@ {
            Some(VideoLevel::H264_31)
        } else if label == "H264_32"@ {
            Some(VideoLevel::H264_32)
        } else if label == "H264_4"@ {
            Some(VideoLevel::H264_4)
        } else if label == "H264_41"@ {
            Some(VideoLevel::H264_41)
        } else if label == "H264_42"@ {
            Some(VideoLevel::H264_42)
        } else if label == "H264_5"@ {
            Some(VideoLevel::H264_5)
        } else if label == "H264_51"@ {
            Some(VideoLevel::H264_51)
        } else if label == "Dummy"@ {
            Some(VideoLevel::Dummy)
        } else {
            None
        }
    }

    open spec fn spec_label(self) -> Seq<char> {
        match self {
            VideoLevel::H263_10 => "H263_10"@,
            VideoLevel::H263_20 => "H263_20"@,
            VideoLevel::H263_30 => "H263_30"@,
            VideoLevel::H263_40 => "H263_40"@,
            VideoLevel::H263_45 => "H263_45"@,
            VideoLevel::H263_50 => "H263_50"@,
            VideoLevel::H263_60 => "H263_60"@,
            VideoLevel::H263_70 => "H263_70"@,
            VideoLevel::MP4V_0 => "MP4V_0"@,
            VideoLevel::MP4V_0b => "MP4V_0b"@,
            VideoLevel::MP4V_1 => "MP4V_1"@,
            VideoLevel::MP4V_2 => "MP4V_2"@,
            VideoLevel::MP4V_3 => "MP4V_3"@,
            VideoLevel::MP4V_4 => "MP4V_4"@,
            VideoLevel::MP4V_4a => "MP4V_4a"@,
            VideoLevel::MP4V_5 => "MP4V_5"@,
            VideoLevel::MP4V_6 => "MP4V_6"@,
            VideoLevel::H264_1 => "H264_1"@,
            VideoLevel::H264_1b => "H264_1b"@,
            VideoLevel::H264_11 => "H264_11"@,
            VideoLevel::H264_12 => "H264_12"@,
            VideoLevel::H264_13 => "H264_13"@,
            VideoLevel::H264_2 => "H264_2"@,
            VideoLevel::H264_21 => "H264_21"@,
            VideoLevel::H264_22 => "H264_22"@,
            VideoLevel::H264_3 => "H264_3"@,
            VideoLevel::H264_31 => "H264_31"@,
            VideoLevel::H264_32 => "H264_32"@,
            VideoLevel::H264_4 => "H264_4"@,
            VideoLevel::H264_41 => "H264_41"@,
            VideoLevel::H264_42 => "H264_42"@,
            VideoLevel::H264_5 => "H264_5"@,
            VideoLevel::H264_51 => "H264_51"@,
            VideoLevel::Dummy => "Dummy"@,
        }
    }

    open spec fn spec_enum_name() -> Seq<char> {
        "VideoLevel"@
    }

    fn to_native(self) -> (v: u32) {
        match self {
            VideoLevel::H263_10 => 0,
            VideoLevel::H263_20 => 1,
            VideoLevel::H263_30 => 2,
            VideoLevel::H263_40 => 3,
            VideoLevel::H263_45 => 4,
            VideoLevel::H263_50 => 5,
            VideoLevel::H263_60 => 6,
            VideoLevel::H263_70 => 7,
            VideoLevel::MP4V_0 => 8,
            VideoLevel::MP4V_0b => 9,
            VideoLevel::MP4V_1 => 10,
            VideoLevel::MP4V_2 => 11,
            VideoLevel::MP4V_3 => 12,
            VideoLevel::MP4V_4 => 13,
            VideoLevel::MP4V_4a => 14,
            VideoLevel::MP4V_5 => 15,
            VideoLevel::MP4V_6 => 16,
            VideoLevel::H264_1 => 17,
            VideoLevel::H264_1b => 18,
            VideoLevel::H264_11 => 19,
            VideoLevel::H264_12 => 20,
            VideoLevel::H264_13 => 21,
            VideoLevel::H264_2 => 22,
            VideoLevel::H264_21 => 23,
            VideoLevel::H264_22 => 24,
            VideoLevel::H264_3 => 25,
            VideoLevel::H264_31 => 26,
            VideoLevel::H264_32 => 27,
            VideoLevel::H264_4 => 28,
            VideoLevel::H264_41 => 29,
            VideoLevel::H264_42 => 30,
            VideoLevel::H264_5 => 31,
            VideoLevel::H264_51 => 32,
            VideoLevel::Dummy => 2147483647,
        }
    }

    fn from_native(value: u32) -> (e: Option<Self>) {
        if value == 0 {
            Some(VideoLevel::H263_10)
        } else if value == 1 {
            Some(VideoLevel::H263_20)
        } else if value == 2 {
            Some(VideoLevel::H263_30)
        } else if value == 3 {
            Some(VideoLevel::H263_40)
        } else if value == 4 {
            Some(VideoLevel::H263_45)
        } else if value == 5 {
            Some(VideoLevel::H263_50)
        } else if value == 6 {
            Some(VideoLevel::H263_60)
        } else if value == 7 {
            Some(VideoLevel::H263_70)
        } else if value == 8 {
            Some(VideoLevel::MP4V_0)
        } else if value == 9 {
            Some(VideoLevel::MP4V_0b)
        } else if value == 10 {
            Some(VideoLevel::MP4V_1)
        } else if value == 11 {
            Some(VideoLevel::MP4V_2)
        } else if value == 12 {
            Some(VideoLevel::MP4V_3)
        } else if value == 13 {
            Some(VideoLevel::MP4V_4)
        } else if value == 14 {
            Some(VideoLevel::MP4V_4a)
        } else if value == 15 {
            Some(VideoLevel::MP4V_5)
        } else if value == 16 {
            Some(VideoLevel::MP4V_6)
        } else if value == 17 {
            Some(VideoLevel::H264_1)
        } else if value == 18 {
            Some(VideoLevel::H264_1b)
        } else if value == 19 {
            Some(VideoLevel::H264_11)
        } else if value == 20 {
            Some(VideoLevel::H264_12)
        } else if value == 21 {
            Some(VideoLevel::H264_13)
        } else if value == 22 {
            Some(VideoLevel::H264_2)
        } else if value == 23 {
            Some(VideoLevel::H264_21)
        } else if value == 24 {
            Some(VideoLevel::H264_22)
        } else if value == 25 {
            Some(VideoLevel::H264_3)
        } else if value == 26 {
            Some(VideoLevel::H264_31)
        } else if value == 27 {
            Some(VideoLevel::H264_32)
        } else if value == 28 {
            Some(VideoLevel::H264_4)
        } else if value == 29 {
            Some(VideoLevel::H264_41)
        } else if value == 30 {
            Some(VideoLevel::H264_42)
        } else if value == 31 {
            Some(VideoLevel::H264_5)
        } else if value == 32 {
            Some(VideoLevel::H264_51)
        } else if value == 2147483647 {
            Some(VideoLevel::Dummy)
        } else {
            None
        }
    }

    fn from_label(label: &str) -> (e: Option<Self>) {
        if same_text(label, "H263_10") {
            Some(VideoLevel::H263_10)
        } else if same_text(label, "H263_20") {
            Some(VideoLevel::H263_20)
        } else if same_text(label, "H263_30") {
            Some(VideoLevel::H263_30)
        } else if same_text(label, "H263_40") {
            Some(VideoLevel::H263_40)
        } else if same_text(label, "H263_45") {
            Some(VideoLevel::H263_45)
        } else if same_text(label, "H263_50") {
            Some(VideoLevel::H263_50)
        } else if same_text(label, "H263_60") {
            Some(VideoLevel::H263_60)
        } else if same_text(label, "H263_70") {
            Some(VideoLevel::H263_70)
        } else if same_text(label, "MP4V_0") {
            Some(VideoLevel::MP4V_0)
        } else if same_text(label, "MP4V_0b") {
            Some(VideoLevel::MP4V_0b)
        } else if same_text(label, "MP4V_1") {
            Some(VideoLevel::MP4V_1)
        } else if same_text(label, "MP4V_2") {
            Some(VideoLevel::MP4V_2)
        } else if same_text(label, "MP4V_3") {
            Some(VideoLevel::MP4V_3)
        } else if same_text(label, "MP4V_4") {
            Some(VideoLevel::MP4V_4)
        } else if same_text(label, "MP4V_4a") {
            Some(VideoLevel::MP4V_4a)
        } else if same_text(label, "MP4V_5") {
            Some(VideoLevel::MP4V_5)
        } else if same_text(label, "MP4V_6") {
            Some(VideoLevel::MP4V_6)
        } else if same_text(label, "H264_1") {
            Some(VideoLevel::H264_1)
        } else if same_text(label, "H264_1b") {
            Some(VideoLevel::H264_1b)
        } else if same_text(label, "H264_11") {
            Some(VideoLevel::H264_11)
        } else if same_text(label, "H264_12") {
            Some(VideoLevel::H264_12)
        } else if same_text(label, "H264_13") {
            Some(VideoLevel::H264_13)
        } else if same_text(label, "H264_2") {
            Some(VideoLevel::H264_2)
        } else if same_text(label, "H264_21") {
            Some(VideoLevel::H264_21)
        } else if same_text(label, "H264_22") {
            Some(VideoLevel::H264_22)
        } else if same_text(label, "H264_3") {
            Some(VideoLevel::H264_3)
        } else if same_text(label, "H264_31") {
            Some(VideoLevel::H264_31)
        } else if same_text(label, "H264_32") {
            Some(VideoLevel::H264_32)
        } else if same_text(label, "H264_4") {
            Some(VideoLevel::H264_4)
        } else if same_text(label, "H264_41") {
            Some(VideoLevel::H264_41)
        } else if same_text(label, "H264_42") {
            Some(VideoLevel::H264_42)
        } else if same_text(label, "H264_5") {
            Some(VideoLevel::H264_5)
        } else if same_text(label, "H264_51") {
            Some(VideoLevel::H264_51)
        } else if same_text(label, "Dummy") {
            Some(VideoLevel::Dummy)
        } else {
            None
        }
    }

    fn label(self) -> (r: &'static str) {
        match self {
            VideoLevel::H263_10 => "H263_10",
            VideoLevel::H263_20 => "H263_20",
            VideoLevel::H263_30 => "H263_30",
            VideoLevel::H263_40 => "H263_40",
            VideoLevel::H263_45 => "H263_45",
            VideoLevel::H263_50 => "H263_50",
            VideoLevel::H263_60 => "H263_60",
            VideoLevel::H263_70 => "H263_70",
            VideoLevel::MP4V_0 => "MP4V_0",
            VideoLevel::MP4V_0b => "MP4V_0b",
            VideoLevel::MP4V_1 => "MP4V_1",
            VideoLevel::MP4V_2 => "MP4V_2",
            VideoLevel::MP4V_3 => "MP4V_3",
            VideoLevel::MP4V_4 => "MP4V_4",
            VideoLevel::MP4V_4a => "MP4V_4a",
            VideoLevel::MP4V_5 => "MP4V_5",
            VideoLevel::MP4V_6 => "MP4V_6",
            VideoLevel::H264_1 => "H264_1",
            VideoLevel::H264_1b => "H264_1b",
            VideoLevel::H264_11 => "H264_11",
            VideoLevel::H264_12 => "H264_12",
            VideoLevel::H264_13 => "H264_13",
            VideoLevel::H264_2 => "H264_2",
            VideoLevel::H264_21 => "H264_21",
            VideoLevel::H264_22 => "H264_22",
            VideoLevel::H264_3 => "H264_3",
            VideoLevel::H264_31 => "H264_31",
            VideoLevel::H264_32 => "H264_32",
            VideoLevel::H264_4 => "H264_4",
            VideoLevel::H264_41 => "H264_41",
            VideoLevel::H264_42 => "H264_42",
            VideoLevel::H264_5 => "H264_5",
            VideoLevel::H264_51 => "H264_51",
            VideoLevel::Dummy => "Dummy",
        }
    }

    fn enum_name() -> (r: &'static str) {
        "VideoLevel"
    }

    proof fn lemma_of_native(value: u32) {
    }

    proof fn lemma_native_round_trip(e: Self) {
    }
}

impl TryFrom<u32> for VideoLevel {
    type Error = MmalError;

    fn try_from(value: u32) -> (r: Result<Self, MmalError>)
        ensures
            decoded::<VideoLevel>(value, r),
    {
        decode(value)
    }
}

impl TryFromSpecImpl<u32> for VideoLevel {
    open spec fn obeys_try_from_spec() -> bool {
        false
    }

    open spec fn try_from_spec(v: u32) -> Result<Self, MmalError> {
        decoded_value::<VideoLevel>(v)
    }
}

impl VideoLevel {
    /// The value with the name `s`, letter for letter.
    pub fn from_str(s: &str) -> (r: Result<Self, MmalError>)
        ensures
            parsed::<VideoLevel>(s@, r),
    {
        parse(s)
    }
}

} // verus!
