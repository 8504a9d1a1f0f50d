//! The enumerated values of the camera parameters.

use vstd::prelude::*;
use vstd::std_specs::convert::TryFromSpecImpl;
use crate::error::MmalError;
use crate::param::{decode, decoded, decoded_value, parse, parsed, same_text, NativeEnum};

verus! {

/// How the camera stamps the time on its frames: always zero, the raw
/// system time, or the system time counted from the first frame.
#[allow(non_camel_case_types)]
#[derive(Debug, Clone, Copy, PartialEq, Eq, Structural)]
pub enum CameraTimestampMode {
    Zero,
    RawSTC,
    ResetSTC,
}

impl NativeEnum for CameraTimestampMode {
    open spec fn native(self) -> u32 {
        match self {
            CameraTimestampMode::Zero => 0,
            CameraTimestampMode::RawSTC => 1,
            CameraTimestampMode::ResetSTC => 2,
        }
    }

    open spec fn of_native(value: u32) -> Option<Self> {
        if value == 0 {
            Some(CameraTimestampMode::Zero)
        } else if value == 1 {
            Some(CameraTimestampMode::RawSTC)
        } else if value == 2 {
            Some(CameraTimestampMode::ResetSTC)
        } else {
            None
        }
    }

    open spec fn of_label(label: Seq<char>) -> Option<Self> {
        if label == "Zero"@ {
            Some(CameraTimestampMode::Zero)
        } else if label == "RawSTC"@ {
            Some(CameraTimestampMode::RawSTC)
        } else if label == "ResetSTC"@ {
            Some(CameraTimestampMode::ResetSTC)
        } else {
            None
        }
    }

    open spec fn spec_label(self) -> Seq<char> {
        match self {
            CameraTimestampMode::Zero => "Zero"@,
            CameraTimestampMode::RawSTC => "RawSTC"@,
            CameraTimestampMode::ResetSTC => "ResetSTC"@,
        }
    }

    open spec fn spec_enum_name() -> Seq<char> {
        "CameraTimestampMode"@
    }

    fn to_native(self) -> (v: u32) {
        match self {
            CameraTimestampMode::Zero => 0,
            CameraTimestampMode::RawSTC => 1,
            CameraTimestampMode::ResetSTC => 2,
        }
    }

    fn from_native(value: u32) -> (e: Option<Self>) {
        if value == 0 {
            Some(CameraTimestampMode::Zero)
        } else if value == 1 {
            Some(CameraTimestampMode::RawSTC)
        } else if value == 2 {
            Some(CameraTimestampMode::ResetSTC)
        } else {
            None
        }
    }

    fn from_label(label: &str) -> (e: Option<Self>) {
        if same_text(label, "Zero") {
            Some(CameraTimestampMode::Zero)
        } else if same_text(label, "RawSTC") {
            Some(CameraTimestampMode::RawSTC)
        } else if same_text(label, "ResetSTC") {
            Some(CameraTimestampMode::ResetSTC)
        } else {
            None
        }
    }

    fn label(self) -> (r: &'static str) {
        match self {
            CameraTimestampMode::Zero => "Zero",
            CameraTimestampMode::RawSTC => "RawSTC",
            CameraTimestampMode::ResetSTC => "ResetSTC",
        }
    }

    fn enum_name() -> (r: &'static str) {
        "CameraTimestampMode"
    }

    proof fn lemma_of_native(value: u32) {
    }

    proof fn lemma_native_round_trip(e: Self) {
    }
}

impl TryFrom<u32> for CameraTimestampMode {
    type Error = MmalError;

    fn try_from(value: u32) -> (r: Result<Self, MmalError>)
        ensures
            decoded::<CameraTimestampMode>(value, r),
    {
        decode(value)
    }
}

impl TryFromSpecImpl<u32> for CameraTimestampMode {
    open spec fn obeys_try_from_spec() -> bool {
        false
    }

    open spec fn try_from_spec(v: u32) -> Result<Self, MmalError> {
        decoded_value::<CameraTimestampMode>(v)
    }
}

impl CameraTimestampMode {
    /// The value with the name `s`, letter for letter.
    pub fn from_str(s: &str) -> (r: Result<Self, MmalError>)
        ensures
            parsed::<CameraTimestampMode>(s@, r),
    {
        parse(s)
    }
}
impl CameraTimestampMode {
    /// The mode of a native integer, or the invalid-enum error for an integer
    /// that is the integer of no mode.
    pub fn from(value: u32) -> (r: Result<Self, MmalError>)
        ensures
            decoded::<CameraTimestampMode>(value, r),
    {
        decode(value)
    }
}

impl Default for CameraTimestampMode {
    fn default() -> (r: Self)
        ensures
            r == CameraTimestampMode::Zero,
    {
        CameraTimestampMode::Zero
    }
}

/// Exposure modes.
#[allow(non_camel_case_types)]
#[derive(Debug, Clone, Copy, PartialEq, Eq, Structural)]
pub enum ExposureMode {
    Off,
    Auto,
    Night,
    NightPreview,
    Backlght,
    Spotlight,
    Sports,
    Snow,
    Beach,
    VeryLong,
    FixedFPS,
    AntiShake,
    Fireworks,
}

impl NativeEnum for ExposureMode {
    open spec fn native(self) -> u32 {
        match self {
            ExposureMode::Off => 0,
            ExposureMode::Auto => 1,
            ExposureMode::Night => 2,
            ExposureMode::NightPreview => 3,
            ExposureMode::Backlght => 4,
            ExposureMode::Spotlight => 5,
            ExposureMode::Sports => 6,
            ExposureMode::Snow => 7,
            ExposureMode::Beach => 8,
            ExposureMode::VeryLong => 9,
            ExposureMode::FixedFPS => 10,
            ExposureMode::AntiShake => 11,
            ExposureMode::Fireworks => 12,
        }
    }

    open spec fn of_native(value: u32) -> Option<Self> {
        if value == 0 {
            Some(ExposureMode::Off)
        } else if value == 1 {
            Some(ExposureMode::Auto)
        } else if value == 2 {
            Some(ExposureMode::Night)
        } else if value == 3 {
            Some(ExposureMode::NightPreview)
        } else if value == 4 {
            Some(ExposureMode::Backlght)
        } else if value == 5 {
            Some(ExposureMode::Spotlight)
        } else if value == 6 {
            Some(ExposureMode::Sports)
        } else if value == 7 {
            Some(ExposureMode::Snow)
        } else if value == 8 {
            Some(ExposureMode::Beach)
        } else if value == 9 {
            Some(ExposureMode::VeryLong)
        } else if value == 10 {
            Some(ExposureMode::FixedFPS)
        } else if value == 11 {
            Some(ExposureMode::AntiShake)
        } else if value == 12 {
            Some(ExposureMode::Fireworks)
        } else {
            None
        }
    }

    open spec fn of_label(label: Seq<char>) -> Option<Self> {
        if label == "Off"@ {
            Some(ExposureMode::Off)
        } else if label == "Auto"@ {
            Some(ExposureMode::Auto)
        } else if label == "Night"@ {
            Some(ExposureMode::Night)
        } else if label == "NightPreview"@ {
            Some(ExposureMode::NightPreview)
        } else if label == "Backlght"@ {
            Some(ExposureMode::Backlght)
        } else if label == "Spotlight"@ {
            Some(ExposureMode::Spotlight)
        } else if label == "Sports"@ {
            Some(ExposureMode::Sports)
        } else if label == "Snow"@ {
            Some(ExposureMode::Snow)
        } else if label == "Beach"@ {
            Some(ExposureMode::Beach)
        } else if label == "VeryLong"@ {
            Some(ExposureMode::VeryLong)
        } else if label == "FixedFPS"@ {
            Some(ExposureMode::FixedFPS)
        } else if label == "AntiShake"@ {
            Some(ExposureMode::AntiShake)
        } else if label == "Fireworks"@ {
            Some(ExposureMode::Fireworks)
        } else {
            None
        }
    }

    open spec fn spec_label(self) -> Seq<char> {
        match self {
            ExposureMode::Off => "Off"@,
            ExposureMode::Auto => "Auto"@,
            ExposureMode::Night => "Night"@,
            ExposureMode::NightPreview => "NightPreview"@,
            ExposureMode::Backlght => "Backlght"@,
            ExposureMode::Spotlight => "Spotlight"@,
            ExposureMode::Sports => "Sports"@,
            ExposureMode::Snow => "Snow"@,
            ExposureMode::Beach => "Beach"@,
            ExposureMode::VeryLong => "VeryLong"@,
            ExposureMode::FixedFPS => "FixedFPS"@,
            ExposureMode::AntiShake => "AntiShake"@,
            ExposureMode::Fireworks => "Fireworks"@,
        }
    }

    open spec fn spec_enum_name() -> Seq<char> {
        "ExposureMode"@
    }

    fn to_native(self) -> (v: u32) {
        match self {
            ExposureMode::Off => 0,
            ExposureMode::Auto => 1,
            ExposureMode::Night => 2,
            ExposureMode::NightPreview => 3,
            ExposureMode::Backlght => 4,
            ExposureMode::Spotlight => 5,
            ExposureMode::Sports => 6,
            ExposureMode::Snow => 7,
            ExposureMode::Beach => 8,
            ExposureMode::VeryLong => 9,
            ExposureMode::FixedFPS => 10,
            ExposureMode::AntiShake => 11,
            ExposureMode::Fireworks => 12,
        }
    }

    fn from_native(value: u32) -> (e: Option<Self>) {
        if value == 0 {
            Some(ExposureMode::Off)
        } else if value == 1 {
            Some(ExposureMode::Auto)
        } else if value == 2 {
            Some(ExposureMode::Night)
        } else if value == 3 {
            Some(ExposureMode::NightPreview)
        } else if value == 4 {
            Some(ExposureMode::Backlght)
        } else if value == 5 {
            Some(ExposureMode::Spotlight)
        } else if value == 6 {
            Some(ExposureMode::Sports)
        } else if value == 7 {
            Some(ExposureMode::Snow)
        } else if value == 8 {
            Some(ExposureMode::Beach)
        } else if value == 9 {
            Some(ExposureMode::VeryLong)
        } else if value == 10 {
            Some(ExposureMode::FixedFPS)
        } else if value == 11 {
            Some(ExposureMode::AntiShake)
        } else if value == 12 {
            Some(ExposureMode::Fireworks)
        } else {
            None
        }
    }

    fn from_label(label: &str) -> (e: Option<Self>) {
        if same_text(label, "Off") {
            Some(ExposureMode::Off)
        } else if same_text(label, "Auto") {
            Some(ExposureMode::Auto)
        } else if same_text(label, "Night") {
            Some(ExposureMode::Night)
        } else if same_text(label, "NightPreview") {
            Some(ExposureMode::NightPreview)
        } else if same_text(label, "Backlght") {
            Some(ExposureMode::Backlght)
        } else if same_text(label, "Spotlight") {
            Some(ExposureMode::Spotlight)
        } else if same_text(label, "Sports") {
            Some(ExposureMode::Sports)
        } else if same_text(label, "Snow") {
            Some(ExposureMode::Snow)
        } else if same_text(label, "Beach") {
            Some(ExposureMode::Beach)
        } else if same_text(label, "VeryLong") {
            Some(ExposureMode::VeryLong)
        } else if same_text(label, "FixedFPS") {
            Some(ExposureMode::FixedFPS)
        } else if same_text(label, "AntiShake") {
            Some(ExposureMode::AntiShake)
        } else if same_text(label, "Fireworks") {
            Some(ExposureMode::Fireworks)
        } else {
            None
        }
    }

    fn label(self) -> (r: &'static str) {
        match self {
            ExposureMode::Off => "Off",
            ExposureMode::Auto => "Auto",
            ExposureMode::Night => "Night",
            ExposureMode::NightPreview => "NightPreview",
            ExposureMode::Backlght => "Backlght",
            ExposureMode::Spotlight => "Spotlight",
            ExposureMode::Sports => "Sports",
            ExposureMode::Snow => "Snow",
            ExposureMode::Beach => "Beach",
            ExposureMode::VeryLong => "VeryLong",
            ExposureMode::FixedFPS => "FixedFPS",
            ExposureMode::AntiShake => "AntiShake",
            ExposureMode::Fireworks => "Fireworks",
        }
    }

    fn enum_name() -> (r: &'static str) {
        "ExposureMode"
    }

    proof fn lemma_of_native(value: u32) {
    }

    proof fn lemma_native_round_trip(e: Self) {
    }
}

impl TryFrom<u32> for ExposureMode {
    type Error = MmalError;

    fn try_from(value: u32) -> (r: Result<Self, MmalError>)
        ensures
            decoded::<ExposureMode>(value, r),
    {
        decode(value)
    }
}

impl TryFromSpecImpl<u32> for ExposureMode {
    open spec fn obeys_try_from_spec() -> bool {
        false
    }

    open spec fn try_from_spec(v: u32) -> Result<Self, MmalError> {
        decoded_value::<ExposureMode>(v)
    }
}

impl ExposureMode {
    /// The value with the name `s`, letter for letter.
    pub fn from_str(s: &str) -> (r: Result<Self, MmalError>)
        ensures
            parsed::<ExposureMode>(s@, r),
    {
        parse(s)
    }
}
/// Metering modes.
#[allow(non_camel_case_types)]
#[derive(Debug, Clone, Copy, PartialEq, Eq, Structural)]
pub enum ExposureMeteringMode {
    Average,
    Spot,
    Backlit,
    Matrix,
}

impl NativeEnum for ExposureMeteringMode {
    open spec fn native(self) -> u32 {
        match self {
            ExposureMeteringMode::Average => 0,
            ExposureMeteringMode::Spot => 1,
            ExposureMeteringMode::Backlit => 2,
            ExposureMeteringMode::Matrix => 3,
        }
    }

    open spec fn of_native(value: u32) -> Option<Self> {
        if value == 0 {
            Some(ExposureMeteringMode::Average)
        } else if value == 1 {
            Some(ExposureMeteringMode::Spot)
        } else if value == 2 {
            Some(ExposureMeteringMode::Backlit)
        } else if value == 3 {
            Some(ExposureMeteringMode::Matrix)
        } else {
            None
        }
    }

    open spec fn of_label(label: Seq<char>) -> Option<Self> {
        if label == "Average"@ {
            Some(ExposureMeteringMode::Average)
        } else if label == "Spot"@ {
            Some(ExposureMeteringMode::Spot)
        } else if label == "Backlit"@ {
            Some(ExposureMeteringMode::Backlit)
        } else if label == "Matrix"@ {
            Some(ExposureMeteringMode::Matrix)
        } else {
            None
        }
    }

    open spec fn spec_label(self) -> Seq<char> {
        match self {
            ExposureMeteringMode::Average => "Average"@,
            ExposureMeteringMode::Spot => "Spot"@,
            ExposureMeteringMode::Backlit => "Backlit"@,
            ExposureMeteringMode::Matrix => "Matrix"@,
        }
    }

    open spec fn spec_enum_name() -> Seq<char> {
        "ExposureMeteringMode"@
    }

    fn to_native(self) -> (v: u32) {
        match self {
            ExposureMeteringMode::Average => 0,
            ExposureMeteringMode::Spot => 1,
            ExposureMeteringMode::Backlit => 2,
            ExposureMeteringMode::Matrix => 3,
        }
    }

    fn from_native(value: u32) -> (e: Option<Self>) {
        if value == 0 {
            Some(ExposureMeteringMode::Average)
        } else if value == 1 {
            Some(ExposureMeteringMode::Spot)
        } else if value == 2 {
            Some(ExposureMeteringMode::Backlit)
        } else if value == 3 {
            Some(ExposureMeteringMode::Matrix)
        } else {
            None
        }
    }

    fn from_label(label: &str) -> (e: Option<Self>) {
        if same_text(label, "Average") {
            Some(ExposureMeteringMode::Average)
        } else if same_text(label, "Spot") {
            Some(ExposureMeteringMode::Spot)
        } else if same_text(label, "Backlit") {
            Some(ExposureMeteringMode::Backlit)
        } else if same_text(label, "Matrix") {
            Some(ExposureMeteringMode::Matrix)
        } else {
            None
        }
    }

    fn label(self) -> (r: &'static str) {
        match self {
            ExposureMeteringMode::Average => "Average",
            ExposureMeteringMode::Spot => "Spot",
            ExposureMeteringMode::Backlit => "Backlit",
            ExposureMeteringMode::Matrix => "Matrix",
        }
    }

    fn enum_name() -> (r: &'static str) {
        "ExposureMeteringMode"
    }

    proof fn lemma_of_native(value: u32) {
    }

    proof fn lemma_native_round_trip(e: Self) {
    }
}

impl TryFrom<u32> for ExposureMeteringMode {
    type Error = MmalError;

    fn try_from(value: u32) -> (r: Result<Self, MmalError>)
        ensures
            decoded::<ExposureMeteringMode>(value, r),
    {
        decode(value)
    }
}

impl TryFromSpecImpl<u32> for ExposureMeteringMode {
    open spec fn obeys_try_from_spec() -> bool {
        false
    }

    open spec fn try_from_spec(v: u32) -> Result<Self, MmalError> {
        decoded_value::<ExposureMeteringMode>(v)
    }
}

impl ExposureMeteringMode {
    /// The value with the name `s`, letter for letter.
    pub fn from_str(s: &str) -> (r: Result<Self, MmalError>)
        ensures
            parsed::<ExposureMeteringMode>(s@, r),
    {
        parse(s)
    }
}
/// Modes of the automatic white balance.
#[allow(non_camel_case_types)]
#[derive(Debug, Clone, Copy, PartialEq, Eq, Structural)]
pub enum AwbMode {
    Off,
    Auto,
    Sunlight,
    Cloudy,
    Shade,
    Tungsten,
    Fluorescent,
    Incandescent,
    Flash,
    Horizon,
    GreyWorld,
}

impl NativeEnum for AwbMode {
    open spec fn native(self) -> u32 {
        match self {
            AwbMode::Off => 0,
            AwbMode::Auto => 1,
            AwbMode::Sunlight => 2,
            AwbMode::Cloudy => 3,
            AwbMode::Shade => 4,
            AwbMode::Tungsten => 5,
            AwbMode::Fluorescent => 6,
            AwbMode::Incandescent => 7,
            AwbMode::Flash => 8,
            AwbMode::Horizon => 9,
            AwbMode::GreyWorld => 10,
        }
    }

    open spec fn of_native(value: u32) -> Option<Self> {
        if value == 0 {
            Some(AwbMode::Off)
        } else if value == 1 {
            Some(AwbMode::Auto)
        } else if value == 2 {
            Some(AwbMode::Sunlight)
        } else if value == 3 {
            Some(AwbMode::Cloudy)
        } else if value == 4 {
            Some(AwbMode::Shade)
        } else if value == 5 {
            Some(AwbMode::Tungsten)
        } else if value == 6 {
            Some(AwbMode::Fluorescent)
        } else if value == 7 {
            Some(AwbMode::Incandescent)
        } else if value == 8 {
            Some(AwbMode::Flash)
        } else if value == 9 {
            Some(AwbMode::Horizon)
        } else if value == 10 {
            Some(AwbMode::GreyWorld)
        } else {
            None
        }
    }

    open spec fn of_label(label: Seq<char>) -> Option<Self> {
        if label == "Off"@ {
            Some(AwbMode::Off)
        } else if label == "Auto"@ {
            Some(AwbMode::Auto)
        } else if label == "Sunlight"@ {
            Some(AwbMode::Sunlight)
        } else if label == "Cloudy"@ {
            Some(AwbMode::Cloudy)
        } else if label == "Shade"@ {
            Some(AwbMode::Shade)
        } else if label == "Tungsten"@ {
            Some(AwbMode::Tungsten)
        } else if label == "Fluorescent"@ {
            Some(AwbMode::Fluorescent)
        } else if label == "Incandescent"@ {
            Some(AwbMode::Incandescent)
        } else if label == "Flash"@ {
            Some(AwbMode::Flash)
        } else if label == "Horizon"@ {
            Some(AwbMode::Horizon)
        } else if label == "GreyWorld"@ {
            Some(AwbMode::GreyWorld)
        } else {
            None
        }
    }

    open spec fn spec_label(self) -> Seq<char> {
        match self {
            AwbMode::Off => "Off"@,
            AwbMode::Auto => "Auto"@,
            AwbMode::Sunlight => "Sunlight"@,
            AwbMode::Cloudy => "Cloudy"@,
            AwbMode::Shade => "Shade"@,
            AwbMode::Tungsten => "Tungsten"@,
            AwbMode::Fluorescent => "Fluorescent"@,
            AwbMode::Incandescent => "Incandescent"@,
            AwbMode::Flash => "Flash"@,
            AwbMode::Horizon => "Horizon"@,
            AwbMode::GreyWorld => "GreyWorld"@,
        }
    }

    open spec fn spec_enum_name() -> Seq<char> {
        "AwbMode"@
    }

    fn to_native(self) -> (v: u32) {
        match self {
            AwbMode::Off => 0,
            AwbMode::Auto => 1,
            AwbMode::Sunlight => 2,
            AwbMode::Cloudy => 3,
            AwbMode::Shade => 4,
            AwbMode::Tungsten => 5,
            AwbMode::Fluorescent => 6,
            AwbMode::Incandescent => 7,
            AwbMode::Flash => 8,
            AwbMode::Horizon => 9,
            AwbMode::GreyWorld => 10,
        }
    }

    fn from_native(value: u32) -> (e: Option<Self>) {
        if value == 0 {
            Some(AwbMode::Off)
        } else if value == 1 {
            Some(AwbMode::Auto)
        } else if value == 2 {
            Some(AwbMode::Sunlight)
        } else if value == 3 {
            Some(AwbMode::Cloudy)
        } else if value == 4 {
            Some(AwbMode::Shade)
        } else if value == 5 {
            Some(AwbMode::Tungsten)
        } else if value == 6 {
            Some(AwbMode::Fluorescent)
        } else if value == 7 {
            Some(AwbMode::Incandescent)
        } else if value == 8 {
            Some(AwbMode::Flash)
        } else if value == 9 {
            Some(AwbMode::Horizon)
        } else if value == 10 {
            Some(AwbMode::GreyWorld)
        } else {
            None
        }
    }

    fn from_label(label: &str) -> (e: Option<Self>) {
        if same_text(label, "Off") {
            Some(AwbMode::Off)
        } else if same_text(label, "Auto") {
            Some(AwbMode::Auto)
        } else if same_text(label, "Sunlight") {
            Some(AwbMode::Sunlight)
        } else if same_text(label, "Cloudy") {
            Some(AwbMode::Cloudy)
        } else if same_text(label, "Shade") {
            Some(AwbMode::Shade)
        } else if same_text(label, "Tungsten") {
            Some(AwbMode::Tungsten)
        } else if same_text(label, "Fluorescent") {
            Some(AwbMode::Fluorescent)
        } else if same_text(label, "Incandescent") {
            Some(AwbMode::Incandescent)
        } else if same_text(label, "Flash") {
            Some(AwbMode::Flash)
        } else if same_text(label, "Horizon") {
            Some(AwbMode::Horizon)
        } else if same_text(label, "GreyWorld") {
            Some(AwbMode::GreyWorld)
        } else {
            None
        }
    }

    fn label(self) -> (r: &'static str) {
        match self {
            AwbMode::Off => "Off",
            AwbMode::Auto => "Auto",
            AwbMode::Sunlight => "Sunlight",
            AwbMode::Cloudy => "Cloudy",
            AwbMode::Shade => "Shade",
            AwbMode::Tungsten => "Tungsten",
            AwbMode::Fluorescent => "Fluorescent",
            AwbMode::Incandescent => "Incandescent",
            AwbMode::Flash => "Flash",
            AwbMode::Horizon => "Horizon",
            AwbMode::GreyWorld => "GreyWorld",
        }
    }

    fn enum_name() -> (r: &'static str) {
        "AwbMode"
    }

    proof fn lemma_of_native(value: u32) {
    }

    proof fn lemma_native_round_trip(e: Self) {
    }
}

impl TryFrom<u32> for AwbMode {
    type Error = MmalError;

    fn try_from(value: u32) -> (r: Result<Self, MmalError>)
        ensures
            decoded::<AwbMode>(value, r),
    {
        decode(value)
    }
}

impl TryFromSpecImpl<u32> for AwbMode {
    open spec fn obeys_try_from_spec() -> bool {
        false
    }

    open spec fn try_from_spec(v: u32) -> Result<Self, MmalError> {
        decoded_value::<AwbMode>(v)
    }
}

impl AwbMode {
    /// The value with the name `s`, letter for letter.
    pub fn from_str(s: &str) -> (r: Result<Self, MmalError>)
        ensures
            parsed::<AwbMode>(s@, r),
    {
        parse(s)
    }
}
/// Image effects.
#[allow(non_camel_case_types)]
#[derive(Debug, Clone, Copy, PartialEq, Eq, Structural)]
pub enum ImageFX {
    Plain,
    Negative,
    Solarize,
    Posterize,
    Whiteboard,
    BlackBoard,
    Sketch,
    Denoise,
    Emboss,
    OilPaint,
    Hatch,
    Gpen,
    Pastel,
    WaterColour,
    Film,
    Blur,
    Saturation,
    ColourSwap,
    WashedOut,
    Posterise,
    ColourPoint,
    ColourBalance,
    Cartoon,
}

impl NativeEnum for ImageFX {
    open spec fn native(self) -> u32 {
        match self {
            ImageFX::Plain => 0,
            ImageFX::Negative => 1,
            ImageFX::Solarize => 2,
            ImageFX::Posterize => 3,
            ImageFX::Whiteboard => 4,
            ImageFX::BlackBoard => 5,
            ImageFX::Sketch => 6,
            ImageFX::Denoise => 7,
            ImageFX::Emboss => 8,
            ImageFX::OilPaint => 9,
            ImageFX::Hatch => 10,
            ImageFX::Gpen => 11,
            ImageFX::Pastel => 12,
            ImageFX::WaterColour => 13,
            ImageFX::Film => 14,
            ImageFX::Blur => 15,
            ImageFX::Saturation => 16,
            ImageFX::ColourSwap => 17,
            ImageFX::WashedOut => 18,
            ImageFX::Posterise => 19,
            ImageFX::ColourPoint => 20,
            ImageFX::ColourBalance => 21,
            ImageFX::Cartoon => 22,
        }
    }

    open spec fn of_native(value: u32) -> Option<Self> {
        if value == 0 {
            Some(ImageFX::Plain)
        } else if value == 1 {
            Some(ImageFX::Negative)
        } else if value == 2 {
            Some(ImageFX::Solarize)
        } else if value == 3 {
            Some(ImageFX::Posterize)
        } else if value == 4 {
            Some(ImageFX::Whiteboard)
        } else if value == 5 {
            Some(ImageFX::BlackBoard)
        } else if value == 6 {
            Some(ImageFX::Sketch)
        } else if value == 7 {
            Some(ImageFX::Denoise)
        } else if value == 8 {
            Some(ImageFX::Emboss)
        } else if value == 9 {
            Some(ImageFX::OilPaint)
        } else if value == 10 {
            Some(ImageFX::Hatch)
        } else if value == 11 {
            Some(ImageFX::Gpen)
        } else if value == 12 {
            Some(ImageFX::Pastel)
        } else if value == 13 {
            Some(ImageFX::WaterColour)
        } else if value == 14 {
            Some(ImageFX::Film)
        } else if value == 15 {
            Some(ImageFX::Blur)
        } else if value == 16 {
            Some(ImageFX::Saturation)
        } else if value == 17 {
            Some(ImageFX::ColourSwap)
        } else if value == 18 {
            Some(ImageFX::WashedOut)
        } else if value == 19 {
            Some(ImageFX::Posterise)
        } else if value == 20 {
            Some(ImageFX::ColourPoint)
        } else if value == 21 {
            Some(ImageFX::ColourBalance)
        } else if value == 22 {
            Some(ImageFX::Cartoon)
        } else {
            None
        }
    }

    open spec fn of_label(label: Seq<char>) -> Option<Self> {
        if label == "None"@ {
            Some(ImageFX::Plain)
        } else if label == "Negative"@ {
            Some(ImageFX::Negative)
        } else if label == "Solarize"@ {
            Some(ImageFX::Solarize)
        } else if label == "Posterize"@ {
            Some(ImageFX::Posterize)
        } else if label == "Whiteboard"@ {
            Some(ImageFX::Whiteboard)
        } else if label == "BlackBoard"@ {
            Some(ImageFX::BlackBoard)
        } else if label == "Sketch"@ {
            Some(ImageFX::Sketch)
        } else if label == "Denoise"@ {
            Some(ImageFX::Denoise)
        } else if label == "Emboss"@ {
            Some(ImageFX::Emboss)
        } else if label == "OilPaint"@ {
            Some(ImageFX::OilPaint)
        } else if label == "Hatch"@ {
            Some(ImageFX::Hatch)
        } else if label == "Gpen"@ {
            Some(ImageFX::Gpen)
        } else if label == "Pastel"@ {
            Some(ImageFX::Pastel)
        } else if label == "WaterColour"@ {
            Some(ImageFX::WaterColour)
        } else if label == "Film"@ {
            Some(ImageFX::Film)
        } else if label == "Blur"@ {
            Some(ImageFX::Blur)
        } else if label == "Saturation"@ {
            Some(ImageFX::Saturation)
        } else if label == "ColourSwap"@ {
            Some(ImageFX::ColourSwap)
        } else if label == "WashedOut"@ {
            Some(ImageFX::WashedOut)
        } else if label == "Posterise"@ {
            Some(ImageFX::Posterise)
        } else if label == "ColourPoint"@ {
            Some(ImageFX::ColourPoint)
        } else if label == "ColourBalance"@ {
            Some(ImageFX::ColourBalance)
        } else if label == "Cartoon"@ {
            Some(ImageFX::Cartoon)
        } else {
            None
        }
    }

    open spec fn spec_label(self) -> Seq<char> {
        match self {
            ImageFX::Plain => "None"@,
            ImageFX::Negative => "Negative"@,
            ImageFX::Solarize => "Solarize"@,
            ImageFX::Posterize => "Posterize"@,
            ImageFX::Whiteboard => "Whiteboard"@,
            ImageFX::BlackBoard => "BlackBoard"@,
            ImageFX::Sketch => "Sketch"@,
            ImageFX::Denoise => "Denoise"@,
            ImageFX::Emboss => "Emboss"@,
            ImageFX::OilPaint => "OilPaint"@,
            ImageFX::Hatch => "Hatch"@,
            ImageFX::Gpen => "Gpen"@,
            ImageFX::Pastel => "Pastel"@,
            ImageFX::WaterColour => "WaterColour"@,
            ImageFX::Film => "Film"@,
            ImageFX::Blur => "Blur"@,
            ImageFX::Saturation => "Saturation"@,
            ImageFX::ColourSwap => "ColourSwap"@,
            ImageFX::WashedOut => "WashedOut"@,
            ImageFX::Posterise => "Posterise"@,
            ImageFX::ColourPoint => "ColourPoint"@,
            ImageFX::ColourBalance => "ColourBalance"@,
            ImageFX::Cartoon => "Cartoon"@,
        }
    }

    open spec fn spec_enum_name() -> Seq<char> {
        "ImageFX"@
    }

    fn to_native(self) -> (v: u32) {
        match self {
            ImageFX::Plain => 0,
            ImageFX::Negative => 1,
            ImageFX::Solarize => 2,
            ImageFX::Posterize => 3,
            ImageFX::Whiteboard => 4,
            ImageFX::BlackBoard => 5,
            ImageFX::Sketch => 6,
            ImageFX::Denoise => 7,
            ImageFX::Emboss => 8,
            ImageFX::OilPaint => 9,
            ImageFX::Hatch => 10,
            ImageFX::Gpen => 11,
            ImageFX::Pastel => 12,
            ImageFX::WaterColour => 13,
            ImageFX::Film => 14,
            ImageFX::Blur => 15,
            ImageFX::Saturation => 16,
            ImageFX::ColourSwap => 17,
            ImageFX::WashedOut => 18,
            ImageFX::Posterise => 19,
            ImageFX::ColourPoint => 20,
            ImageFX::ColourBalance => 21,
            ImageFX::Cartoon => 22,
        }
    }

    fn from_native(value: u32) -> (e: Option<Self>) {
        if value == 0 {
            Some(ImageFX::Plain)
        } else if value == 1 {
            Some(ImageFX::Negative)
        } else if value == 2 {
            Some(ImageFX::Solarize)
        } else if value == 3 {
            Some(ImageFX::Posterize)
        } else if value == 4 {
            Some(ImageFX::Whiteboard)
        } else if value == 5 {
            Some(ImageFX::BlackBoard)
        } else if value == 6 {
            Some(ImageFX::Sketch)
        } else if value == 7 {
            Some(ImageFX::Denoise)
        } else if value == 8 {
            Some(ImageFX::Emboss)
        } else if value == 9 {
            Some(ImageFX::OilPaint)
        } else if value == 10 {
            Some(ImageFX::Hatch)
        } else if value == 11 {
            Some(ImageFX::Gpen)
        } else if value == 12 {
            Some(ImageFX::Pastel)
        } else if value == 13 {
            Some(ImageFX::WaterColour)
        } else if value == 14 {
            Some(ImageFX::Film)
        } else if value == 15 {
            Some(ImageFX::Blur)
        } else if value == 16 {
            Some(ImageFX::Saturation)
        } else if value == 17 {
            Some(ImageFX::ColourSwap)
        } else if value == 18 {
            Some(ImageFX::WashedOut)
        } else if value == 19 {
            Some(ImageFX::Posterise)
        } else if value == 20 {
            Some(ImageFX::ColourPoint)
        } else if value == 21 {
            Some(ImageFX::ColourBalance)
        } else if value == 22 {
            Some(ImageFX::Cartoon)
        } else {
            None
        }
    }

    fn from_label(label: &str) -> (e: Option<Self>) {
        if same_text(label, "None") {
            Some(ImageFX::Plain)
        } else if same_text(label, "Negative") {
            Some(ImageFX::Negative)
        } else if same_text(label, "Solarize") {
            Some(ImageFX::Solarize)
        } else if same_text(label, "Posterize") {
            Some(ImageFX::Posterize)
        } else if same_text(label, "Whiteboard") {
            Some(ImageFX::Whiteboard)
        } else if same_text(label, "BlackBoard") {
            Some(ImageFX::BlackBoard)
        } else if same_text(label, "Sketch") {
            Some(ImageFX::Sketch)
        } else if same_text(label, "Denoise") {
            Some(ImageFX::Denoise)
        } else if same_text(label, "Emboss") {
            Some(ImageFX::Emboss)
        } else if same_text(label, "OilPaint") {
            Some(ImageFX::OilPaint)
        } else if same_text(label, "Hatch") {
            Some(ImageFX::Hatch)
        } else if same_text(label, "Gpen") {
            Some(ImageFX::Gpen)
        } else if same_text(label, "Pastel") {
            Some(ImageFX::Pastel)
        } else if same_text(label, "WaterColour") {
            Some(ImageFX::WaterColour)
        } else if same_text(label, "Film") {
            Some(ImageFX::Film)
        } else if same_text(label, "Blur") {
            Some(ImageFX::Blur)
        } else if same_text(label, "Saturation") {
            Some(ImageFX::Saturation)
        } else if same_text(label, "ColourSwap") {
            Some(ImageFX::ColourSwap)
        } else if same_text(label, "WashedOut") {
            Some(ImageFX::WashedOut)
        } else if same_text(label, "Posterise") {
            Some(ImageFX::Posterise)
        } else if same_text(label, "ColourPoint") {
            Some(ImageFX::ColourPoint)
        } else if same_text(label, "ColourBalance") {
            Some(ImageFX::ColourBalance)
        } else if same_text(label, "Cartoon") {
            Some(ImageFX::Cartoon)
        } else {
            None
        }
    }

    fn label(self) -> (r: &'static str) {
        match self {
            ImageFX::Plain => "None",
            ImageFX::Negative => "Negative",
            ImageFX::Solarize => "Solarize",
            ImageFX::Posterize => "Posterize",
            ImageFX::Whiteboard => "Whiteboard",
            ImageFX::BlackBoard => "BlackBoard",
            ImageFX::Sketch => "Sketch",
            ImageFX::Denoise => "Denoise",
            ImageFX::Emboss => "Emboss",
            ImageFX::OilPaint => "OilPaint",
            ImageFX::Hatch => "Hatch",
            ImageFX::Gpen => "Gpen",
            ImageFX::Pastel => "Pastel",
            ImageFX::WaterColour => "WaterColour",
            ImageFX::Film => "Film",
            ImageFX::Blur => "Blur",
            ImageFX::Saturation => "Saturation",
            ImageFX::ColourSwap => "ColourSwap",
            ImageFX::WashedOut => "WashedOut",
            ImageFX::Posterise => "Posterise",
            ImageFX::ColourPoint => "ColourPoint",
            ImageFX::ColourBalance => "ColourBalance",
            ImageFX::Cartoon => "Cartoon",
        }
    }

    fn enum_name() -> (r: &'static str) {
        "ImageFX"
    }

    proof fn lemma_of_native(value: u32) {
    }

    proof fn lemma_native_round_trip(e: Self) {
    }
}

impl TryFrom<u32> for ImageFX {
    type Error = MmalError;

    fn try_from(value: u32) -> (r: Result<Self, MmalError>)
        ensures
            decoded::<ImageFX>(value, r),
    {
        decode(value)
    }
}

impl TryFromSpecImpl<u32> for ImageFX {
    open spec fn obeys_try_from_spec() -> bool {
        false
    }

    open spec fn try_from_spec(v: u32) -> Result<Self, MmalError> {
        decoded_value::<ImageFX>(v)
    }
}

impl ImageFX {
    /// The value with the name `s`, letter for letter.
    pub fn from_str(s: &str) -> (r: Result<Self, MmalError>)
        ensures
            parsed::<ImageFX>(s@, r),
    {
        parse(s)
    }
}
/// Mirrorings of the image.
#[allow(non_camel_case_types)]
#[derive(Debug, Clone, Copy, PartialEq, Eq, Structural)]
pub enum Mirror {
    Plain,
    Both,
    Horizontal,
    Vertical,
}

impl NativeEnum for Mirror {
    open spec fn native(self) -> u32 {
        match self {
            Mirror::Plain => 0,
            Mirror::Both => 3,
            Mirror::Horizontal => 2,
            Mirror::Vertical => 1,
        }
    }

    open spec fn of_native(value: u32) -> Option<Self> {
        if value == 0 {
            Some(Mirror::Plain)
        } else if value == 3 {
            Some(Mirror::Both)
        } else if value == 2 {
            Some(Mirror::Horizontal)
        } else if value == 1 {
            Some(Mirror::Vertical)
        } else {
            None
        }
    }

    open spec fn of_label(label: Seq<char>) -> Option<Self> {
        if label == "None"@ {
            Some(Mirror::Plain)
        } else if label == "Both"@ {
            Some(Mirror::Both)
        } else if label == "Horizontal"@ {
            Some(Mirror::Horizontal)
        } else if label == "Vertical"@ {
            Some(Mirror::Vertical)
        } else {
            None
        }
    }

    open spec fn spec_label(self) -> Seq<char> {
        match self {
            Mirror::Plain => "None"@,
            Mirror::Both => "Both"@,
            Mirror::Horizontal => "Horizontal"@,
            Mirror::Vertical => "Vertical"@,
        }
    }

    open spec fn spec_enum_name() -> Seq<char> {
        "Mirror"@
    }

    fn to_native(self) -> (v: u32) {
        match self {
            Mirror::Plain => 0,
            Mirror::Both => 3,
            Mirror::Horizontal => 2,
            Mirror::Vertical => 1,
        }
    }

    fn from_native(value: u32) -> (e: Option<Self>) {
        if value == 0 {
            Some(Mirror::Plain)
        } else if value == 3 {
            Some(Mirror::Both)
        } else if value == 2 {
            Some(Mirror::Horizontal)
        } else if value == 1 {
            Some(Mirror::Vertical)
        } else {
            None
        }
    }

    fn from_label(label: &str) -> (e: Option<Self>) {
        if same_text(label, "None") {
            Some(Mirror::Plain)
        } else if same_text(label, "Both") {
            Some(Mirror::Both)
        } else if same_text(label, "Horizontal") {
            Some(Mirror::Horizontal)
        } else if same_text(label, "Vertical") {
            Some(Mirror::Vertical)
        } else {
            None
        }
    }

    fn label(self) -> (r: &'static str) {
        match self {
            Mirror::Plain => "None",
            Mirror::Both => "Both",
            Mirror::Horizontal => "Horizontal",
            Mirror::Vertical => "Vertical",
        }
    }

    fn enum_name() -> (r: &'static str) {
        "Mirror"
    }

    proof fn lemma_of_native(value: u32) {
    }

    proof fn lemma_native_round_trip(e: Self) {
    }
}

impl TryFrom<u32> for Mirror {
    type Error = MmalError;

    fn try_from(value: u32) -> (r: Result<Self, MmalError>)
        ensures
            decoded::<Mirror>(value, r),
    {
        decode(value)
    }
}

impl TryFromSpecImpl<u32> for Mirror {
    open spec fn obeys_try_from_spec() -> bool {
        false
    }

    open spec fn try_from_spec(v: u32) -> Result<Self, MmalError> {
        decoded_value::<Mirror>(v)
    }
}

impl Mirror {
    /// The value with the name `s`, letter for letter.
    pub fn from_str(s: &str) -> (r: Result<Self, MmalError>)
        ensures
            parsed::<Mirror>(s@, r),
    {
        parse(s)
    }
}
/// Strengths of the compression of the dynamic range.
#[allow(non_camel_case_types)]
#[derive(Debug, Clone, Copy, PartialEq, Eq, Structural)]
pub enum DRC {
    Off,
    Low,
    Medium,
    High,
}

impl NativeEnum for DRC {
    open spec fn native(self) -> u32 {
        match self {
            DRC::Off => 0,
            DRC::Low => 1,
            DRC::Medium => 2,
            DRC::High => 3,
        }
    }

    open spec fn of_native(value: u32) -> Option<Self> {
        if value == 0 {
            Some(DRC::Off)
        } else if value == 1 {
            Some(DRC::Low)
        } else if value == 2 {
            Some(DRC::Medium)
        } else if value == 3 {
            Some(DRC::High)
        } else {
            None
        }
    }

    open spec fn of_label(label: Seq<char>) -> Option<Self> {
        if label == "Off"@ {
            Some(DRC::Off)
        } else if label == "Low"@ {
            Some(DRC::Low)
        } else if label == "Medium"@ {
            Some(DRC::Medium)
        } else if label == "High"@ {
            Some(DRC::High)
        } else {
            None
        }
    }

    open spec fn spec_label(self) -> Seq<char> {
        match self {
            DRC::Off => "Off"@,
            DRC::Low => "Low"@,
            DRC::Medium => "Medium"@,
            DRC::High => "High"@,
        }
    }

    open spec fn spec_enum_name() -> Seq<char> {
        "DRC"@
    }

    fn to_native(self) -> (v: u32) {
        match self {
            DRC::Off => 0,
            DRC::Low => 1,
            DRC::Medium => 2,
            DRC::High => 3,
        }
    }

    fn from_native(value: u32) -> (e: Option<Self>) {
        if value == 0 {
            Some(DRC::Off)
        } else if value == 1 {
            Some(DRC::Low)
        } else if value == 2 {
            Some(DRC::Medium)
        } else if value == 3 {
            Some(DRC::High)
        } else {
            None
        }
    }

    fn from_label(label: &str) -> (e: Option<Self>) {
        if same_text(label, "Off") {
            Some(DRC::Off)
        } else if same_text(label, "Low") {
            Some(DRC::Low)
        } else if same_text(label, "Medium") {
            Some(DRC::Medium)
        } else if same_text(label, "High") {
            Some(DRC::High)
        } else {
            None
        }
    }

    fn label(self) -> (r: &'static str) {
        match self {
            DRC::Off => "Off",
            DRC::Low => "Low",
            DRC::Medium => "Medium",
            DRC::High => "High",
        }
    }

    fn enum_name() -> (r: &'static str) {
        "DRC"
    }

    proof fn lemma_of_native(value: u32) {
    }

    proof fn lemma_native_round_trip(e: Self) {
    }
}

impl TryFrom<u32> for DRC {
    type Error = MmalError;

    fn try_from(value: u32) -> (r: Result<Self, MmalError>)
        ensures
            decoded::<DRC>(value, r),
    {
        decode(value)
    }
}

impl TryFromSpecImpl<u32> for DRC {
    open spec fn obeys_try_from_spec() -> bool {
        false
    }

    open spec fn try_from_spec(v: u32) -> Result<Self, MmalError> {
        decoded_value::<DRC>(v)
    }
}

impl DRC {
    /// The value with the name `s`, letter for letter.
    pub fn from_str(s: &str) -> (r: Result<Self, MmalError>)
        ensures
            parsed::<DRC>(s@, r),
    {
        parse(s)
    }
}
/// Stereoscopic modes.
#[allow(non_camel_case_types)]
#[derive(Debug, Clone, Copy, PartialEq, Eq, Structural)]
pub enum StereoMode {
    Plain,
    SideBySide,
    TopBottom,
    Max,
}

impl NativeEnum for StereoMode {
    open spec fn native(self) -> u32 {
        match self {
            StereoMode::Plain => 0,
            StereoMode::SideBySide => 1,
            StereoMode::TopBottom => 2,
            StereoMode::Max => 2147483647,
        }
    }

    open spec fn of_native(value: u32) -> Option<Self> {
        if value == 0 {
            Some(StereoMode::Plain)
        } else if value == 1 {
            Some(StereoMode::SideBySide)
        } else if value == 2 {
            Some(StereoMode::TopBottom)
        } else if value == 2147483647 {
            Some(StereoMode::Max)
        } else {
            None
        }
    }

    open spec fn of_label(label: Seq<char>) -> Option<Self> {
        if label == "None"@ {
            Some(StereoMode::Plain)
        } else if label == "SideBySide"@ {
            Some(StereoMode::SideBySide)
        } else if label == "TopBottom"@ {
            Some(StereoMode::TopBottom)
        } else if label == "Max"@ {
            Some(StereoMode::Max)
        } else {
            None
        }
    }

    open spec fn spec_label(self) -> Seq<char> {
        match self {
            StereoMode::Plain => "None"@,
            StereoMode::SideBySide => "SideBySide"@,
            StereoMode::TopBottom => "TopBottom"@,
            StereoMode::Max => "Max"@,
        }
    }

    open spec fn spec_enum_name() -> Seq<char> {
        "StereoMode"@
    }

    fn to_native(self) -> (v: u32) {
        match self {
            StereoMode::Plain => 0,
            StereoMode::SideBySide => 1,
            StereoMode::TopBottom => 2,
            StereoMode::Max => 2147483647,
        }
    }

    fn from_native(value: u32) -> (e: Option<Self>) {
        if value == 0 {
            Some(StereoMode::Plain)
        } else if value == 1 {
            Some(StereoMode::SideBySide)
        } else if value == 2 {
            Some(StereoMode::TopBottom)
        } else if value == 2147483647 {
            Some(StereoMode::Max)
        } else {
            None
        }
    }

    fn from_label(label: &str) -> (e: Option<Self>) {
        if same_text(label, "None") {
            Some(StereoMode::Plain)
        } else if same_text(label, "SideBySide") {
            Some(StereoMode::SideBySide)
        } else if same_text(label, "TopBottom") {
            Some(StereoMode::TopBottom)
        } else if same_text(label, "Max") {
            Some(StereoMode::Max)
        } else {
            None
        }
    }

    fn label(self) -> (r: &'static str) {
        match self {
            StereoMode::Plain => "None",
            StereoMode::SideBySide => "SideBySide",
            StereoMode::TopBottom => "TopBottom",
            StereoMode::Max => "Max",
        }
    }

    fn enum_name() -> (r: &'static str) {
        "StereoMode"
    }

    proof fn lemma_of_native(value: u32) {
    }

    proof fn lemma_native_round_trip(e: Self) {
    }
}

impl TryFrom<u32> for StereoMode {
    type Error = MmalError;

    fn try_from(value: u32) -> (r: Result<Self, MmalError>)
        ensures
            decoded::<StereoMode>(value, r),
    {
        decode(value)
    }
}

impl TryFromSpecImpl<u32> for StereoMode {
    open spec fn obeys_try_from_spec() -> bool {
        false
    }

    open spec fn try_from_spec(v: u32) -> Result<Self, MmalError> {
        decoded_value::<StereoMode>(v)
    }
}

impl StereoMode {
    /// The value with the name `s`, letter for letter.
    pub fn from_str(s: &str) -> (r: Result<Self, MmalError>)
        ensures
            parsed::<StereoMode>(s@, r),
    {
        parse(s)
    }
}
/// Modes of the avoidance of flicker.
#[allow(non_camel_case_types)]
#[derive(Debug, Clone, Copy, PartialEq, Eq, Structural)]
pub enum FlickerAvoid {
    Off,
    Auto,
    Hz50,
    Hz60,
}

impl NativeEnum for FlickerAvoid {
    open spec fn native(self) -> u32 {
        match self {
            FlickerAvoid::Off => 0,
            FlickerAvoid::Auto => 1,
            FlickerAvoid::Hz50 => 2,
            FlickerAvoid::Hz60 => 3,
        }
    }

    open spec fn of_native(value: u32) -> Option<Self> {
        if value == 0 {
            Some(FlickerAvoid::Off)
        } else if value == 1 {
            Some(FlickerAvoid::Auto)
        } else if value == 2 {
            Some(FlickerAvoid::Hz50)
        } else if value == 3 {
            Some(FlickerAvoid::Hz60)
        } else {
            None
        }
    }

    open spec fn of_label(label: Seq<char>) -> Option<Self> {
        if label == "Off"@ {
            Some(FlickerAvoid::Off)
        } else if label == "Auto"@ {
            Some(FlickerAvoid::Auto)
        } else if label == "Hz50"@ {
            Some(FlickerAvoid::Hz50)
        } else if label == "Hz60"@ {
            Some(FlickerAvoid::Hz60)
        } else {
            None
        }
    }

    open spec fn spec_label(self) -> Seq<char> {
        match self {
            FlickerAvoid::Off => "Off"@,
            FlickerAvoid::Auto => "Auto"@,
            FlickerAvoid::Hz50 => "Hz50"@,
            FlickerAvoid::Hz60 => "Hz60"@,
        }
    }

    open spec fn spec_enum_name() -> Seq<char> {
        "FlickerAvoid"@
    }

    fn to_native(self) -> (v: u32) {
        match self {
            FlickerAvoid::Off => 0,
            FlickerAvoid::Auto => 1,
            FlickerAvoid::Hz50 => 2,
            FlickerAvoid::Hz60 => 3,
        }
    }

    fn from_native(value: u32) -> (e: Option<Self>) {
        if value == 0 {
            Some(FlickerAvoid::Off)
        } else if value == 1 {
            Some(FlickerAvoid::Auto)
        } else if value == 2 {
            Some(FlickerAvoid::Hz50)
        } else if value == 3 {
            Some(FlickerAvoid::Hz60)
        } else {
            None
        }
    }

    fn from_label(label: &str) -> (e: Option<Self>) {
        if same_text(label, "Off") {
            Some(FlickerAvoid::Off)
        } else if same_text(label, "Auto") {
            Some(FlickerAvoid::Auto)
        } else if same_text(label, "Hz50") {
            Some(FlickerAvoid::Hz50)
        } else if same_text(label, "Hz60") {
            Some(FlickerAvoid::Hz60)
        } else {
            None
        }
    }

    fn label(self) -> (r: &'static str) {
        match self {
            FlickerAvoid::Off => "Off",
            FlickerAvoid::Auto => "Auto",
            FlickerAvoid::Hz50 => "Hz50",
            FlickerAvoid::Hz60 => "Hz60",
        }
    }

    fn enum_name() -> (r: &'static str) {
        "FlickerAvoid"
    }

    proof fn lemma_of_native(value: u32) {
    }

    proof fn lemma_native_round_trip(e: Self) {
    }
}

impl TryFrom<u32> for FlickerAvoid {
    type Error = MmalError;

    fn try_from(value: u32) -> (r: Result<Self, MmalError>)
        ensures
            decoded::<FlickerAvoid>(value, r),
    {
        decode(value)
    }
}

impl TryFromSpecImpl<u32> for FlickerAvoid {
    open spec fn obeys_try_from_spec() -> bool {
        false
    }

    open spec fn try_from_spec(v: u32) -> Result<Self, MmalError> {
        decoded_value::<FlickerAvoid>(v)
    }
}

impl FlickerAvoid {
    /// The value with the name `s`, letter for letter.
    pub fn from_str(s: &str) -> (r: Result<Self, MmalError>)
        ensures
            parsed::<FlickerAvoid>(s@, r),
    {
        parse(s)
    }
}
/// Rotations of the image.
#[derive(Debug, Clone, Copy, PartialEq, Eq, Structural)]
pub enum Rotation {
    R0,
    R90,
    R180,
    R270,
}

impl Rotation {
    /// The rotation in degrees.
    pub open spec fn spec_degrees(self) -> i32 {
        match self {
            Rotation::R0 => 0,
            Rotation::R90 => 90,
            Rotation::R180 => 180,
            Rotation::R270 => 270,
        }
    }

    pub fn degrees(self) -> (d: i32)
        ensures
            d == self.spec_degrees(),
    {
        match self {
            Rotation::R0 => 0,
            Rotation::R90 => 90,
            Rotation::R180 => 180,
            Rotation::R270 => 270,
        }
    }
}

} // verus!
