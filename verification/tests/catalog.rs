use mmal_rs::camera::{
    bool_mmal_to_rust, bool_mmal_u32_to_rust, bool_rust_to_mmal, bool_rust_to_mmal_u32, Annotate,
    AnnotateInnerType, AwbGainsInnerType, AwbMode, CameraConfig, CameraConfigBlock,
    CameraConfigInnerType, CameraTimestampMode, ColourFxBlock, ColourFxInnerType, CropInnerType,
    ExposureMeteringMode, ExposureMode, FlickerAvoid, ImageFX, Mirror, PCameraConfig, Rect,
    Rotation, StereoMode, StereoModeInnerType, AWB_GAIN_SCALE, DRC,
};
use mmal_rs::camera_info::{
    instance_info, name_bytes, CameraInfo, CameraInfoBlock, CameraInfoCamera,
    CameraInfoInnerType, CameraInstanceInfo,
};
use mmal_rs::error::{Cause, MmalError};
use mmal_rs::param::{
    decode, parse, same_text, Apply, InnerParamType, NativeEnum, ParameterHeader, RationalValue,
};
use mmal_rs::video_encoder::{VideoLevel, VideoProfile, VideoProfileBlock, VideoProfileInnerType};

fn declared<E: NativeEnum + TryFrom<u32, Error = MmalError> + PartialEq + std::fmt::Debug>(
    values: &[(E, u32, &str)],
    name: &str,
) {
    for (e, n, label) in values {
        assert_eq!(e.to_native(), *n);
        assert_eq!(E::try_from(*n).unwrap(), *e);
        assert_eq!(E::from_native(*n), Some(*e));
        assert_eq!(decode::<E>(*n).unwrap(), *e);
        assert_eq!(parse::<E>(label).unwrap(), *e);
        assert_eq!(E::from_label(label), Some(*e));
    }
    assert_eq!(E::enum_name(), name);
    let mut candidates: Vec<u32> = (0..200).collect();
    candidates.extend([0x7fff_fffe, 0x7fff_ffff, 0x8000_0000, u32::MAX]);
    for n in candidates {
        let is_declared = values.iter().any(|(_, v, _)| *v == n);
        let r = E::try_from(n);
        assert_eq!(r.is_ok(), is_declared, "{} {}", name, n);
        if let Err(e) = r {
            assert_eq!(e.cause(), Cause::InvalidEnumValue);
            assert_eq!(e.message(), format!("invalid binary value {} for `{}`", n, name));
        }
    }
    for label in ["", "off", "OFF", " Off", "Off ", "nothing", "0"] {
        let is_declared = values.iter().any(|(_, _, l)| *l == label);
        let r = parse::<E>(label);
        assert_eq!(r.is_ok(), is_declared, "{} {:?}", name, label);
        if let Err(e) = r {
            assert_eq!(e.cause(), Cause::InvalidEnumValue);
            assert_eq!(e.message(), format!("invalid string value `{}` for `{}`", label, name));
        }
    }
}

#[test]
fn exposure_modes() {
    declared(
        &[
            (ExposureMode::Off, 0, "Off"),
            (ExposureMode::Auto, 1, "Auto"),
            (ExposureMode::Night, 2, "Night"),
            (ExposureMode::NightPreview, 3, "NightPreview"),
            (ExposureMode::Backlght, 4, "Backlght"),
            (ExposureMode::Spotlight, 5, "Spotlight"),
            (ExposureMode::Sports, 6, "Sports"),
            (ExposureMode::Snow, 7, "Snow"),
            (ExposureMode::Beach, 8, "Beach"),
            (ExposureMode::VeryLong, 9, "VeryLong"),
            (ExposureMode::FixedFPS, 10, "FixedFPS"),
            (ExposureMode::AntiShake, 11, "AntiShake"),
            (ExposureMode::Fireworks, 12, "Fireworks"),
        ],
        "ExposureMode",
    );
    assert_eq!(ExposureMode::from_str("Snow").unwrap(), ExposureMode::Snow);
    assert_eq!(
        ExposureMode::from_str("snow").unwrap_err().message(),
        "invalid string value `snow` for `ExposureMode`"
    );
}

#[test]
fn metering_modes() {
    declared(
        &[(ExposureMeteringMode::Average, 0, "Average"), (ExposureMeteringMode::Spot, 1, "Spot"), (ExposureMeteringMode::Backlit, 2, "Backlit"), (ExposureMeteringMode::Matrix, 3, "Matrix")],
        "ExposureMeteringMode",
    );
}

#[test]
fn white_balance_modes() {
    declared(
        &[
            (AwbMode::Off, 0, "Off"),
            (AwbMode::Auto, 1, "Auto"),
            (AwbMode::Sunlight, 2, "Sunlight"),
            (AwbMode::Cloudy, 3, "Cloudy"),
            (AwbMode::Shade, 4, "Shade"),
            (AwbMode::Tungsten, 5, "Tungsten"),
            (AwbMode::Fluorescent, 6, "Fluorescent"),
            (AwbMode::Incandescent, 7, "Incandescent"),
            (AwbMode::Flash, 8, "Flash"),
            (AwbMode::Horizon, 9, "Horizon"),
            (AwbMode::GreyWorld, 10, "GreyWorld"),
        ],
        "AwbMode",
    );
}

#[test]
fn image_effects() {
    declared(
        &[
            (ImageFX::Plain, 0, "None"),
            (ImageFX::Negative, 1, "Negative"),
            (ImageFX::Solarize, 2, "Solarize"),
            (ImageFX::Posterize, 3, "Posterize"),
            (ImageFX::Whiteboard, 4, "Whiteboard"),
            (ImageFX::BlackBoard, 5, "BlackBoard"),
            (ImageFX::Sketch, 6, "Sketch"),
            (ImageFX::Denoise, 7, "Denoise"),
            (ImageFX::Emboss, 8, "Emboss"),
            (ImageFX::OilPaint, 9, "OilPaint"),
            (ImageFX::Hatch, 10, "Hatch"),
            (ImageFX::Gpen, 11, "Gpen"),
            (ImageFX::Pastel, 12, "Pastel"),
            (ImageFX::WaterColour, 13, "WaterColour"),
            (ImageFX::Film, 14, "Film"),
            (ImageFX::Blur, 15, "Blur"),
            (ImageFX::Saturation, 16, "Saturation"),
            (ImageFX::ColourSwap, 17, "ColourSwap"),
            (ImageFX::WashedOut, 18, "WashedOut"),
            (ImageFX::Posterise, 19, "Posterise"),
            (ImageFX::ColourPoint, 20, "ColourPoint"),
            (ImageFX::ColourBalance, 21, "ColourBalance"),
            (ImageFX::Cartoon, 22, "Cartoon"),
        ],
        "ImageFX",
    );
}

#[test]
fn mirrors_strengths_stereo_and_flicker() {
    declared(
        &[
            (Mirror::Plain, 0, "None"),
            (Mirror::Vertical, 1, "Vertical"),
            (Mirror::Horizontal, 2, "Horizontal"),
            (Mirror::Both, 3, "Both"),
        ],
        "Mirror",
    );
    declared(
        &[(DRC::Off, 0, "Off"), (DRC::Low, 1, "Low"), (DRC::Medium, 2, "Medium"), (DRC::High, 3, "High")],
        "DRC",
    );
    declared(
        &[
            (StereoMode::Plain, 0, "None"),
            (StereoMode::SideBySide, 1, "SideBySide"),
            (StereoMode::TopBottom, 2, "TopBottom"),
            (StereoMode::Max, 0x7fff_ffff, "Max"),
        ],
        "StereoMode",
    );
    declared(
        &[
            (FlickerAvoid::Off, 0, "Off"),
            (FlickerAvoid::Auto, 1, "Auto"),
            (FlickerAvoid::Hz50, 2, "Hz50"),
            (FlickerAvoid::Hz60, 3, "Hz60"),
        ],
        "FlickerAvoid",
    );
    declared(
        &[
            (CameraTimestampMode::Zero, 0, "Zero"),
            (CameraTimestampMode::RawSTC, 1, "RawSTC"),
            (CameraTimestampMode::ResetSTC, 2, "ResetSTC"),
        ],
        "CameraTimestampMode",
    );
    assert_eq!(CameraTimestampMode::default(), CameraTimestampMode::Zero);
}

#[test]
fn video_profiles_and_levels() {
    declared(
        &[
            (VideoProfile::H263Baseline, 0, "H263Baseline"),
            (VideoProfile::H263Highlatency, 8, "H263Highlatency"),
            (VideoProfile::Mp4vSimple, 9, "Mp4vSimple"),
            (VideoProfile::Mp4vAdvancedsimple, 24, "Mp4vAdvancedsimple"),
            (VideoProfile::H264Baseline, 25, "H264Baseline"),
            (VideoProfile::H264Main, 26, "H264Main"),
            (VideoProfile::H264Extended, 27, "H264Extended"),
            (VideoProfile::H264High, 28, "H264High"),
            (VideoProfile::H264High10, 29, "H264High10"),
            (VideoProfile::H264High422, 30, "H264High422"),
            (VideoProfile::H264High444, 31, "H264High444"),
            (VideoProfile::H264ConstrainedBaseline, 32, "H264ConstrainedBaseline"),
            (VideoProfile::Dummy, 0x7fff_ffff, "Dummy"),
        ]
        .into_iter()
        .chain((1..8).map(|n| (VideoProfile::try_from(n).unwrap(), n, VideoProfile::try_from(n).unwrap().label())))
        .chain((10..24).map(|n| (VideoProfile::try_from(n).unwrap(), n, VideoProfile::try_from(n).unwrap().label())))
        .collect::<Vec<_>>(),
        "VideoProfile",
    );
    declared(
        &[
            (VideoLevel::H263_10, 0, "H263_10"),
            (VideoLevel::H263_70, 7, "H263_70"),
            (VideoLevel::MP4V_0, 8, "MP4V_0"),
            (VideoLevel::MP4V_0b, 9, "MP4V_0b"),
            (VideoLevel::MP4V_6, 16, "MP4V_6"),
            (VideoLevel::H264_1, 17, "H264_1"),
            (VideoLevel::H264_1b, 18, "H264_1b"),
            (VideoLevel::H264_4, 28, "H264_4"),
            (VideoLevel::H264_51, 32, "H264_51"),
            (VideoLevel::Dummy, 0x7fff_ffff, "Dummy"),
        ]
        .into_iter()
        .chain((1..7).map(|n| (VideoLevel::try_from(n).unwrap(), n, VideoLevel::try_from(n).unwrap().label())))
        .chain((10..16).map(|n| (VideoLevel::try_from(n).unwrap(), n, VideoLevel::try_from(n).unwrap().label())))
        .chain((19..28).map(|n| (VideoLevel::try_from(n).unwrap(), n, VideoLevel::try_from(n).unwrap().label())))
        .chain((29..32).map(|n| (VideoLevel::try_from(n).unwrap(), n, VideoLevel::try_from(n).unwrap().label())))
        .collect::<Vec<_>>(),
        "VideoLevel",
    );
}

#[test]
fn time_stamp_mode_of_an_integer() {
    assert_eq!(CameraTimestampMode::from(0).unwrap(), CameraTimestampMode::Zero);
    assert_eq!(CameraTimestampMode::from(1).unwrap(), CameraTimestampMode::RawSTC);
    assert_eq!(CameraTimestampMode::from(2).unwrap(), CameraTimestampMode::ResetSTC);
    for n in [3, 4, 255, 0x7fff_ffff, u32::MAX] {
        let e = CameraTimestampMode::from(n).unwrap_err();
        assert_eq!(e.cause(), Cause::InvalidEnumValue);
        assert_eq!(e.message(), format!("invalid binary value {} for `CameraTimestampMode`", n));
    }
}

#[test]
fn rotation_in_degrees() {
    assert_eq!(Rotation::R0.degrees(), 0);
    assert_eq!(Rotation::R90.degrees(), 90);
    assert_eq!(Rotation::R180.degrees(), 180);
    assert_eq!(Rotation::R270.degrees(), 270);
}

#[test]
fn texts_are_compared_letter_for_letter() {
    assert!(same_text("Off", "Off"));
    assert!(same_text("", ""));
    assert!(!same_text("Off", "off"));
    assert!(!same_text("Off", "Off "));
    assert!(!same_text("Off", ""));
}

#[test]
fn truth_values_have_one_native_mapping() {
    assert_eq!(bool_rust_to_mmal_u32(true), 1);
    assert_eq!(bool_rust_to_mmal_u32(false), 0);
    assert_eq!(bool_rust_to_mmal(true), 1);
    assert_eq!(bool_rust_to_mmal(false), 0);
    assert!(!bool_mmal_u32_to_rust(0));
    assert!(bool_mmal_u32_to_rust(1));
    assert!(bool_mmal_u32_to_rust(2));
    assert!(bool_mmal_u32_to_rust(u32::MAX));
    assert!(!bool_mmal_to_rust(0));
    assert!(bool_mmal_to_rust(1));
    assert!(bool_mmal_to_rust(-1));
    assert!(bool_mmal_to_rust(i32::MIN));
    for w in [true, false] {
        assert_eq!(bool_mmal_u32_to_rust(bool_rust_to_mmal_u32(w)), w);
        assert_eq!(bool_mmal_to_rust(bool_rust_to_mmal(w)), w);
    }
}

fn info(width: u32, height: u32) -> CameraInstanceInfo {
    CameraInstanceInfo {
        port_id: 0,
        max_width: width,
        max_height: height,
        lens_present: false,
        camera_name: "imx219".to_owned(),
    }
}

#[test]
fn camera_config_of_an_instance() {
    let c = CameraConfig::from_instance_info(&info(3280, 2464));
    assert_eq!(
        c,
        CameraConfig {
            max_stills_w: 3280,
            max_stills_h: 2464,
            stills_yuv422: false,
            one_shot_stills: true,
            max_preview_video_w: 3280,
            max_preview_video_h: 2464,
            num_preview_video_frames: 1,
            stills_capture_circular_buffer_height: 0,
            fast_preview_resume: false,
            use_stc_timestamp: CameraTimestampMode::ResetSTC,
        }
    );
    let d = CameraConfig::default();
    assert_eq!(d.max_stills_w, 0);
    assert!(!d.one_shot_stills);
    assert_eq!(d.use_stc_timestamp, CameraTimestampMode::Zero);
}

#[test]
fn camera_config_is_copied_field_by_field() {
    let c = CameraConfig {
        max_stills_w: 1,
        max_stills_h: 2,
        stills_yuv422: true,
        one_shot_stills: false,
        max_preview_video_w: 3,
        max_preview_video_h: 4,
        num_preview_video_frames: 5,
        stills_capture_circular_buffer_height: 6,
        fast_preview_resume: true,
        use_stc_timestamp: CameraTimestampMode::RawSTC,
    };
    let mut record = CameraConfigInnerType::default();
    assert_eq!(record.block().hdr, ParameterHeader { id: 0x10015, size: 48 });
    record.apply(c);
    assert_eq!(
        record.block(),
        CameraConfigBlock {
            hdr: ParameterHeader { id: 0x10015, size: 48 },
            max_stills_w: 1,
            max_stills_h: 2,
            stills_yuv422: 1,
            one_shot_stills: 0,
            max_preview_video_w: 3,
            max_preview_video_h: 4,
            num_preview_video_frames: 5,
            stills_capture_circular_buffer_height: 6,
            fast_preview_resume: 1,
            use_stc_timestamp: 1,
        }
    );
    assert_eq!(CameraConfig::try_from(&record).unwrap(), c);
    let p = PCameraConfig::from(c);
    assert_eq!(p.try_get::<CameraConfig>().unwrap(), c);
    assert_eq!(<CameraConfigInnerType as InnerParamType>::name(), "CameraConfig");
}

#[test]
fn camera_config_with_an_unknown_timestamp_mode_is_invalid() {
    let mut record = CameraConfigInnerType::default();
    let status = record.get_param(1, |_, id, block: &CameraConfigBlock| {
        assert_eq!(id, 0x10015);
        let mut filled = *block;
        filled.use_stc_timestamp = 3;
        filled.stills_yuv422 = 5;
        (0, filled)
    });
    assert_eq!(status, 0);
    let e = CameraConfig::try_from(&record).unwrap_err();
    assert_eq!(e.cause(), Cause::InvalidEnumValue);
    assert_eq!(e.message(), "invalid binary value 3 for `CameraTimestampMode`");
    record.get_param(1, |_, _, block: &CameraConfigBlock| {
        let mut filled = *block;
        filled.use_stc_timestamp = 2;
        (0, filled)
    });
    let c = CameraConfig::try_from(&record).unwrap();
    assert!(c.stills_yuv422);
    assert_eq!(c.use_stc_timestamp, CameraTimestampMode::ResetSTC);
}

#[test]
fn colour_effect_record() {
    let mut fx = ColourFxInnerType::new(true, 128, 129);
    assert_eq!(
        fx.block(),
        ColourFxBlock { hdr: ParameterHeader { id: 0x10007, size: 20 }, enable: 1, u: 128, v: 129 }
    );
    assert_eq!(fx.get(), (true, 128, 129));
    fx.set(false, 1, 2);
    assert_eq!(fx.get(), (false, 1, 2));
    fx.apply((true, 3, 4));
    assert_eq!(fx.get(), (true, 3, 4));
    assert_eq!(ColourFxInnerType::default().get(), (false, 0, 0));
    fx.get_param(1, |_, _, b: &ColourFxBlock| (0, ColourFxBlock { enable: -7, ..*b }));
    assert_eq!(fx.get(), (true, 3, 4));
}

#[test]
fn crop_record() {
    let mut crop = CropInnerType::new((1, 2), (3, 4));
    assert_eq!(crop.get(), ((1, 2), (3, 4)));
    let seen = std::cell::RefCell::new(None);
    crop.set_param(9, |_, id, block| {
        *seen.borrow_mut() = Some((id, block.rect, block.hdr.size));
        0
    });
    assert_eq!(
        *seen.borrow(),
        Some((0x10025, Rect { x: 1, y: 3, width: 2, height: 4 }, 24))
    );
    crop.set((-1, 10), (-2, 20));
    assert_eq!(crop.get(), ((-1, 10), (-2, 20)));
    crop.apply(((5, 6), (7, 8)));
    assert_eq!(crop.get(), ((5, 6), (7, 8)));
    assert_eq!(CropInnerType::default().get(), ((0, 0), (0, 0)));
}

#[test]
fn stereo_mode_record() {
    let mut s = StereoModeInnerType::new(StereoMode::SideBySide, true, false);
    assert_eq!(s.get().unwrap(), (StereoMode::SideBySide, true, false));
    s.set(StereoMode::Max, false, true);
    assert_eq!(s.get().unwrap(), (StereoMode::Max, false, true));
    s.apply((StereoMode::TopBottom, true, true));
    assert_eq!(s.get().unwrap(), (StereoMode::TopBottom, true, true));
    assert_eq!(StereoModeInnerType::default().get().unwrap(), (StereoMode::Plain, false, false));
    let seen = std::cell::RefCell::new(None);
    s.set_param(9, |_, id, block| {
        *seen.borrow_mut() = Some((id, block.hdr.size, block.mode, block.decimate, block.swap_eyes));
        0
    });
    assert_eq!(*seen.borrow(), Some((0x1004a, 20, 2, 1, 1)));
    s.get_param(9, |_, _, block| {
        let mut filled = *block;
        filled.mode = 3;
        (0, filled)
    });
    let e = s.get().unwrap_err();
    assert_eq!(e.cause(), Cause::InvalidEnumValue);
    assert_eq!(e.message(), "invalid binary value 3 for `StereoMode`");
}

#[test]
fn white_balance_gains_record() {
    assert_eq!(AWB_GAIN_SCALE, 65536);
    let mut g = AwbGainsInnerType::new_fixed(98304, 65536);
    assert_eq!(
        g.get(),
        (RationalValue { num: 98304, den: 65536 }, RationalValue { num: 65536, den: 65536 })
    );
    g.set_fixed(1, 2);
    assert_eq!(g.get(), (RationalValue { num: 1, den: 65536 }, RationalValue { num: 2, den: 65536 }));
    let seen = std::cell::RefCell::new(None);
    g.set_param(9, |_, id, block| {
        *seen.borrow_mut() = Some((id, block.hdr.size));
        0
    });
    assert_eq!(*seen.borrow(), Some((0x10044, 24)));
}

#[test]
fn video_profile_record() {
    let mut p = VideoProfileInnerType::new(VideoProfile::H264Baseline, VideoLevel::H264_4);
    assert_eq!(
        p.block(),
        VideoProfileBlock { hdr: ParameterHeader { id: 0x20002, size: 16 }, profile: 25, level: 28 }
    );
    assert_eq!(p.get().unwrap(), (VideoProfile::H264Baseline, VideoLevel::H264_4));
    p.set(VideoProfile::H264High, VideoLevel::H264_51);
    assert_eq!(p.get().unwrap(), (VideoProfile::H264High, VideoLevel::H264_51));
    p.apply((VideoProfile::Dummy, VideoLevel::Dummy));
    assert_eq!(p.block().profile, 0x7fff_ffff);
    assert_eq!(p.block().level, 0x7fff_ffff);
    p.get_param(1, |_, _, b| (0, VideoProfileBlock { level: 33, ..*b }));
    let e = p.get().unwrap_err();
    assert_eq!(e.message(), "invalid binary value 33 for `VideoLevel`");
    p.get_param(1, |_, _, b| (0, VideoProfileBlock { profile: 33, level: 0, ..*b }));
    let e = p.get().unwrap_err();
    assert_eq!(e.message(), "invalid binary value 33 for `VideoProfile`");
    assert_eq!(
        VideoProfileInnerType::default().get().unwrap(),
        (VideoProfile::H263Baseline, VideoLevel::H263_10)
    );
}

fn annotation(text: &str) -> Annotate {
    let mut a = Annotate::default();
    a.text = text.to_owned();
    a
}

#[test]
fn annotation_fields_are_copied() {
    let a = Annotate {
        enable: true,
        show_shutter: false,
        show_analog_gain: true,
        show_lens: false,
        show_caf: true,
        show_motion: false,
        show_frame_num: true,
        enable_text_background: false,
        custom_background_colour: true,
        custom_background_y: 1,
        custom_background_u: 2,
        custom_background_v: 3,
        custom_text_colour: true,
        custom_text_y: 4,
        custom_text_u: 5,
        custom_text_v: 6,
        text_size: 7,
        text: "hello".to_owned(),
        justify: 8,
        x_offset: 9,
        y_offset: 10,
    };
    let mut record = AnnotateInnerType::new();
    assert_eq!(record.block().hdr, ParameterHeader { id: 0x10049, size: 324 });
    assert_eq!(record.block().text, [0u8; 256]);
    record.apply(&a);
    let b = record.block();
    assert_eq!(b.hdr, ParameterHeader { id: 0x10049, size: 324 });
    assert_eq!(
        (b.enable, b.show_shutter, b.show_analog_gain, b.show_lens, b.show_caf),
        (1, 0, 1, 0, 1)
    );
    assert_eq!(
        (b.show_motion, b.show_frame_num, b.enable_text_background, b.custom_background_colour),
        (0, 1, 0, 1)
    );
    assert_eq!((b.custom_background_y, b.custom_background_u, b.custom_background_v), (1, 2, 3));
    assert_eq!(b.custom_text_colour, 1);
    assert_eq!((b.custom_text_y, b.custom_text_u, b.custom_text_v, b.text_size), (4, 5, 6, 7));
    assert_eq!((b.justify, b.x_offset, b.y_offset), (8, 9, 10));
    assert_eq!(&b.text[..6], b"hello\0");
    assert!(b.text[6..].iter().all(|c| *c == 0));
}

#[test]
fn annotation_text_overwrites_the_head_of_the_field_only() {
    let mut record = AnnotateInnerType::new();
    record.apply(&annotation("a long text"));
    record.apply(&annotation("hi"));
    let b = record.block();
    assert_eq!(&b.text[..12], b"hi\0ong text\0");
    record.apply(&annotation(""));
    assert_eq!(&record.block().text[..12], b"\0i\0ong text\0");
}

#[test]
fn annotation_text_that_does_not_fit_is_written_as_empty() {
    let mut record = AnnotateInnerType::new();
    let longest = "x".repeat(255);
    record.apply(&annotation(&longest));
    let b = record.block();
    assert_eq!(&b.text[..255], longest.as_bytes());
    assert_eq!(b.text[255], 0);
    record.apply(&annotation(&"y".repeat(256)));
    let b = record.block();
    assert_eq!(b.text[0], 0);
    assert_eq!(&b.text[1..255], &longest.as_bytes()[1..]);
    let mut record = AnnotateInnerType::new();
    record.apply(&annotation("abc"));
    record.apply(&annotation("a\0b"));
    assert_eq!(&record.block().text[..4], b"\0bc\0");
    let mut record = AnnotateInnerType::new();
    record.apply(&annotation(&"é".repeat(127)));
    assert_eq!(record.block().text[253], 0xa9);
    assert_eq!(record.block().text[254], 0);
    record.apply(&annotation(&"é".repeat(128)));
    assert_eq!(record.block().text[0], 0);
    assert_eq!(record.block().text[1], 0xa9);
}

fn raw_camera(port_id: u32, name: &[u8]) -> CameraInfoCamera {
    let mut camera_name = [0u8; 16];
    camera_name[..name.len()].copy_from_slice(name);
    CameraInfoCamera { port_id, max_width: 2592, max_height: 1944, lens_present: 0, camera_name }
}

fn info_block(num_cameras: u32) -> CameraInfoBlock {
    let mut cameras = [raw_camera(0, b"ov5647"); 4];
    cameras[1] = raw_camera(1, b"imx219");
    cameras[1].lens_present = 2;
    cameras[2] = raw_camera(2, b"sixteen bytes!!!");
    cameras[3] = raw_camera(3, b"a\xffb");
    CameraInfoBlock {
        hdr: ParameterHeader { id: 0x1001c, size: 152 },
        num_cameras,
        num_flashes: 0,
        cameras,
        flashes: [0; 2],
    }
}

#[test]
fn camera_information_lists_the_cameras_of_the_record() {
    let info = CameraInfo::from(&CameraInfoInnerType::from_block(info_block(2)));
    assert_eq!(info.cameras.len(), 2);
    assert_eq!(info.cameras[0].port_id, 0);
    assert_eq!(info.cameras[0].camera_name, "ov5647");
    assert_eq!(info.cameras[0].max_width, 2592);
    assert_eq!(info.cameras[0].max_height, 1944);
    assert!(!info.cameras[0].lens_present);
    assert_eq!(info.cameras[1].port_id, 1);
    assert_eq!(info.cameras[1].camera_name, "imx219");
    assert!(info.cameras[1].lens_present);
    assert_eq!(CameraInfo::from(&CameraInfoInnerType::from_block(info_block(0))).cameras.len(), 0);
    assert_eq!(CameraInfo::from(&CameraInfoInnerType::default()).cameras.len(), 0);
    assert_eq!(CameraInfo::default().cameras.len(), 0);
}

#[test]
fn camera_information_has_room_for_four_cameras() {
    for n in [4, 5, 100, u32::MAX] {
        let info = CameraInfo::from(&CameraInfoInnerType::from_block(info_block(n)));
        assert_eq!(info.cameras.len(), 4);
        assert_eq!(info.cameras[2].camera_name, "sixteen bytes!!!");
        assert_eq!(info.cameras[3].camera_name, "a\u{fffd}b");
    }
}

#[test]
fn camera_information_record() {
    let record = CameraInfoInnerType::default();
    assert_eq!(record.block().hdr, ParameterHeader { id: 0x1001c, size: 152 });
    assert_eq!(<CameraInfoInnerType as InnerParamType>::name(), "CameraInfo");
    let mut record = CameraInfoInnerType::default();
    record.get_param(1, |_, id, _| {
        assert_eq!(id, 0x1001c);
        (0, info_block(1))
    });
    assert_eq!(CameraInfo::from(&record).cameras[0].camera_name, "ov5647");
    record.get_param(1, |_, _, _| (5, info_block(3)));
    assert_eq!(CameraInfo::from(&record).cameras.len(), 1);
}

#[test]
fn camera_name_ends_at_the_zero_byte() {
    assert_eq!(name_bytes(&raw_camera(0, b"abc").camera_name), b"abc");
    assert_eq!(name_bytes(&raw_camera(0, b"").camera_name), b"");
    assert_eq!(name_bytes(&raw_camera(0, b"a\0b").camera_name), b"a");
    assert_eq!(name_bytes(&raw_camera(0, b"0123456789abcdef").camera_name), b"0123456789abcdef");
    let made = instance_info(&raw_camera(7, b"x"), "given".to_owned());
    assert_eq!(made.port_id, 7);
    assert_eq!(made.camera_name, "given");
    assert_eq!(CameraInstanceInfo::default().camera_name, "");
}
