use std::cell::RefCell;

use mmal_rs::camera::{
    AwbMode, ExposureMeteringMode, FlickerAvoid, ImageFX, Mirror, PAwbMode, PExposureMeteringMode,
    PFlickerAvoid, PImageFX, PMirrorVideo, DRC, PDRC,
    CameraCapturePort, CameraComponentHandle, ExposureMode, PBrightness,
    PCameraNum, PCapture, PExposureMode, PIso, PSaturation, MMAL_PARAMETER_BRIGHTNESS,
    MMAL_PARAMETER_CAPTURE, MMAL_PARAMETER_ISO,
};
use mmal_rs::error::Cause;
use mmal_rs::mmalcore::{Component, ParamIO, Port, PortFormat};
use mmal_rs::native;
use mmal_rs::param::{
    Apply, Boolean, EnumBlock, InnerParamType, Int32, NativeBool, NativeEnum, ParId, Param, ParameterHeader, Rational,
    RationalValue, Uint32,
};

fn port(id: usize) -> Port {
    Port {
        id,
        buffer_num: 0,
        buffer_num_recommended: 1,
        buffer_num_min: 1,
        buffer_size: 0,
        buffer_size_recommended: 1024,
        buffer_size_min: 512,
        format: PortFormat {
            encoding: 0,
            encoding_variant: 0,
            bitrate: 0,
            es_video_width: 0,
            es_video_height: 0,
            es_video_crop_x: 0,
            es_video_crop_y: 0,
            es_video_crop_width: 0,
            es_video_crop_height: 0,
            es_video_frame_rate_num: 0,
            es_video_frame_rate_den: 0,
        },
        rgb_order_fixed: true,
    }
}

fn camera() -> CameraComponentHandle {
    CameraComponentHandle::create(|_| {
        Ok(Component {
            id: 100,
            is_enabled: false,
            control: Some(port(101)),
            input: Vec::new(),
            output: vec![Some(port(120)), Some(port(121)), Some(port(122))],
        })
    })
    .unwrap()
}

type Brightness = Rational<MMAL_PARAMETER_BRIGHTNESS>;

#[test]
fn parameter_identifiers() {
    assert_eq!(MMAL_PARAMETER_ISO::n(), native::MMAL_PARAMETER_ISO);
    assert_eq!(MMAL_PARAMETER_ISO::n(), 0x10030);
    assert_eq!(<MMAL_PARAMETER_ISO as ParId>::name(), "MMAL_PARAMETER_ISO");
    assert_eq!(MMAL_PARAMETER_BRIGHTNESS::n(), 0x1002e);
    assert_eq!(MMAL_PARAMETER_CAPTURE::n(), 0x10011);
    assert_eq!(<Uint32<MMAL_PARAMETER_ISO> as InnerParamType>::name(), "MMAL_PARAMETER_ISO");
    assert_eq!(<Brightness as InnerParamType>::name(), "MMAL_PARAMETER_BRIGHTNESS");
    assert_eq!(PIso::from(1u32).name(), "MMAL_PARAMETER_ISO");
    assert_eq!(PExposureMode::from(ExposureMode::Auto).name(), "ExposureMode");
}

#[test]
fn rational_accessors() {
    let mut r = Brightness::new(3, 4);
    assert_eq!(r.get(), (3, 4));
    assert_eq!((r.get_num(), r.get_den()), (3, 4));
    r.set_num(-7);
    assert_eq!(r.get(), (-7, 4));
    r.set_den(9);
    assert_eq!(r.get(), (-7, 9));
    r.set((1, 2));
    assert_eq!(r.get(), (1, 2));
    r.set_scale100(65);
    assert_eq!(r.get(), (65, 100));
    assert_eq!(Brightness::new_scale100(-20).get(), (-20, 100));
    assert_eq!(Brightness::default().get(), (0, 1));
    r.apply((5, 6));
    assert_eq!(r.get(), (5, 6));
}

#[test]
fn hundredths_round_trip() {
    for x in [0, 1, -1, 50, 65, -100, 100, 12345, i32::MAX, i32::MIN] {
        assert_eq!(Brightness::new_scale100(x).get_scale100(), x);
        let mut r = Brightness::default();
        r.set_scale100(x);
        assert_eq!(r.get_scale100(), x);
    }
}

#[test]
fn hundredths_are_rounded_towards_zero() {
    assert_eq!(Brightness::new(1, 2).get_scale100(), 50);
    assert_eq!(Brightness::new(1, 3).get_scale100(), 33);
    assert_eq!(Brightness::new(2, 3).get_scale100(), 66);
    assert_eq!(Brightness::new(-1, 3).get_scale100(), -33);
    assert_eq!(Brightness::new(-2, 3).get_scale100(), -66);
    assert_eq!(Brightness::new(1, -3).get_scale100(), -33);
    assert_eq!(Brightness::new(-1, -3).get_scale100(), 33);
    assert_eq!(Brightness::new(7, 25).get_scale100(), 28);
    assert_eq!(Brightness::new(0, 1).get_scale100(), 0);
    assert_eq!(Brightness::new(0, -5).get_scale100(), 0);
    assert_eq!(Brightness::new(3, 1).get_scale100(), 300);
    assert_eq!(Brightness::new(1, 1000).get_scale100(), 0);
    assert_eq!(Brightness::new(-1, 1000).get_scale100(), 0);
    assert_eq!(Brightness::new(65536, 65536).get_scale100(), 100);
    assert_eq!(Brightness::new(98304, 65536).get_scale100(), 150);
}

#[test]
fn hundredths_that_do_not_fit_are_saturated() {
    assert_eq!(Brightness::new(i32::MAX, 1).get_scale100(), i32::MAX);
    assert_eq!(Brightness::new(i32::MIN, 1).get_scale100(), i32::MIN);
    assert_eq!(Brightness::new(i32::MIN, -1).get_scale100(), i32::MAX);
    assert_eq!(Brightness::new(i32::MAX, -1).get_scale100(), i32::MIN);
    assert_eq!(Brightness::new(21474837, 1).get_scale100(), i32::MAX);
    assert_eq!(Brightness::new(21474836, 1).get_scale100(), 2147483600);
    assert_eq!(Brightness::new(-21474836, 1).get_scale100(), -2147483600);
    assert_eq!(Brightness::new(-21474837, 1).get_scale100(), i32::MIN);
    assert_eq!(Brightness::new(5, 0).get_scale100(), i32::MAX);
    assert_eq!(Brightness::new(-5, 0).get_scale100(), i32::MIN);
    assert_eq!(Brightness::new(0, 0).get_scale100(), 0);
    assert_eq!(Brightness::new(i32::MIN, i32::MIN).get_scale100(), 100);
    assert_eq!(Brightness::new(1, i32::MIN).get_scale100(), 0);
}

#[test]
fn scalar_accessors() {
    let mut u = Uint32::<MMAL_PARAMETER_ISO>::new(5);
    assert_eq!(u.get(), 5);
    assert_eq!(*u.inner(), 5);
    u.set(6);
    assert_eq!(u.get(), 6);
    *u.inner_mut() = 7;
    assert_eq!(u.get(), 7);
    u.apply(8);
    assert_eq!(u.get(), 8);
    assert_eq!(Uint32::<MMAL_PARAMETER_ISO>::default().get(), 0);
    assert_eq!(Uint32::<MMAL_PARAMETER_ISO>::from(u32::MAX).get(), u32::MAX);
    assert_eq!(u32::from(&u), 8);

    let mut i = Int32::<MMAL_PARAMETER_ISO>::new(-5);
    assert_eq!(i.get(), -5);
    assert_eq!(*i.inner(), -5);
    i.set(i32::MIN);
    assert_eq!(i.get(), i32::MIN);
    *i.inner_mut() = 3;
    i.apply(4);
    assert_eq!(i.get(), 4);
    assert_eq!(Int32::<MMAL_PARAMETER_ISO>::default().get(), 0);
    assert_eq!(Int32::<MMAL_PARAMETER_ISO>::from(-9).get(), -9);
    assert_eq!(i32::from(&i), 4);

    let mut b = Boolean::<MMAL_PARAMETER_CAPTURE>::new(true);
    assert!(b.get());
    assert!(*b.inner());
    b.set(false);
    assert!(!b.get());
    *b.inner_mut() = true;
    assert!(b.get());
    b.apply(false);
    assert!(!b.get());
    assert!(!Boolean::<MMAL_PARAMETER_CAPTURE>::default().get());
    assert!(Boolean::<MMAL_PARAMETER_CAPTURE>::from(true).get());
    assert!(!bool::from(&b));
}

#[test]
fn param_wraps_its_shape() {
    let mut p = PIso::new(Uint32::new(100));
    assert_eq!(p.inner().get(), 100);
    p.inner_mut().set(200);
    assert_eq!(p.inner().get(), 200);
    p.set(300u32);
    assert_eq!(p.inner().get(), 300);
    p.set_inner(400u32);
    assert_eq!(p.inner().get(), 400);
    assert_eq!(p.get::<u32>(), 400);
    assert_eq!(p.into().get(), 400);
    assert_eq!(PIso::from(5u32).inner().get(), 5);
    assert_eq!(PIso::from_inner(6u32).inner().get(), 6);
    assert_eq!(PIso::default().inner().get(), 0);
    assert_eq!(PCameraNum::from(-1).get::<i32>(), -1);
    assert!(PCapture::from(true).get::<bool>());
    assert_eq!(PSaturation::from((50, 100)).inner().get_scale100(), 50);
    assert_eq!(PBrightness::default().inner().get(), (0, 1));
}

#[test]
fn scalar_is_written_with_its_identifier() {
    let h = camera();
    let seen = RefCell::new(None);
    PIso::from(800u32)
        .write(&h, |port, id, value: &u32| {
            *seen.borrow_mut() = Some((port, id, *value));
            0
        })
        .unwrap();
    assert_eq!(*seen.borrow(), Some((101, 0x10030, 800)));
    let seen = RefCell::new(None);
    PBrightness::from((65, 100))
        .write(&h, |port, id, value: &RationalValue| {
            *seen.borrow_mut() = Some((port, id, *value));
            0
        })
        .unwrap();
    assert_eq!(*seen.borrow(), Some((101, 0x1002e, RationalValue { num: 65, den: 100 })));
}

#[test]
fn truth_value_crosses_the_boundary_as_one_or_zero() {
    let h = camera();
    for (value, native) in [(true, 1), (false, 0)] {
        let seen = RefCell::new(None);
        PCapture::from(value)
            .write(&h, |port, id, raw: &NativeBool| {
                *seen.borrow_mut() = Some((port, id, raw.value));
                0
            })
            .unwrap();
        assert_eq!(*seen.borrow(), Some((122, 0x10011, native)));
    }
    for (raw, value) in [(0, false), (1, true), (2, true), (-1, true), (i32::MIN, true)] {
        let mut p = PCapture::from(!value);
        p.read(&h, |_, _, _: &NativeBool| (0, NativeBool { value: raw })).unwrap();
        assert_eq!(p.inner().get(), value);
    }
}

#[test]
fn written_value_reads_back() {
    let h = camera();
    let store = RefCell::new(0u32);
    PIso::from(640u32)
        .write(&h, |_, _, value: &u32| {
            *store.borrow_mut() = *value;
            0
        })
        .unwrap();
    let mut back = PIso::default();
    back.read(&h, |_, _, _: &u32| (0, *store.borrow())).unwrap();
    assert_eq!(back.inner().get(), 640);

    let store = RefCell::new(RationalValue { num: 0, den: 1 });
    let mut written = PBrightness::default();
    written.inner_mut().set_scale100(-37);
    written
        .write(&h, |_, _, value: &RationalValue| {
            *store.borrow_mut() = *value;
            0
        })
        .unwrap();
    let mut back = PBrightness::default();
    back.read(&h, |_, _, _: &RationalValue| (0, *store.borrow())).unwrap();
    assert_eq!(back.inner().get_scale100(), -37);

    for value in [true, false] {
        let store = RefCell::new(7);
        PCapture::from(value)
            .write(&h, |_, _, raw: &NativeBool| {
                *store.borrow_mut() = raw.value;
                0
            })
            .unwrap();
        let mut back = PCapture::from(!value);
        back.read(&h, |_, _, _: &NativeBool| (0, NativeBool { value: *store.borrow() })).unwrap();
        assert_eq!(back.inner().get(), value);
    }
}

#[test]
fn refused_write_and_read_name_parameter_and_port() {
    let h = camera();
    let e = PIso::from(1u32).write(&h, |_, _, _: &u32| 4).unwrap_err();
    assert_eq!(e.cause(), Cause::Status(4));
    assert_eq!(
        e.message(),
        "Unable to set parameter MMAL_PARAMETER_ISO on camera control port"
    );
    let mut p = PCapture::from(true);
    let e = p.read(&h, |_, _, _: &NativeBool| (3, NativeBool { value: 0 })).unwrap_err();
    assert_eq!(e.cause(), Cause::Status(3));
    assert_eq!(
        e.message(),
        "Unable to get parameter MMAL_PARAMETER_CAPTURE on camera capture port"
    );
    assert!(p.inner().get());
    let mut q = PIso::from(9u32);
    assert!(q.read(&h, |_, _, _: &u32| (1, 55)).is_err());
    assert_eq!(q.inner().get(), 9);
    let e = PExposureMode::from(ExposureMode::Night)
        .write(&h, |_, _, _: &EnumBlock| 2)
        .unwrap_err();
    assert_eq!(e.message(), "Unable to set parameter ExposureMode on camera control port");
}

#[test]
fn write_and_read_without_a_port_are_port_errors() {
    let h = CameraComponentHandle::create(|_| {
        Ok(Component {
            id: 100,
            is_enabled: false,
            control: None,
            input: Vec::new(),
            output: vec![None, None, None],
        })
    })
    .unwrap();
    let asked = RefCell::new(false);
    let e = PIso::from(1u32)
        .write(&h, |_, _, _: &u32| {
            *asked.borrow_mut() = true;
            0
        })
        .unwrap_err();
    assert_eq!(e.cause(), Cause::GetPort);
    let mut p = Param::<CameraCapturePort, Boolean<MMAL_PARAMETER_CAPTURE>>::from(true);
    let e = p
        .read(&h, |_, _, _: &NativeBool| {
            *asked.borrow_mut() = true;
            (0, NativeBool { value: 0 })
        })
        .unwrap_err();
    assert_eq!(e.cause(), Cause::GetPort);
    assert!(!*asked.borrow());
    assert!(p.inner().get());
}

#[test]
fn shapes_hand_themselves_to_the_native_layer() {
    let u = Uint32::<MMAL_PARAMETER_ISO>::new(11);
    let seen = RefCell::new(None);
    let status = u.set_param(5, |port, id, value: &u32| {
        *seen.borrow_mut() = Some((port, id, *value));
        9
    });
    assert_eq!(status, 9);
    assert_eq!(*seen.borrow(), Some((5, 0x10030, 11)));
    let mut i = Int32::<MMAL_PARAMETER_ISO>::new(-4);
    assert_eq!(i.get_param(5, |_, _, current: &i32| (0, *current - 1)), 0);
    assert_eq!(i.get(), -5);
    assert_eq!(i.get_param(5, |_, _, _: &i32| (6, 100)), 6);
    assert_eq!(i.get(), -5);
    let mut r = Brightness::new(1, 2);
    assert_eq!(r.get_param(5, |_, _, _: &RationalValue| (0, RationalValue { num: 3, den: 4 })), 0);
    assert_eq!(r.get(), (3, 4));
}

#[test]
fn enumerated_parameter_carries_the_native_integer() {
    let h = camera();
    let p = PExposureMode::from(ExposureMode::Sports);
    assert_eq!(
        p.inner().block(),
        EnumBlock { hdr: ParameterHeader { id: 0x10012, size: 12 }, value: 6 }
    );
    let seen = RefCell::new(None);
    p.write(&h, |port, id, block: &EnumBlock| {
        *seen.borrow_mut() = Some((port, id, *block));
        0
    })
    .unwrap();
    assert_eq!(*seen.borrow(), Some((101, 0x10012, p.inner().block())));
    let mut q = PExposureMode::default();
    assert_eq!(q.inner().block().value, 0);
    q.read(&h, |_, _, block: &EnumBlock| (0, EnumBlock { hdr: block.hdr, value: 12 })).unwrap();
    assert_eq!(q.inner().value().unwrap(), ExposureMode::Fireworks);
    q.read(&h, |_, _, block: &EnumBlock| (0, EnumBlock { hdr: block.hdr, value: 13 })).unwrap();
    let e = q.inner().value().unwrap_err();
    assert_eq!(e.cause(), Cause::InvalidEnumValue);
    assert_eq!(e.message(), "invalid binary value 13 for `ExposureMode`");
}

#[test]
fn enumerated_parameter_reads_as_its_value() {
    let p = PExposureMode::from(ExposureMode::Sports);
    assert_eq!(p.try_get::<ExposureMode>().unwrap(), ExposureMode::Sports);
    assert_eq!(ExposureMode::try_from(p.inner()).unwrap(), ExposureMode::Sports);
    let mut q = PMirrorVideo::from(Mirror::Both);
    assert_eq!(q.try_get::<Mirror>().unwrap(), Mirror::Both);
    q.set(Mirror::Vertical);
    assert_eq!(q.try_get::<Mirror>().unwrap(), Mirror::Vertical);
    assert_eq!(q.inner().block().value, 1);
    assert_eq!(PAwbMode::from(AwbMode::Shade).try_get::<AwbMode>().unwrap(), AwbMode::Shade);
    assert_eq!(PImageFX::from(ImageFX::Cartoon).try_get::<ImageFX>().unwrap(), ImageFX::Cartoon);
    assert_eq!(PDRC::from(DRC::High).try_get::<DRC>().unwrap(), DRC::High);
    assert_eq!(
        PFlickerAvoid::from(FlickerAvoid::Hz50).try_get::<FlickerAvoid>().unwrap(),
        FlickerAvoid::Hz50
    );
    assert_eq!(
        PExposureMeteringMode::from(ExposureMeteringMode::Matrix)
            .try_get::<ExposureMeteringMode>()
            .unwrap(),
        ExposureMeteringMode::Matrix
    );
}

#[test]
fn enumerated_parameter_with_an_undeclared_integer_is_invalid() {
    let h = camera();
    let mut p = PExposureMode::from(ExposureMode::Auto);
    p.read(&h, |_, _, block: &EnumBlock| (0, EnumBlock { hdr: block.hdr, value: 99 })).unwrap();
    let e = p.try_get::<ExposureMode>().unwrap_err();
    assert_eq!(e.cause(), Cause::InvalidEnumValue);
    assert_eq!(e.message(), "invalid binary value 99 for `ExposureMode`");
    assert_eq!(p.inner().block().value, 99);
    for n in 0..13 {
        p.read(&h, |_, _, block: &EnumBlock| (0, EnumBlock { hdr: block.hdr, value: n })).unwrap();
        assert_eq!(p.try_get::<ExposureMode>().unwrap().to_native(), n);
    }
}
