use std::cell::RefCell;

use mmal_rs::camera::{
    align_up, camera_port_config, camera_port_config_1024x768, camera_port_config_320x240,
    fix_encoding, BufferCountPolicy, BufferSizePolicy, CameraCapturePort, CameraComponentHandle,
    CameraControlPort, CameraVideoPort, GenericPortConfig, PIso, PShutterSpeed,
};
use mmal_rs::encoder::{
    apply_recommended_buffers, EncoderComponentHandle, EncoderOutFormat, EncoderOutputPort,
};
use mmal_rs::error::Cause;
use mmal_rs::mmalcore::{
    Component, ComponentPort, ParamIO, Port, PortConfig, PortFormat, PortSelector,
};
use mmal_rs::native::{
    MMAL_ENCODING_BGR24, MMAL_ENCODING_H264, MMAL_ENCODING_JPEG, MMAL_ENCODING_OPAQUE,
    MMAL_ENCODING_RGB24,
};
use mmal_rs::video_encoder::{
    VideoEncoderComponentHandle, VideoEncoderOutFormat, VideoEncoderOutputPort,
};

fn port(id: usize) -> Port {
    Port {
        id,
        buffer_num: 0,
        buffer_num_recommended: 1,
        buffer_num_min: 1,
        buffer_size: 0,
        buffer_size_recommended: 1024,
        buffer_size_min: 512,
        format: PortFormat {
            encoding: 0,
            encoding_variant: 9,
            bitrate: 17,
            es_video_width: 0,
            es_video_height: 0,
            es_video_crop_x: 0,
            es_video_crop_y: 0,
            es_video_crop_width: 0,
            es_video_crop_height: 0,
            es_video_frame_rate_num: 0,
            es_video_frame_rate_den: 0,
        },
        rgb_order_fixed: true,
    }
}

fn component(id: usize, inputs: usize, outputs: usize) -> Component {
    Component {
        id,
        is_enabled: false,
        control: Some(port(id + 1)),
        input: (0..inputs).map(|i| Some(port(id + 10 + i))).collect(),
        output: (0..outputs).map(|i| Some(port(id + 20 + i))).collect(),
    }
}

fn camera() -> CameraComponentHandle {
    CameraComponentHandle::create(|_| Ok(component(100, 0, 3))).unwrap()
}

fn config(count: BufferCountPolicy, size: BufferSizePolicy) -> GenericPortConfig {
    let mut c = camera_port_config(640, 480);
    c.buffer_count_policy = count;
    c.buffer_size_policy = size;
    c
}

#[test]
fn encoding_is_fixed_for_the_two_colour_encodings_only() {
    let mut p = port(1);
    p.rgb_order_fixed = true;
    assert_eq!(fix_encoding(&p, MMAL_ENCODING_RGB24), MMAL_ENCODING_RGB24);
    assert_eq!(fix_encoding(&p, MMAL_ENCODING_BGR24), MMAL_ENCODING_RGB24);
    assert_eq!(fix_encoding(&p, MMAL_ENCODING_OPAQUE), MMAL_ENCODING_OPAQUE);
    p.rgb_order_fixed = false;
    assert_eq!(fix_encoding(&p, MMAL_ENCODING_RGB24), MMAL_ENCODING_BGR24);
    assert_eq!(fix_encoding(&p, MMAL_ENCODING_BGR24), MMAL_ENCODING_BGR24);
    assert_eq!(fix_encoding(&p, MMAL_ENCODING_JPEG), MMAL_ENCODING_JPEG);
    assert_eq!(fix_encoding(&p, 0), 0);
}

#[test]
fn encodings_are_four_character_codes() {
    assert_eq!(MMAL_ENCODING_OPAQUE.to_le_bytes(), *b"OPQV");
    assert_eq!(MMAL_ENCODING_JPEG.to_le_bytes(), *b"JPEG");
    assert_eq!(MMAL_ENCODING_H264.to_le_bytes(), *b"H264");
    assert_eq!(MMAL_ENCODING_RGB24.to_le_bytes(), *b"RGB3");
    assert_eq!(MMAL_ENCODING_BGR24.to_le_bytes(), *b"BGR3");
}

#[test]
fn align_up_rounds_to_the_next_multiple() {
    assert_eq!(align_up(0, 32), 0);
    assert_eq!(align_up(1, 32), 32);
    assert_eq!(align_up(32, 32), 32);
    assert_eq!(align_up(33, 32), 64);
    assert_eq!(align_up(1080, 16), 1088);
    assert_eq!(align_up(1920, 32), 1920);
    assert_eq!(align_up(7, 1), 7);
}

#[test]
fn camera_port_config_of_a_frame() {
    let c = camera_port_config(1000, 700);
    assert_eq!(
        c,
        GenericPortConfig {
            encoding: MMAL_ENCODING_OPAQUE,
            encoding_variant: 0,
            es_video_width: 1024,
            es_video_height: 704,
            es_video_crop_x: 0,
            es_video_crop_y: 0,
            es_video_crop_width: 1000,
            es_video_crop_height: 700,
            es_video_frame_rate_num: 0,
            es_video_frame_rate_den: 1,
            buffer_count_policy: BufferCountPolicy::Explicit(3),
            buffer_size_policy: BufferSizePolicy::Recommended,
        }
    );
    assert_eq!(camera_port_config_1024x768(), camera_port_config(1024, 768));
    assert_eq!(camera_port_config_1024x768().es_video_width, 1024);
    assert_eq!(camera_port_config_1024x768().es_video_height, 768);
    assert_eq!(camera_port_config_320x240(), camera_port_config(320, 240));
    assert_eq!(camera_port_config_320x240().es_video_crop_height, 240);
}

#[test]
fn apply_format_copies_the_format_and_keeps_the_rest() {
    let mut c = camera_port_config(640, 480);
    c.encoding = MMAL_ENCODING_BGR24;
    c.encoding_variant = 5;
    c.es_video_crop_x = -3;
    c.es_video_frame_rate_num = 30;
    let mut p = port(7);
    p.buffer_num = 4;
    c.apply_format(&mut p);
    assert_eq!(p.format.encoding, MMAL_ENCODING_RGB24);
    assert_eq!(p.format.encoding_variant, 5);
    assert_eq!(p.format.bitrate, 17);
    assert_eq!(p.format.es_video_width, 640);
    assert_eq!(p.format.es_video_height, 480);
    assert_eq!(p.format.es_video_crop_x, -3);
    assert_eq!(p.format.es_video_crop_y, 0);
    assert_eq!(p.format.es_video_crop_width, 640);
    assert_eq!(p.format.es_video_crop_height, 480);
    assert_eq!(p.format.es_video_frame_rate_num, 30);
    assert_eq!(p.format.es_video_frame_rate_den, 1);
    assert_eq!(p.buffer_num, 4);
    assert_eq!(p.id, 7);
}

#[test]
fn recommended_policy_takes_the_recommendation_floored_at_the_minimum() {
    let c = config(BufferCountPolicy::Recommended, BufferSizePolicy::Recommended);
    let mut p = port(1);
    p.buffer_num_recommended = 4;
    p.buffer_num_min = 2;
    p.buffer_size_recommended = 100;
    p.buffer_size_min = 4096;
    c.apply_buffer_policy(&mut p);
    assert_eq!(p.buffer_num, 4);
    assert_eq!(p.buffer_size, 4096);
    assert_eq!(p.buffer_num_recommended, 4);
    assert_eq!(p.buffer_num_min, 2);
    assert_eq!(p.buffer_size_recommended, 100);
    assert_eq!(p.buffer_size_min, 4096);
}

#[test]
fn explicit_policy_takes_the_request_floored_at_the_minimum() {
    let c = config(BufferCountPolicy::Explicit(3), BufferSizePolicy::Explicit(10_000));
    let mut p = port(1);
    p.buffer_num_min = 5;
    p.buffer_size_min = 512;
    c.apply_buffer_policy(&mut p);
    assert_eq!(p.buffer_num, 5);
    assert_eq!(p.buffer_size, 10_000);
    let c = config(BufferCountPolicy::Explicit(8), BufferSizePolicy::Explicit(1));
    c.apply_buffer_policy(&mut p);
    assert_eq!(p.buffer_num, 8);
    assert_eq!(p.buffer_size, 512);
    let c = config(BufferCountPolicy::Explicit(5), BufferSizePolicy::Explicit(512));
    c.apply_buffer_policy(&mut p);
    assert_eq!(p.buffer_num, 5);
    assert_eq!(p.buffer_size, 512);
}

#[test]
fn encoder_formats() {
    let f = EncoderOutFormat::default();
    assert_eq!(f.encoding(), MMAL_ENCODING_JPEG);
    let mut p = port(1);
    f.apply_format(&mut p);
    assert_eq!(p.format.encoding, MMAL_ENCODING_JPEG);
    assert_eq!(p.format.bitrate, 17);
    assert_eq!(p.format.encoding_variant, 9);
    p.buffer_num_recommended = 1;
    p.buffer_num_min = 3;
    f.apply_buffer_policy(&mut p);
    assert_eq!(p.buffer_num, 3);
    assert_eq!(p.buffer_size, 1024);

    let v = VideoEncoderOutFormat::default();
    assert_eq!(v, VideoEncoderOutFormat { encoding: MMAL_ENCODING_H264, bitrate: 300_000 });
    let mut p = port(2);
    v.apply_format(&mut p);
    assert_eq!(p.format.encoding, MMAL_ENCODING_H264);
    assert_eq!(p.format.bitrate, 300_000);
    p.buffer_size_recommended = 10;
    p.buffer_size_min = 20;
    v.apply_buffer_policy(&mut p);
    assert_eq!(p.buffer_num, 1);
    assert_eq!(p.buffer_size, 20);
    let mut q = port(3);
    q.buffer_num_recommended = 6;
    apply_recommended_buffers(&mut q);
    assert_eq!((q.buffer_num, q.buffer_size), (6, 1024));
}

#[test]
fn configure_commits_the_format_and_then_sizes_the_buffers() {
    let mut h = camera();
    let seen = RefCell::new(None);
    let r = CameraVideoPort::configure(
        &mut h,
        config(BufferCountPolicy::Explicit(3), BufferSizePolicy::Recommended),
        |p: Port| {
            *seen.borrow_mut() = Some(p);
            let mut committed = p;
            committed.buffer_num_min = 4;
            committed.buffer_num_recommended = 6;
            committed.buffer_size_min = 2048;
            committed.buffer_size_recommended = 65536;
            (0, committed)
        },
    );
    assert!(r.is_ok());
    let handed = seen.borrow().unwrap();
    assert_eq!(handed.id, 121);
    assert_eq!(handed.format.encoding, MMAL_ENCODING_OPAQUE);
    assert_eq!(handed.format.es_video_width, 640);
    assert_eq!(handed.buffer_num, 0);
    let p = h.output_port_n(1).unwrap();
    assert_eq!(p.buffer_num, 4);
    assert_eq!(p.buffer_size, 65536);
    assert_eq!(p.format.es_video_height, 480);
    assert_eq!(h.output_port_n(0), Some(port(120)));
    assert_eq!(h.output_port_n(2), Some(port(122)));
    assert_eq!(
        CameraVideoPort::get_buffers_config(&h),
        ((4, 6, 4), (65536, 65536, 2048))
    );
}

#[test]
fn refused_commit_skips_the_buffer_policy() {
    let mut h = camera();
    let e = CameraCapturePort::configure(
        &mut h,
        config(BufferCountPolicy::Explicit(9), BufferSizePolicy::Explicit(9)),
        |p: Port| (3, p),
    )
    .unwrap_err();
    assert_eq!(e.cause(), Cause::Status(3));
    assert_eq!(e.message(), "unable to commit format on camera capture port");
    let p = h.output_port_n(2).unwrap();
    assert_eq!(p.buffer_num, 0);
    assert_eq!(p.buffer_size, 0);
    assert_eq!(p.format.es_video_width, 640);
}

#[test]
fn configure_of_the_encoders() {
    let mut e = EncoderComponentHandle::create(|_| Ok(component(200, 1, 1))).unwrap();
    EncoderOutputPort::configure(&mut e, EncoderOutFormat::default(), |p: Port| (0, p)).unwrap();
    let p = e.output_port_n(0).unwrap();
    assert_eq!(p.format.encoding, MMAL_ENCODING_JPEG);
    assert_eq!((p.buffer_num, p.buffer_size), (1, 1024));
    let mut v = VideoEncoderComponentHandle::create(|_| Ok(component(300, 1, 1))).unwrap();
    let err = VideoEncoderOutputPort::configure(
        &mut v,
        VideoEncoderOutFormat::default(),
        |p: Port| (12, p),
    )
    .unwrap_err();
    assert_eq!(err.message(), "unable to commit format on video_encoder output port");
}

#[test]
fn configure_without_a_port_is_a_port_error() {
    let mut h = CameraComponentHandle::create(|_| {
        let mut c = component(100, 0, 3);
        c.output[1] = None;
        Ok(c)
    })
    .unwrap();
    let asked = RefCell::new(false);
    let e = CameraVideoPort::configure(
        &mut h,
        camera_port_config(320, 240),
        |p: Port| {
            *asked.borrow_mut() = true;
            (0, p)
        },
    )
    .unwrap_err();
    assert_eq!(e.cause(), Cause::GetPort);
    assert!(!*asked.borrow());
    assert_eq!(h.port(PortSelector::Output(1)), None);
}

#[test]
fn write_multi_applies_the_records_in_order() {
    let h = camera();
    let iso = PIso::from(400u32);
    let shutter = PShutterSpeed::from(100_000u32);
    let params: [&dyn ParamIO<CameraControlPort>; 2] = [&iso, &shutter];
    let seen = RefCell::new(Vec::new());
    let r = CameraControlPort::write_multi(&h, &params, |port, p| {
        seen.borrow_mut().push((port, p.name()));
        0
    });
    assert!(r.is_ok());
    assert_eq!(
        *seen.borrow(),
        vec![(101, "MMAL_PARAMETER_ISO"), (101, "MMAL_PARAMETER_SHUTTER_SPEED")]
    );
}

#[test]
fn write_multi_stops_at_the_first_failure() {
    let h = camera();
    let a = PIso::from(1u32);
    let b = PShutterSpeed::from(2u32);
    let c = PIso::from(3u32);
    let params: [&dyn ParamIO<CameraControlPort>; 3] = [&a, &b, &c];
    let count = RefCell::new(0);
    let e = CameraControlPort::write_multi(&h, &params, |_, _| {
        *count.borrow_mut() += 1;
        if *count.borrow() == 2 {
            4
        } else {
            0
        }
    })
    .unwrap_err();
    assert_eq!(*count.borrow(), 2);
    assert_eq!(e.cause(), Cause::Status(4));
    assert_eq!(
        e.message(),
        "unable to set parameter MMAL_PARAMETER_SHUTTER_SPEED on camera control port"
    );
}

#[test]
fn write_multi_of_nothing_succeeds() {
    let h = camera();
    let params: [&dyn ParamIO<CameraControlPort>; 0] = [];
    assert!(CameraControlPort::write_multi(
        &h,
        &params,
        |_, _| 1
    )
    .is_ok());
}

#[test]
fn read_multi_reads_in_order_and_stops_at_the_first_failure() {
    let h = camera();
    let mut a = PIso::from(1u32);
    let mut b = PShutterSpeed::from(2u32);
    {
        let mut params: [&mut dyn ParamIO<CameraControlPort>; 2] = [&mut a, &mut b];
        let names = RefCell::new(Vec::new());
        let r = CameraControlPort::read_multi(
            &h,
            &mut params,
            |port, p| {
                names.borrow_mut().push((port, p.name()));
                0
            },
        );
        assert!(r.is_ok());
        assert_eq!(
            *names.borrow(),
            vec![(101, "MMAL_PARAMETER_ISO"), (101, "MMAL_PARAMETER_SHUTTER_SPEED")]
        );
    }
    let mut params: [&mut dyn ParamIO<CameraControlPort>; 2] = [&mut a, &mut b];
    let count = RefCell::new(0);
    let e = CameraControlPort::read_multi(
        &h,
        &mut params,
        |_, _| {
            *count.borrow_mut() += 1;
            6
        },
    )
    .unwrap_err();
    assert_eq!(*count.borrow(), 1);
    assert_eq!(e.cause(), Cause::Status(6));
    assert_eq!(
        e.message(),
        "unable to get parameter MMAL_PARAMETER_ISO on camera control port"
    );
}

#[test]
fn batch_without_a_port_is_a_port_error() {
    let h = CameraComponentHandle::create(|_| {
        let mut c = component(100, 0, 3);
        c.control = None;
        Ok(c)
    })
    .unwrap();
    let a = PIso::from(1u32);
    let params: [&dyn ParamIO<CameraControlPort>; 1] = [&a];
    let e = CameraControlPort::write_multi(&h, &params, |_, _| 0)
        .unwrap_err();
    assert_eq!(e.cause(), Cause::GetPort);
    let mut a = PIso::from(1u32);
    let mut params: [&mut dyn ParamIO<CameraControlPort>; 1] = [&mut a];
    let e = CameraControlPort::read_multi(
        &h,
        &mut params,
        |_, _| 0,
    )
    .unwrap_err();
    assert_eq!(e.cause(), Cause::GetPort);
}

#[test]
fn read_multi_fills_the_records_up_to_the_first_refusal() {
    let h = camera();
    let mut a = PIso::from(1u32);
    let mut b = PIso::from(2u32);
    let mut c = PIso::from(3u32);
    let count = RefCell::new(0u32);
    {
        let mut params: [&mut PIso; 3] = [&mut a, &mut b, &mut c];
        let e = CameraControlPort::read_multi(&h, &mut params, |port, p: &mut PIso| {
            assert_eq!(port, 101);
            *count.borrow_mut() += 1;
            if *count.borrow() == 2 {
                return 9;
            }
            p.inner_mut().set(100 * *count.borrow());
            0
        })
        .unwrap_err();
        assert_eq!(e.cause(), Cause::Status(9));
        assert_eq!(
            e.message(),
            "unable to get parameter MMAL_PARAMETER_ISO on camera control port"
        );
    }
    assert_eq!(*count.borrow(), 2);
    assert_eq!(a.inner().get(), 100);
    assert_eq!(b.inner().get(), 2);
    assert_eq!(c.inner().get(), 3);
    let mut params: [&mut PIso; 3] = [&mut a, &mut b, &mut c];
    CameraControlPort::read_multi(&h, &mut params, |_, p: &mut PIso| {
        let value = p.inner().get();
        p.inner_mut().set(value + 1);
        0
    })
    .unwrap();
    assert_eq!((a.inner().get(), b.inner().get(), c.inner().get()), (101, 3, 4));
}

#[test]
fn read_multi_of_nothing_succeeds() {
    let h = camera();
    let mut params: [&mut PIso; 0] = [];
    assert!(CameraControlPort::read_multi(&h, &mut params, |_, _: &mut PIso| 1).is_ok());
}
