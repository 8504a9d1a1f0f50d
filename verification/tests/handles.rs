use std::cell::RefCell;

use mmal_rs::camera::{
    CameraCapturePort, CameraComponentHandle, CameraControlPort, CameraEntity, CameraVideoPort,
};
use mmal_rs::camera_info::CameraInfoComponentHandle;
use mmal_rs::encoder::{EncoderComponentHandle, EncoderInputPort, EncoderOutputPort};
use mmal_rs::error::Cause;
use mmal_rs::mmalcore::{
    Component, ComponentEnabler, ComponentHandle, ComponentPort, ConnectionHandle, Entity,
    NativeCall, NullSinkComponentHandle, NullSinkEntity, NullSinkInputPort, Port, PortFormat,
    PortSelector, CONNECTION_FLAGS,
};
use mmal_rs::video_encoder::{
    VideoEncoderComponentHandle, VideoEncoderEntity, VideoEncoderInputPort,
};

fn port(id: usize) -> Port {
    Port {
        id,
        buffer_num: 0,
        buffer_num_recommended: 1,
        buffer_num_min: 1,
        buffer_size: 0,
        buffer_size_recommended: 1024,
        buffer_size_min: 512,
        format: PortFormat {
            encoding: 0,
            encoding_variant: 0,
            bitrate: 0,
            es_video_width: 0,
            es_video_height: 0,
            es_video_crop_x: 0,
            es_video_crop_y: 0,
            es_video_crop_width: 0,
            es_video_crop_height: 0,
            es_video_frame_rate_num: 0,
            es_video_frame_rate_den: 0,
        },
        rgb_order_fixed: true,
    }
}

fn component(id: usize, inputs: usize, outputs: usize) -> Component {
    Component {
        id,
        is_enabled: false,
        control: Some(port(id + 1)),
        input: (0..inputs).map(|i| Some(port(id + 10 + i))).collect(),
        output: (0..outputs).map(|i| Some(port(id + 20 + i))).collect(),
    }
}

fn camera() -> CameraComponentHandle {
    CameraComponentHandle::create(|_| Ok(component(100, 0, 3))).unwrap()
}

fn encoder() -> EncoderComponentHandle {
    EncoderComponentHandle::create(|_| Ok(component(200, 1, 1))).unwrap()
}

#[test]
fn create_asks_for_the_stage_under_its_native_name() {
    let asked = RefCell::new(Vec::new());
    let record = |name: &str| {
        asked.borrow_mut().push(name.to_owned());
        Ok(component(1, 1, 1))
    };
    CameraComponentHandle::create(record).unwrap();
    CameraInfoComponentHandle::create(record).unwrap();
    EncoderComponentHandle::create(record).unwrap();
    VideoEncoderComponentHandle::create(record).unwrap();
    NullSinkComponentHandle::create(record).unwrap();
    ComponentHandle::<CameraEntity>::create_from("vc.test", record).unwrap();
    assert_eq!(
        *asked.borrow(),
        vec![
            "vc.ril.camera",
            "vc.camera_info",
            "vc.ril.image_encode",
            "vc.ril.video_encode",
            "vc.null_sink",
            "vc.test"
        ]
    );
}

#[test]
fn created_handle_mirrors_the_stage() {
    let h = camera();
    assert_eq!(h.id(), 100);
    assert!(!h.is_enabled());
    assert_eq!(h.input_num(), 0);
    assert_eq!(h.output_num(), 3);
    assert_eq!(h.control_port(), Some(port(101)));
    assert_eq!(h.output_port_n(2), Some(port(122)));
    assert_eq!(h.port(PortSelector::Output(1)), Some(port(121)));
    assert!(h.has_slot(PortSelector::Control));
    assert!(h.has_slot(PortSelector::Output(2)));
    assert!(!h.has_slot(PortSelector::Output(3)));
    assert!(!h.has_slot(PortSelector::Input(0)));
    let e = encoder();
    assert_eq!(e.input_port_n(0), Some(port(210)));
}

#[test]
fn refused_creation_names_the_kind_of_stage() {
    let e = CameraComponentHandle::create(|_| Err(1)).err().unwrap();
    assert_eq!(e.cause(), Cause::Status(1));
    assert_eq!(e.message(), "camera: Unable to create component");
    let e = VideoEncoderComponentHandle::create(|_| Err(5)).err().unwrap();
    assert_eq!(e.cause(), Cause::Status(5));
    assert_eq!(e.message(), "video_encoder: Unable to create component");
    let e = CameraInfoComponentHandle::create(|_| Err(5)).err().unwrap();
    assert_eq!(e.message(), "camera-info: Unable to create component");
    let e = EncoderComponentHandle::create(|_| Err(5)).err().unwrap();
    assert_eq!(e.message(), "encoder: Unable to create component");
    let e = NullSinkComponentHandle::create(|_| Err(5)).err().unwrap();
    assert_eq!(e.message(), "null_sink: Unable to create component");
}

#[test]
fn entity_names() {
    assert_eq!(CameraEntity::name(), "camera");
    assert_eq!(NullSinkEntity::name(), "null_sink");
    assert_eq!(VideoEncoderEntity::name(), "video_encoder");
    assert_eq!(<CameraControlPort as ComponentPort>::name(), "camera control port");
    assert_eq!(<NullSinkInputPort as ComponentPort>::name(), "null sink input port");
    assert_eq!(<EncoderOutputPort as ComponentPort>::name(), "encoder output port");
    assert_eq!(<VideoEncoderInputPort as ComponentPort>::name(), "video_encoder input port");
}

#[test]
fn port_kinds_select_their_port() {
    let h = camera();
    assert_eq!(CameraControlPort::selector(), PortSelector::Control);
    assert_eq!(CameraCapturePort::selector(), PortSelector::Output(2));
    assert_eq!(CameraVideoPort::selector(), PortSelector::Output(1));
    assert_eq!(EncoderInputPort::selector(), PortSelector::Input(0));
    assert_eq!(CameraControlPort::get_port(&h), Some(port(101)));
    assert_eq!(CameraCapturePort::get_port(&h), Some(port(122)));
    assert_eq!(CameraVideoPort::get_port(&h), Some(port(121)));
}

#[test]
fn enable_is_a_no_op_on_an_enabled_stage() {
    let calls = RefCell::new(Vec::new());
    let native = |call: NativeCall| {
        calls.borrow_mut().push(call);
        0
    };
    let mut h = camera();
    h.enable(&native).unwrap();
    assert!(h.is_enabled());
    h.enable(&native).unwrap();
    h.enable(&native).unwrap();
    assert_eq!(*calls.borrow(), vec![NativeCall::EnableComponent(100)]);
    h.disable(&native).unwrap();
    assert!(!h.is_enabled());
    h.disable(&native).unwrap();
    assert_eq!(
        *calls.borrow(),
        vec![NativeCall::EnableComponent(100), NativeCall::DisableComponent(100)]
    );
}

#[test]
fn refused_transition_leaves_the_stage_as_it_was() {
    let mut h = camera();
    let e = h.enable(&|_: NativeCall| 3).unwrap_err();
    assert_eq!(e.cause(), Cause::Status(3));
    assert_eq!(e.message(), "camera: unable to enable");
    assert!(!h.is_enabled());
    h.enable(&|_: NativeCall| 0).unwrap();
    let e = h.disable(&|_: NativeCall| 7).unwrap_err();
    assert_eq!(e.cause(), Cause::Status(7));
    assert_eq!(e.message(), "camera: unable to disable");
    assert!(h.is_enabled());
}

#[test]
fn acquire_and_release_tell_the_native_layer() {
    let calls = RefCell::new(Vec::new());
    let native = |call: NativeCall| {
        calls.borrow_mut().push(call);
        0
    };
    let h = camera();
    let second = h.acquire(&native);
    assert_eq!(second.id(), h.id());
    assert_eq!(second.output_num(), 3);
    assert_eq!(second.control_port(), h.control_port());
    second.release(&native).unwrap();
    h.release(&native).unwrap();
    assert_eq!(
        *calls.borrow(),
        vec![
            NativeCall::AcquireComponent(100),
            NativeCall::DestroyComponent(100),
            NativeCall::DestroyComponent(100)
        ]
    );
}

#[test]
fn failed_release_reports_the_destroy_message() {
    let e = camera().release(&|_: NativeCall| 9).unwrap_err();
    assert_eq!(e.cause(), Cause::Status(9));
    assert_eq!(e.message(), "mmal_component_destroy(camera)");
}

#[test]
fn set_port_replaces_one_port() {
    let mut h = camera();
    let mut p = port(121);
    p.buffer_num = 5;
    h.set_port(PortSelector::Output(1), p);
    assert_eq!(h.output_port_n(1), Some(p));
    assert_eq!(h.output_port_n(0), Some(port(120)));
    assert_eq!(h.output_port_n(2), Some(port(122)));
    h.set_port(PortSelector::Control, p);
    assert_eq!(h.control_port(), Some(p));
}

#[test]
fn enabler_enables_and_disables() {
    let calls = RefCell::new(Vec::new());
    let native = |call: NativeCall| {
        calls.borrow_mut().push(call);
        0
    };
    let enabler = ComponentEnabler::new(camera(), &native).unwrap();
    assert!(enabler.inner().is_enabled());
    let (h, r) = enabler.release(&native);
    assert!(r.is_ok());
    assert!(!h.is_enabled());
    assert_eq!(
        *calls.borrow(),
        vec![NativeCall::EnableComponent(100), NativeCall::DisableComponent(100)]
    );
}

#[test]
fn enabler_fails_where_the_stage_cannot_be_enabled() {
    let e = ComponentEnabler::new(camera(), &|_: NativeCall| 2).err().unwrap();
    assert_eq!(e.cause(), Cause::Status(2));
    assert_eq!(e.message(), "camera: unable to enable");
}

#[test]
fn enabler_with_init_prepares_before_it_enables() {
    let order = RefCell::new(Vec::new());
    let native = |call: NativeCall| {
        order.borrow_mut().push(format!("{:?}", call));
        0
    };
    let enabler = ComponentEnabler::with_init(
        camera(),
        |h: &ComponentHandle<CameraEntity>| {
            order.borrow_mut().push(format!("init {}", h.is_enabled()));
            Ok(())
        },
        &native,
    )
    .unwrap();
    assert!(enabler.inner().is_enabled());
    assert_eq!(*order.borrow(), vec!["init false", "EnableComponent(100)"]);
}

#[test]
fn enabler_with_init_stops_at_the_error_of_the_preparation() {
    let called = RefCell::new(0);
    let native = |_: NativeCall| {
        *called.borrow_mut() += 1;
        0
    };
    let e = ComponentEnabler::with_init(
        camera(),
        |_: &ComponentHandle<CameraEntity>| {
            Err(mmal_rs::error::MmalError::with_cause(Cause::GetPort))
        },
        &native,
    )
    .err()
    .unwrap();
    assert_eq!(e.cause(), Cause::GetPort);
    assert_eq!(*called.borrow(), 0);
}

#[test]
fn enabler_release_reports_a_refused_disable() {
    let enabler = ComponentEnabler::new(camera(), &|_: NativeCall| 0).unwrap();
    let (h, r) = enabler.release(&|_: NativeCall| 4);
    assert_eq!(r.unwrap_err().message(), "camera: unable to disable");
    assert!(h.is_enabled());
}

#[test]
fn connection_is_created_disabled_between_the_two_ports() {
    let seen = RefCell::new(None);
    let c = ConnectionHandle::<CameraCapturePort, EncoderInputPort>::create(
        &camera(),
        &encoder(),
        |source, target, flags| {
            *seen.borrow_mut() = Some((source.id, target.id, flags));
            Ok(900)
        },
    )
    .unwrap();
    assert_eq!(*seen.borrow(), Some((122, 210, 3)));
    assert_eq!(CONNECTION_FLAGS, 3);
    assert_eq!(c.id(), 900);
    assert!(!c.is_enabled());
}

#[test]
fn refused_connection_names_both_ports() {
    let e = ConnectionHandle::<CameraCapturePort, EncoderInputPort>::create(
        &camera(),
        &encoder(),
        |_, _, _| Err(11),
    )
    .err()
    .unwrap();
    assert_eq!(e.cause(), Cause::Status(11));
    assert_eq!(
        e.message(),
        "unable to create connection camera capture port->encoder input port"
    );
}

#[test]
fn connection_needs_both_ports() {
    let target = EncoderComponentHandle::create(|_| {
        let mut c = component(200, 1, 1);
        c.input[0] = None;
        Ok(c)
    })
    .unwrap();
    let asked = RefCell::new(false);
    let e = ConnectionHandle::<CameraCapturePort, EncoderInputPort>::create(
        &camera(),
        &target,
        |_, _, _| {
            *asked.borrow_mut() = true;
            Ok(1)
        },
    )
    .err()
    .unwrap();
    assert_eq!(e.cause(), Cause::GetPort);
    assert!(!*asked.borrow());
}

#[test]
fn connection_transitions() {
    let calls = RefCell::new(Vec::new());
    let native = |call: NativeCall| {
        calls.borrow_mut().push(call);
        0
    };
    let mut c = ConnectionHandle::<CameraVideoPort, VideoEncoderInputPort>::create(
        &camera(),
        &VideoEncoderComponentHandle::create(|_| Ok(component(300, 1, 1))).unwrap(),
        |_, _, _| Ok(77),
    )
    .unwrap();
    c.disable(&native).unwrap();
    c.enable(&native).unwrap();
    c.enable(&native).unwrap();
    assert!(c.is_enabled());
    let second = c.acquire(&native);
    assert_eq!(second.id(), 77);
    assert!(second.is_enabled());
    c.disable(&native).unwrap();
    assert!(!c.is_enabled());
    second.release(&native).unwrap();
    c.release(&native).unwrap();
    assert_eq!(
        *calls.borrow(),
        vec![
            NativeCall::EnableConnection(77),
            NativeCall::AcquireConnection(77),
            NativeCall::DisableConnection(77),
            NativeCall::DestroyConnection(77),
            NativeCall::DestroyConnection(77)
        ]
    );
}

#[test]
fn connection_failures_carry_their_messages() {
    let mut c = ConnectionHandle::<CameraVideoPort, VideoEncoderInputPort>::create(
        &camera(),
        &VideoEncoderComponentHandle::create(|_| Ok(component(300, 1, 1))).unwrap(),
        |_, _, _| Ok(77),
    )
    .unwrap();
    let e = c.enable(&|_: NativeCall| 3).unwrap_err();
    assert_eq!(e.cause(), Cause::Status(3));
    assert_eq!(
        e.message(),
        "unable to enable connection camera video port->video_encoder input port"
    );
    assert!(!c.is_enabled());
    c.enable(&|_: NativeCall| 0).unwrap();
    let e = c.disable(&|_: NativeCall| 4).unwrap_err();
    assert_eq!(
        e.message(),
        "unable to disable connection camera video port->video_encoder input port"
    );
    assert!(c.is_enabled());
    let e = c.release(&|_: NativeCall| 5).unwrap_err();
    assert_eq!(
        e.message(),
        "mmal_connection_destroy(camera video port->video_encoder input port)"
    );
}
