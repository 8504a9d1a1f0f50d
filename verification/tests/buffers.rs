use std::cell::RefCell;

use mmal_rs::buffer::{BufferRef, PortPoolHandle, QueueHandle};
use mmal_rs::encoder::{EncoderComponentHandle, EncoderOutputPort};
use mmal_rs::error::{Cause, MmalError};
use mmal_rs::mmalcore::{Component, FrameFlags, NativeCall, Port, PortFormat};

fn port(id: usize, buffer_num: u32, buffer_size: u32) -> Port {
    Port {
        id,
        buffer_num,
        buffer_num_recommended: 1,
        buffer_num_min: 1,
        buffer_size,
        buffer_size_recommended: 1024,
        buffer_size_min: 512,
        format: PortFormat {
            encoding: 0,
            encoding_variant: 0,
            bitrate: 0,
            es_video_width: 0,
            es_video_height: 0,
            es_video_crop_x: 0,
            es_video_crop_y: 0,
            es_video_crop_width: 0,
            es_video_crop_height: 0,
            es_video_frame_rate_num: 0,
            es_video_frame_rate_den: 0,
        },
        rgb_order_fixed: true,
    }
}

fn encoder(buffer_num: u32) -> EncoderComponentHandle {
    EncoderComponentHandle::create(|_| {
        Ok(Component {
            id: 200,
            is_enabled: false,
            control: Some(port(201, 0, 0)),
            input: vec![Some(port(210, 0, 0))],
            output: vec![Some(port(220, buffer_num, 4096))],
        })
    })
    .unwrap()
}

fn buffer(id: usize) -> BufferRef {
    BufferRef::new(id, 0, vec![0; 8], 0, 0).unwrap()
}

fn pool(n: u32) -> PortPoolHandle<EncoderOutputPort> {
    PortPoolHandle::create(encoder(n), |_, count, _| {
        Some((0..count as usize).map(|i| buffer(1000 + i)).collect())
    })
    .unwrap()
}

#[test]
fn buffer_needs_an_identity_and_a_window_within_its_data() {
    assert!(BufferRef::new(0, 0, vec![1, 2, 3], 0, 3).is_none());
    assert!(BufferRef::new(1, 0, vec![1, 2, 3], 0, 4).is_none());
    assert!(BufferRef::new(1, 0, vec![1, 2, 3], 4, 0).is_none());
    assert!(BufferRef::new(1, 0, vec![1, 2, 3], 2, 2).is_none());
    assert!(BufferRef::new(1, 0, vec![1, 2, 3], u32::MAX, u32::MAX).is_none());
    assert!(BufferRef::new(1, 0, vec![], 0, 0).is_some());
    assert!(BufferRef::new(1, 0, vec![1, 2, 3], 3, 0).is_some());
    let b = BufferRef::new(9, 12, vec![1, 2, 3, 4], 1, 2).unwrap();
    assert_eq!(b.id(), 9);
    assert_eq!(b.flags().flags(), 12);
    assert_eq!(b.len(), 2);
}

#[test]
fn frame_flags_tests() {
    let f = FrameFlags::new(FrameFlags::FLAG_FRAME_END | FrameFlags::FLAG_KEYFRAME);
    assert_eq!(f.flags(), 12);
    assert!(f.test_one(FrameFlags::FLAG_FRAME_END));
    assert!(f.test_one(FrameFlags::FLAG_FRAME));
    assert!(!f.test_one(FrameFlags::FLAG_EOS));
    assert!(!f.test_one(0));
    assert!(f.test_all(FrameFlags::FLAG_FRAME_END | FrameFlags::FLAG_KEYFRAME));
    assert!(!f.test_all(FrameFlags::FLAG_FRAME));
    assert!(f.test_all(0));
    assert!(f.is_terminal_frame());
    assert!(FrameFlags::new(FrameFlags::FLAG_TRANSMISSION_FAILED).is_terminal_frame());
    assert!(!FrameFlags::new(FrameFlags::FLAG_FRAME_START).is_terminal_frame());
    assert!(!FrameFlags::new(0).is_terminal_frame());
    assert!(FrameFlags::new(u32::MAX).is_terminal_frame());
    assert_eq!(
        FrameFlags::FLAG_TERMINAL_FRAME,
        FrameFlags::FLAG_FRAME_END | FrameFlags::FLAG_TRANSMISSION_FAILED
    );
    assert_eq!(FrameFlags::FLAG_FRAME, FrameFlags::FLAG_FRAME_START | FrameFlags::FLAG_FRAME_END);
    assert_eq!(FrameFlags::FLAG_USER3, 1 << 31);
}

#[test]
fn locked_read_shows_flags_and_payload_window() {
    let calls = RefCell::new(Vec::new());
    let native = |call: NativeCall| {
        calls.borrow_mut().push(call);
        0
    };
    let b = BufferRef::new(5, 0x404, vec![10, 11, 12, 13, 14], 1, 3).unwrap();
    let r = b
        .do_locked(
            |flags: FrameFlags, payload: &[u8]| {
                calls.borrow_mut().push(NativeCall::AcquireBuffer(0));
                Ok((true, (flags.flags(), payload.to_vec())))
            },
            &native,
        )
        .unwrap();
    assert_eq!(r, (true, (0x404, vec![11, 12, 13])));
    assert_eq!(
        *calls.borrow(),
        vec![
            NativeCall::LockBuffer(5),
            NativeCall::AcquireBuffer(0),
            NativeCall::UnlockBuffer(5)
        ]
    );
}

#[test]
fn refused_lock_does_not_call_the_consumer() {
    let b = buffer(5);
    let called = RefCell::new(false);
    let calls = RefCell::new(Vec::new());
    let e = b
        .do_locked(
            |_: FrameFlags, _: &[u8]| {
                *called.borrow_mut() = true;
                Ok((true, ()))
            },
            &|call: NativeCall| {
                calls.borrow_mut().push(call);
                8
            },
        )
        .unwrap_err();
    assert!(!*called.borrow());
    assert_eq!(e.cause(), Cause::Status(8));
    assert_eq!(e.message(), "could not lock buffer");
    assert_eq!(*calls.borrow(), vec![NativeCall::LockBuffer(5)]);
}

#[test]
fn lock_is_released_where_the_consumer_fails() {
    let calls = RefCell::new(Vec::new());
    let b = buffer(5);
    let e = b
        .do_locked(
            |_: FrameFlags, _: &[u8]| -> Result<(bool, ()), MmalError> {
                Err(MmalError::with_cause(Cause::GetPort))
            },
            &|call: NativeCall| {
                calls.borrow_mut().push(call);
                0
            },
        )
        .unwrap_err();
    assert_eq!(e.cause(), Cause::GetPort);
    assert_eq!(
        *calls.borrow(),
        vec![NativeCall::LockBuffer(5), NativeCall::UnlockBuffer(5)]
    );
}

#[test]
fn queue_hands_buffers_out_in_the_order_of_their_arrival() {
    let mut q = QueueHandle::create(|| true).unwrap();
    assert_eq!(q.len(), 0);
    assert!(q.get().is_none());
    assert!(q.wait().is_none());
    assert!(q.timedwait(10).is_none());
    q.put(buffer(1));
    q.put(buffer(2));
    q.put(buffer(3));
    assert_eq!(q.len(), 3);
    assert_eq!(q.get().unwrap().id(), 1);
    assert_eq!(q.wait().unwrap().id(), 2);
    q.put(buffer(4));
    assert_eq!(q.timedwait(0).unwrap().id(), 3);
    assert_eq!(q.get().unwrap().id(), 4);
    assert!(q.get().is_none());
    assert_eq!(q.len(), 0);
}

#[test]
fn unget_puts_a_buffer_at_the_head() {
    let mut q = QueueHandle::create(|| true).unwrap();
    q.put(buffer(1));
    q.put(buffer(2));
    let first = q.get().unwrap();
    q.put(buffer(3));
    q.unget(first);
    assert_eq!(q.len(), 3);
    assert_eq!(q.get().unwrap().id(), 1);
    assert_eq!(q.get().unwrap().id(), 2);
    assert_eq!(q.get().unwrap().id(), 3);
    q.unget(buffer(9));
    assert_eq!(q.get().unwrap().id(), 9);
}

#[test]
fn queue_that_cannot_be_reserved_is_a_queue_error() {
    let e = QueueHandle::create(|| false).unwrap_err();
    assert_eq!(e.cause(), Cause::CreateQueue);
    assert_eq!(e.message(), "");
}

#[test]
fn pool_is_sized_to_the_port() {
    let asked = RefCell::new(None);
    let p = PortPoolHandle::<EncoderOutputPort>::create(encoder(3), |port, count, size| {
        *asked.borrow_mut() = Some((port.id, count, size));
        Some((0..count as usize).map(|i| buffer(1000 + i)).collect())
    })
    .unwrap();
    assert_eq!(*asked.borrow(), Some((220, 3, 4096)));
    assert_eq!(p.available(), 3);
    assert_eq!(p.get_port().id, 220);
    assert_eq!(p.get_port().buffer_num, 3);
    assert_eq!(p.get_component().id(), 200);
}

#[test]
fn pool_that_cannot_be_made_is_a_pool_error() {
    let e = PortPoolHandle::<EncoderOutputPort>::create(encoder(3), |_, _, _| None)
        .err()
        .unwrap();
    assert_eq!(e.cause(), Cause::CreatePool);
}

#[test]
fn pool_without_a_port_is_a_port_error() {
    let c = EncoderComponentHandle::create(|_| {
        Ok(Component {
            id: 200,
            is_enabled: false,
            control: None,
            input: vec![None],
            output: vec![None],
        })
    })
    .unwrap();
    let asked = RefCell::new(false);
    let e = PortPoolHandle::<EncoderOutputPort>::create(c, |_, _, _| {
        *asked.borrow_mut() = true;
        None
    })
    .err()
    .unwrap();
    assert_eq!(e.cause(), Cause::GetPort);
    assert!(!*asked.borrow());
}

#[test]
fn feed_one_sends_the_first_buffer_of_the_supply() {
    let calls = RefCell::new(Vec::new());
    let native = |call: NativeCall| {
        calls.borrow_mut().push(call);
        0
    };
    let mut p = pool(2);
    p.feed_one(&native).unwrap();
    assert_eq!(p.available(), 1);
    p.feed_one(&native).unwrap();
    assert_eq!(p.available(), 0);
    assert_eq!(
        *calls.borrow(),
        vec![
            NativeCall::SendBuffer { port: 220, buffer: 1000 },
            NativeCall::SendBuffer { port: 220, buffer: 1001 }
        ]
    );
}

#[test]
fn feeding_as_many_buffers_as_the_pool_has_empties_it() {
    for n in [0u32, 1, 2, 3, 7] {
        let asked = RefCell::new(0);
        let native = |_: NativeCall| {
            *asked.borrow_mut() += 1;
            0
        };
        let mut p = pool(n);
        for _ in 0..n {
            p.feed_one(&native).unwrap();
        }
        let e = p.feed_one(&native).unwrap_err();
        assert_eq!(e.cause(), Cause::QueueEmpty);
        assert_eq!(e.message(), "");
        assert_eq!(*asked.borrow(), n);
        assert_eq!(p.available(), 0);
        assert!(p.get_buffer().is_none());
        let e = p.feed_one(&native).unwrap_err();
        assert_eq!(e.cause(), Cause::QueueEmpty);
    }
}

#[test]
fn refused_buffer_has_left_the_supply() {
    let mut p = pool(2);
    let e = p.feed_one(&|_: NativeCall| 3).unwrap_err();
    assert_eq!(e.cause(), Cause::Status(3));
    assert_eq!(e.message(), "encoder output port: could not send buffer");
    assert_eq!(p.available(), 1);
    assert_eq!(p.get_buffer().unwrap().id(), 1001);
}

#[test]
fn feed_all_drains_the_supply_and_stops_cleanly() {
    let calls = RefCell::new(Vec::new());
    let native = |call: NativeCall| {
        calls.borrow_mut().push(call);
        0
    };
    let mut p = pool(3);
    p.feed_all(&native).unwrap();
    assert_eq!(p.available(), 0);
    assert_eq!(
        *calls.borrow(),
        vec![
            NativeCall::SendBuffer { port: 220, buffer: 1000 },
            NativeCall::SendBuffer { port: 220, buffer: 1001 },
            NativeCall::SendBuffer { port: 220, buffer: 1002 }
        ]
    );
    p.feed_all(&native).unwrap();
    assert_eq!(calls.borrow().len(), 3);
    assert_eq!(p.feed_one(&native).unwrap_err().cause(), Cause::QueueEmpty);
}

#[test]
fn feed_all_stops_at_the_first_refusal() {
    let count = RefCell::new(0);
    let mut p = pool(4);
    let e = p
        .feed_all(&|_: NativeCall| {
            *count.borrow_mut() += 1;
            if *count.borrow() == 2 {
                5
            } else {
                0
            }
        })
        .unwrap_err();
    assert_eq!(e.cause(), Cause::Status(5));
    assert_eq!(e.message(), "encoder output port: could not send buffer");
    assert_eq!(*count.borrow(), 2);
    assert_eq!(p.available(), 2);
    assert_eq!(p.get_buffer().unwrap().id(), 1002);
    assert_eq!(p.get_buffer().unwrap().id(), 1003);
}

#[test]
fn released_buffer_joins_the_end_of_the_supply() {
    let calls = RefCell::new(Vec::new());
    let native = |call: NativeCall| {
        calls.borrow_mut().push(call);
        0
    };
    let mut p = pool(2);
    let first = p.get_buffer().unwrap();
    assert_eq!(first.id(), 1000);
    p.release(first, &native);
    assert_eq!(*calls.borrow(), vec![NativeCall::ReleaseBuffer(1000)]);
    assert_eq!(p.available(), 2);
    assert_eq!(p.get_buffer().unwrap().id(), 1001);
    assert_eq!(p.get_buffer().unwrap().id(), 1000);
}

#[test]
fn destroyed_pool_hands_the_stage_back() {
    let calls = RefCell::new(Vec::new());
    let c = pool(1).destroy(&|call: NativeCall| {
        calls.borrow_mut().push(call);
        0
    });
    assert_eq!(c.id(), 200);
    assert_eq!(*calls.borrow(), vec![NativeCall::DestroyPool { port: 220 }]);
}
