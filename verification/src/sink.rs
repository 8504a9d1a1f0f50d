//! The bridge between the completion callback of an output port and the task
//! that consumes the completed buffers.
//!
//! The native layer calls back on a thread of its own whenever the port has
//! completed a buffer. The bridge puts the buffer on its queue and wakes the
//! task that waits for it. The bridge itself is sequential: whoever shares it
//! between the callback and the consumer guards it as a whole.

use vstd::prelude::*;
use std::task::Waker;
use crate::buffer::{
    consumer_ran,
    consumer_ready,
    fed_all,
    fed_one,
    all_sendable,
    lock_message,
    send_call,
    BufferRef,
    PoolView,
    PortPoolHandle,
    QueueHandle,
};
use crate::error::{outcome, status_outcome, Cause, ErrorView, MmalError, MmalStatus};
use crate::mmalcore::{
    asked,
    call_result,
    disable_message,
    enable_message,
    lemma_empty_literal,
    ComponentHandle,
    ComponentPort,
    FrameFlags,
    NativeCall,
    Port,
};
use crate::native::MMAL_SUCCESS;

verus! {

/// The wake handle of a task, which is carried and never looked into.
#[verifier::external_type_specification]
#[verifier::external_body]
pub struct ExWaker(Waker);

/// Mathematical content of a [`SinkAggregate`]: the completed buffers that
/// wait for the application, the next to leave first; the pool; the wake
/// handle of the task that waits, if one does; and whether the bridge is
/// installed with the port, so that completions reach it.
pub struct SinkView {
    pub queue: Seq<BufferRef>,
    pub pool: PoolView,
    pub waiter: Option<Waker>,
    pub installed: bool,
}

impl SinkView {
    /// The bridge after the port has completed the buffer `b`. An installed
    /// bridge queues the buffer behind the others and has woken its waiter,
    /// which it has no more; a bridge that is not installed ignores the
    /// completion.
    pub open spec fn completed(self, b: BufferRef) -> SinkView {
        if self.installed {
            SinkView { queue: self.queue.push(b), waiter: None, ..self }
        } else {
            self
        }
    }

    /// The bridge after its first queued buffer was taken, if it had one.
    pub open spec fn taken(self) -> SinkView {
        SinkView { queue: rest(self.queue), ..self }
    }

    /// The bridge after the buffer `b` was put back at the head of its queue.
    pub open spec fn requeued(self, b: BufferRef) -> SinkView {
        SinkView { queue: seq![b] + self.queue, ..self }
    }

    /// The bridge after the buffer `b` went back to the supply of its pool.
    pub open spec fn recycled(self, b: BufferRef) -> SinkView {
        SinkView { pool: self.pool.released(b), ..self }
    }

    /// The bridge with another pool.
    pub open spec fn with_pool(self, pool: PoolView) -> SinkView {
        SinkView { pool, ..self }
    }

    /// The bridge after a task has registered `waker`, which replaces the
    /// handle of any task that waited before.
    pub open spec fn registered(self, waker: Waker) -> SinkView {
        SinkView { waiter: Some(waker), ..self }
    }

    /// The wake handle that the next completion owes a wake-up: the handle of
    /// the task that waits on an installed bridge.
    pub open spec fn owed(self) -> Option<Waker> {
        if self.installed {
            self.waiter
        } else {
            None
        }
    }

    /// The bridge after one step of a task that awaits it with `waker`: with
    /// a buffer queued, the first buffer is taken and the handle is not
    /// registered; with none queued, the handle is registered.
    pub open spec fn polled(self, waker: Waker) -> SinkView {
        if self.queue.len() > 0 {
            self.taken()
        } else {
            self.registered(waker)
        }
    }
}

/// Whether the wake handle `owed`, if there is one, was woken by `wake`.
pub open spec fn woken<W: FnOnce(Waker)>(wake: W, owed: Option<Waker>) -> bool {
    owed matches Some(w) ==> call_ensures(wake, (w,), ())
}

/// The first buffer of a queue, if the queue has one.
pub open spec fn head(queue: Seq<BufferRef>) -> Option<BufferRef> {
    if queue.len() == 0 {
        None
    } else {
        Some(queue[0])
    }
}

/// A queue without its first buffer; the empty queue stays empty.
pub open spec fn rest(queue: Seq<BufferRef>) -> Seq<BufferRef> {
    if queue.len() == 0 {
        queue
    } else {
        queue.drop_first()
    }
}

/// How a consumption ends once the consumer has answered.
///
/// An error of the consumer is the result, and the buffer is released and
/// goes back to the supply of the pool. A buffer that was not consumed goes back to the head
/// of the queue, unchanged. A buffer that was consumed goes back to the
/// supply of the pool, and one buffer of the supply is fed to the port at
/// once; the result is then the error of that feeding, if it failed.
pub open spec fn settled<R, N: Fn(NativeCall) -> MmalStatus>(
    native: N,
    before: SinkView,
    b: BufferRef,
    after: SinkView,
    port_name: Seq<char>,
    answer: Result<(bool, R), MmalError>,
    r: Result<(bool, R), MmalError>,
) -> bool {
    match answer {
        Err(e) => {
            &&& r == answer
            &&& after == before.recycled(b)
            &&& asked(native, NativeCall::ReleaseBuffer(b@.id))
        },
        Ok((false, _)) => r == answer && after == before.requeued(b),
        Ok((true, _)) => exists|fed: Result<(), MmalError>|
            {
                &&& asked(native, NativeCall::ReleaseBuffer(b@.id))
                &&& #[trigger] fed_one(
                    native,
                    before.recycled(b).pool,
                    after.pool,
                    port_name,
                    fed,
                )
                &&& after == before.with_pool(after.pool)
                &&& match fed {
                    Ok(_) => r == answer,
                    Err(e) => r == Err::<(bool, R), MmalError>(e),
                }
            },
    }
}

/// How the consumption of the buffer `b` by the consumer `f` ends.
///
/// Where the native layer refuses the lock, the consumer is not called, the
/// result is the error of the refusal, and the buffer goes back to the supply
/// of the pool. Else the consumer sees the flags and the payload of the
/// buffer as they were when the buffer was completed, and the consumption is
/// settled by its answer.
pub open spec fn consumed<
    R,
    F: FnOnce(FrameFlags, &[u8]) -> Result<(bool, R), MmalError>,
    N: Fn(NativeCall) -> MmalStatus,
>(
    native: N,
    f: F,
    before: SinkView,
    b: BufferRef,
    after: SinkView,
    port_name: Seq<char>,
    r: Result<(bool, R), MmalError>,
) -> bool {
    exists|lock: MmalStatus| #[trigger]
        call_ensures(native, (NativeCall::LockBuffer(b@.id),), lock) && if lock == MMAL_SUCCESS {
            exists|answer: Result<(bool, R), MmalError>| #[trigger]
                consumer_ran(f, b@, answer) && asked(native, NativeCall::UnlockBuffer(b@.id))
                    && settled(
                    native,
                    before,
                    b,
                    after,
                    port_name,
                    answer,
                    r,
                )
        } else {
            &&& r is Err
            &&& r->Err_0@ == (ErrorView { cause: Cause::Status(lock), message: lock_message() })
            &&& after == before.recycled(b)
            &&& asked(native, NativeCall::ReleaseBuffer(b@.id))
        }
}

/// The bridge of one output port of the kind `P`: it owns the pool of the
/// port and the queue of the buffers that the port has completed.
pub struct SinkAggregate<P: ComponentPort> {
    q: QueueHandle,
    p: PortPoolHandle<P>,
    w: Option<Waker>,
    installed: bool,
}

impl<P: ComponentPort> View for SinkAggregate<P> {
    type V = SinkView;

    closed spec fn view(&self) -> SinkView {
        SinkView { queue: self.q@, pool: self.p@, waiter: self.w, installed: self.installed }
    }
}

impl<P: ComponentPort> SinkAggregate<P> {
    /// Creates the bridge of the port of the kind `P` on the stage `c`, which
    /// must have the slot of the port: first the queue, then the pool. The
    /// bridge is not installed, and nobody waits on it.
    ///
    /// `native_queue` and `native_pool` are what [`QueueHandle::create`] and
    /// [`PortPoolHandle::create`] take. Where the queue cannot be created,
    /// the pool is not asked for.
    pub fn create<Q: FnOnce() -> bool, F: FnOnce(Port, u32, u32) -> Option<Vec<BufferRef>>>(
        c: ComponentHandle<P::E>,
        native_queue: Q,
        native_pool: F,
    ) -> (r: Result<Self, MmalError>)
        requires
            c@.has_slot(P::spec_selector()),
            call_requires(native_queue, ()),
            c@.port(P::spec_selector()) matches Some(port) ==> call_requires(
                native_pool,
                (port, port.buffer_num, port.buffer_size),
            ),
        ensures
            exists|reserved: bool| #[trigger]
                call_ensures(native_queue, (), reserved) && if !reserved {
                    r is Err && r->Err_0@ == (ErrorView {
                        cause: Cause::CreateQueue,
                        message: Seq::empty(),
                    })
                } else {
                    match c@.port(P::spec_selector()) {
                        None => r is Err && r->Err_0@ == (ErrorView {
                            cause: Cause::GetPort,
                            message: Seq::empty(),
                        }),
                        Some(port) => exists|answer: Option<Vec<BufferRef>>| #[trigger]
                            call_ensures(
                                native_pool,
                                (port, port.buffer_num, port.buffer_size),
                                answer,
                            ) && match answer {
                                None => r is Err && r->Err_0@ == (ErrorView {
                                    cause: Cause::CreatePool,
                                    message: Seq::empty(),
                                }),
                                Some(buffers) => r is Ok && r->Ok_0@ == (SinkView {
                                    queue: Seq::empty(),
                                    pool: PoolView { component: c@, port, supply: buffers@ },
                                    waiter: None,
                                    installed: false,
                                }),
                            },
                    }
                },
    {
        let q = match QueueHandle::create(native_queue) {
            Ok(q) => q,
            Err(e) => {
                return Err(e);
            },
        };
        let p = match PortPoolHandle::create(c, native_pool) {
            Ok(p) => p,
            Err(e) => {
                return Err(e);
            },
        };
        Ok(Self { q, p, w: None, installed: false })
    }

    /// Whether the bridge is installed with the port.
    pub fn is_installed(&self) -> (b: bool)
        ensures
            b == self@.installed,
    {
        self.installed
    }

    /// Number of the completed buffers that wait for the application.
    pub fn queued(&self) -> (n: usize)
        ensures
            n == self@.queue.len(),
    {
        self.q.len()
    }

    /// Number of the buffers in the supply of the pool.
    pub fn available(&self) -> (n: usize)
        ensures
            n == self@.pool.supply.len(),
    {
        self.p.available()
    }

    /// Whether a task is registered to be woken.
    pub fn has_waiter(&self) -> (b: bool)
        ensures
            b == self@.waiter is Some,
    {
        self.w.is_some()
    }

    /// Installs the bridge with the port and has the native layer enable the
    /// port with the completion callback. The bridge stays installed where the
    /// native layer refuses to enable the port.
    pub fn enable<N: Fn(NativeCall) -> MmalStatus>(&mut self, native: &N) -> (r: Result<
        (),
        MmalError,
    >)
        requires
            call_requires(*native, (NativeCall::EnablePort(old(self)@.pool.port.id),)),
        ensures
            final(self)@ == (SinkView { installed: true, ..old(self)@ }),
            exists|status: MmalStatus| #[trigger]
                call_ensures(*native, (NativeCall::EnablePort(old(self)@.pool.port.id),), status)
                    && outcome(r) == status_outcome(status, enable_message(P::spec_name())),
    {
        self.installed = true;
        let status = native(NativeCall::EnablePort(self.p.get_port().id));
        proof {
            lemma_empty_literal();
        }
        call_result(status, "", P::name(), ": unable to enable")
    }

    /// Has the native layer disable the port, and takes the bridge off the
    /// port once that is done. Where the native layer refuses, the bridge
    /// stays installed.
    pub fn disable<N: Fn(NativeCall) -> MmalStatus>(&mut self, native: &N) -> (r: Result<
        (),
        MmalError,
    >)
        requires
            call_requires(*native, (NativeCall::DisablePort(old(self)@.pool.port.id),)),
        ensures
            exists|status: MmalStatus| #[trigger]
                call_ensures(*native, (NativeCall::DisablePort(old(self)@.pool.port.id),), status)
                    && outcome(r) == status_outcome(status, disable_message(P::spec_name()))
                    && final(self)@ == (SinkView {
                    installed: old(self)@.installed && status != MMAL_SUCCESS,
                    ..old(self)@
                }),
    {
        let status = native(NativeCall::DisablePort(self.p.get_port().id));
        proof {
            lemma_empty_literal();
        }
        let r = call_result(status, "", P::name(), ": unable to disable");
        if status == MMAL_SUCCESS {
            self.installed = false;
        }
        r
    }

    /// The completion callback: the port has completed `buffer`. An installed
    /// bridge puts the buffer on its queue and then wakes the task that
    /// waits, once, and forgets it. A bridge that is not installed ignores the
    /// completion, and wakes nobody.
    ///
    /// `wake` wakes the task of a handle; it is called with the handle of the
    /// waiter, and only if there is one.
    pub fn cb<W: FnOnce(Waker)>(&mut self, buffer: BufferRef, wake: W)
        requires
            old(self)@.owed() matches Some(w) ==> call_requires(wake, (w,)),
        ensures
            final(self)@ == old(self)@.completed(buffer),
            woken(wake, old(self)@.owed()),
    {
        if !self.installed {
            return ;
        }
        self.q.put(buffer);
        match self.w.take() {
            Some(waker) => {
                wake(waker);
            },
            None => {},
        }
    }

    /// Takes one buffer from the supply of the pool and hands it to the port.
    pub fn feed_one<N: Fn(NativeCall) -> MmalStatus>(&mut self, native: &N) -> (r: Result<
        (),
        MmalError,
    >)
        requires
            old(self)@.pool.supply.len() > 0 ==> call_requires(
                *native,
                (send_call(old(self)@.pool.port, old(self)@.pool.supply[0]),),
            ),
        ensures
            fed_one(*native, old(self)@.pool, final(self)@.pool, P::spec_name(), r),
            final(self)@ == old(self)@.with_pool(final(self)@.pool),
    {
        self.p.feed_one(native)
    }

    /// Hands every buffer of the supply of the pool to the port.
    pub fn feed_all<N: Fn(NativeCall) -> MmalStatus>(&mut self, native: &N) -> (r: Result<
        (),
        MmalError,
    >)
        requires
            all_sendable(*native, old(self)@.pool.port, old(self)@.pool.supply),
        ensures
            fed_all(*native, old(self)@.pool, final(self)@.pool, P::spec_name(), r),
            final(self)@ == old(self)@.with_pool(final(self)@.pool),
    {
        self.p.feed_all(native)
    }

    /// Consumes a buffer that the bridge has handed out before. This is the
    /// only way to the data of a buffer.
    ///
    /// The buffer is locked, `f` is called with its flags and its payload, and
    /// the lock is released, also where `f` fails. `f` returns whether it has
    /// consumed the buffer. A consumed buffer goes back to the pool, and one
    /// buffer is fed to the port in its place. A buffer that was not consumed
    /// goes back to the head of the queue, for another try.
    pub fn consume<
        R,
        F: FnOnce(FrameFlags, &[u8]) -> Result<(bool, R), MmalError>,
        N: Fn(NativeCall) -> MmalStatus,
    >(&mut self, b: BufferRef, f: F, native: &N) -> (r: Result<(bool, R), MmalError>)
        requires
            forall|call: NativeCall| call_requires(*native, (call,)),
            consumer_ready(f, b@),
        ensures
            consumed(*native, f, old(self)@, b, final(self)@, P::spec_name(), r),
    {
        let ghost before = self@;
        let answer = b.do_locked(f, native);
        let ghost lock = choose|lock: MmalStatus| #[trigger]
            call_ensures(*native, (NativeCall::LockBuffer(b@.id),), lock) && if lock
                == MMAL_SUCCESS {
                consumer_ran(f, b@, answer) && asked(*native, NativeCall::UnlockBuffer(b@.id))
            } else {
                answer is Err && answer->Err_0@ == (ErrorView {
                    cause: Cause::Status(lock),
                    message: lock_message(),
                })
            };
        match answer {
            Err(e) => {
                self.p.release(b, native);
                let r = Err(e);
                proof {
                    if lock == MMAL_SUCCESS {
                        assert(settled(*native, before, b, self@, P::spec_name(), answer, r));
                    }
                }
                r
            },
            Ok((false, user_data)) => {
                self.q.unget(b);
                let r = Ok((false, user_data));
                assert(settled(*native, before, b, self@, P::spec_name(), answer, r));
                r
            },
            Ok((true, user_data)) => {
                self.p.release(b, native);
                let fed = self.p.feed_one(native);
                let r = match fed {
                    Ok(_) => Ok((true, user_data)),
                    Err(e) => Err(e),
                };
                proof {
                    assert(fed_one(
                        *native,
                        before.recycled(b).pool,
                        self@.pool,
                        P::spec_name(),
                        fed,
                    ));
                    assert(settled(*native, before, b, self@, P::spec_name(), answer, r));
                }
                r
            },
        }
    }

    /// Tears the bridge down, which has to be off the port: the native layer
    /// is told to destroy the pool, and the handle of the stage is handed
    /// back. The buffers that were still queued go with the pool.
    pub fn destroy<N: Fn(NativeCall) -> MmalStatus>(self, native: &N) -> (c: ComponentHandle<
        P::E,
    >)
        requires
            !self@.installed,
            call_requires(*native, (NativeCall::DestroyPool { port: self@.pool.port.id },)),
        ensures
            c@ == self@.pool.component,
            asked(*native, NativeCall::DestroyPool { port: self@.pool.port.id }),
    {
        self.p.destroy(native)
    }

    /// Takes the first completed buffer. Nothing is returned where none is
    /// queued: the caller has to block until the next completion, and ask
    /// again.
    pub fn wait(&mut self) -> (b: Option<BufferRef>)
        ensures
            b == head(old(self)@.queue),
            final(self)@ == old(self)@.taken(),
    {
        self.q.wait()
    }

    /// Takes the first completed buffer. Nothing is returned where none is
    /// queued: the caller has to block until the next completion or until
    /// `timeout_ms` milliseconds have passed, and in the first case ask again.
    pub fn timedwait(&mut self, timeout_ms: u32) -> (b: Option<BufferRef>)
        ensures
            b == head(old(self)@.queue),
            final(self)@ == old(self)@.taken(),
    {
        self.q.timedwait(timeout_ms)
    }

    /// Takes the first completed buffer, if one is queued.
    pub fn get(&mut self) -> (b: Option<BufferRef>)
        ensures
            b == head(old(self)@.queue),
            final(self)@ == old(self)@.taken(),
    {
        self.q.get()
    }

    /// One step of a task that awaits the bridge. Where a buffer is queued,
    /// the step resolves at once: the first buffer is taken, and the wake
    /// handle is not registered, so that no later completion wakes a task
    /// that has its buffer. Where none is queued, the handle is registered, in
    /// the place of any handle registered before, as the bridge has one
    /// waiter at most; the task has to suspend, and the next completion
    /// wakes it.
    pub fn poll(&mut self, waker: Waker) -> (b: Option<BufferRef>)
        ensures
            b == head(old(self)@.queue),
            final(self)@ == old(self)@.polled(waker),
    {
        if self.q.len() > 0 {
            self.q.get()
        } else {
            self.w = Some(waker);
            None
        }
    }
}

/// The queue of a bridge after `n` buffers were taken from it.
pub open spec fn rest_times(queue: Seq<BufferRef>, n: nat) -> Seq<BufferRef>
    decreases n,
{
    if n == 0 {
        queue
    } else {
        rest_times(rest(queue), (n - 1) as nat)
    }
}

/// Taking `n` buffers from a queue that has as many leaves the buffers
/// behind them.
pub proof fn lemma_rest_times(queue: Seq<BufferRef>, n: nat)
    requires
        n <= queue.len(),
    ensures
        rest_times(queue, n) == queue.skip(n as int),
    decreases n,
{
    if n == 0 {
        assert(queue.skip(0) =~= queue);
    } else {
        lemma_rest_times(rest(queue), (n - 1) as nat);
        assert(queue.drop_first().skip(n - 1) =~= queue.skip(n as int));
    }
}

/// A completed buffer passes the bridge unchanged. The completion of `b` on
/// an installed bridge queues `b` itself behind the buffers that were
/// queued before; once those are taken, the next buffer that the bridge
/// hands out is `b`, with the identity, the flags and the payload that it
/// had when it was completed. These are the flags that `consume` shows to
/// the consumer.
pub proof fn lemma_completed_buffer_unchanged(before: SinkView, b: BufferRef)
    requires
        before.installed,
    ensures
        before.completed(b).queue == before.queue.push(b),
        before.completed(b).pool == before.pool,
        head(rest_times(before.completed(b).queue, before.queue.len())) == Some(b),
        forall|i: int|
            0 <= i < before.queue.len() ==> before.completed(b).queue[i] == before.queue[i],
{
    lemma_rest_times(before.completed(b).queue, before.queue.len());
}

/// A buffer that was not consumed is the next that the bridge hands out,
/// unchanged, also when the port completes the buffer `c` in between; and
/// behind it the queue is as it was.
pub proof fn lemma_requeued_buffer_comes_first(before: SinkView, b: BufferRef, c: BufferRef)
    ensures
        head(before.requeued(b).queue) == Some(b),
        rest(before.requeued(b).queue) == before.queue,
        head(before.requeued(b).completed(c).queue) == Some(b),
        rest(before.requeued(b).completed(c).queue) == before.completed(c).queue,
{
    assert((seq![b] + before.queue).drop_first() =~= before.queue);
    assert((seq![b] + before.queue).push(c).drop_first() =~= before.queue.push(c));
}

/// One completion wakes one waiter at most, and leaves none registered: a
/// second completion finds nobody to wake until a task registers again.
pub proof fn lemma_completion_clears_waiter(before: SinkView, b: BufferRef, c: BufferRef)
    requires
        before.installed,
    ensures
        before.completed(b).owed() is None,
        before.completed(b).completed(c).owed() is None,
        before.completed(b).completed(c).queue == before.queue.push(b).push(c),
{
}

/// With one waiter no wake-up is lost. A task that finds nothing queued on an
/// installed bridge is the one that the next completion owes a wake-up; the
/// completed buffer is then the first in the queue, and the step after the
/// wake-up takes it and registers nobody.
pub proof fn lemma_waiter_is_woken_and_served(before: SinkView, waker: Waker, b: BufferRef, again: Waker)
    requires
        before.installed,
        before.queue.len() == 0,
    ensures
        before.polled(waker).owed() == Some(waker),
        before.polled(waker).queue.len() == 0,
        head(before.polled(waker).completed(b).queue) == Some(b),
        before.polled(waker).completed(b).owed() is None,
        before.polled(waker).completed(b).polled(again).queue.len() == 0,
        before.polled(waker).completed(b).polled(again).owed() is None,
{
    let queued = before.polled(waker).completed(b);
    assert(queued.queue =~= seq![b]);
    assert(queued.queue.drop_first() =~= Seq::<BufferRef>::empty());
}

/// A task that finds a buffer queued does not displace the waiter: the
/// handle that is owed a wake-up is the same before and after its step.
pub proof fn lemma_resolved_poll_registers_nobody(before: SinkView, waker: Waker)
    requires
        before.queue.len() > 0,
    ensures
        before.polled(waker).waiter == before.waiter,
        before.polled(waker).owed() == before.owed(),
        before.polled(waker).queue == before.queue.drop_first(),
{
}

} // verus!
