//! Buffers, the queue that carries them, and the pool that lends them to a
//! port.
//!
//! A buffer is always in one place: in the supply of its pool, with the
//! pipeline, in a queue, or in the hands of the application. The functions of
//! this module move buffers and never copy them.

use vstd::prelude::*;
use vstd::slice::slice_subrange;
use crate::error::{outcome, status_outcome, Cause, ErrorView, MmalError, MmalStatus};
use crate::mmalcore::{
    asked,
    call_result,
    lemma_empty_literal,
    name_message,
    ComponentHandle,
    ComponentPort,
    ComponentView,
    FrameFlags,
    NativeCall,
    Port,
};
use crate::native::MMAL_SUCCESS;

verus! {

/// Mathematical content of a [`BufferRef`]: the native identity of the
/// buffer, its flag bits, and the bytes of its payload window.
pub struct BufferView {
    pub id: usize,
    pub flags: u32,
    pub payload: Seq<u8>,
}

/// One buffer of the pipeline: its native identity, the flags that it had
/// when the pipeline completed it, and its data with the window of the data
/// that is the payload. The window lies within the data, and the identity is
/// not the null identity.
#[derive(Debug)]
pub struct BufferRef {
    id: usize,
    flags: u32,
    data: Vec<u8>,
    offset: usize,
    length: usize,
}

impl View for BufferRef {
    type V = BufferView;

    closed spec fn view(&self) -> BufferView {
        BufferView {
            id: self.id,
            flags: self.flags,
            payload: self.data@.subrange(self.offset as int, self.offset + self.length),
        }
    }
}

/// Message of a buffer that the native layer did not lock.
pub open spec fn lock_message() -> Seq<char> {
    "could not lock buffer"@
}

/// Whether `r` is a possible result of the consumer `f` on the flags and the
/// payload of the buffer `b`.
pub open spec fn consumer_ran<R, F: FnOnce(FrameFlags, &[u8]) -> Result<(bool, R), MmalError>>(
    f: F,
    b: BufferView,
    r: Result<(bool, R), MmalError>,
) -> bool {
    exists|flags: FrameFlags, payload: &[u8]|
        {
            &&& flags.bits() == b.flags
            &&& payload@ == b.payload
            &&& #[trigger] call_ensures(f, (flags, payload), r)
        }
}

/// Whether the consumer `f` may be called on the flags and the payload of the
/// buffer `b`.
pub open spec fn consumer_ready<R, F: FnOnce(FrameFlags, &[u8]) -> Result<(bool, R), MmalError>>(
    f: F,
    b: BufferView,
) -> bool {
    forall|flags: FrameFlags, payload: &[u8]|
        flags.bits() == b.flags && payload@ == b.payload ==> #[trigger] call_requires(
            f,
            (flags, payload),
        )
}

/// How a locked read of the buffer `b` ends: where the native layer refuses
/// the lock, with the error of the refusal and without a call of the
/// consumer; else with what the consumer returns, and with the lock
/// released.
pub open spec fn locked_read<
    R,
    F: FnOnce(FrameFlags, &[u8]) -> Result<(bool, R), MmalError>,
    N: Fn(NativeCall) -> MmalStatus,
>(native: N, f: F, b: BufferView, r: Result<(bool, R), MmalError>) -> bool {
    exists|lock: MmalStatus| #[trigger]
        call_ensures(native, (NativeCall::LockBuffer(b.id),), lock) && if lock == MMAL_SUCCESS {
            consumer_ran(f, b, r) && asked(native, NativeCall::UnlockBuffer(b.id))
        } else {
            r is Err && r->Err_0@ == (ErrorView {
                cause: Cause::Status(lock),
                message: lock_message(),
            })
        }
}

impl BufferRef {
    #[verifier::type_invariant]
    spec fn well_formed(&self) -> bool {
        self.id != 0 && self.offset + self.length <= self.data@.len()
    }

    /// A buffer with the native identity `id`, which holds `data` and whose
    /// payload is the `length` bytes from `offset` on. There is no buffer with
    /// the null identity, and none whose payload window leaves its data.
    pub fn new(id: usize, flags: u32, data: Vec<u8>, offset: u32, length: u32) -> (b: Option<
        Self,
    >)
        ensures
            b is Some <==> id != 0 && offset + length <= data@.len(),
            b matches Some(b) ==> b@ == (BufferView {
                id,
                flags,
                payload: data@.subrange(offset as int, offset + length),
            }),
    {
        if id == 0 {
            return None;
        }
        let size = data.len();
        if offset as usize > size {
            return None;
        }
        if length as usize > size - offset as usize {
            return None;
        }
        Some(Self { id, flags, data, offset: offset as usize, length: length as usize })
    }

    /// Native identity of the buffer.
    pub fn id(&self) -> (id: usize)
        ensures
            id == self@.id,
    {
        self.id
    }

    /// The flags of the buffer.
    pub fn flags(&self) -> (flags: FrameFlags)
        ensures
            flags.bits() == self@.flags,
    {
        FrameFlags::new(self.flags)
    }

    /// Number of the bytes of the payload.
    pub fn len(&self) -> (n: usize)
        ensures
            n == self@.payload.len(),
    {
        proof {
            use_type_invariant(self);
        }
        self.length
    }

    /// Reads the buffer under a lock: has the native layer lock the buffer,
    /// calls `f` with the flags and the payload, and has the lock released,
    /// whatever `f` returns. Where the lock is refused, `f` is not called.
    ///
    /// `f` returns whether it consumed the buffer, and a value of its own; if
    /// it did not, the buffer belongs back on the queue.
    pub fn do_locked<
        R,
        F: FnOnce(FrameFlags, &[u8]) -> Result<(bool, R), MmalError>,
        N: Fn(NativeCall) -> MmalStatus,
    >(&self, f: F, native: &N) -> (r: Result<(bool, R), MmalError>)
        requires
            call_requires(*native, (NativeCall::LockBuffer(self@.id),)),
            call_requires(*native, (NativeCall::UnlockBuffer(self@.id),)),
            consumer_ready(f, self@),
        ensures
            locked_read(*native, f, self@, r),
    {
        proof {
            use_type_invariant(self);
        }
        let flags = FrameFlags::new(self.flags);
        let lock = native(NativeCall::LockBuffer(self.id));
        if lock != MMAL_SUCCESS {
            let r = call_result(lock, "could not lock buffer", "", "");
            proof {
                lemma_empty_literal();
                assert("could not lock buffer"@ + ""@ + ""@ =~= lock_message());
            }
            return match r {
                Ok(_) => Err(MmalError::with_cause(Cause::Status(lock))),
                Err(e) => Err(e),
            };
        }
        let size = self.data.len();
        assert(self.offset + self.length <= size);
        let payload = slice_subrange(
            self.data.as_slice(),
            self.offset,
            self.offset + self.length,
        );
        let r = f(flags, payload);
        let _status: MmalStatus = native(NativeCall::UnlockBuffer(self.id));
        assert(consumer_ran(f, self@, r));
        assert(asked(*native, NativeCall::UnlockBuffer(self@.id)));
        r
    }
}

//------------------------------------------------------------------------------------------------------------------------------
/// Queue of buffers: what comes first leaves first, and is unchanged when it
/// leaves. The queue takes any number of buffers.
#[derive(Debug)]
pub struct QueueHandle {
    q: Vec<BufferRef>,
}

impl View for QueueHandle {
    type V = Seq<BufferRef>;

    closed spec fn view(&self) -> Seq<BufferRef> {
        self.q@
    }
}

impl QueueHandle {
    /// Creates an empty queue. `native` reserves what the native side needs
    /// for the queue and tells whether it could.
    pub fn create<F: FnOnce() -> bool>(native: F) -> (r: Result<Self, MmalError>)
        requires
            call_requires(native, ()),
        ensures
            exists|reserved: bool| #[trigger]
                call_ensures(native, (), reserved) && if reserved {
                    r is Ok && r->Ok_0@ == Seq::<BufferRef>::empty()
                } else {
                    r is Err && r->Err_0@ == (ErrorView {
                        cause: Cause::CreateQueue,
                        message: Seq::empty(),
                    })
                },
    {
        if native() {
            Ok(Self { q: Vec::new() })
        } else {
            Err(MmalError::with_cause(Cause::CreateQueue))
        }
    }

    /// Number of the buffers in the queue.
    pub fn len(&self) -> (n: usize)
        ensures
            n == self@.len(),
    {
        self.q.len()
    }

    /// Takes the first buffer off the queue, if there is one.
    pub fn get(&mut self) -> (b: Option<BufferRef>)
        ensures
            old(self)@.len() == 0 ==> b is None && final(self)@ == old(self)@,
            old(self)@.len() > 0 ==> b == Some(old(self)@[0]) && final(self)@ == old(
                self,
            )@.drop_first(),
    {
        if self.q.len() == 0 {
            None
        } else {
            let b = self.q.remove(0);
            assert(self.q@ =~= old(self).q@.drop_first());
            Some(b)
        }
    }

    /// Puts a buffer back at the head of the queue, so that it is the next to
    /// leave.
    pub fn unget(&mut self, br: BufferRef)
        ensures
            final(self)@ == seq![br] + old(self)@,
    {
        self.q.insert(0, br);
        assert(self.q@ =~= seq![br] + old(self).q@);
    }

    /// Appends a buffer to the queue.
    pub fn put(&mut self, b: BufferRef)
        ensures
            final(self)@ == old(self)@.push(b),
    {
        self.q.push(b);
    }

    /// Takes the first buffer off the queue. Nothing is returned where the
    /// queue is empty: the caller has to block until the next buffer is put,
    /// and ask again.
    pub fn wait(&mut self) -> (b: Option<BufferRef>)
        ensures
            old(self)@.len() == 0 ==> b is None && final(self)@ == old(self)@,
            old(self)@.len() > 0 ==> b == Some(old(self)@[0]) && final(self)@ == old(
                self,
            )@.drop_first(),
    {
        self.get()
    }

    /// Takes the first buffer off the queue. Nothing is returned where the
    /// queue is empty: the caller has to block until the next buffer is put
    /// or `timeout_ms` milliseconds have passed, and in the first case ask
    /// again.
    pub fn timedwait(&mut self, timeout_ms: u32) -> (b: Option<BufferRef>)
        ensures
            old(self)@.len() == 0 ==> b is None && final(self)@ == old(self)@,
            old(self)@.len() > 0 ==> b == Some(old(self)@[0]) && final(self)@ == old(
                self,
            )@.drop_first(),
    {
        self.get()
    }
}

//------------------------------------------------------------------------------------------------------------------------------
/// Mathematical content of a [`PortPoolHandle`]: the stage and the port that
/// the pool feeds, and the buffers in its supply, the next to leave first.
pub struct PoolView {
    pub component: ComponentView,
    pub port: Port,
    pub supply: Seq<BufferRef>,
}

impl PoolView {
    /// The pool with another supply.
    pub open spec fn with_supply(self, supply: Seq<BufferRef>) -> PoolView {
        PoolView { supply, ..self }
    }

    /// The pool after its first buffer was handed to the port.
    pub open spec fn fed(self) -> PoolView {
        self.with_supply(self.supply.drop_first())
    }

    /// The pool after the buffer `b` came back to it.
    pub open spec fn released(self, b: BufferRef) -> PoolView {
        self.with_supply(self.supply.push(b))
    }
}

/// Pool of the buffers of one port of the kind `P`. The pool holds the
/// buffers that wait to be handed to the port.
#[derive(Debug)]
pub struct PortPoolHandle<P: ComponentPort> {
    c: ComponentHandle<P::E>,
    port: Port,
    pool: Vec<BufferRef>,
}

impl<P: ComponentPort> View for PortPoolHandle<P> {
    type V = PoolView;

    closed spec fn view(&self) -> PoolView {
        PoolView { component: self.c@, port: self.port, supply: self.pool@ }
    }
}

/// Message of a buffer that the port did not take.
pub open spec fn send_message(port_name: Seq<char>) -> Seq<char> {
    port_name + ": could not send buffer"@
}

/// The call that hands a buffer to a port.
pub open spec fn send_call(port: Port, b: BufferRef) -> NativeCall {
    NativeCall::SendBuffer { port: port.id, buffer: b@.id }
}

/// How the creation of a pool for the port `port` ends, given the answer of
/// the native layer.
pub open spec fn pool_made<P: ComponentPort>(
    component: ComponentView,
    port: Port,
    answer: Option<Vec<BufferRef>>,
    r: Result<PortPoolHandle<P>, MmalError>,
) -> bool {
    match answer {
        Some(buffers) => r is Ok && r->Ok_0@ == (PoolView {
            component,
            port,
            supply: buffers@,
        }),
        None => r is Err && r->Err_0@ == (ErrorView {
            cause: Cause::CreatePool,
            message: Seq::empty(),
        }),
    }
}

/// How the feeding of one buffer ends. From an empty supply nothing is fed:
/// the pool stays as it is and the result is the queue-empty error. Else the
/// first buffer of the supply leaves it for the port, and the result tells
/// what the native layer answered.
pub open spec fn fed_one<N: Fn(NativeCall) -> MmalStatus>(
    native: N,
    before: PoolView,
    after: PoolView,
    port_name: Seq<char>,
    r: Result<(), MmalError>,
) -> bool {
    if before.supply.len() == 0 {
        after == before && r is Err && r->Err_0@ == (ErrorView {
            cause: Cause::QueueEmpty,
            message: Seq::empty(),
        })
    } else {
        after == before.fed() && exists|status: MmalStatus| #[trigger]
            call_ensures(native, (send_call(before.port, before.supply[0]),), status) && outcome(r)
                == status_outcome(status, send_message(port_name))
    }
}

/// Whether the port took each of the first `k` buffers of `supply`.
pub open spec fn all_sent<N: Fn(NativeCall) -> MmalStatus>(
    native: N,
    port: Port,
    supply: Seq<BufferRef>,
    k: int,
) -> bool {
    forall|i: int|
        0 <= i < k ==> call_ensures(native, (#[trigger] send_call(port, supply[i]),), MMAL_SUCCESS)
}

/// Whether the port may be handed each buffer of `supply`.
pub open spec fn all_sendable<N: Fn(NativeCall) -> MmalStatus>(
    native: N,
    port: Port,
    supply: Seq<BufferRef>,
) -> bool {
    forall|i: int|
        0 <= i < supply.len() ==> call_requires(native, (#[trigger] send_call(port, supply[i]),))
}

/// How the feeding of all buffers ends. Either the port took every buffer
/// and the supply is empty; or the port refused one, the buffers before it
/// were taken, the refused buffer has left the supply as well, the buffers
/// after it are still in the supply, and the error carries the status of the
/// refusal.
pub open spec fn fed_all<N: Fn(NativeCall) -> MmalStatus>(
    native: N,
    before: PoolView,
    after: PoolView,
    port_name: Seq<char>,
    r: Result<(), MmalError>,
) -> bool {
    match r {
        Ok(_) => after == before.with_supply(Seq::empty()) && all_sent(
            native,
            before.port,
            before.supply,
            before.supply.len() as int,
        ),
        Err(e) => exists|k: int, status: MmalStatus|
            {
                &&& 0 <= k
                &&& k < before.supply.len()
                &&& status != MMAL_SUCCESS
                &&& #[trigger] call_ensures(
                    native,
                    (send_call(before.port, before.supply[k]),),
                    status,
                )
                &&& all_sent(native, before.port, before.supply, k)
                &&& after == before.with_supply(before.supply.skip(k + 1))
                &&& e@ == (ErrorView {
                    cause: Cause::Status(status),
                    message: send_message(port_name),
                })
            },
    }
}

impl<P: ComponentPort> PortPoolHandle<P> {
    /// Creates the pool of the port of the kind `P` on the stage `c`, which
    /// must have the slot of the port. The pool is sized to the number and the
    /// size of buffers that the port is configured with.
    ///
    /// `native` takes the port, the number of buffers and their size, and
    /// answers with the buffers of the new pool, or with nothing where the
    /// native layer could not make the pool. Where the stage has no port in
    /// the slot, nothing is asked of the native layer.
    pub fn create<F: FnOnce(Port, u32, u32) -> Option<Vec<BufferRef>>>(
        c: ComponentHandle<P::E>,
        native: F,
    ) -> (r: Result<Self, MmalError>)
        requires
            c@.has_slot(P::spec_selector()),
            c@.port(P::spec_selector()) matches Some(port) ==> call_requires(
                native,
                (port, port.buffer_num, port.buffer_size),
            ),
        ensures
            c@.port(P::spec_selector()) is None ==> r is Err && r->Err_0@ == (ErrorView {
                cause: Cause::GetPort,
                message: Seq::empty(),
            }),
            c@.port(P::spec_selector()) matches Some(port) ==> exists|
                answer: Option<Vec<BufferRef>>,
            | #[trigger]
                call_ensures(native, (port, port.buffer_num, port.buffer_size), answer)
                    && pool_made(c@, port, answer, r),
    {
        let port = match P::get_port(&c) {
            Some(port) => port,
            None => {
                return Err(MmalError::with_cause(Cause::GetPort));
            },
        };
        match native(port, port.buffer_num, port.buffer_size) {
            Some(pool) => Ok(Self { c, port, pool }),
            None => Err(MmalError::with_cause(Cause::CreatePool)),
        }
    }

    pub fn get_component(&self) -> (c: &ComponentHandle<P::E>)
        ensures
            c@ == self@.component,
    {
        &self.c
    }

    pub fn get_port(&self) -> (port: Port)
        ensures
            port == self@.port,
    {
        self.port
    }

    /// Number of the buffers in the supply.
    pub fn available(&self) -> (n: usize)
        ensures
            n == self@.supply.len(),
    {
        self.pool.len()
    }

    /// Takes one buffer from the supply and hands it to the port.
    pub fn feed_one<N: Fn(NativeCall) -> MmalStatus>(&mut self, native: &N) -> (r: Result<
        (),
        MmalError,
    >)
        requires
            old(self)@.supply.len() > 0 ==> call_requires(
                *native,
                (send_call(old(self)@.port, old(self)@.supply[0]),),
            ),
        ensures
            fed_one(*native, old(self)@, final(self)@, P::spec_name(), r),
    {
        if self.pool.len() == 0 {
            return Err(MmalError::with_cause(Cause::QueueEmpty));
        }
        let b = self.pool.remove(0);
        assert(self.pool@ =~= old(self).pool@.drop_first());
        let status = native(NativeCall::SendBuffer { port: self.port.id, buffer: b.id() });
        let r = call_result(status, "", P::name(), ": could not send buffer");
        proof {
            lemma_empty_literal();
        }
        r
    }

    /// Hands the buffers of the supply to the port, one after the other, until
    /// the supply is empty, which ends the feeding without an error.
    pub fn feed_all<N: Fn(NativeCall) -> MmalStatus>(&mut self, native: &N) -> (r: Result<
        (),
        MmalError,
    >)
        requires
            all_sendable(*native, old(self)@.port, old(self)@.supply),
        ensures
            fed_all(*native, old(self)@, final(self)@, P::spec_name(), r),
    {
        let ghost before = self@;
        let ghost mut k: int = 0;
        assert(before.supply.skip(0) =~= before.supply);
        while self.pool.len() > 0
            invariant
                before == old(self)@,
                0 <= k <= before.supply.len(),
                self@ == before.with_supply(before.supply.skip(k)),
                all_sendable(*native, before.port, before.supply),
                all_sent(*native, before.port, before.supply, k),
            decreases self.pool.len(),
        {
            let ghost current = self.pool@;
            let b = self.pool.remove(0);
            proof {
                assert(b == before.supply[k]);
                assert(self.pool@ =~= before.supply.skip(k + 1));
                assert(call_requires(*native, (send_call(before.port, before.supply[k]),)));
            }
            let status = native(NativeCall::SendBuffer { port: self.port.id, buffer: b.id() });
            if status != MMAL_SUCCESS {
                let e = MmalError::with_status(
                    status,
                    name_message("", P::name(), ": could not send buffer"),
                );
                proof {
                    lemma_empty_literal();
                    assert(call_ensures(
                        *native,
                        (send_call(before.port, before.supply[k]),),
                        status,
                    ));
                    assert(e@.message == send_message(P::spec_name()));
                    assert(fed_all(*native, before, self@, P::spec_name(), Err(e)));
                }
                return Err(e);
            }
            proof {
                k = k + 1;
            }
        }
        proof {
            assert(self.pool@ =~= Seq::<BufferRef>::empty());
        }
        Ok(())
    }

    /// Takes one buffer from the supply, if there is one.
    pub fn get_buffer(&mut self) -> (b: Option<BufferRef>)
        ensures
            old(self)@.supply.len() == 0 ==> b is None && final(self)@ == old(self)@,
            old(self)@.supply.len() > 0 ==> b == Some(old(self)@.supply[0]) && final(self)@
                == old(self)@.fed(),
    {
        if self.pool.len() == 0 {
            None
        } else {
            let b = self.pool.remove(0);
            assert(self.pool@ =~= old(self).pool@.drop_first());
            Some(b)
        }
    }

    /// Takes a buffer back that the application is done with: the native
    /// layer is told that the buffer is released, and the buffer joins the end
    /// of the supply.
    pub fn release<N: Fn(NativeCall) -> MmalStatus>(&mut self, b: BufferRef, native: &N)
        requires
            call_requires(*native, (NativeCall::ReleaseBuffer(b@.id),)),
        ensures
            final(self)@ == old(self)@.released(b),
            asked(*native, NativeCall::ReleaseBuffer(b@.id)),
    {
        let _status: MmalStatus = native(NativeCall::ReleaseBuffer(b.id()));
        self.pool.push(b);
    }

    /// Tears the pool down: the native layer is told to destroy the pool of
    /// the port, and the handle of the stage is handed back. The stage is
    /// still alive then, as the pool kept a handle of it.
    pub fn destroy<N: Fn(NativeCall) -> MmalStatus>(self, native: &N) -> (c: ComponentHandle<
        P::E,
    >)
        requires
            call_requires(*native, (NativeCall::DestroyPool { port: self@.port.id },)),
        ensures
            c@ == self@.component,
            asked(*native, NativeCall::DestroyPool { port: self@.port.id }),
    {
        let _status: MmalStatus = native(NativeCall::DestroyPool { port: self.port.id });
        self.c
    }
}

/// A pool of `n` buffers that is fed `n` times, whatever the native layer
/// answers each time, has given every buffer away: none of these feedings
/// met an empty supply, and the feeding after them ends in the queue-empty
/// error and leaves the pool as it is.
///
/// `states` are the pool before each of the `n` feedings and after the last
/// of them, `results` what the feedings returned; `after` and `r` are the
/// pool and the result of the feeding that follows.
pub proof fn lemma_pool_fed_to_exhaustion<N: Fn(NativeCall) -> MmalStatus>(
    native: N,
    states: Seq<PoolView>,
    results: Seq<Result<(), MmalError>>,
    port_name: Seq<char>,
    after: PoolView,
    r: Result<(), MmalError>,
)
    requires
        states.len() == results.len() + 1,
        states[0].supply.len() == results.len(),
        forall|i: int|
            0 <= i < results.len() ==> fed_one(
                native,
                #[trigger] states[i],
                states[i + 1],
                port_name,
                results[i],
            ),
        fed_one(native, states.last(), after, port_name, r),
    ensures
        forall|i: int|
            0 <= i < results.len() ==> !(#[trigger] results[i] matches Err(e) && e@.cause
                == Cause::QueueEmpty),
        states.last().supply.len() == 0,
        r is Err,
        r->Err_0@ == (ErrorView { cause: Cause::QueueEmpty, message: Seq::empty() }),
        after == states.last(),
{
    let n = results.len() as int;
    assert forall|i: int| 0 <= i <= n implies (#[trigger] states[i]).supply.len() == n - i by {
        lemma_fed_states(native, states, results, port_name, i);
    }
    assert(states.last() == states[n]);
    assert forall|i: int| 0 <= i < n implies !(#[trigger] results[i] matches Err(e) && e@.cause
        == Cause::QueueEmpty) by {
        assert(states[i].supply.len() == n - i);
        assert(fed_one(native, states[i], states[i + 1], port_name, results[i]));
    }
}

/// After `i` feedings of a chain, the pool has `i` buffers less.
proof fn lemma_fed_states<N: Fn(NativeCall) -> MmalStatus>(
    native: N,
    states: Seq<PoolView>,
    results: Seq<Result<(), MmalError>>,
    port_name: Seq<char>,
    i: int,
)
    requires
        states.len() == results.len() + 1,
        states[0].supply.len() == results.len(),
        forall|j: int|
            0 <= j < results.len() ==> fed_one(
                native,
                #[trigger] states[j],
                states[j + 1],
                port_name,
                results[j],
            ),
        0 <= i <= results.len(),
    ensures
        states[i].supply.len() == results.len() - i,
    decreases i,
{
    if i > 0 {
        lemma_fed_states(native, states, results, port_name, i - 1);
        assert(fed_one(native, states[i - 1], states[i], port_name, results[i - 1]));
    }
}

/// On an empty supply a feeding ends in the queue-empty error and in nothing
/// else, whatever the native layer would answer.
pub proof fn lemma_empty_pool_reports_queue_empty<N: Fn(NativeCall) -> MmalStatus>(
    native: N,
    before: PoolView,
    after: PoolView,
    port_name: Seq<char>,
    r: Result<(), MmalError>,
)
    requires
        before.supply.len() == 0,
        fed_one(native, before, after, port_name, r),
    ensures
        r is Err,
        r->Err_0@.cause == Cause::QueueEmpty,
        after == before,
{
}

} // verus!
