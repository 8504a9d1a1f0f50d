//! Stages, ports and connections of the pipeline.
//!
//! The native layer owns the real resources. The types of this module mirror
//! what the library reads of them as plain values, and decide what is asked of
//! the native layer and what its answer means. A function that needs the native
//! layer takes the native operation as a closure, hands it a [`NativeCall`] or
//! the plain values of the call, and is verified for every answer.

use vstd::prelude::*;
use vstd::string::*;
use std::marker::PhantomData;
use crate::error::{outcome, status_outcome, Cause, ErrorView, MmalError, MmalStatus};
use crate::native::{
    MMAL_COMPONENT_NULL_SINK,
    MMAL_CONNECTION_FLAG_ALLOCATION_ON_INPUT,
    MMAL_CONNECTION_FLAG_TUNNELLING,
    MMAL_SUCCESS,
};

verus! {

/// Offset of the first, or only, port of a kind.
pub const DEFAULT_PORT_OFFSET: usize = 0;

/// Flags with which every connection is created: tunnelling, with the buffers
/// allocated on the input side.
pub const CONNECTION_FLAGS: u32 = 3;

/// The connection flags are the two that their description names.
pub proof fn lemma_connection_flags()
    ensures
        CONNECTION_FLAGS == MMAL_CONNECTION_FLAG_TUNNELLING
            | MMAL_CONNECTION_FLAG_ALLOCATION_ON_INPUT,
{
    assert(3u32 == 1u32 | 2u32) by (bit_vector);
}

/// Where a port sits on its stage.
#[derive(Debug, Clone, Copy, PartialEq, Eq, Structural)]
pub enum PortSelector {
    Control,
    Input(usize),
    Output(usize),
}

/// A call into the native layer that answers with a status only. The numbers
/// are the native identities of the resources that the call is about.
#[derive(Debug, Clone, Copy, PartialEq, Eq, Structural)]
pub enum NativeCall {
    EnableComponent(usize),
    DisableComponent(usize),
    AcquireComponent(usize),
    DestroyComponent(usize),
    EnableConnection(usize),
    DisableConnection(usize),
    AcquireConnection(usize),
    DestroyConnection(usize),
    /// Enable a port with the completion callback installed.
    EnablePort(usize),
    DisablePort(usize),
    SendBuffer { port: usize, buffer: usize },
    LockBuffer(usize),
    UnlockBuffer(usize),
    AcquireBuffer(usize),
    ReleaseBuffer(usize),
    DestroyPool { port: usize },
}

/// Whether the native layer was asked `call`: it has answered it.
pub open spec fn asked<N: Fn(NativeCall) -> MmalStatus>(native: N, call: NativeCall) -> bool {
    exists|status: MmalStatus| #[trigger] call_ensures(native, (call,), status)
}

/// Format of the data that passes a port.
#[derive(Debug, Clone, Copy, PartialEq, Eq, Structural)]
pub struct PortFormat {
    pub encoding: u32,
    pub encoding_variant: u32,
    pub bitrate: u32,
    pub es_video_width: u32,
    pub es_video_height: u32,
    pub es_video_crop_x: i32,
    pub es_video_crop_y: i32,
    pub es_video_crop_width: i32,
    pub es_video_crop_height: i32,
    pub es_video_frame_rate_num: i32,
    pub es_video_frame_rate_den: i32,
}

/// One port of a stage, as the native layer describes it.
#[derive(Debug, Clone, Copy, PartialEq, Eq, Structural)]
pub struct Port {
    /// Native identity of the port.
    pub id: usize,
    pub buffer_num: u32,
    pub buffer_num_recommended: u32,
    pub buffer_num_min: u32,
    pub buffer_size: u32,
    pub buffer_size_recommended: u32,
    pub buffer_size_min: u32,
    pub format: PortFormat,
    /// Whether the firmware behind the port keeps the byte order of the two
    /// 24 bit colour encodings apart as their names say.
    pub rgb_order_fixed: bool,
}

/// One stage, as the native layer describes it. A slot without a port stands
/// for a port that the native layer does not provide.
#[derive(Debug)]
pub struct Component {
    /// Native identity of the stage.
    pub id: usize,
    pub is_enabled: bool,
    pub control: Option<Port>,
    pub input: Vec<Option<Port>>,
    pub output: Vec<Option<Port>>,
}

/// Mathematical content of a [`Component`].
pub struct ComponentView {
    pub id: usize,
    pub is_enabled: bool,
    pub control: Option<Port>,
    pub input: Seq<Option<Port>>,
    pub output: Seq<Option<Port>>,
}

impl ComponentView {
    /// Whether the stage has a slot for the port, which a port index beyond
    /// the stage's ports has not.
    pub open spec fn has_slot(self, selector: PortSelector) -> bool {
        match selector {
            PortSelector::Control => true,
            PortSelector::Input(n) => n < self.input.len(),
            PortSelector::Output(n) => n < self.output.len(),
        }
    }

    /// The port in a slot.
    pub open spec fn port(self, selector: PortSelector) -> Option<Port> {
        match selector {
            PortSelector::Control => self.control,
            PortSelector::Input(n) => self.input[n as int],
            PortSelector::Output(n) => self.output[n as int],
        }
    }

    /// The stage with another port in a slot.
    pub open spec fn with_port(self, selector: PortSelector, port: Port) -> ComponentView {
        match selector {
            PortSelector::Control => ComponentView { control: Some(port), ..self },
            PortSelector::Input(n) => ComponentView {
                input: self.input.update(n as int, Some(port)),
                ..self
            },
            PortSelector::Output(n) => ComponentView {
                output: self.output.update(n as int, Some(port)),
                ..self
            },
        }
    }

    /// Native identity of the port in a slot that holds one.
    pub open spec fn port_id(self, selector: PortSelector) -> usize {
        self.port(selector)->Some_0.id
    }

    /// The stage in another state of enablement.
    pub open spec fn with_enabled(self, is_enabled: bool) -> ComponentView {
        ComponentView { is_enabled, ..self }
    }
}

impl View for Component {
    type V = ComponentView;

    open spec fn view(&self) -> ComponentView {
        ComponentView {
            id: self.id,
            is_enabled: self.is_enabled,
            control: self.control,
            input: self.input@,
            output: self.output@,
        }
    }
}

fn copy_ports(ports: &Vec<Option<Port>>) -> (copy: Vec<Option<Port>>)
    ensures
        copy@ == ports@,
{
    let mut copy: Vec<Option<Port>> = Vec::new();
    let mut i: usize = 0;
    while i < ports.len()
        invariant
            i <= ports.len(),
            copy@ == ports@.take(i as int),
        decreases ports.len() - i,
    {
        copy.push(ports[i]);
        assert(ports@.take(i + 1) == ports@.take(i as int).push(ports@[i as int]));
        i = i + 1;
    }
    assert(ports@.take(ports.len() as int) == ports@);
    copy
}

impl Component {
    /// A second description of the same stage.
    pub fn duplicate(&self) -> (copy: Component)
        ensures
            copy@ == self@,
    {
        Component {
            id: self.id,
            is_enabled: self.is_enabled,
            control: self.control,
            input: copy_ports(&self.input),
            output: copy_ports(&self.output),
        }
    }
}

//------------------------------------------------------------------------------------------------------------------------------
/// Companion of every kind of native object: its name in messages.
pub trait Entity {
    spec fn spec_name() -> Seq<char>;

    fn name() -> (r: &'static str)
        ensures
            r@ == Self::spec_name(),
    ;
}

/// Companion of a kind of stage.
pub trait ComponentEntity: Entity {

}

//------------------------------------------------------------------------------------------------------------------------------
/// Handle of one stage of the pipeline, of the kind `E`.
///
/// The handle mirrors the stage as the native layer last described it. The
/// native layer counts the owners of a stage: [`ComponentHandle::acquire`]
/// makes a second owner, [`ComponentHandle::release`] gives one up.
#[derive(Debug)]
pub struct ComponentHandle<E: ComponentEntity> {
    c: Component,
    t: PhantomData<E>,
}

impl<E: ComponentEntity> View for ComponentHandle<E> {
    type V = ComponentView;

    closed spec fn view(&self) -> ComponentView {
        self.c@
    }
}

/// Message of a stage that could not be created.
pub open spec fn create_message(name: Seq<char>) -> Seq<char> {
    name + ": Unable to create component"@
}

/// Message of a stage or port that could not be enabled.
pub open spec fn enable_message(name: Seq<char>) -> Seq<char> {
    name + ": unable to enable"@
}

/// Message of a stage or port that could not be disabled.
pub open spec fn disable_message(name: Seq<char>) -> Seq<char> {
    name + ": unable to disable"@
}

/// Message of a stage that could not be destroyed.
pub open spec fn destroy_message(name: Seq<char>) -> Seq<char> {
    "mmal_component_destroy("@ + name + ")"@
}

/// The empty literal is the empty sequence.
pub proof fn lemma_empty_literal()
    ensures
        ""@ == Seq::<char>::empty(),
        forall|s: Seq<char>| #[trigger] (""@ + s) == s,
{
    reveal_strlit("");
    assert(""@ =~= Seq::<char>::empty());
    assert forall|s: Seq<char>| #[trigger] (""@ + s) == s by {
        assert(""@ + s =~= s);
    }
}

/// Writes `head`, `name` and `tail` one after the other.
pub fn name_message(head: &str, name: &str, tail: &str) -> (m: String)
    ensures
        m@ == head@ + name@ + tail@,
{
    let mut m = String::from_str(head);
    m.append(name);
    m.append(tail);
    m
}

/// What the answer of the native layer to a call means for the caller: the
/// function that every call with a status ends in.
pub fn call_result(status: MmalStatus, head: &str, name: &str, tail: &str) -> (r: Result<
    (),
    MmalError,
>)
    ensures
        outcome(r) == status_outcome(status, head@ + name@ + tail@),
{
    if status == MMAL_SUCCESS {
        Ok(())
    } else {
        Err(MmalError::with_status(status, name_message(head, name, tail)))
    }
}

/// How the answer of the native layer to the creation of a stage shows in
/// the result: the handle mirrors the stage that was described, or the error
/// carries the status of the refusal and names the kind of stage.
pub open spec fn creation<E: ComponentEntity>(
    answer: Result<Component, MmalStatus>,
    r: Result<ComponentHandle<E>, MmalError>,
) -> bool {
    match answer {
        Ok(c) => r is Ok && r->Ok_0@ == c@,
        Err(status) => r is Err && r->Err_0@ == (ErrorView {
            cause: Cause::Status(status),
            message: create_message(E::spec_name()),
        }),
    }
}

impl<E: ComponentEntity> ComponentHandle<E> {
    /// Creates a stage under its native name and returns a handle to it.
    ///
    /// `native` asks the native layer for the stage and answers with its
    /// description, or with the status of the refusal.
    pub fn create_from<F: FnOnce(&str) -> Result<Component, MmalStatus>>(
        component_name: &str,
        native: F,
    ) -> (r: Result<Self, MmalError>)
        requires
            call_requires(native, (component_name,)),
        ensures
            exists|answer: Result<Component, MmalStatus>| #[trigger]
                call_ensures(native, (component_name,), answer) && creation(answer, r),
    {
        proof {
            lemma_empty_literal();
        }
        match native(component_name) {
            Ok(c) => Ok(Self { c, t: PhantomData }),
            Err(status) => Err(
                MmalError::with_status(
                    status,
                    name_message("", E::name(), ": Unable to create component"),
                ),
            ),
        }
    }

    /// The handle of a stage that exists, from its description.
    pub fn mirror(c: Component) -> (h: Self)
        ensures
            h@ == c@,
    {
        Self { c, t: PhantomData }
    }

    /// Native identity of the stage.
    pub fn id(&self) -> (id: usize)
        ensures
            id == self@.id,
    {
        self.c.id
    }

    pub fn is_enabled(&self) -> (b: bool)
        ensures
            b == self@.is_enabled,
    {
        self.c.is_enabled
    }

    /// Enables the stage. Nothing is asked of the native layer where the stage
    /// is enabled already.
    pub fn enable<N: Fn(NativeCall) -> MmalStatus>(&mut self, native: &N) -> (r: Result<
        (),
        MmalError,
    >)
        requires
            !old(self)@.is_enabled ==> call_requires(
                *native,
                (NativeCall::EnableComponent(old(self)@.id),),
            ),
        ensures
            old(self)@.is_enabled ==> r is Ok && final(self)@ == old(self)@,
            !old(self)@.is_enabled ==> exists|status: MmalStatus| #[trigger]
                call_ensures(*native, (NativeCall::EnableComponent(old(self)@.id),), status)
                    && outcome(r) == status_outcome(status, enable_message(E::spec_name()))
                    && final(self)@ == old(self)@.with_enabled(status == MMAL_SUCCESS),
    {
        if !self.c.is_enabled {
            let status = native(NativeCall::EnableComponent(self.c.id));
            let r = call_result(status, "", E::name(), ": unable to enable");
            if status == MMAL_SUCCESS {
                self.c.is_enabled = true;
            }
            proof {
                lemma_empty_literal();
            }
            r
        } else {
            Ok(())
        }
    }

    /// Disables the stage. Nothing is asked of the native layer where the
    /// stage is disabled already.
    pub fn disable<N: Fn(NativeCall) -> MmalStatus>(&mut self, native: &N) -> (r: Result<
        (),
        MmalError,
    >)
        requires
            old(self)@.is_enabled ==> call_requires(
                *native,
                (NativeCall::DisableComponent(old(self)@.id),),
            ),
        ensures
            !old(self)@.is_enabled ==> r is Ok && final(self)@ == old(self)@,
            old(self)@.is_enabled ==> exists|status: MmalStatus| #[trigger]
                call_ensures(*native, (NativeCall::DisableComponent(old(self)@.id),), status)
                    && outcome(r) == status_outcome(status, disable_message(E::spec_name()))
                    && final(self)@ == old(self)@.with_enabled(status != MMAL_SUCCESS),
    {
        if self.c.is_enabled {
            let status = native(NativeCall::DisableComponent(self.c.id));
            let r = call_result(status, "", E::name(), ": unable to disable");
            if status == MMAL_SUCCESS {
                self.c.is_enabled = false;
            }
            proof {
                lemma_empty_literal();
            }
            r
        } else {
            Ok(())
        }
    }

    /// The control port of the stage.
    pub fn control_port(&self) -> (p: Option<Port>)
        ensures
            p == self@.port(PortSelector::Control),
    {
        self.c.control
    }

    /// The output port with the index `n`, which the stage must have.
    pub fn output_port_n(&self, n: usize) -> (p: Option<Port>)
        requires
            self@.has_slot(PortSelector::Output(n)),
        ensures
            p == self@.port(PortSelector::Output(n)),
    {
        self.c.output[n]
    }

    /// The input port with the index `n`, which the stage must have.
    pub fn input_port_n(&self, n: usize) -> (p: Option<Port>)
        requires
            self@.has_slot(PortSelector::Input(n)),
        ensures
            p == self@.port(PortSelector::Input(n)),
    {
        self.c.input[n]
    }

    /// Number of the input ports of the stage.
    pub fn input_num(&self) -> (n: usize)
        ensures
            n == self@.input.len(),
    {
        self.c.input.len()
    }

    /// Number of the output ports of the stage.
    pub fn output_num(&self) -> (n: usize)
        ensures
            n == self@.output.len(),
    {
        self.c.output.len()
    }

    /// Whether the stage has a slot for the port.
    pub fn has_slot(&self, selector: PortSelector) -> (b: bool)
        ensures
            b == self@.has_slot(selector),
    {
        match selector {
            PortSelector::Control => true,
            PortSelector::Input(n) => n < self.c.input.len(),
            PortSelector::Output(n) => n < self.c.output.len(),
        }
    }

    /// The port in a slot that the stage has.
    pub fn port(&self, selector: PortSelector) -> (p: Option<Port>)
        requires
            self@.has_slot(selector),
        ensures
            p == self@.port(selector),
    {
        match selector {
            PortSelector::Control => self.c.control,
            PortSelector::Input(n) => self.c.input[n],
            PortSelector::Output(n) => self.c.output[n],
        }
    }

    /// Stores the description of a port in a slot that the stage has.
    pub fn set_port(&mut self, selector: PortSelector, port: Port)
        requires
            old(self)@.has_slot(selector),
        ensures
            final(self)@ == old(self)@.with_port(selector, port),
    {
        match selector {
            PortSelector::Control => {
                self.c.control = Some(port);
            },
            PortSelector::Input(n) => {
                self.c.input.set(n, Some(port));
            },
            PortSelector::Output(n) => {
                self.c.output.set(n, Some(port));
            },
        }
    }

    /// Makes a second owner of the stage. The native layer is told to count
    /// one owner more; the new handle mirrors the stage as this one does.
    pub fn acquire<N: Fn(NativeCall) -> MmalStatus>(&self, native: &N) -> (h: Self)
        requires
            call_requires(*native, (NativeCall::AcquireComponent(self@.id),)),
        ensures
            h@ == self@,
            asked(*native, NativeCall::AcquireComponent(self@.id)),
    {
        let _status: MmalStatus = native(NativeCall::AcquireComponent(self.c.id));
        Self { c: self.c.duplicate(), t: PhantomData }
    }

    /// Gives the handle up. The native layer is told to count one owner less,
    /// and destroys the stage with its last owner.
    pub fn release<N: Fn(NativeCall) -> MmalStatus>(self, native: &N) -> (r: Result<
        (),
        MmalError,
    >)
        requires
            call_requires(*native, (NativeCall::DestroyComponent(self@.id),)),
        ensures
            exists|status: MmalStatus| #[trigger]
                call_ensures(*native, (NativeCall::DestroyComponent(self@.id),), status)
                    && outcome(r) == status_outcome(status, destroy_message(E::spec_name())),
    {
        let status = native(NativeCall::DestroyComponent(self.c.id));
        call_result(status, "mmal_component_destroy(", E::name(), ")")
    }
}

//------------------------------------------------------------------------------------------------------------------------------
/// Owner of a stage that keeps the stage enabled for as long as it lives.
#[derive(Debug)]
pub struct ComponentEnabler<E: ComponentEntity> {
    h: ComponentHandle<E>,
}

impl<E: ComponentEntity> View for ComponentEnabler<E> {
    type V = ComponentView;

    closed spec fn view(&self) -> ComponentView {
        self.h@
    }
}

impl<E: ComponentEntity> ComponentEnabler<E> {
    /// Enables the stage and keeps it. Where the stage cannot be enabled the
    /// error is returned and the handle is gone with it.
    pub fn new<N: Fn(NativeCall) -> MmalStatus>(h: ComponentHandle<E>, native: &N) -> (r:
        Result<Self, MmalError>)
        requires
            !h@.is_enabled ==> call_requires(*native, (NativeCall::EnableComponent(h@.id),)),
        ensures
            h@.is_enabled ==> r is Ok && r->Ok_0@ == h@,
            !h@.is_enabled ==> exists|status: MmalStatus| #[trigger]
                call_ensures(*native, (NativeCall::EnableComponent(h@.id),), status) && (status
                    == MMAL_SUCCESS ==> r is Ok && r->Ok_0@ == h@.with_enabled(true)) && (status
                    != MMAL_SUCCESS ==> r is Err && r->Err_0@ == (ErrorView {
                    cause: Cause::Status(status),
                    message: enable_message(E::spec_name()),
                })),
    {
        let mut h = h;
        match h.enable(native) {
            Ok(_) => Ok(Self { h }),
            Err(e) => Err(e),
        }
    }

    /// Prepares the stage with `f`, then enables and keeps it. An error of `f`
    /// is returned as it is, and the stage is not enabled then.
    pub fn with_init<I: FnOnce(&ComponentHandle<E>) -> Result<(), MmalError>, N: Fn(
        NativeCall,
    ) -> MmalStatus>(h: ComponentHandle<E>, f: I, native: &N) -> (r: Result<Self, MmalError>)
        requires
            call_requires(f, (&h,)),
            !h@.is_enabled ==> call_requires(*native, (NativeCall::EnableComponent(h@.id),)),
        ensures
            exists|prepared: Result<(), MmalError>| #[trigger]
                call_ensures(f, (&h,), prepared) && match prepared {
                    Err(e) => r is Err && r->Err_0 == e,
                    Ok(_) => {
                        &&& h@.is_enabled ==> r is Ok && r->Ok_0@ == h@
                        &&& !h@.is_enabled ==> exists|status: MmalStatus| #[trigger]
                            call_ensures(*native, (NativeCall::EnableComponent(h@.id),), status)
                                && (status == MMAL_SUCCESS ==> r is Ok && r->Ok_0@
                                == h@.with_enabled(true)) && (status != MMAL_SUCCESS ==> r is Err
                                && r->Err_0@ == (ErrorView {
                                cause: Cause::Status(status),
                                message: enable_message(E::spec_name()),
                            }))
                    },
                },
    {
        let mut h = h;
        match f(&h) {
            Err(e) => Err(e),
            Ok(_) => match h.enable(native) {
                Ok(_) => Ok(Self { h }),
                Err(e) => Err(e),
            },
        }
    }

    pub fn inner(&self) -> (h: &ComponentHandle<E>)
        ensures
            h@ == self@,
    {
        &self.h
    }

    /// Ends the enabler: disables the stage and hands the handle back, with
    /// the outcome of the disabling, which the end of an enabler reports and
    /// never fails on.
    pub fn release<N: Fn(NativeCall) -> MmalStatus>(self, native: &N) -> (r: (
        ComponentHandle<E>,
        Result<(), MmalError>,
    ))
        requires
            self@.is_enabled ==> call_requires(*native, (NativeCall::DisableComponent(self@.id),)),
        ensures
            !self@.is_enabled ==> r.1 is Ok && r.0@ == self@,
            self@.is_enabled ==> exists|status: MmalStatus| #[trigger]
                call_ensures(*native, (NativeCall::DisableComponent(self@.id),), status)
                    && outcome(r.1) == status_outcome(status, disable_message(E::spec_name()))
                    && r.0@ == self@.with_enabled(status != MMAL_SUCCESS),
    {
        let mut h = self.h;
        let r = h.disable(native);
        (h, r)
    }
}

//------------------------------------------------------------------------------------------------------------------------------
/// The stage that swallows what it is sent.
#[derive(Debug)]
pub struct NullSinkEntity;

impl Entity for NullSinkEntity {
    open spec fn spec_name() -> Seq<char> {
        "null_sink"@
    }

    fn name() -> (r: &'static str) {
        "null_sink"
    }
}

impl ComponentEntity for NullSinkEntity {

}

pub type NullSinkComponentHandle = ComponentHandle<NullSinkEntity>;

impl ComponentHandle<NullSinkEntity> {
    pub fn create<F: FnOnce(&str) -> Result<Component, MmalStatus>>(native: F) -> (r: Result<
        Self,
        MmalError,
    >)
        requires
            call_requires(native, (MMAL_COMPONENT_NULL_SINK,)),
        ensures
            exists|answer: Result<Component, MmalStatus>| #[trigger]
                call_ensures(native, (MMAL_COMPONENT_NULL_SINK,), answer) && creation(answer, r),
    {
        Self::create_from(MMAL_COMPONENT_NULL_SINK, native)
    }
}

#[derive(Debug)]
pub struct NullSinkInputPort;

impl ComponentPort for NullSinkInputPort {
    type E = NullSinkEntity;

    open spec fn spec_name() -> Seq<char> {
        "null sink input port"@
    }

    open spec fn spec_selector() -> PortSelector {
        PortSelector::Input(DEFAULT_PORT_OFFSET)
    }

    fn selector() -> (s: PortSelector) {
        PortSelector::Input(DEFAULT_PORT_OFFSET)
    }

    fn name() -> (r: &'static str) {
        "null sink input port"
    }
}

//------------------------------------------------------------------------------------------------------------------------------
/// The smallest buffer count or size that is at least `requested` and that
/// the native layer accepts, which refuses anything under `minimum`.
pub open spec fn floor_at(requested: u32, minimum: u32) -> u32 {
    if requested < minimum {
        minimum
    } else {
        requested
    }
}

/// Configuration of a port: a format, and a policy for the number and the
/// size of its buffers.
pub trait PortConfig {
    /// The port with the format applied.
    spec fn formatted(&self, port: Port) -> Port;

    /// The port with the buffer policy applied.
    spec fn sized(&self, port: Port) -> Port;

    fn apply_format(&self, port: &mut Port)
        ensures
            *final(port) == self.formatted(*old(port)),
    ;

    /// Sets the number and the size of the port's buffers. Whatever the
    /// policy, neither ends below the minimum of the native layer.
    fn apply_buffer_policy(&self, port: &mut Port)
        ensures
            *final(port) == self.sized(*old(port)),
            final(port).buffer_num >= old(port).buffer_num_min,
            final(port).buffer_size >= old(port).buffer_size_min,
    ;
}

/// What every parameter shows of itself, whatever its shape: its name.
pub trait ParamIO<P> {
    spec fn spec_name(&self) -> Seq<char>;

    fn name(&self) -> (r: &'static str)
        ensures
            r@ == self.spec_name(),
    ;
}

/// Message of a format that the native layer did not commit.
pub open spec fn commit_message(port_name: Seq<char>) -> Seq<char> {
    "unable to commit format on "@ + port_name
}

/// Message of a parameter in a batch that the native layer did not take.
pub open spec fn set_message(param_name: Seq<char>, port_name: Seq<char>) -> Seq<char> {
    "unable to set parameter "@ + param_name + " on "@ + port_name
}

/// Message of a parameter in a batch that the native layer did not give.
pub open spec fn get_message(param_name: Seq<char>, port_name: Seq<char>) -> Seq<char> {
    "unable to get parameter "@ + param_name + " on "@ + port_name
}

/// Writes the message of a parameter that failed on a port.
pub fn param_message(head: &str, param_name: &str, port_name: &str) -> (m: String)
    ensures
        m@ == head@ + param_name@ + " on "@ + port_name@,
{
    let mut m = String::from_str(head);
    m.append(param_name);
    m.append(" on ");
    m.append(port_name);
    m
}

/// Whether `k` is the place of one of the first `n` records of a batch.
pub open spec fn within(k: int, n: int) -> bool {
    0 <= k < n
}

/// Whether the record at the place `k` of a batch of `n` was refused with
/// `status`.
pub open spec fn refusal(k: int, n: int, status: MmalStatus) -> bool {
    within(k, n) && status != MMAL_SUCCESS
}

/// Whether the native layer took each of the first `k` records of a batch.
pub open spec fn all_taken<T: ?Sized, F: Fn(usize, &T) -> MmalStatus>(
    native: F,
    port: usize,
    params: Seq<&T>,
    k: int,
) -> bool {
    forall|i: int| 0 <= i < k ==> call_ensures(native, (port, #[trigger] params[i]), MMAL_SUCCESS)
}

/// Whether `e` is the error of a batch of writes that ended at the first
/// record that the native layer refused: the records before it were taken,
/// and the error carries the status of the refusal and names the record.
pub open spec fn write_refused<P, T: ParamIO<P> + ?Sized, F: Fn(usize, &T) -> MmalStatus>(
    native: F,
    port: usize,
    params: Seq<&T>,
    port_name: Seq<char>,
    e: ErrorView,
) -> bool {
    exists|k: int, status: MmalStatus|
        {
            &&& 0 <= k
            &&& k < params.len()
            &&& status != MMAL_SUCCESS
            &&& #[trigger] call_ensures(native, (port, params[k]), status)
            &&& all_taken(native, port, params, k)
            &&& e == (ErrorView {
                cause: Cause::Status(status),
                message: set_message(params[k].spec_name(), port_name),
            })
        }
}

/// A kind of port: it ties a kind of stage to the place of one of its ports,
/// and carries no resource of its own. The port is looked up on the handle
/// each time it is used.
pub trait ComponentPort: Sized {
    type E: ComponentEntity;

    spec fn spec_name() -> Seq<char>;

    spec fn spec_selector() -> PortSelector;

    /// Where the port sits on its stage.
    fn selector() -> (s: PortSelector)
        ensures
            s == Self::spec_selector(),
    ;

    fn name() -> (r: &'static str)
        ensures
            r@ == Self::spec_name(),
    ;

    /// The port of this kind on a stage that has a slot for it.
    fn get_port(component: &ComponentHandle<Self::E>) -> (p: Option<Port>)
        requires
            component@.has_slot(Self::spec_selector()),
        ensures
            p == component@.port(Self::spec_selector()),
    {
        component.port(Self::selector())
    }

    /// Applies the records of `params` to the port in their order. `native`
    /// hands one record to the port and answers with the status. The first
    /// record that the native layer refuses ends the batch: the error carries
    /// its status and names the record, the records before it stay applied,
    /// those after it are not touched.
    fn write_multi<T: ParamIO<Self> + ?Sized, F: Fn(usize, &T) -> MmalStatus>(
        component: &ComponentHandle<Self::E>,
        params: &[&T],
        native: F,
    ) -> (r: Result<(), MmalError>)
        requires
            component@.has_slot(Self::spec_selector()),
            component@.port(Self::spec_selector()) matches Some(port) ==> forall|i: int|
                0 <= i < params@.len() ==> call_requires(native, (port.id, #[trigger] params@[i])),
        ensures
            component@.port(Self::spec_selector()) is None ==> r is Err && r->Err_0@ == (
            ErrorView { cause: Cause::GetPort, message: Seq::empty() }),
            component@.port(Self::spec_selector()) matches Some(port) ==> match r {
                Ok(_) => all_taken(native, port.id, params@, params@.len() as int),
                Err(e) => write_refused::<Self, T, F>(
                    native,
                    port.id,
                    params@,
                    Self::spec_name(),
                    e@,
                ),
            },
    {
        let port = match Self::get_port(component) {
            Some(port) => port,
            None => {
                return Err(MmalError::with_cause(Cause::GetPort));
            },
        };
        let mut i: usize = 0;
        while i < params.len()
            invariant
                i <= params@.len(),
                component@.port(Self::spec_selector()) == Some(port),
                forall|j: int|
                    0 <= j < params@.len() ==> call_requires(
                        native,
                        (port.id, #[trigger] params@[j]),
                    ),
                all_taken(native, port.id, params@, i as int),
            decreases params@.len() - i,
        {
            let p = params[i];
            let status = native(port.id, p);
            if status != MMAL_SUCCESS {
                let message = param_message("unable to set parameter ", p.name(), Self::name());
                let e = MmalError::with_status(status, message);
                proof {
                    let k = i as int;
                    assert(p == params@[k]);
                    assert(call_ensures(native, (port.id, params@[k]), status));
                    assert(e@.message == set_message(params@[k].spec_name(), Self::spec_name()));
                    assert(write_refused::<Self, T, F>(
                        native,
                        port.id,
                        params@,
                        Self::spec_name(),
                        e@,
                    ));
                }
                return Err(e);
            }
            i = i + 1;
        }
        Ok(())
    }

    /// Reads the records of `params` from the port in their order. `native`
    /// is handed one record and the port, fills the record from the port and
    /// answers with the status. The first record that the native layer
    /// refuses ends the batch: the error carries its status and names the
    /// record, the records before it stay as the native layer filled them,
    /// and the records after it are not touched. An empty batch succeeds.
    fn read_multi<T: ParamIO<Self> + ?Sized, F: Fn(usize, &mut T) -> MmalStatus>(
        component: &ComponentHandle<Self::E>,
        params: &mut [&mut T],
        native: F,
    ) -> (r: Result<(), MmalError>)
        requires
            component@.has_slot(Self::spec_selector()),
            forall|id: usize, t: &mut T| call_requires(native, (id, t)),
        ensures
            final(params)@.len() == old(params)@.len(),
            component@.port(Self::spec_selector()) is None ==> {
                &&& r is Err
                &&& r->Err_0@ == (ErrorView { cause: Cause::GetPort, message: Seq::empty() })
                &&& forall|k: int| #[trigger]
                    within(k, old(params)@.len() as int) ==> &*final(params)@[k] == &*old(params)@[k]
            },
            component@.port(Self::spec_selector()) is Some && old(params)@.len() == 0 ==> r is Ok,
            component@.port(Self::spec_selector()) is Some && r is Ok ==> forall|k: int|
             #[trigger]
                within(k, old(params)@.len() as int) ==> exists|t: &mut T|
                    {
                        &&& &*t == &*old(params)@[k]
                        &&& &*final(t) == &*final(params)@[k]
                        &&& #[trigger] call_ensures(
                            native,
                            (component@.port_id(Self::spec_selector()), t),
                            MMAL_SUCCESS,
                        )
                    },
            component@.port(Self::spec_selector()) is Some && r is Err ==> exists|
                j: int,
                status: MmalStatus,
            |
                {
                    &&& #[trigger] refusal(j, old(params)@.len() as int, status)
                    &&& r->Err_0@ == (ErrorView {
                        cause: Cause::Status(status),
                        message: get_message(old(params)@[j].spec_name(), Self::spec_name()),
                    })
                    &&& exists|t: &mut T|
                        {
                            &&& &*t == &*old(params)@[j]
                            &&& &*final(t) == &*final(params)@[j]
                            &&& #[trigger] call_ensures(
                                native,
                                (component@.port_id(Self::spec_selector()), t),
                                status,
                            )
                        }
                    &&& forall|k: int| #[trigger]
                        within(k, j) ==> exists|t: &mut T|
                            {
                                &&& &*t == &*old(params)@[k]
                                &&& &*final(t) == &*final(params)@[k]
                                &&& #[trigger] call_ensures(
                                    native,
                                    (component@.port_id(Self::spec_selector()), t),
                                    MMAL_SUCCESS,
                                )
                            }
                    &&& forall|k: int| #[trigger]
                        within(k, old(params)@.len() as int) && j < k ==> &*final(params)@[k]
                            == &*old(params)@[k]
                },
    {
        let port = match Self::get_port(component) {
            Some(port) => port,
            None => {
                return Err(MmalError::with_cause(Cause::GetPort));
            },
        };
        let n = params.len();
        let mut i: usize = 0;
        assert(port.id == component@.port_id(Self::spec_selector()));
        while i < n
            invariant
                n == params@.len(),
                n == old(params)@.len(),
                final(params)@ == final(old(params))@,
                i <= n,
                component@.port(Self::spec_selector()) == Some(port),
                port.id == component@.port_id(Self::spec_selector()),
                forall|id: usize, t: &mut T| call_requires(native, (id, t)),
                forall|j: int| i <= j < n ==> params@[j] == old(params)@[j],
                forall|k: int| #[trigger]
                    within(k, i as int) ==> exists|t: &mut T|
                        {
                            &&& &*t == &*old(params)@[k]
                            &&& &*final(t) == &*params@[k]
                            &&& #[trigger] call_ensures(native, (port.id, t), MMAL_SUCCESS)
                        },
            decreases n - i,
        {
            let ghost before = params@;
            let name = params[i].name();
            let status = native(port.id, &mut *params[i]);
            proof {
                assert(forall|j: int| 0 <= j < n && j != i ==> params@[j] == before[j]);
                assert(before[i as int] == old(params)@[i as int]);
                assert forall|k: int| #[trigger] within(k, i as int) implies exists|t: &mut T|
                    {
                        &&& &*t == &*old(params)@[k]
                        &&& &*final(t) == &*params@[k]
                        &&& #[trigger] call_ensures(native, (port.id, t), MMAL_SUCCESS)
                    } by {
                    let t = choose|t: &mut T|
                        {
                            &&& &*t == &*old(params)@[k]
                            &&& &*final(t) == &*before[k]
                            &&& #[trigger] call_ensures(native, (port.id, t), MMAL_SUCCESS)
                        };
                    assert(params@[k] == before[k]);
                    assert(&*t == &*old(params)@[k] && &*final(t) == &*params@[k] && call_ensures(
                        native,
                        (port.id, t),
                        MMAL_SUCCESS,
                    ));
                }
            }
            if status != MMAL_SUCCESS {
                let message = param_message("unable to get parameter ", name, Self::name());
                let e = MmalError::with_status(status, message);
                proof {
                    let j = i as int;
                    assert(params@ == final(params)@);
                    assert(refusal(j, n as int, status));
                    assert(e@.message == get_message(
                        old(params)@[j].spec_name(),
                        Self::spec_name(),
                    ));
                    assert forall|k: int| #[trigger]
                        within(k, n as int) && j < k implies &*final(params)@[k] == &*old(params)@[k] by {
                        assert(params@[k] == before[k]);
                    }
                    assert forall|k: int| #[trigger] within(k, j) implies exists|t: &mut T|
                        {
                            &&& &*t == &*old(params)@[k]
                            &&& &*final(t) == &*final(params)@[k]
                            &&& #[trigger] call_ensures(native, (port.id, t), MMAL_SUCCESS)
                        } by {
                        let t = choose|t: &mut T|
                            {
                                &&& &*t == &*old(params)@[k]
                                &&& &*final(t) == &*params@[k]
                                &&& #[trigger] call_ensures(native, (port.id, t), MMAL_SUCCESS)
                            };
                        assert(params@[k] == final(params)@[k]);
                        assert(&*t == &*old(params)@[k] && &*final(t) == &*final(params)@[k]
                            && call_ensures(native, (port.id, t), MMAL_SUCCESS));
                    }
                }
                return Err(e);
            }
            proof {
                assert forall|k: int| #[trigger] within(k, i + 1) implies exists|t: &mut T|
                    {
                        &&& &*t == &*old(params)@[k]
                        &&& &*final(t) == &*params@[k]
                        &&& #[trigger] call_ensures(native, (port.id, t), MMAL_SUCCESS)
                    } by {
                    if k < i {
                        assert(within(k, i as int));
                    }
                }
            }
            i = i + 1;
        }
        assert(params@ == final(params)@);
        Ok(())
    }

    /// Configures the port: applies the format of `config`, has the native
    /// layer commit it, and applies the buffer policy to the port as the
    /// native layer left it, which sets its minimums and recommendations anew
    /// when it commits. `commit` takes the port with the format applied and
    /// answers with the status and the port after the commit. Where the native
    /// layer refuses the format, the buffer policy is not applied.
    fn configure<C: PortConfig, F: FnOnce(Port) -> (MmalStatus, Port)>(
        component: &mut ComponentHandle<Self::E>,
        config: C,
        commit: F,
    ) -> (r: Result<(), MmalError>)
        requires
            old(component)@.has_slot(Self::spec_selector()),
            old(component)@.port(Self::spec_selector()) matches Some(port) ==> call_requires(
                commit,
                (config.formatted(port),),
            ),
        ensures
            old(component)@.port(Self::spec_selector()) is None ==> r is Err && r->Err_0@ == (
            ErrorView { cause: Cause::GetPort, message: Seq::empty() }) && final(component)@ == old(
                component,
            )@,
            old(component)@.port(Self::spec_selector()) matches Some(port) ==> exists|
                status: MmalStatus,
                committed: Port,
            |
                {
                    &&& #[trigger] call_ensures(
                        commit,
                        (config.formatted(port),),
                        (status, committed),
                    )
                    &&& outcome(r) == status_outcome(status, commit_message(Self::spec_name()))
                    &&& final(component)@ == old(component)@.with_port(
                        Self::spec_selector(),
                        if status == MMAL_SUCCESS {
                            config.sized(committed)
                        } else {
                            committed
                        },
                    )
                },
    {
        let mut port = match Self::get_port(component) {
            Some(port) => port,
            None => {
                return Err(MmalError::with_cause(Cause::GetPort));
            },
        };
        config.apply_format(&mut port);
        let (status, committed) = commit(port);
        let mut port = committed;
        let r = call_result(status, "unable to commit format on ", Self::name(), "");
        proof {
            lemma_empty_literal();
            assert("unable to commit format on "@ + Self::spec_name() + ""@ =~= commit_message(
                Self::spec_name(),
            ));
        }
        if status == MMAL_SUCCESS {
            config.apply_buffer_policy(&mut port);
        }
        component.set_port(Self::selector(), port);
        r
    }

    /// The number of buffers of the port, then what the native layer
    /// recommends and the least that it accepts; after that the same three of
    /// the buffer size. The stage must have the port.
    fn get_buffers_config(component: &ComponentHandle<Self::E>) -> (r: (
        (u32, u32, u32),
        (u32, u32, u32),
    ))
        requires
            component@.has_slot(Self::spec_selector()),
            component@.port(Self::spec_selector()) is Some,
        ensures
            ({
                let p = component@.port(Self::spec_selector())->Some_0;
                r == (
                    (p.buffer_num, p.buffer_num_recommended, p.buffer_num_min),
                    (p.buffer_size, p.buffer_size_recommended, p.buffer_size_min),
                )
            }),
    {
        match Self::get_port(component) {
            Some(p) => (
                (p.buffer_num, p.buffer_num_recommended, p.buffer_num_min),
                (p.buffer_size, p.buffer_size_recommended, p.buffer_size_min),
            ),
            None => ((0, 0, 0), (0, 0, 0)),
        }
    }
}

//------------------------------------------------------------------------------------------------------------------------------
/// Message of a connection that could not be created.
pub open spec fn connect_message(source: Seq<char>, target: Seq<char>) -> Seq<char> {
    "unable to create connection "@ + source + "->"@ + target
}

/// Message of a connection that could not be enabled.
pub open spec fn connection_enable_message(source: Seq<char>, target: Seq<char>) -> Seq<char> {
    "unable to enable connection "@ + source + "->"@ + target
}

/// Message of a connection that could not be disabled.
pub open spec fn connection_disable_message(source: Seq<char>, target: Seq<char>) -> Seq<char> {
    "unable to disable connection "@ + source + "->"@ + target
}

/// Message of a connection that could not be destroyed.
pub open spec fn connection_destroy_message(source: Seq<char>, target: Seq<char>) -> Seq<char> {
    "mmal_connection_destroy("@ + source + "->"@ + target + ")"@
}

/// Writes the message of a connection: `head`, the names of the two ports
/// with an arrow between them, and `tail`.
pub fn connection_message(head: &str, source: &str, target: &str, tail: &str) -> (m: String)
    ensures
        m@ == head@ + source@ + "->"@ + target@ + tail@,
{
    let mut m = String::from_str(head);
    m.append(source);
    m.append("->");
    m.append(target);
    m.append(tail);
    m
}

/// Mathematical content of a [`ConnectionHandle`].
pub struct ConnectionView {
    pub id: usize,
    pub is_enabled: bool,
}

/// Handle of the link from an output port of the kind `PS` to an input port
/// of the kind `PT`. A connection is created disabled.
#[derive(Debug)]
pub struct ConnectionHandle<PS: ComponentPort, PT: ComponentPort> {
    id: usize,
    is_enabled: bool,
    source: PhantomData<PS>,
    target: PhantomData<PT>,
}

impl<PS: ComponentPort, PT: ComponentPort> View for ConnectionHandle<PS, PT> {
    type V = ConnectionView;

    closed spec fn view(&self) -> ConnectionView {
        ConnectionView { id: self.id, is_enabled: self.is_enabled }
    }
}

/// How the creation of a connection between two ports ends, given the answer
/// of the native layer.
pub open spec fn connection_made<PS: ComponentPort, PT: ComponentPort>(
    answer: Result<usize, MmalStatus>,
    r: Result<ConnectionHandle<PS, PT>, MmalError>,
) -> bool {
    match answer {
        Ok(id) => r is Ok && r->Ok_0@ == (ConnectionView { id, is_enabled: false }),
        Err(status) => r is Err && r->Err_0@ == (ErrorView {
            cause: Cause::Status(status),
            message: connect_message(PS::spec_name(), PT::spec_name()),
        }),
    }
}

impl<PS: ComponentPort, PT: ComponentPort> ConnectionHandle<PS, PT> {
    /// Links the port of the kind `PS` on `source` to the port of the kind
    /// `PT` on `target`. Both stages must have the slot of their port; where
    /// one of them has no port there, nothing is asked of the native layer.
    /// `native` takes the two ports and the connection flags and answers with
    /// the native identity of the connection, or with the status of the
    /// refusal.
    pub fn create<F: FnOnce(Port, Port, u32) -> Result<usize, MmalStatus>>(
        source: &ComponentHandle<PS::E>,
        target: &ComponentHandle<PT::E>,
        native: F,
    ) -> (r: Result<Self, MmalError>)
        requires
            source@.has_slot(PS::spec_selector()),
            target@.has_slot(PT::spec_selector()),
            source@.port(PS::spec_selector()) is Some && target@.port(PT::spec_selector())
                is Some ==> call_requires(
                native,
                (
                    source@.port(PS::spec_selector())->Some_0,
                    target@.port(PT::spec_selector())->Some_0,
                    CONNECTION_FLAGS,
                ),
            ),
        ensures
            source@.port(PS::spec_selector()) is None || target@.port(PT::spec_selector())
                is None ==> r is Err && r->Err_0@ == (ErrorView {
                cause: Cause::GetPort,
                message: Seq::empty(),
            }),
            source@.port(PS::spec_selector()) is Some && target@.port(PT::spec_selector())
                is Some ==> exists|answer: Result<usize, MmalStatus>| #[trigger]
                call_ensures(
                    native,
                    (
                        source@.port(PS::spec_selector())->Some_0,
                        target@.port(PT::spec_selector())->Some_0,
                        CONNECTION_FLAGS,
                    ),
                    answer,
                ) && connection_made(answer, r),
    {
        let ps = match PS::get_port(source) {
            Some(port) => port,
            None => {
                return Err(MmalError::with_cause(Cause::GetPort));
            },
        };
        let pt = match PT::get_port(target) {
            Some(port) => port,
            None => {
                return Err(MmalError::with_cause(Cause::GetPort));
            },
        };
        match native(ps, pt, CONNECTION_FLAGS) {
            Ok(id) => Ok(Self { id, is_enabled: false, source: PhantomData, target: PhantomData }),
            Err(status) => {
                let message = connection_message(
                    "unable to create connection ",
                    PS::name(),
                    PT::name(),
                    "",
                );
                proof {
                    lemma_empty_literal();
                    assert(message@ =~= connect_message(PS::spec_name(), PT::spec_name()));
                }
                Err(MmalError::with_status(status, message))
            },
        }
    }

    /// Native identity of the connection.
    pub fn id(&self) -> (id: usize)
        ensures
            id == self@.id,
    {
        self.id
    }

    pub fn is_enabled(&self) -> (b: bool)
        ensures
            b == self@.is_enabled,
    {
        self.is_enabled
    }

    /// Enables the connection. Nothing is asked of the native layer where it
    /// is enabled already.
    pub fn enable<N: Fn(NativeCall) -> MmalStatus>(&mut self, native: &N) -> (r: Result<
        (),
        MmalError,
    >)
        requires
            !old(self)@.is_enabled ==> call_requires(
                *native,
                (NativeCall::EnableConnection(old(self)@.id),),
            ),
        ensures
            final(self)@.id == old(self)@.id,
            old(self)@.is_enabled ==> r is Ok && final(self)@.is_enabled,
            !old(self)@.is_enabled ==> exists|status: MmalStatus| #[trigger]
                call_ensures(*native, (NativeCall::EnableConnection(old(self)@.id),), status)
                    && outcome(r) == status_outcome(
                    status,
                    connection_enable_message(PS::spec_name(), PT::spec_name()),
                ) && final(self)@.is_enabled == (status == MMAL_SUCCESS),
    {
        if self.is_enabled {
            return Ok(());
        }
        let status = native(NativeCall::EnableConnection(self.id));
        if status == MMAL_SUCCESS {
            self.is_enabled = true;
            Ok(())
        } else {
            let message = connection_message(
                "unable to enable connection ",
                PS::name(),
                PT::name(),
                "",
            );
            proof {
                lemma_empty_literal();
                assert(message@ =~= connection_enable_message(PS::spec_name(), PT::spec_name()));
            }
            Err(MmalError::with_status(status, message))
        }
    }

    /// Disables the connection. Nothing is asked of the native layer where it
    /// is disabled already.
    pub fn disable<N: Fn(NativeCall) -> MmalStatus>(&mut self, native: &N) -> (r: Result<
        (),
        MmalError,
    >)
        requires
            old(self)@.is_enabled ==> call_requires(
                *native,
                (NativeCall::DisableConnection(old(self)@.id),),
            ),
        ensures
            final(self)@.id == old(self)@.id,
            !old(self)@.is_enabled ==> r is Ok && !final(self)@.is_enabled,
            old(self)@.is_enabled ==> exists|status: MmalStatus| #[trigger]
                call_ensures(*native, (NativeCall::DisableConnection(old(self)@.id),), status)
                    && outcome(r) == status_outcome(
                    status,
                    connection_disable_message(PS::spec_name(), PT::spec_name()),
                ) && final(self)@.is_enabled == (status != MMAL_SUCCESS),
    {
        if !self.is_enabled {
            return Ok(());
        }
        let status = native(NativeCall::DisableConnection(self.id));
        if status == MMAL_SUCCESS {
            self.is_enabled = false;
            Ok(())
        } else {
            let message = connection_message(
                "unable to disable connection ",
                PS::name(),
                PT::name(),
                "",
            );
            proof {
                lemma_empty_literal();
                assert(message@ =~= connection_disable_message(PS::spec_name(), PT::spec_name()));
            }
            Err(MmalError::with_status(status, message))
        }
    }

    /// Makes a second owner of the connection. The native layer is told to
    /// count one owner more.
    pub fn acquire<N: Fn(NativeCall) -> MmalStatus>(&self, native: &N) -> (h: Self)
        requires
            call_requires(*native, (NativeCall::AcquireConnection(self@.id),)),
        ensures
            h@ == self@,
            asked(*native, NativeCall::AcquireConnection(self@.id)),
    {
        let _status: MmalStatus = native(NativeCall::AcquireConnection(self.id));
        Self {
            id: self.id,
            is_enabled: self.is_enabled,
            source: PhantomData,
            target: PhantomData,
        }
    }

    /// Gives the handle up. The native layer is told to count one owner less,
    /// and destroys the connection with its last owner.
    pub fn release<N: Fn(NativeCall) -> MmalStatus>(self, native: &N) -> (r: Result<
        (),
        MmalError,
    >)
        requires
            call_requires(*native, (NativeCall::DestroyConnection(self@.id),)),
        ensures
            exists|status: MmalStatus| #[trigger]
                call_ensures(*native, (NativeCall::DestroyConnection(self@.id),), status)
                    && outcome(r) == status_outcome(
                    status,
                    connection_destroy_message(PS::spec_name(), PT::spec_name()),
                ),
    {
        let status = native(NativeCall::DestroyConnection(self.id));
        if status == MMAL_SUCCESS {
            Ok(())
        } else {
            let message = connection_message(
                "mmal_connection_destroy(",
                PS::name(),
                PT::name(),
                ")",
            );
            Err(MmalError::with_status(status, message))
        }
    }
}

//------------------------------------------------------------------------------------------------------------------------------
/// Flag bits of a buffer, as they stood when the buffer was completed.
#[derive(Debug, Clone, Copy)]
pub struct FrameFlags {
    flags: u32,
}

impl FrameFlags {
    pub const FLAG_EOS: u32 = 1;

    pub const FLAG_FRAME_START: u32 = 2;

    pub const FLAG_FRAME_END: u32 = 4;

    pub const FLAG_FRAME: u32 = 6;

    pub const FLAG_KEYFRAME: u32 = 8;

    pub const FLAG_DISCONTINUITY: u32 = 16;

    pub const FLAG_CONFIG: u32 = 32;

    pub const FLAG_ENCRYPTED: u32 = 64;

    pub const FLAG_CODECSIDEINFO: u32 = 128;

    pub const FLAGS_SNAPSHOT: u32 = 256;

    pub const FLAG_CORRUPTED: u32 = 512;

    pub const FLAG_TRANSMISSION_FAILED: u32 = 1024;

    pub const FLAG_DECODEONLY: u32 = 2048;

    pub const FLAG_NAL_END: u32 = 4096;

    pub const FLAG_USER0: u32 = 268435456;

    pub const FLAG_USER1: u32 = 536870912;

    pub const FLAG_USER2: u32 = 1073741824;

    pub const FLAG_USER3: u32 = 2147483648;

    pub const FLAG_FORMAT_SPECIFIC_START_BIT: u32 = 16;

    pub const FLAG_FORMAT_SPECIFIC_START: u32 = 65536;

    pub const VIDEO_FLAG_INTERLACED: u32 = 65536;

    pub const VIDEO_FLAG_TOP_FIELD_FIRST: u32 = 131072;

    pub const VIDEO_FLAG_DISPLAY_EXTERNAL: u32 = 524288;

    pub const VIDEO_FLAG_PROTECTED: u32 = 1048576;

    pub const VIDEO_FLAG_COLUMN_LOG2_SHIFT: u32 = 24;

    pub const VIDEO_FLAG_COLUMN_LOG2_MASK: u32 = 251658240;

    /// The flags of which one or the other ends a frame: the frame is
    /// complete, or its transmission failed.
    pub const FLAG_TERMINAL_FRAME: u32 = 1028;

    /// The flag bits.
    pub closed spec fn bits(&self) -> u32 {
        self.flags
    }

    pub fn new(flags: u32) -> (f: Self)
        ensures
            f.bits() == flags,
    {
        Self { flags }
    }

    pub fn flags(&self) -> (flags: u32)
        ensures
            flags == self.bits(),
    {
        self.flags
    }

    /// Whether at least one flag of `mask` is set.
    pub fn test_one(&self, mask: u32) -> (b: bool)
        ensures
            b == (self.bits() & mask != 0),
    {
        self.flags & mask != 0
    }

    /// Whether every flag of `mask` is set.
    pub fn test_all(&self, mask: u32) -> (b: bool)
        ensures
            b == (self.bits() & mask == mask),
    {
        self.flags & mask == mask
    }

    /// Whether the buffer ends a frame.
    pub fn is_terminal_frame(&self) -> (b: bool)
        ensures
            b == (self.bits() & 1028 != 0),
            b == (self.bits() & 4 != 0 || self.bits() & 1024 != 0),
    {
        let flags = self.flags;
        assert((flags & 1028 != 0) == (flags & 4 != 0 || flags & 1024 != 0)) by (bit_vector);
        self.test_one(Self::FLAG_TERMINAL_FRAME)
    }
}

/// The terminal flags are exactly the end of a frame and a failed
/// transmission.
pub proof fn lemma_terminal_flags()
    ensures
        FrameFlags::FLAG_TERMINAL_FRAME == FrameFlags::FLAG_FRAME_END
            | FrameFlags::FLAG_TRANSMISSION_FAILED,
{
    assert(1028u32 == 4u32 | 1024u32) by (bit_vector);
}

} // verus!
