//! Typed parameters and the records that carry them to and from a port.
//!
//! A parameter has a shape: a scalar, an enumerated value or a structure with
//! a fixed layout. Each shape says what of it crosses the boundary to the
//! native layer, and how it takes in what comes back. [`Param`] ties a shape
//! to the kind of port that the parameter belongs to, so that a parameter of
//! one port cannot be written through another.

use vstd::prelude::*;
use vstd::string::*;
use vstd::std_specs::convert::{FromSpec, FromSpecImpl};
use std::marker::PhantomData;
use crate::error::{
    decimal,
    decimal_text,
    outcome,
    status_outcome,
    Cause,
    ErrorView,
    MmalError,
    MmalStatus,
};
use crate::mmalcore::{ComponentHandle, ComponentPort, ParamIO, param_message};
use crate::native::{MMAL_PARAMETER_ENUM_SIZE, MMAL_SUCCESS};

verus! {

/// How the reading of a record from a port ends. The native layer answers
/// with a status and with what it read; the record takes the answer in only
/// where the status is success, and stays as it is otherwise.
pub open spec fn got<I: InnerParamType, F: FnOnce(usize, u32, &I::Raw) -> (MmalStatus, I::Raw)>(
    native: F,
    port: usize,
    before: I,
    status: MmalStatus,
    after: I,
) -> bool {
    exists|raw: I::Raw| #[trigger]
        call_ensures(native, (port, before.spec_id(), &before.raw()), (status, raw)) && after == (
        if status == MMAL_SUCCESS {
            before.absorb(raw)
        } else {
            before
        })
}

/// The shape of a parameter: what the native layer sees of it.
pub trait InnerParamType: Sized {
    /// What crosses the boundary to the native layer.
    type Raw;

    spec fn spec_name() -> Seq<char>;

    /// Identifier of the parameter in the native layer.
    spec fn spec_id(&self) -> u32;

    /// What the native layer is handed of the record.
    spec fn raw(&self) -> Self::Raw;

    /// The record after it took in what the native layer read.
    spec fn absorb(self, raw: Self::Raw) -> Self;

    fn name() -> (r: &'static str)
        ensures
            r@ == Self::spec_name(),
    ;

    /// Hands the record to the port with the native identity `port`.
    /// `native` takes the port, the identifier of the parameter and the
    /// record, and answers with the status.
    fn set_param<F: FnOnce(usize, u32, &Self::Raw) -> MmalStatus>(
        &self,
        port: usize,
        native: F,
    ) -> (status: MmalStatus)
        requires
            call_requires(native, (port, self.spec_id(), &self.raw())),
        ensures
            call_ensures(native, (port, self.spec_id(), &self.raw()), status),
    ;

    /// Reads the record from the port with the native identity `port`.
    /// `native` takes the port, the identifier of the parameter and the
    /// record as it is, and answers with the status and with the record as
    /// the native layer filled it.
    fn get_param<F: FnOnce(usize, u32, &Self::Raw) -> (MmalStatus, Self::Raw)>(
        &mut self,
        port: usize,
        native: F,
    ) -> (status: MmalStatus)
        requires
            call_requires(native, (port, old(self).spec_id(), &old(self).raw())),
        ensures
            exists|raw: Self::Raw| #[trigger]
                call_ensures(native, (port, old(self).spec_id(), &old(self).raw()), (status, raw))
                    && *final(self) == (if status == MMAL_SUCCESS {
                    old(self).absorb(raw)
                } else {
                    *old(self)
                }),
    ;
}

/// A shape that takes a value of the type `T` in.
pub trait Apply<T>: Sized {
    /// The shape after it took `source` in.
    spec fn applied(self, source: T) -> Self;

    fn apply(&mut self, source: T)
        ensures
            *final(self) == old(self).applied(source),
    ;
}

/// A parameter of the shape `I` on a port of the kind `P`.
#[derive(Debug)]
pub struct Param<P, I> {
    i: I,
    p: PhantomData<P>,
}

impl<P, I> View for Param<P, I> {
    type V = I;

    closed spec fn view(&self) -> I {
        self.i
    }
}

/// Message of a parameter that the native layer did not take.
pub open spec fn write_message(param_name: Seq<char>, port_name: Seq<char>) -> Seq<char> {
    "Unable to set parameter "@ + param_name + " on "@ + port_name
}

/// Message of a parameter that the native layer did not give.
pub open spec fn read_message(param_name: Seq<char>, port_name: Seq<char>) -> Seq<char> {
    "Unable to get parameter "@ + param_name + " on "@ + port_name
}

impl<P, I> Param<P, I> {
    pub fn new(value: I) -> (r: Self)
        ensures
            r@ == value,
    {
        Self { i: value, p: PhantomData }
    }

    /// A parameter whose shape is made of `value`.
    pub fn from_inner<T>(value: T) -> (r: Self) where I: From<T>
        ensures
            call_ensures(I::from, (value,), r@),
    {
        Self::new(I::from(value))
    }

    /// A parameter of the default shape that has taken `value` in.
    pub fn from<T>(value: T) -> (r: Self) where I: Default + Apply<T>
        ensures
            exists|d: I| #[trigger] call_ensures(I::default, (), d) && r@ == d.applied(value),
    {
        let mut i = I::default();
        i.apply(value);
        Self::new(i)
    }

    pub fn inner(&self) -> (r: &I)
        ensures
            *r == self@,
    {
        &self.i
    }

    pub fn inner_mut(&mut self) -> (r: &mut I)
        ensures
            *r == old(self)@,
            final(self)@ == *final(r),
    {
        &mut self.i
    }

    /// The value of the parameter, as the type `T` reads it off the shape.
    pub fn get<'s, T>(&'s self) -> (r: T) where T: From<&'s I>
        ensures
            call_ensures(T::from, (&self@,), r),
    {
        T::from(&self.i)
    }

    /// The value of the parameter, as the type `T` reads it off the shape,
    /// or the error of a shape that holds no value of `T`.
    pub fn try_get<'s, T>(&'s self) -> (r: Result<T, MmalError>) where
        T: TryFrom<&'s I, Error = MmalError>,

        ensures
            call_ensures(T::try_from, (&self@,), r),
    {
        T::try_from(&self.i)
    }

    /// Replaces the shape by the one made of `t`.
    pub fn set_inner<T>(&mut self, t: T) where I: From<T>
        ensures
            call_ensures(I::from, (t,), final(self)@),
    {
        self.i = I::from(t);
    }

    /// Has the shape take `source` in.
    pub fn set<T>(&mut self, source: T) where I: Apply<T>
        ensures
            final(self)@ == old(self)@.applied(source),
    {
        self.i.apply(source)
    }

    /// The shape of the parameter.
    pub fn into(self) -> (r: I)
        ensures
            r == self@,
    {
        self.i
    }
}

impl<P: ComponentPort, I: InnerParamType> Param<P, I> {
    /// Writes the parameter to its port on the stage `target`, which must
    /// have the slot of the port. `native` is what
    /// [`InnerParamType::set_param`] takes. Where the stage has no port in the
    /// slot, nothing is asked of the native layer.
    pub fn write<F: FnOnce(usize, u32, &I::Raw) -> MmalStatus>(
        &self,
        target: &ComponentHandle<P::E>,
        native: F,
    ) -> (r: Result<(), MmalError>)
        requires
            target@.has_slot(P::spec_selector()),
            target@.port(P::spec_selector()) matches Some(port) ==> call_requires(
                native,
                (port.id, self@.spec_id(), &self@.raw()),
            ),
        ensures
            target@.port(P::spec_selector()) is None ==> r is Err && r->Err_0@ == (ErrorView {
                cause: Cause::GetPort,
                message: Seq::empty(),
            }),
            target@.port(P::spec_selector()) matches Some(port) ==> exists|status: MmalStatus|
             #[trigger]
                call_ensures(native, (port.id, self@.spec_id(), &self@.raw()), status) && outcome(
                    r,
                ) == status_outcome(status, write_message(I::spec_name(), P::spec_name())),
    {
        let port = match P::get_port(target) {
            Some(port) => port,
            None => {
                return Err(MmalError::with_cause(Cause::GetPort));
            },
        };
        let status = self.i.set_param(port.id, native);
        if status == MMAL_SUCCESS {
            Ok(())
        } else {
            Err(
                MmalError::with_status(
                    status,
                    param_message("Unable to set parameter ", I::name(), P::name()),
                ),
            )
        }
    }

    /// Reads the parameter from its port on the stage `target`, which must
    /// have the slot of the port. `native` is what
    /// [`InnerParamType::get_param`] takes. Where the stage has no port in the
    /// slot, nothing is asked of the native layer, and where the native layer
    /// refuses, the parameter stays as it is.
    pub fn read<F: FnOnce(usize, u32, &I::Raw) -> (MmalStatus, I::Raw)>(
        &mut self,
        target: &ComponentHandle<P::E>,
        native: F,
    ) -> (r: Result<(), MmalError>)
        requires
            target@.has_slot(P::spec_selector()),
            target@.port(P::spec_selector()) matches Some(port) ==> call_requires(
                native,
                (port.id, old(self)@.spec_id(), &old(self)@.raw()),
            ),
        ensures
            target@.port(P::spec_selector()) is None ==> final(self)@ == old(self)@ && r is Err
                && r->Err_0@ == (ErrorView { cause: Cause::GetPort, message: Seq::empty() }),
            target@.port(P::spec_selector()) matches Some(port) ==> exists|status: MmalStatus|
             #[trigger]
                got(native, port.id, old(self)@, status, final(self)@) && outcome(r)
                    == status_outcome(status, read_message(I::spec_name(), P::spec_name())),
    {
        let port = match P::get_port(target) {
            Some(port) => port,
            None => {
                return Err(MmalError::with_cause(Cause::GetPort));
            },
        };
        let status = self.i.get_param(port.id, native);
        assert(got(native, port.id, old(self)@, status, self@));
        if status == MMAL_SUCCESS {
            Ok(())
        } else {
            Err(
                MmalError::with_status(
                    status,
                    param_message("Unable to get parameter ", I::name(), P::name()),
                ),
            )
        }
    }
}

impl<P, I: InnerParamType> ParamIO<P> for Param<P, I> {
    open spec fn spec_name(&self) -> Seq<char> {
        I::spec_name()
    }

    fn name(&self) -> (r: &'static str) {
        I::name()
    }
}

impl<P, I: Default> Default for Param<P, I> {
    fn default() -> (r: Self)
        ensures
            call_ensures(I::default, (), r@),
    {
        Self::new(I::default())
    }
}

//------------------------------------------------------------------------------------------------------------------------------
/// Identification of a parameter.
pub trait ParId {
    spec fn spec_name() -> Seq<char>;

    spec fn spec_n() -> u32;

    /// Name of the parameter.
    fn name() -> (r: &'static str)
        ensures
            r@ == Self::spec_name(),
    ;

    /// Identifier of the parameter in the native layer.
    fn n() -> (r: u32)
        ensures
            r == Self::spec_n(),
    ;
}

//------------------------------------------------------------------------------------------------------------------------------
/// A ratio of two integers, as the native layer stores it.
#[derive(Debug, Clone, Copy, PartialEq, Eq, Structural)]
pub struct RationalValue {
    pub num: i32,
    pub den: i32,
}

/// The quotient of two integers, rounded towards zero. The divisor is not
/// zero.
pub open spec fn quotient_towards_zero(a: int, b: int) -> int {
    let magnitude = (if a < 0 {
        -a
    } else {
        a
    }) / (if b < 0 {
        -b
    } else {
        b
    });
    if (a < 0) == (b < 0) {
        magnitude
    } else {
        -magnitude
    }
}

/// The nearest value of a 32 bit integer.
pub open spec fn saturated(v: int) -> i32 {
    if v > i32::MAX {
        i32::MAX
    } else if v < i32::MIN {
        i32::MIN
    } else {
        v as i32
    }
}

/// A ratio in hundredths. A ratio over 100 is its numerator. Any other ratio
/// is scaled by 100 and rounded towards zero, and what does not fit is
/// replaced by the nearest value that does: so is a ratio over zero, which
/// counts as infinite with the sign of its numerator, and as zero where the
/// numerator is zero.
pub open spec fn scale100(r: RationalValue) -> i32 {
    if r.den == 100 {
        r.num
    } else if r.den == 0 {
        if r.num > 0 {
            i32::MAX
        } else if r.num < 0 {
            i32::MIN
        } else {
            0
        }
    } else {
        saturated(quotient_towards_zero(r.num * 100, r.den as int))
    }
}

/// A parameter that is a ratio.
#[derive(Debug)]
pub struct Rational<IDP> {
    inner: RationalValue,
    _d: PhantomData<IDP>,
}

impl<IDP> View for Rational<IDP> {
    type V = RationalValue;

    closed spec fn view(&self) -> RationalValue {
        self.inner
    }
}

impl<IDP> Rational<IDP> {
    pub fn new(num: i32, den: i32) -> (r: Self)
        ensures
            r@ == (RationalValue { num, den }),
    {
        Self { inner: RationalValue { num, den }, _d: PhantomData }
    }

    /// The ratio of `num` hundredths.
    pub fn new_scale100(num: i32) -> (r: Self)
        ensures
            r@ == (RationalValue { num, den: 100 }),
    {
        Self::new(num, 100)
    }

    pub fn get_num(&self) -> (num: i32)
        ensures
            num == self@.num,
    {
        self.inner.num
    }

    pub fn get_den(&self) -> (den: i32)
        ensures
            den == self@.den,
    {
        self.inner.den
    }

    pub fn set_num(&mut self, num: i32)
        ensures
            final(self)@ == (RationalValue { num, den: old(self)@.den }),
    {
        self.inner.num = num
    }

    pub fn set_den(&mut self, den: i32)
        ensures
            final(self)@ == (RationalValue { num: old(self)@.num, den }),
    {
        self.inner.den = den
    }

    pub fn get(&self) -> (r: (i32, i32))
        ensures
            r == (self@.num, self@.den),
    {
        (self.inner.num, self.inner.den)
    }

    pub fn set(&mut self, r: (i32, i32))
        ensures
            final(self)@ == (RationalValue { num: r.0, den: r.1 }),
    {
        self.inner.num = r.0;
        self.inner.den = r.1;
    }

    /// The ratio in hundredths, rounded towards zero.
    pub fn get_scale100(&self) -> (r: i32)
        ensures
            r == scale100(self@),
    {
        let num = self.inner.num;
        let den = self.inner.den;
        if den == 100 {
            num
        } else if den == 0 {
            if num > 0 {
                i32::MAX
            } else if num < 0 {
                i32::MIN
            } else {
                0
            }
        } else {
            let a: i64 = num as i64 * 100;
            let magnitude_a: u64 = if a < 0 {
                (-a) as u64
            } else {
                a as u64
            };
            let magnitude_b: u64 = if den < 0 {
                (-(den as i64)) as u64
            } else {
                den as u64
            };
            let magnitude: u64 = magnitude_a / magnitude_b;
            if (a < 0) == (den < 0) {
                if magnitude > i32::MAX as u64 {
                    i32::MAX
                } else {
                    magnitude as i32
                }
            } else {
                if magnitude > i32::MAX as u64 + 1 {
                    i32::MIN
                } else {
                    (-(magnitude as i64)) as i32
                }
            }
        }
    }

    /// Sets the ratio to `num` hundredths.
    pub fn set_scale100(&mut self, num: i32)
        ensures
            final(self)@ == (RationalValue { num, den: 100 }),
    {
        self.set((num, 100))
    }
}

impl<IDP> Default for Rational<IDP> {
    fn default() -> (r: Self)
        ensures
            r@ == (RationalValue { num: 0, den: 1 }),
    {
        Self::new(0, 1)
    }
}

impl<IDP: ParId> InnerParamType for Rational<IDP> {
    type Raw = RationalValue;

    open spec fn spec_name() -> Seq<char> {
        IDP::spec_name()
    }

    open spec fn spec_id(&self) -> u32 {
        IDP::spec_n()
    }

    open spec fn raw(&self) -> RationalValue {
        self@
    }

    closed spec fn absorb(self, raw: RationalValue) -> Self {
        Self { inner: raw, _d: self._d }
    }

    fn name() -> (r: &'static str) {
        IDP::name()
    }

    fn set_param<F: FnOnce(usize, u32, &RationalValue) -> MmalStatus>(
        &self,
        port: usize,
        native: F,
    ) -> (status: MmalStatus) {
        native(port, IDP::n(), &self.inner)
    }

    fn get_param<F: FnOnce(usize, u32, &RationalValue) -> (MmalStatus, RationalValue)>(
        &mut self,
        port: usize,
        native: F,
    ) -> (status: MmalStatus) {
        let (status, raw) = native(port, IDP::n(), &self.inner);
        if status == MMAL_SUCCESS {
            self.inner = raw;
        }
        status
    }
}

impl<IDP> Apply<(i32, i32)> for Rational<IDP> {
    closed spec fn applied(self, source: (i32, i32)) -> Self {
        Self { inner: RationalValue { num: source.0, den: source.1 }, _d: self._d }
    }

    fn apply(&mut self, source: (i32, i32)) {
        self.set(source)
    }
}

/// A ratio that took a pair in is the ratio of the pair, and a ratio that
/// took in what the native layer read is what was read.
pub proof fn lemma_rational_records<IDP: ParId>(r: Rational<IDP>, pair: (i32, i32), raw: RationalValue)
    ensures
        r.applied(pair)@ == (RationalValue { num: pair.0, den: pair.1 }),
        r.absorb(raw)@ == raw,
        r.absorb(r.raw()) == r,
{
}

/// A value written in hundredths reads back as it was written: the scale of
/// the native layer loses nothing of it.
pub proof fn lemma_scale100_round_trip(num: i32)
    ensures
        scale100(RationalValue { num, den: 100 }) == num,
{
}

/// What a ratio reads as in hundredths is the ratio scaled by 100 and rounded
/// towards zero: it never lies farther from zero than the exact value, and by
/// less than one hundredth nearer.
pub proof fn lemma_scale100_rounds_towards_zero(r: RationalValue)
    requires
        r.den > 0,
        i32::MIN <= quotient_towards_zero(r.num * 100, r.den as int) <= i32::MAX,
    ensures
        r.num >= 0 ==> scale100(r) * r.den <= r.num * 100 < (scale100(r) + 1) * r.den,
        r.num <= 0 ==> (scale100(r) - 1) * r.den < r.num * 100 <= scale100(r) * r.den,
{
    let a: int = r.num * 100;
    let b: int = r.den as int;
    if r.den == 100 {
        assert(scale100(r) == r.num);
        assert((r.num - 1) * 100 < r.num * 100 < (r.num + 1) * 100);
    } else {
        let m: int = if a < 0 {
            -a
        } else {
            a
        };
        let q: int = m / b;
        vstd::arithmetic::div_mod::lemma_fundamental_div_mod(m, b);
        vstd::arithmetic::div_mod::lemma_mod_bound(m, b);
        assert(m == b * q + m % b);
        assert(0 <= m % b < b);
        assert(b * q == q * b) by (nonlinear_arith);
        if a >= 0 {
            assert(scale100(r) == q);
            assert((q + 1) * b == q * b + b) by (nonlinear_arith);
            assert((q - 1) * b == q * b - b) by (nonlinear_arith);
        } else {
            assert(scale100(r) == -q);
            assert((-q) * b == -(q * b)) by (nonlinear_arith);
            assert((-q - 1) * b == -(q * b) - b) by (nonlinear_arith);
        }
    }
}

//------------------------------------------------------------------------------------------------------------------------------
/// A parameter that is an unsigned integer.
#[derive(Debug)]
pub struct Uint32<IDP> {
    inner: u32,
    _d: PhantomData<IDP>,
}

impl<IDP> View for Uint32<IDP> {
    type V = u32;

    closed spec fn view(&self) -> u32 {
        self.inner
    }
}

impl<IDP> Uint32<IDP> {
    pub fn new(value: u32) -> (r: Self)
        ensures
            r@ == value,
    {
        Self { inner: value, _d: PhantomData }
    }

    pub fn get(&self) -> (value: u32)
        ensures
            value == self@,
    {
        self.inner
    }

    pub fn set(&mut self, value: u32)
        ensures
            final(self)@ == value,
    {
        self.inner = value
    }

    pub fn inner(&self) -> (value: &u32)
        ensures
            *value == self@,
    {
        &self.inner
    }

    pub fn inner_mut(&mut self) -> (value: &mut u32)
        ensures
            *value == old(self)@,
            final(self)@ == *final(value),
    {
        &mut self.inner
    }
}

impl<IDP: ParId> InnerParamType for Uint32<IDP> {
    type Raw = u32;

    open spec fn spec_name() -> Seq<char> {
        IDP::spec_name()
    }

    open spec fn spec_id(&self) -> u32 {
        IDP::spec_n()
    }

    open spec fn raw(&self) -> u32 {
        self@
    }

    closed spec fn absorb(self, raw: u32) -> Self {
        Self { inner: raw, _d: self._d }
    }

    fn name() -> (r: &'static str) {
        IDP::name()
    }

    fn set_param<F: FnOnce(usize, u32, &u32) -> MmalStatus>(&self, port: usize, native: F) -> (status:
        MmalStatus) {
        native(port, IDP::n(), &self.inner)
    }

    fn get_param<F: FnOnce(usize, u32, &u32) -> (MmalStatus, u32)>(
        &mut self,
        port: usize,
        native: F,
    ) -> (status: MmalStatus) {
        let (status, raw) = native(port, IDP::n(), &self.inner);
        if status == MMAL_SUCCESS {
            self.inner = raw;
        }
        status
    }
}

impl<IDP> Default for Uint32<IDP> {
    fn default() -> (r: Self)
        ensures
            r@ == 0,
    {
        Self::new(0)
    }
}

impl<IDP> Apply<u32> for Uint32<IDP> {
    closed spec fn applied(self, source: u32) -> Self {
        Self { inner: source, _d: self._d }
    }

    fn apply(&mut self, source: u32) {
        self.set(source)
    }
}

impl<IDP> From<u32> for Uint32<IDP> {
    fn from(value: u32) -> (r: Self) {
        Self::new(value)
    }
}

impl<IDP> FromSpecImpl<u32> for Uint32<IDP> {
    open spec fn obeys_from_spec() -> bool {
        true
    }

    closed spec fn from_spec(value: u32) -> Self {
        Self { inner: value, _d: PhantomData }
    }
}

impl<'a, IDP> From<&'a Uint32<IDP>> for u32 {
    fn from(value: &'a Uint32<IDP>) -> (r: Self) {
        value.inner
    }
}

impl<'a, IDP> FromSpecImpl<&'a Uint32<IDP>> for u32 {
    open spec fn obeys_from_spec() -> bool {
        true
    }

    open spec fn from_spec(value: &'a Uint32<IDP>) -> Self {
        value@
    }
}

/// An unsigned parameter made of a value holds the value, and reads as it.
pub proof fn lemma_u32_conversions<IDP>(value: u32)
    ensures
        <Uint32<IDP> as FromSpec<u32>>::from_spec(value)@ == value,
        <u32 as FromSpec<&Uint32<IDP>>>::from_spec(
            &<Uint32<IDP> as FromSpec<u32>>::from_spec(value),
        ) == value,
{
}

/// An unsigned parameter that took a value in holds the value, and hands
/// the native layer the value; one that took in what the native layer read
/// holds what was read.
pub proof fn lemma_uint32_records<IDP: ParId>(p: Uint32<IDP>, value: u32)
    ensures
        p.applied(value)@ == value,
        p.applied(value).raw() == value,
        p.absorb(value)@ == value,
        p.absorb(p.applied(value).raw())@ == value,
{
}

//------------------------------------------------------------------------------------------------------------------------------
/// A parameter that is a signed integer.
#[derive(Debug)]
pub struct Int32<IDP> {
    inner: i32,
    _d: PhantomData<IDP>,
}

impl<IDP> View for Int32<IDP> {
    type V = i32;

    closed spec fn view(&self) -> i32 {
        self.inner
    }
}

impl<IDP> Int32<IDP> {
    pub fn new(value: i32) -> (r: Self)
        ensures
            r@ == value,
    {
        Self { inner: value, _d: PhantomData }
    }

    pub fn get(&self) -> (value: i32)
        ensures
            value == self@,
    {
        self.inner
    }

    pub fn set(&mut self, value: i32)
        ensures
            final(self)@ == value,
    {
        self.inner = value
    }

    pub fn inner(&self) -> (value: &i32)
        ensures
            *value == self@,
    {
        &self.inner
    }

    pub fn inner_mut(&mut self) -> (value: &mut i32)
        ensures
            *value == old(self)@,
            final(self)@ == *final(value),
    {
        &mut self.inner
    }
}

impl<IDP: ParId> InnerParamType for Int32<IDP> {
    type Raw = i32;

    open spec fn spec_name() -> Seq<char> {
        IDP::spec_name()
    }

    open spec fn spec_id(&self) -> u32 {
        IDP::spec_n()
    }

    open spec fn raw(&self) -> i32 {
        self@
    }

    closed spec fn absorb(self, raw: i32) -> Self {
        Self { inner: raw, _d: self._d }
    }

    fn name() -> (r: &'static str) {
        IDP::name()
    }

    fn set_param<F: FnOnce(usize, u32, &i32) -> MmalStatus>(&self, port: usize, native: F) -> (status:
        MmalStatus) {
        native(port, IDP::n(), &self.inner)
    }

    fn get_param<F: FnOnce(usize, u32, &i32) -> (MmalStatus, i32)>(
        &mut self,
        port: usize,
        native: F,
    ) -> (status: MmalStatus) {
        let (status, raw) = native(port, IDP::n(), &self.inner);
        if status == MMAL_SUCCESS {
            self.inner = raw;
        }
        status
    }
}

impl<IDP> Default for Int32<IDP> {
    fn default() -> (r: Self)
        ensures
            r@ == 0,
    {
        Self::new(0)
    }
}

impl<IDP> Apply<i32> for Int32<IDP> {
    closed spec fn applied(self, source: i32) -> Self {
        Self { inner: source, _d: self._d }
    }

    fn apply(&mut self, source: i32) {
        self.set(source)
    }
}

impl<IDP> From<i32> for Int32<IDP> {
    fn from(value: i32) -> (r: Self) {
        Self::new(value)
    }
}

impl<IDP> FromSpecImpl<i32> for Int32<IDP> {
    open spec fn obeys_from_spec() -> bool {
        true
    }

    closed spec fn from_spec(value: i32) -> Self {
        Self { inner: value, _d: PhantomData }
    }
}

impl<'a, IDP> From<&'a Int32<IDP>> for i32 {
    fn from(value: &'a Int32<IDP>) -> (r: Self) {
        value.inner
    }
}

impl<'a, IDP> FromSpecImpl<&'a Int32<IDP>> for i32 {
    open spec fn obeys_from_spec() -> bool {
        true
    }

    open spec fn from_spec(value: &'a Int32<IDP>) -> Self {
        value@
    }
}

/// A signed parameter made of a value holds the value, and reads as it.
pub proof fn lemma_i32_conversions<IDP>(value: i32)
    ensures
        <Int32<IDP> as FromSpec<i32>>::from_spec(value)@ == value,
        <i32 as FromSpec<&Int32<IDP>>>::from_spec(
            &<Int32<IDP> as FromSpec<i32>>::from_spec(value),
        ) == value,
{
}

/// A signed parameter that took a value in holds the value, and hands the
/// native layer the value; one that took in what the native layer read
/// holds what was read.
pub proof fn lemma_int32_records<IDP: ParId>(p: Int32<IDP>, value: i32)
    ensures
        p.applied(value)@ == value,
        p.applied(value).raw() == value,
        p.absorb(value)@ == value,
        p.absorb(p.applied(value).raw())@ == value,
{
}

//------------------------------------------------------------------------------------------------------------------------------
/// A truth value as the native layer stores it: an integer, of which zero
/// is false and everything else true.
#[derive(Debug, Clone, Copy, PartialEq, Eq, Structural)]
pub struct NativeBool {
    pub value: i32,
}

/// The native integer that stands for a truth value: one for true, zero for
/// false.
pub open spec fn native_bool(value: bool) -> NativeBool {
    NativeBool {
        value: if value {
            1
        } else {
            0
        },
    }
}

/// A parameter that is a truth value.
#[derive(Debug)]
pub struct Boolean<IDP> {
    inner: bool,
    _d: PhantomData<IDP>,
}

impl<IDP> View for Boolean<IDP> {
    type V = bool;

    closed spec fn view(&self) -> bool {
        self.inner
    }
}

impl<IDP> Boolean<IDP> {
    pub fn new(value: bool) -> (r: Self)
        ensures
            r@ == value,
    {
        Self { inner: value, _d: PhantomData }
    }

    pub fn get(&self) -> (value: bool)
        ensures
            value == self@,
    {
        self.inner
    }

    pub fn set(&mut self, value: bool)
        ensures
            final(self)@ == value,
    {
        self.inner = value
    }

    pub fn inner(&self) -> (value: &bool)
        ensures
            *value == self@,
    {
        &self.inner
    }

    pub fn inner_mut(&mut self) -> (value: &mut bool)
        ensures
            *value == old(self)@,
            final(self)@ == *final(value),
    {
        &mut self.inner
    }
}

impl<IDP: ParId> InnerParamType for Boolean<IDP> {
    type Raw = NativeBool;

    open spec fn spec_name() -> Seq<char> {
        IDP::spec_name()
    }

    open spec fn spec_id(&self) -> u32 {
        IDP::spec_n()
    }

    /// True crosses the boundary as one, false as zero.
    open spec fn raw(&self) -> NativeBool {
        native_bool(self@)
    }

    /// Whatever is not zero reads as true.
    closed spec fn absorb(self, raw: NativeBool) -> Self {
        Self { inner: raw.value != 0, _d: self._d }
    }

    fn name() -> (r: &'static str) {
        IDP::name()
    }

    fn set_param<F: FnOnce(usize, u32, &NativeBool) -> MmalStatus>(&self, port: usize, native: F) -> (status:
        MmalStatus) {
        let w = NativeBool {
            value: if self.inner {
                1
            } else {
                0
            },
        };
        native(port, IDP::n(), &w)
    }

    fn get_param<F: FnOnce(usize, u32, &NativeBool) -> (MmalStatus, NativeBool)>(
        &mut self,
        port: usize,
        native: F,
    ) -> (status: MmalStatus) {
        let w = NativeBool {
            value: if self.inner {
                1
            } else {
                0
            },
        };
        let (status, raw) = native(port, IDP::n(), &w);
        if status == MMAL_SUCCESS {
            self.inner = raw.value != 0;
        }
        status
    }
}

impl<IDP> Default for Boolean<IDP> {
    fn default() -> (r: Self)
        ensures
            r@ == false,
    {
        Self::new(false)
    }
}

impl<IDP> Apply<bool> for Boolean<IDP> {
    closed spec fn applied(self, source: bool) -> Self {
        Self { inner: source, _d: self._d }
    }

    fn apply(&mut self, source: bool) {
        self.set(source)
    }
}

impl<IDP> From<bool> for Boolean<IDP> {
    fn from(value: bool) -> (r: Self) {
        Self::new(value)
    }
}

impl<IDP> FromSpecImpl<bool> for Boolean<IDP> {
    open spec fn obeys_from_spec() -> bool {
        true
    }

    closed spec fn from_spec(value: bool) -> Self {
        Self { inner: value, _d: PhantomData }
    }
}

impl<'a, IDP> From<&'a Boolean<IDP>> for bool {
    fn from(value: &'a Boolean<IDP>) -> (r: Self) {
        value.inner
    }
}

impl<'a, IDP> FromSpecImpl<&'a Boolean<IDP>> for bool {
    open spec fn obeys_from_spec() -> bool {
        true
    }

    open spec fn from_spec(value: &'a Boolean<IDP>) -> Self {
        value@
    }
}

/// A truth parameter made of a value holds the value, and reads as it.
pub proof fn lemma_bool_conversions<IDP>(value: bool)
    ensures
        <Boolean<IDP> as FromSpec<bool>>::from_spec(value)@ == value,
        <bool as FromSpec<&Boolean<IDP>>>::from_spec(
            &<Boolean<IDP> as FromSpec<bool>>::from_spec(value),
        ) == value,
{
}

/// A truth value survives the way to the native layer and back: the integer
/// that it crosses the boundary as reads as the same truth value. And
/// whatever integer the native layer answers with reads as a truth value.
pub proof fn lemma_boolean_round_trip<IDP: ParId>(p: Boolean<IDP>, value: bool, raw: NativeBool)
    ensures
        p.applied(value)@ == value,
        p.absorb(p.applied(value).raw())@ == value,
        p.absorb(raw)@ == (raw.value != 0),
{
}

//------------------------------------------------------------------------------------------------------------------------------
/// Head of every native parameter record: the identifier of the parameter and
/// the size of the record in bytes, the head included.
#[derive(Debug, Clone, Copy, PartialEq, Eq, Structural)]
pub struct ParameterHeader {
    pub id: u32,
    pub size: u32,
}

/// Whether two strings hold the same characters.
pub fn same_text(a: &str, b: &str) -> (r: bool)
    ensures
        r == (a@ == b@),
{
    let x = a.to_owned();
    let y = b.to_owned();
    x == y
}

/// A closed set of named values, each of which the native layer knows as an
/// integer of its own.
pub trait NativeEnum: Sized + Copy {
    /// The native integer of a value.
    spec fn native(self) -> u32;

    /// The value of a native integer, if it is the integer of one.
    spec fn of_native(value: u32) -> Option<Self>;

    /// The value of a name, if it is the name of one. Names are matched
    /// letter for letter.
    spec fn of_label(label: Seq<char>) -> Option<Self>;

    /// The name of a value.
    spec fn spec_label(self) -> Seq<char>;

    spec fn spec_enum_name() -> Seq<char>;

    fn to_native(self) -> (v: u32)
        ensures
            v == self.native(),
    ;

    fn from_native(value: u32) -> (e: Option<Self>)
        ensures
            e == Self::of_native(value),
    ;

    fn from_label(label: &str) -> (e: Option<Self>)
        ensures
            e == Self::of_label(label@),
    ;

    fn label(self) -> (r: &'static str)
        ensures
            r@ == self.spec_label(),
    ;

    /// Name of the set.
    fn enum_name() -> (r: &'static str)
        ensures
            r@ == Self::spec_enum_name(),
    ;

    /// An integer has a value only if it is the integer of that value.
    proof fn lemma_of_native(value: u32)
        ensures
            Self::of_native(value) matches Some(e) ==> e.native() == value,
    ;

    /// The integer of a value has that value.
    proof fn lemma_native_round_trip(e: Self)
        ensures
            Self::of_native(e.native()) == Some(e),
    ;
}

/// Message of an integer that is the integer of no value.
pub open spec fn binary_message(value: u32, enum_name: Seq<char>) -> Seq<char> {
    "invalid binary value "@ + decimal(value as nat) + " for `"@ + enum_name + "`"@
}

/// Message of a name that is the name of no value.
pub open spec fn string_message(label: Seq<char>, enum_name: Seq<char>) -> Seq<char> {
    "invalid string value `"@ + label + "` for `"@ + enum_name + "`"@
}

/// How the reading of a native integer as a value of `E` ends: with the
/// value of the integer, or, for every other integer, with the invalid-enum
/// error.
pub open spec fn decoded<E: NativeEnum>(value: u32, r: Result<E, MmalError>) -> bool {
    match E::of_native(value) {
        Some(e) => r == Ok::<E, MmalError>(e),
        None => r is Err && r->Err_0@ == (ErrorView {
            cause: Cause::InvalidEnumValue,
            message: binary_message(value, E::spec_enum_name()),
        }),
    }
}

/// How the reading of a name as a value of `E` ends: with the value of the
/// name, or, for every other string, with the invalid-enum error.
pub open spec fn parsed<E: NativeEnum>(label: Seq<char>, r: Result<E, MmalError>) -> bool {
    match E::of_label(label) {
        Some(e) => r == Ok::<E, MmalError>(e),
        None => r is Err && r->Err_0@ == (ErrorView {
            cause: Cause::InvalidEnumValue,
            message: string_message(label, E::spec_enum_name()),
        }),
    }
}

/// The result of reading a native integer as a value of `E`, with some
/// invalid-enum error for an integer that has no value.
pub open spec fn decoded_value<E: NativeEnum>(value: u32) -> Result<E, MmalError> {
    match E::of_native(value) {
        Some(e) => Ok(e),
        None => Err(choose|e: MmalError| e@.cause == Cause::InvalidEnumValue),
    }
}

/// Reads a native integer as a value of `E`.
pub fn decode<E: NativeEnum>(value: u32) -> (r: Result<E, MmalError>)
    ensures
        decoded(value, r),
{
    match E::from_native(value) {
        Some(e) => Ok(e),
        None => {
            let mut message = String::from_str("invalid binary value ");
            let number = decimal_text(value);
            message.append(number.as_str());
            message.append(" for `");
            message.append(E::enum_name());
            message.append("`");
            Err(MmalError::new(Cause::InvalidEnumValue, message))
        },
    }
}

/// Reads a name as a value of `E`.
pub fn parse<E: NativeEnum>(label: &str) -> (r: Result<E, MmalError>)
    ensures
        parsed(label@, r),
{
    match E::from_label(label) {
        Some(e) => Ok(e),
        None => {
            let mut message = String::from_str("invalid string value `");
            message.append(label);
            message.append("` for `");
            message.append(E::enum_name());
            message.append("`");
            Err(MmalError::new(Cause::InvalidEnumValue, message))
        },
    }
}

/// A native integer reads as a value exactly if it is the integer of one of
/// the values; every other integer ends in the invalid-enum error. And the
/// integer of a value reads as that value.
pub proof fn lemma_decode_declared_values<E: NativeEnum>(value: u32, r: Result<E, MmalError>)
    requires
        decoded(value, r),
    ensures
        r is Ok <==> exists|e: E| #[trigger] e.native() == value,
        r matches Ok(e) ==> e.native() == value,
        r matches Err(e) ==> e@.cause == Cause::InvalidEnumValue,
{
    E::lemma_of_native(value);
    if E::of_native(value) is None {
        if exists|e: E| #[trigger] e.native() == value {
            let e = choose|e: E| #[trigger] e.native() == value;
            E::lemma_native_round_trip(e);
        }
    } else {
        let e = E::of_native(value)->Some_0;
        assert(e.native() == value);
    }
}

/// The integer of a value reads as that value.
pub proof fn lemma_decode_round_trip<E: NativeEnum>(e: E, r: Result<E, MmalError>)
    requires
        decoded(e.native(), r),
    ensures
        r == Ok::<E, MmalError>(e),
{
    E::lemma_native_round_trip(e);
}

/// The native record of an enumerated parameter.
#[derive(Debug, Clone, Copy, PartialEq, Eq, Structural)]
pub struct EnumBlock {
    pub hdr: ParameterHeader,
    pub value: u32,
}

/// A parameter that is a value of the enumeration `E`, under the identifier
/// `IDP`.
#[derive(Debug)]
pub struct Enumerated<E, IDP> {
    inner: EnumBlock,
    e: PhantomData<E>,
    d: PhantomData<IDP>,
}

impl<E, IDP> View for Enumerated<E, IDP> {
    type V = EnumBlock;

    closed spec fn view(&self) -> EnumBlock {
        self.inner
    }
}

impl<E: NativeEnum, IDP: ParId> Enumerated<E, IDP> {
    /// The parameter with the value `value`.
    pub fn new(value: E) -> (r: Self)
        ensures
            r@ == (EnumBlock {
                hdr: ParameterHeader { id: IDP::spec_n(), size: MMAL_PARAMETER_ENUM_SIZE },
                value: value.native(),
            }),
    {
        Self {
            inner: EnumBlock {
                hdr: ParameterHeader { id: IDP::n(), size: MMAL_PARAMETER_ENUM_SIZE },
                value: value.to_native(),
            },
            e: PhantomData,
            d: PhantomData,
        }
    }

    /// The value of the parameter, or the invalid-enum error where the
    /// record holds an integer that is the integer of no value.
    pub fn value(&self) -> (r: Result<E, MmalError>)
        ensures
            decoded(self@.value, r),
    {
        decode(self.inner.value)
    }

    /// The record of the parameter.
    pub fn block(&self) -> (b: EnumBlock)
        ensures
            b == self@,
    {
        self.inner
    }
}

impl<E: NativeEnum, IDP: ParId> Default for Enumerated<E, IDP> {
    fn default() -> (r: Self)
        ensures
            r@ == (EnumBlock {
                hdr: ParameterHeader { id: IDP::spec_n(), size: MMAL_PARAMETER_ENUM_SIZE },
                value: 0,
            }),
    {
        Self {
            inner: EnumBlock {
                hdr: ParameterHeader { id: IDP::n(), size: MMAL_PARAMETER_ENUM_SIZE },
                value: 0,
            },
            e: PhantomData,
            d: PhantomData,
        }
    }
}

impl<E: NativeEnum, IDP: ParId> Apply<E> for Enumerated<E, IDP> {
    closed spec fn applied(self, source: E) -> Self {
        Self { inner: EnumBlock { hdr: self.inner.hdr, value: source.native() }, e: self.e, d: self.d }
    }

    fn apply(&mut self, source: E) {
        self.inner.value = source.to_native();
    }
}

impl<E: NativeEnum, IDP: ParId> InnerParamType for Enumerated<E, IDP> {
    type Raw = EnumBlock;

    open spec fn spec_name() -> Seq<char> {
        E::spec_enum_name()
    }

    open spec fn spec_id(&self) -> u32 {
        self@.hdr.id
    }

    open spec fn raw(&self) -> EnumBlock {
        self@
    }

    closed spec fn absorb(self, raw: EnumBlock) -> Self {
        Self { inner: raw, e: self.e, d: self.d }
    }

    fn name() -> (r: &'static str) {
        E::enum_name()
    }

    fn set_param<F: FnOnce(usize, u32, &EnumBlock) -> MmalStatus>(
        &self,
        port: usize,
        native: F,
    ) -> (status: MmalStatus) {
        native(port, self.inner.hdr.id, &self.inner)
    }

    fn get_param<F: FnOnce(usize, u32, &EnumBlock) -> (MmalStatus, EnumBlock)>(
        &mut self,
        port: usize,
        native: F,
    ) -> (status: MmalStatus) {
        let (status, raw) = native(port, self.inner.hdr.id, &self.inner);
        if status == MMAL_SUCCESS {
            self.inner = raw;
        }
        status
    }
}

/// An enumerated parameter that took a value in reads as that value, before
/// and after the way to the native layer and back.
pub proof fn lemma_enumerated_round_trip<E: NativeEnum, IDP: ParId>(
    p: Enumerated<E, IDP>,
    value: E,
    r: Result<E, MmalError>,
)
    requires
        decoded(p.absorb(p.applied(value).raw())@.value, r),
    ensures
        p.applied(value)@.value == value.native(),
        p.applied(value)@.hdr == p@.hdr,
        r == Ok::<E, MmalError>(value),
{
    E::lemma_native_round_trip(value);
}

} // verus!
