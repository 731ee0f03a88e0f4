//! Probes: functions that a rocket runs where it stops.

use vstd::prelude::*;
use core::marker::PhantomData;
use std::sync::Arc;
use crate::space::debris::{Debris, Rock};

verus! {

pub struct SystemProbeTupleMarker;

/// One probe, or several in a tuple.
pub trait IntoProbeConfigs<M>: Sized {
    type Item;
}

impl<M0, S0> IntoProbeConfigs<(SystemProbeTupleMarker, M0)> for (S0,) where
    S0: IntoProbeConfigs<M0>,
 {
    type Item = (S0::Item,);
}

impl<M0, S0, M1, S1> IntoProbeConfigs<(SystemProbeTupleMarker, M0, M1)> for (S0, S1) where
    S0: IntoProbeConfigs<M0>,
    S1: IntoProbeConfigs<M1>,
 {
    type Item = (S0::Item, S1::Item);
}

impl<M0, S0, M1, S1, M2, S2> IntoProbeConfigs<(SystemProbeTupleMarker, M0, M1, M2)>
    for (S0, S1, S2) where
    S0: IntoProbeConfigs<M0>,
    S1: IntoProbeConfigs<M1>,
    S2: IntoProbeConfigs<M2>,
 {
    type Item = (S0::Item, S1::Item, S2::Item);
}

impl<M0, S0, M1, S1, M2, S2, M3, S3> IntoProbeConfigs<(SystemProbeTupleMarker, M0, M1, M2, M3)>
    for (S0, S1, S2, S3) where
    S0: IntoProbeConfigs<M0>,
    S1: IntoProbeConfigs<M1>,
    S2: IntoProbeConfigs<M2>,
    S3: IntoProbeConfigs<M3>,
 {
    type Item = (S0::Item, S1::Item, S2::Item, S3::Item);
}

impl<M0, S0, M1, S1, M2, S2, M3, S3, M4, S4> IntoProbeConfigs<(SystemProbeTupleMarker, M0, M1, M2, M3, M4)>
    for (S0, S1, S2, S3, S4) where
    S0: IntoProbeConfigs<M0>,
    S1: IntoProbeConfigs<M1>,
    S2: IntoProbeConfigs<M2>,
    S3: IntoProbeConfigs<M3>,
    S4: IntoProbeConfigs<M4>,
 {
    type Item = (S0::Item, S1::Item, S2::Item, S3::Item, S4::Item);
}

impl<M0, S0, M1, S1, M2, S2, M3, S3, M4, S4, M5, S5> IntoProbeConfigs<(SystemProbeTupleMarker, M0, M1, M2, M3, M4, M5)>
    for (S0, S1, S2, S3, S4, S5) where
    S0: IntoProbeConfigs<M0>,
    S1: IntoProbeConfigs<M1>,
    S2: IntoProbeConfigs<M2>,
    S3: IntoProbeConfigs<M3>,
    S4: IntoProbeConfigs<M4>,
    S5: IntoProbeConfigs<M5>,
 {
    type Item = (S0::Item, S1::Item, S2::Item, S3::Item, S4::Item, S5::Item);
}

impl<M0, S0, M1, S1, M2, S2, M3, S3, M4, S4, M5, S5, M6, S6> IntoProbeConfigs<(SystemProbeTupleMarker, M0, M1, M2, M3, M4, M5, M6)>
    for (S0, S1, S2, S3, S4, S5, S6) where
    S0: IntoProbeConfigs<M0>,
    S1: IntoProbeConfigs<M1>,
    S2: IntoProbeConfigs<M2>,
    S3: IntoProbeConfigs<M3>,
    S4: IntoProbeConfigs<M4>,
    S5: IntoProbeConfigs<M5>,
    S6: IntoProbeConfigs<M6>,
 {
    type Item = (S0::Item, S1::Item, S2::Item, S3::Item, S4::Item, S5::Item, S6::Item);
}

impl<M0, S0, M1, S1, M2, S2, M3, S3, M4, S4, M5, S5, M6, S6, M7, S7> IntoProbeConfigs<(SystemProbeTupleMarker, M0, M1, M2, M3, M4, M5, M6, M7)>
    for (S0, S1, S2, S3, S4, S5, S6, S7) where
    S0: IntoProbeConfigs<M0>,
    S1: IntoProbeConfigs<M1>,
    S2: IntoProbeConfigs<M2>,
    S3: IntoProbeConfigs<M3>,
    S4: IntoProbeConfigs<M4>,
    S5: IntoProbeConfigs<M5>,
    S6: IntoProbeConfigs<M6>,
    S7: IntoProbeConfigs<M7>,
 {
    type Item = (S0::Item, S1::Item, S2::Item, S3::Item, S4::Item, S5::Item, S6::Item, S7::Item);
}

impl<M0, S0, M1, S1, M2, S2, M3, S3, M4, S4, M5, S5, M6, S6, M7, S7, M8, S8> IntoProbeConfigs<(SystemProbeTupleMarker, M0, M1, M2, M3, M4, M5, M6, M7, M8)>
    for (S0, S1, S2, S3, S4, S5, S6, S7, S8) where
    S0: IntoProbeConfigs<M0>,
    S1: IntoProbeConfigs<M1>,
    S2: IntoProbeConfigs<M2>,
    S3: IntoProbeConfigs<M3>,
    S4: IntoProbeConfigs<M4>,
    S5: IntoProbeConfigs<M5>,
    S6: IntoProbeConfigs<M6>,
    S7: IntoProbeConfigs<M7>,
    S8: IntoProbeConfigs<M8>,
 {
    type Item = (S0::Item, S1::Item, S2::Item, S3::Item, S4::Item, S5::Item, S6::Item, S7::Item, S8::Item);
}

impl<M0, S0, M1, S1, M2, S2, M3, S3, M4, S4, M5, S5, M6, S6, M7, S7, M8, S8, M9, S9> IntoProbeConfigs<(SystemProbeTupleMarker, M0, M1, M2, M3, M4, M5, M6, M7, M8, M9)>
    for (S0, S1, S2, S3, S4, S5, S6, S7, S8, S9) where
    S0: IntoProbeConfigs<M0>,
    S1: IntoProbeConfigs<M1>,
    S2: IntoProbeConfigs<M2>,
    S3: IntoProbeConfigs<M3>,
    S4: IntoProbeConfigs<M4>,
    S5: IntoProbeConfigs<M5>,
    S6: IntoProbeConfigs<M6>,
    S7: IntoProbeConfigs<M7>,
    S8: IntoProbeConfigs<M8>,
    S9: IntoProbeConfigs<M9>,
 {
    type Item = (
        S0::Item, S1::Item, S2::Item, S3::Item, S4::Item, S5::Item, S6::Item, S7::Item, S8::Item,
        S9::Item,
    );
}

pub trait IntoProbe<In, Out, Marker> {
    type Probe: Probe<In = In, Out = Out>;
}

impl<Marker, F> IntoProbeConfigs<Marker> for F where F: IntoProbe<(), (), Marker> {
    type Item = <F::Probe as Probe>::Item;
}

pub trait Probe {
    type In;

    type Out;

    type Item;
}

impl<T> IntoProbe<<T as Probe>::In, <T as Probe>::Out, ()> for T where T: Probe {
    type Probe = T;
}

pub struct IsProbeFunction;

pub struct IsExclusiveProbeFunction;

/// What a probe function can take as a parameter.
pub trait ProbeParam {
    type Item;
}

impl ProbeParam for () {
    type Item = ();
}

impl<A0: ProbeParam> ProbeParam for (A0,) {
    type Item = (A0::Item,);
}

impl<A0: ProbeParam, A1: ProbeParam> ProbeParam for (A0, A1) {
    type Item = (A0::Item, A1::Item);
}

impl<A0: ProbeParam, A1: ProbeParam, A2: ProbeParam> ProbeParam for (A0, A1, A2) {
    type Item = (A0::Item, A1::Item, A2::Item);
}

impl<A0: ProbeParam, A1: ProbeParam, A2: ProbeParam, A3: ProbeParam> ProbeParam
    for (A0, A1, A2, A3) {
    type Item = (A0::Item, A1::Item, A2::Item, A3::Item);
}

impl<A0: ProbeParam, A1: ProbeParam, A2: ProbeParam, A3: ProbeParam, A4: ProbeParam> ProbeParam
    for (A0, A1, A2, A3, A4) {
    type Item = (A0::Item, A1::Item, A2::Item, A3::Item, A4::Item);
}

impl<A0: ProbeParam, A1: ProbeParam, A2: ProbeParam, A3: ProbeParam, A4: ProbeParam, A5: ProbeParam> ProbeParam
    for (A0, A1, A2, A3, A4, A5) {
    type Item = (A0::Item, A1::Item, A2::Item, A3::Item, A4::Item, A5::Item);
}

impl<
    A0: ProbeParam, A1: ProbeParam, A2: ProbeParam, A3: ProbeParam, A4: ProbeParam, A5: ProbeParam,
    A6: ProbeParam,
> ProbeParam
    for (A0, A1, A2, A3, A4, A5, A6) {
    type Item = (A0::Item, A1::Item, A2::Item, A3::Item, A4::Item, A5::Item, A6::Item);
}

impl<
    A0: ProbeParam, A1: ProbeParam, A2: ProbeParam, A3: ProbeParam, A4: ProbeParam, A5: ProbeParam,
    A6: ProbeParam, A7: ProbeParam,
> ProbeParam
    for (A0, A1, A2, A3, A4, A5, A6, A7) {
    type Item = (A0::Item, A1::Item, A2::Item, A3::Item, A4::Item, A5::Item, A6::Item, A7::Item);
}

impl<
    A0: ProbeParam, A1: ProbeParam, A2: ProbeParam, A3: ProbeParam, A4: ProbeParam, A5: ProbeParam,
    A6: ProbeParam, A7: ProbeParam, A8: ProbeParam,
> ProbeParam
    for (A0, A1, A2, A3, A4, A5, A6, A7, A8) {
    type Item = (A0::Item, A1::Item, A2::Item, A3::Item, A4::Item, A5::Item, A6::Item, A7::Item, A8::Item);
}

impl<
    A0: ProbeParam, A1: ProbeParam, A2: ProbeParam, A3: ProbeParam, A4: ProbeParam, A5: ProbeParam,
    A6: ProbeParam, A7: ProbeParam, A8: ProbeParam, A9: ProbeParam,
> ProbeParam
    for (A0, A1, A2, A3, A4, A5, A6, A7, A8, A9) {
    type Item = (
        A0::Item, A1::Item, A2::Item, A3::Item, A4::Item, A5::Item, A6::Item, A7::Item, A8::Item,
        A9::Item,
    );
}

impl<
    A0: ProbeParam, A1: ProbeParam, A2: ProbeParam, A3: ProbeParam, A4: ProbeParam, A5: ProbeParam,
    A6: ProbeParam, A7: ProbeParam, A8: ProbeParam, A9: ProbeParam, A10: ProbeParam,
> ProbeParam
    for (A0, A1, A2, A3, A4, A5, A6, A7, A8, A9, A10) {
    type Item = (
        A0::Item, A1::Item, A2::Item, A3::Item, A4::Item, A5::Item, A6::Item, A7::Item, A8::Item,
        A9::Item, A10::Item,
    );
}

impl<
    A0: ProbeParam, A1: ProbeParam, A2: ProbeParam, A3: ProbeParam, A4: ProbeParam, A5: ProbeParam,
    A6: ProbeParam, A7: ProbeParam, A8: ProbeParam, A9: ProbeParam, A10: ProbeParam,
    A11: ProbeParam,
> ProbeParam
    for (A0, A1, A2, A3, A4, A5, A6, A7, A8, A9, A10, A11) {
    type Item = (
        A0::Item, A1::Item, A2::Item, A3::Item, A4::Item, A5::Item, A6::Item, A7::Item, A8::Item,
        A9::Item, A10::Item, A11::Item,
    );
}

impl<
    A0: ProbeParam, A1: ProbeParam, A2: ProbeParam, A3: ProbeParam, A4: ProbeParam, A5: ProbeParam,
    A6: ProbeParam, A7: ProbeParam, A8: ProbeParam, A9: ProbeParam, A10: ProbeParam,
    A11: ProbeParam, A12: ProbeParam,
> ProbeParam
    for (A0, A1, A2, A3, A4, A5, A6, A7, A8, A9, A10, A11, A12) {
    type Item = (
        A0::Item, A1::Item, A2::Item, A3::Item, A4::Item, A5::Item, A6::Item, A7::Item, A8::Item,
        A9::Item, A10::Item, A11::Item, A12::Item,
    );
}

impl<
    A0: ProbeParam, A1: ProbeParam, A2: ProbeParam, A3: ProbeParam, A4: ProbeParam, A5: ProbeParam,
    A6: ProbeParam, A7: ProbeParam, A8: ProbeParam, A9: ProbeParam, A10: ProbeParam,
    A11: ProbeParam, A12: ProbeParam, A13: ProbeParam,
> ProbeParam
    for (A0, A1, A2, A3, A4, A5, A6, A7, A8, A9, A10, A11, A12, A13) {
    type Item = (
        A0::Item, A1::Item, A2::Item, A3::Item, A4::Item, A5::Item, A6::Item, A7::Item, A8::Item,
        A9::Item, A10::Item, A11::Item, A12::Item, A13::Item,
    );
}

impl<
    A0: ProbeParam, A1: ProbeParam, A2: ProbeParam, A3: ProbeParam, A4: ProbeParam, A5: ProbeParam,
    A6: ProbeParam, A7: ProbeParam, A8: ProbeParam, A9: ProbeParam, A10: ProbeParam,
    A11: ProbeParam, A12: ProbeParam, A13: ProbeParam, A14: ProbeParam,
> ProbeParam
    for (A0, A1, A2, A3, A4, A5, A6, A7, A8, A9, A10, A11, A12, A13, A14) {
    type Item = (
        A0::Item, A1::Item, A2::Item, A3::Item, A4::Item, A5::Item, A6::Item, A7::Item, A8::Item,
        A9::Item, A10::Item, A11::Item, A12::Item, A13::Item, A14::Item,
    );
}

impl<
    A0: ProbeParam, A1: ProbeParam, A2: ProbeParam, A3: ProbeParam, A4: ProbeParam, A5: ProbeParam,
    A6: ProbeParam, A7: ProbeParam, A8: ProbeParam, A9: ProbeParam, A10: ProbeParam,
    A11: ProbeParam, A12: ProbeParam, A13: ProbeParam, A14: ProbeParam, A15: ProbeParam,
> ProbeParam
    for (A0, A1, A2, A3, A4, A5, A6, A7, A8, A9, A10, A11, A12, A13, A14, A15) {
    type Item = (
        A0::Item, A1::Item, A2::Item, A3::Item, A4::Item, A5::Item, A6::Item, A7::Item, A8::Item,
        A9::Item, A10::Item, A11::Item, A12::Item, A13::Item, A14::Item, A15::Item,
    );
}

pub struct FunctionProbe<M, F: ProbeFunction<M>>(PhantomData<Arc<(M, F)>>);

impl<Marker, F> Probe for FunctionProbe<Marker, F> where F: ProbeFunction<Marker> {
    type In = F::In;

    type Out = F::Out;

    type Item = <F::Param as ProbeParam>::Item;
}

pub trait ProbeFunction<M>: Sized {
    type In;

    type Out;

    type Param: ProbeParam;
}

impl<Marker, F> IntoProbe<F::In, F::Out, (IsProbeFunction, Marker)> for F where
    F: ProbeFunction<Marker>,
 {
    type Probe = FunctionProbe<Marker, F>;
}

impl<Marker, F> IntoProbe<F::In, F::Out, (IsExclusiveProbeFunction, Marker)> for F where
    F: ExclusiveProbeFunction<Marker>,
 {
    type Probe = ExclusiveFunctionProbe<Marker, F>;
}

impl<Out, Func> ProbeFunction<((), Out)> for Func where
    for <'a>&'a mut Func: FnMut() -> Out + Send + Sync,
    (): Send + Sync,
    Out: 'static,
 {
    type In = ();

    type Out = Out;

    type Param = ();
}

impl<Out, Func, F0: ProbeParam> ProbeFunction<((F0,), Out)> for Func where
    for <'a>&'a mut Func: FnMut(F0) -> Out + Send + Sync,
    (F0,): Send + Sync,
    Out: 'static,
 {
    type In = ();

    type Out = Out;

    type Param = (F0,);
}

impl<Out, Func, F0: ProbeParam, F1: ProbeParam> ProbeFunction<((F0, F1), Out)> for Func where
    for <'a>&'a mut Func: FnMut(F0, F1) -> Out + Send + Sync,
    (F0, F1): Send + Sync,
    Out: 'static,
 {
    type In = ();

    type Out = Out;

    type Param = (F0, F1);
}

impl<Out, Func, F0: ProbeParam, F1: ProbeParam, F2: ProbeParam> ProbeFunction<((F0, F1, F2), Out)>
    for Func where
    for <'a>&'a mut Func: FnMut(F0, F1, F2) -> Out + Send + Sync,
    (F0, F1, F2): Send + Sync,
    Out: 'static,
 {
    type In = ();

    type Out = Out;

    type Param = (F0, F1, F2);
}

impl<Out, Func, F0: ProbeParam, F1: ProbeParam, F2: ProbeParam, F3: ProbeParam> ProbeFunction<((F0, F1, F2, F3), Out)>
    for Func where
    for <'a>&'a mut Func: FnMut(F0, F1, F2, F3) -> Out + Send + Sync,
    (F0, F1, F2, F3): Send + Sync,
    Out: 'static,
 {
    type In = ();

    type Out = Out;

    type Param = (F0, F1, F2, F3);
}

impl<Out, Func, F0: ProbeParam, F1: ProbeParam, F2: ProbeParam, F3: ProbeParam, F4: ProbeParam> ProbeFunction<((F0, F1, F2, F3, F4), Out)>
    for Func where
    for <'a>&'a mut Func: FnMut(F0, F1, F2, F3, F4) -> Out + Send + Sync,
    (F0, F1, F2, F3, F4): Send + Sync,
    Out: 'static,
 {
    type In = ();

    type Out = Out;

    type Param = (F0, F1, F2, F3, F4);
}

impl<
    Out, Func, F0: ProbeParam, F1: ProbeParam, F2: ProbeParam, F3: ProbeParam, F4: ProbeParam,
    F5: ProbeParam,
> ProbeFunction<((F0, F1, F2, F3, F4, F5), Out)>
    for Func where
    for <'a>&'a mut Func: FnMut(F0, F1, F2, F3, F4, F5) -> Out + Send + Sync,
    (F0, F1, F2, F3, F4, F5): Send + Sync,
    Out: 'static,
 {
    type In = ();

    type Out = Out;

    type Param = (F0, F1, F2, F3, F4, F5);
}

impl<
    Out, Func, F0: ProbeParam, F1: ProbeParam, F2: ProbeParam, F3: ProbeParam, F4: ProbeParam,
    F5: ProbeParam, F6: ProbeParam,
> ProbeFunction<((F0, F1, F2, F3, F4, F5, F6), Out)>
    for Func where
    for <'a>&'a mut Func: FnMut(F0, F1, F2, F3, F4, F5, F6) -> Out + Send + Sync,
    (F0, F1, F2, F3, F4, F5, F6): Send + Sync,
    Out: 'static,
 {
    type In = ();

    type Out = Out;

    type Param = (F0, F1, F2, F3, F4, F5, F6);
}

impl<
    Out, Func, F0: ProbeParam, F1: ProbeParam, F2: ProbeParam, F3: ProbeParam, F4: ProbeParam,
    F5: ProbeParam, F6: ProbeParam, F7: ProbeParam,
> ProbeFunction<((F0, F1, F2, F3, F4, F5, F6, F7), Out)>
    for Func where
    for <'a>&'a mut Func: FnMut(F0, F1, F2, F3, F4, F5, F6, F7) -> Out + Send + Sync,
    (F0, F1, F2, F3, F4, F5, F6, F7): Send + Sync,
    Out: 'static,
 {
    type In = ();

    type Out = Out;

    type Param = (F0, F1, F2, F3, F4, F5, F6, F7);
}

impl<
    Out, Func, F0: ProbeParam, F1: ProbeParam, F2: ProbeParam, F3: ProbeParam, F4: ProbeParam,
    F5: ProbeParam, F6: ProbeParam, F7: ProbeParam, F8: ProbeParam,
> ProbeFunction<((F0, F1, F2, F3, F4, F5, F6, F7, F8), Out)>
    for Func where
    for <'a>&'a mut Func: FnMut(F0, F1, F2, F3, F4, F5, F6, F7, F8) -> Out + Send + Sync,
    (F0, F1, F2, F3, F4, F5, F6, F7, F8): Send + Sync,
    Out: 'static,
 {
    type In = ();

    type Out = Out;

    type Param = (F0, F1, F2, F3, F4, F5, F6, F7, F8);
}

impl<
    Out, Func, F0: ProbeParam, F1: ProbeParam, F2: ProbeParam, F3: ProbeParam, F4: ProbeParam,
    F5: ProbeParam, F6: ProbeParam, F7: ProbeParam, F8: ProbeParam, F9: ProbeParam,
> ProbeFunction<((F0, F1, F2, F3, F4, F5, F6, F7, F8, F9), Out)>
    for Func where
    for <'a>&'a mut Func: FnMut(F0, F1, F2, F3, F4, F5, F6, F7, F8, F9) -> Out + Send + Sync,
    (F0, F1, F2, F3, F4, F5, F6, F7, F8, F9): Send + Sync,
    Out: 'static,
 {
    type In = ();

    type Out = Out;

    type Param = (F0, F1, F2, F3, F4, F5, F6, F7, F8, F9);
}

impl<
    Out, Func, F0: ProbeParam, F1: ProbeParam, F2: ProbeParam, F3: ProbeParam, F4: ProbeParam,
    F5: ProbeParam, F6: ProbeParam, F7: ProbeParam, F8: ProbeParam, F9: ProbeParam,
    F10: ProbeParam,
> ProbeFunction<((F0, F1, F2, F3, F4, F5, F6, F7, F8, F9, F10), Out)>
    for Func where
    for <'a>&'a mut Func: FnMut(F0, F1, F2, F3, F4, F5, F6, F7, F8, F9, F10) -> Out + Send + Sync,
    (F0, F1, F2, F3, F4, F5, F6, F7, F8, F9, F10): Send + Sync,
    Out: 'static,
 {
    type In = ();

    type Out = Out;

    type Param = (F0, F1, F2, F3, F4, F5, F6, F7, F8, F9, F10);
}

impl<
    Out, Func, F0: ProbeParam, F1: ProbeParam, F2: ProbeParam, F3: ProbeParam, F4: ProbeParam,
    F5: ProbeParam, F6: ProbeParam, F7: ProbeParam, F8: ProbeParam, F9: ProbeParam,
    F10: ProbeParam, F11: ProbeParam,
> ProbeFunction<((F0, F1, F2, F3, F4, F5, F6, F7, F8, F9, F10, F11), Out)>
    for Func where
    for <'a>&'a mut Func: FnMut(F0, F1, F2, F3, F4, F5, F6, F7, F8, F9, F10, F11) -> Out + Send + Sync,
    (F0, F1, F2, F3, F4, F5, F6, F7, F8, F9, F10, F11): Send + Sync,
    Out: 'static,
 {
    type In = ();

    type Out = Out;

    type Param = (F0, F1, F2, F3, F4, F5, F6, F7, F8, F9, F10, F11);
}

impl<
    Out, Func, F0: ProbeParam, F1: ProbeParam, F2: ProbeParam, F3: ProbeParam, F4: ProbeParam,
    F5: ProbeParam, F6: ProbeParam, F7: ProbeParam, F8: ProbeParam, F9: ProbeParam,
    F10: ProbeParam, F11: ProbeParam, F12: ProbeParam,
> ProbeFunction<((F0, F1, F2, F3, F4, F5, F6, F7, F8, F9, F10, F11, F12), Out)>
    for Func where
    for <'a>&'a mut Func: FnMut(F0, F1, F2, F3, F4, F5, F6, F7, F8, F9, F10, F11, F12) -> Out + Send + Sync,
    (F0, F1, F2, F3, F4, F5, F6, F7, F8, F9, F10, F11, F12): Send + Sync,
    Out: 'static,
 {
    type In = ();

    type Out = Out;

    type Param = (F0, F1, F2, F3, F4, F5, F6, F7, F8, F9, F10, F11, F12);
}

impl<
    Out, Func, F0: ProbeParam, F1: ProbeParam, F2: ProbeParam, F3: ProbeParam, F4: ProbeParam,
    F5: ProbeParam, F6: ProbeParam, F7: ProbeParam, F8: ProbeParam, F9: ProbeParam,
    F10: ProbeParam, F11: ProbeParam, F12: ProbeParam, F13: ProbeParam,
> ProbeFunction<((F0, F1, F2, F3, F4, F5, F6, F7, F8, F9, F10, F11, F12, F13), Out)>
    for Func where
    for <'a>&'a mut Func: FnMut(F0, F1, F2, F3, F4, F5, F6, F7, F8, F9, F10, F11, F12, F13) -> Out + Send + Sync,
    (F0, F1, F2, F3, F4, F5, F6, F7, F8, F9, F10, F11, F12, F13): Send + Sync,
    Out: 'static,
 {
    type In = ();

    type Out = Out;

    type Param = (F0, F1, F2, F3, F4, F5, F6, F7, F8, F9, F10, F11, F12, F13);
}

impl<
    Out, Func, F0: ProbeParam, F1: ProbeParam, F2: ProbeParam, F3: ProbeParam, F4: ProbeParam,
    F5: ProbeParam, F6: ProbeParam, F7: ProbeParam, F8: ProbeParam, F9: ProbeParam,
    F10: ProbeParam, F11: ProbeParam, F12: ProbeParam, F13: ProbeParam, F14: ProbeParam,
> ProbeFunction<((F0, F1, F2, F3, F4, F5, F6, F7, F8, F9, F10, F11, F12, F13, F14), Out)>
    for Func where
    for <'a>&'a mut Func: FnMut(F0, F1, F2, F3, F4, F5, F6, F7, F8, F9, F10, F11, F12, F13, F14) -> Out + Send + Sync,
    (F0, F1, F2, F3, F4, F5, F6, F7, F8, F9, F10, F11, F12, F13, F14): Send + Sync,
    Out: 'static,
 {
    type In = ();

    type Out = Out;

    type Param = (F0, F1, F2, F3, F4, F5, F6, F7, F8, F9, F10, F11, F12, F13, F14);
}

impl<
    Out, Func, F0: ProbeParam, F1: ProbeParam, F2: ProbeParam, F3: ProbeParam, F4: ProbeParam,
    F5: ProbeParam, F6: ProbeParam, F7: ProbeParam, F8: ProbeParam, F9: ProbeParam,
    F10: ProbeParam, F11: ProbeParam, F12: ProbeParam, F13: ProbeParam, F14: ProbeParam,
    F15: ProbeParam,
> ProbeFunction<((F0, F1, F2, F3, F4, F5, F6, F7, F8, F9, F10, F11, F12, F13, F14, F15), Out)>
    for Func where
    for <'a>&'a mut Func: FnMut(F0, F1, F2, F3, F4, F5, F6, F7, F8, F9, F10, F11, F12, F13, F14, F15) -> Out + Send + Sync,
    (F0, F1, F2, F3, F4, F5, F6, F7, F8, F9, F10, F11, F12, F13, F14, F15): Send + Sync,
    Out: 'static,
 {
    type In = ();

    type Out = Out;

    type Param = (F0, F1, F2, F3, F4, F5, F6, F7, F8, F9, F10, F11, F12, F13, F14, F15);
}

/// Where a probe puts what it has collected.
pub struct CollectionDeposit(());

impl CollectionDeposit {
    pub fn add_debris(&mut self, _debris: impl Debris)
        ensures
            *final(self) == *old(self),
    {
    }

    pub fn add_rock(&mut self, _rock: impl Rock)
        ensures
            *final(self) == *old(self),
    {
    }
}

/// A probe function that has the deposit to itself.
pub trait ExclusiveProbeFunction<M>: Sized {
    type In;

    type Out;

    type Param: ProbeParam;
}

pub struct ExclusiveFunctionProbe<M, F: ExclusiveProbeFunction<M>>(PhantomData<Arc<(M, F)>>);

impl<Marker, F> Probe for ExclusiveFunctionProbe<Marker, F> where F: ExclusiveProbeFunction<Marker> {
    type In = F::In;

    type Out = F::Out;

    type Item = <F::Param as ProbeParam>::Item;
}

impl<Out, Func> ExclusiveProbeFunction<(CollectionDeposit, (), Out)> for Func where
    for <'a>&'a mut Func: FnMut(&'a mut CollectionDeposit) -> Out,
    Out: 'static,
 {
    type In = ();

    type Out = Out;

    type Param = ();
}

impl<Out, Func, F0: ProbeParam> ExclusiveProbeFunction<(CollectionDeposit, (F0,), Out)>
    for Func where
    for <'a>&'a mut Func: FnMut(&'a mut CollectionDeposit, F0) -> Out,
    Out: 'static,
 {
    type In = ();

    type Out = Out;

    type Param = (F0,);
}

impl<Out, Func, F0: ProbeParam, F1: ProbeParam> ExclusiveProbeFunction<(CollectionDeposit, (F0, F1), Out)>
    for Func where
    for <'a>&'a mut Func: FnMut(&'a mut CollectionDeposit, F0, F1) -> Out,
    Out: 'static,
 {
    type In = ();

    type Out = Out;

    type Param = (F0, F1);
}

impl<Out, Func, F0: ProbeParam, F1: ProbeParam, F2: ProbeParam> ExclusiveProbeFunction<(CollectionDeposit, (F0, F1, F2), Out)>
    for Func where
    for <'a>&'a mut Func: FnMut(&'a mut CollectionDeposit, F0, F1, F2) -> Out,
    Out: 'static,
 {
    type In = ();

    type Out = Out;

    type Param = (F0, F1, F2);
}

impl<Out, Func, F0: ProbeParam, F1: ProbeParam, F2: ProbeParam, F3: ProbeParam> ExclusiveProbeFunction<(CollectionDeposit, (F0, F1, F2, F3), Out)>
    for Func where
    for <'a>&'a mut Func: FnMut(&'a mut CollectionDeposit, F0, F1, F2, F3) -> Out,
    Out: 'static,
 {
    type In = ();

    type Out = Out;

    type Param = (F0, F1, F2, F3);
}

impl<Out, Func, F0: ProbeParam, F1: ProbeParam, F2: ProbeParam, F3: ProbeParam, F4: ProbeParam> ExclusiveProbeFunction<(CollectionDeposit, (F0, F1, F2, F3, F4), Out)>
    for Func where
    for <'a>&'a mut Func: FnMut(&'a mut CollectionDeposit, F0, F1, F2, F3, F4) -> Out,
    Out: 'static,
 {
    type In = ();

    type Out = Out;

    type Param = (F0, F1, F2, F3, F4);
}

impl<
    Out, Func, F0: ProbeParam, F1: ProbeParam, F2: ProbeParam, F3: ProbeParam, F4: ProbeParam,
    F5: ProbeParam,
> ExclusiveProbeFunction<(CollectionDeposit, (F0, F1, F2, F3, F4, F5), Out)>
    for Func where
    for <'a>&'a mut Func: FnMut(&'a mut CollectionDeposit, F0, F1, F2, F3, F4, F5) -> Out,
    Out: 'static,
 {
    type In = ();

    type Out = Out;

    type Param = (F0, F1, F2, F3, F4, F5);
}

impl<
    Out, Func, F0: ProbeParam, F1: ProbeParam, F2: ProbeParam, F3: ProbeParam, F4: ProbeParam,
    F5: ProbeParam, F6: ProbeParam,
> ExclusiveProbeFunction<(CollectionDeposit, (F0, F1, F2, F3, F4, F5, F6), Out)>
    for Func where
    for <'a>&'a mut Func: FnMut(&'a mut CollectionDeposit, F0, F1, F2, F3, F4, F5, F6) -> Out,
    Out: 'static,
 {
    type In = ();

    type Out = Out;

    type Param = (F0, F1, F2, F3, F4, F5, F6);
}

impl<
    Out, Func, F0: ProbeParam, F1: ProbeParam, F2: ProbeParam, F3: ProbeParam, F4: ProbeParam,
    F5: ProbeParam, F6: ProbeParam, F7: ProbeParam,
> ExclusiveProbeFunction<(CollectionDeposit, (F0, F1, F2, F3, F4, F5, F6, F7), Out)>
    for Func where
    for <'a>&'a mut Func: FnMut(&'a mut CollectionDeposit, F0, F1, F2, F3, F4, F5, F6, F7) -> Out,
    Out: 'static,
 {
    type In = ();

    type Out = Out;

    type Param = (F0, F1, F2, F3, F4, F5, F6, F7);
}

impl<
    Out, Func, F0: ProbeParam, F1: ProbeParam, F2: ProbeParam, F3: ProbeParam, F4: ProbeParam,
    F5: ProbeParam, F6: ProbeParam, F7: ProbeParam, F8: ProbeParam,
> ExclusiveProbeFunction<(CollectionDeposit, (F0, F1, F2, F3, F4, F5, F6, F7, F8), Out)>
    for Func where
    for <'a>&'a mut Func: FnMut(&'a mut CollectionDeposit, F0, F1, F2, F3, F4, F5, F6, F7, F8) -> Out,
    Out: 'static,
 {
    type In = ();

    type Out = Out;

    type Param = (F0, F1, F2, F3, F4, F5, F6, F7, F8);
}

impl<
    Out, Func, F0: ProbeParam, F1: ProbeParam, F2: ProbeParam, F3: ProbeParam, F4: ProbeParam,
    F5: ProbeParam, F6: ProbeParam, F7: ProbeParam, F8: ProbeParam, F9: ProbeParam,
> ExclusiveProbeFunction<(CollectionDeposit, (F0, F1, F2, F3, F4, F5, F6, F7, F8, F9), Out)>
    for Func where
    for <'a>&'a mut Func: FnMut(&'a mut CollectionDeposit, F0, F1, F2, F3, F4, F5, F6, F7, F8, F9) -> Out,
    Out: 'static,
 {
    type In = ();

    type Out = Out;

    type Param = (F0, F1, F2, F3, F4, F5, F6, F7, F8, F9);
}

impl<
    Out, Func, F0: ProbeParam, F1: ProbeParam, F2: ProbeParam, F3: ProbeParam, F4: ProbeParam,
    F5: ProbeParam, F6: ProbeParam, F7: ProbeParam, F8: ProbeParam, F9: ProbeParam,
    F10: ProbeParam,
> ExclusiveProbeFunction<(CollectionDeposit, (F0, F1, F2, F3, F4, F5, F6, F7, F8, F9, F10), Out)>
    for Func where
    for <'a>&'a mut Func: FnMut(&'a mut CollectionDeposit, F0, F1, F2, F3, F4, F5, F6, F7, F8, F9, F10) -> Out,
    Out: 'static,
 {
    type In = ();

    type Out = Out;

    type Param = (F0, F1, F2, F3, F4, F5, F6, F7, F8, F9, F10);
}

impl<
    Out, Func, F0: ProbeParam, F1: ProbeParam, F2: ProbeParam, F3: ProbeParam, F4: ProbeParam,
    F5: ProbeParam, F6: ProbeParam, F7: ProbeParam, F8: ProbeParam, F9: ProbeParam,
    F10: ProbeParam, F11: ProbeParam,
> ExclusiveProbeFunction<(CollectionDeposit, (F0, F1, F2, F3, F4, F5, F6, F7, F8, F9, F10, F11), Out)>
    for Func where
    for <'a>&'a mut Func: FnMut(&'a mut CollectionDeposit, F0, F1, F2, F3, F4, F5, F6, F7, F8, F9, F10, F11) -> Out,
    Out: 'static,
 {
    type In = ();

    type Out = Out;

    type Param = (F0, F1, F2, F3, F4, F5, F6, F7, F8, F9, F10, F11);
}

impl<
    Out, Func, F0: ProbeParam, F1: ProbeParam, F2: ProbeParam, F3: ProbeParam, F4: ProbeParam,
    F5: ProbeParam, F6: ProbeParam, F7: ProbeParam, F8: ProbeParam, F9: ProbeParam,
    F10: ProbeParam, F11: ProbeParam, F12: ProbeParam,
> ExclusiveProbeFunction<(CollectionDeposit, (F0, F1, F2, F3, F4, F5, F6, F7, F8, F9, F10, F11, F12), Out)>
    for Func where
    for <'a>&'a mut Func: FnMut(&'a mut CollectionDeposit, F0, F1, F2, F3, F4, F5, F6, F7, F8, F9, F10, F11, F12) -> Out,
    Out: 'static,
 {
    type In = ();

    type Out = Out;

    type Param = (F0, F1, F2, F3, F4, F5, F6, F7, F8, F9, F10, F11, F12);
}

impl<
    Out, Func, F0: ProbeParam, F1: ProbeParam, F2: ProbeParam, F3: ProbeParam, F4: ProbeParam,
    F5: ProbeParam, F6: ProbeParam, F7: ProbeParam, F8: ProbeParam, F9: ProbeParam,
    F10: ProbeParam, F11: ProbeParam, F12: ProbeParam, F13: ProbeParam,
> ExclusiveProbeFunction<(CollectionDeposit, (F0, F1, F2, F3, F4, F5, F6, F7, F8, F9, F10, F11, F12, F13), Out)>
    for Func where
    for <'a>&'a mut Func: FnMut(&'a mut CollectionDeposit, F0, F1, F2, F3, F4, F5, F6, F7, F8, F9, F10, F11, F12, F13) -> Out,
    Out: 'static,
 {
    type In = ();

    type Out = Out;

    type Param = (F0, F1, F2, F3, F4, F5, F6, F7, F8, F9, F10, F11, F12, F13);
}

impl<
    Out, Func, F0: ProbeParam, F1: ProbeParam, F2: ProbeParam, F3: ProbeParam, F4: ProbeParam,
    F5: ProbeParam, F6: ProbeParam, F7: ProbeParam, F8: ProbeParam, F9: ProbeParam,
    F10: ProbeParam, F11: ProbeParam, F12: ProbeParam, F13: ProbeParam, F14: ProbeParam,
> ExclusiveProbeFunction<(CollectionDeposit, (F0, F1, F2, F3, F4, F5, F6, F7, F8, F9, F10, F11, F12, F13, F14), Out)>
    for Func where
    for <'a>&'a mut Func: FnMut(&'a mut CollectionDeposit, F0, F1, F2, F3, F4, F5, F6, F7, F8, F9, F10, F11, F12, F13, F14) -> Out,
    Out: 'static,
 {
    type In = ();

    type Out = Out;

    type Param = (F0, F1, F2, F3, F4, F5, F6, F7, F8, F9, F10, F11, F12, F13, F14);
}

impl<
    Out, Func, F0: ProbeParam, F1: ProbeParam, F2: ProbeParam, F3: ProbeParam, F4: ProbeParam,
    F5: ProbeParam, F6: ProbeParam, F7: ProbeParam, F8: ProbeParam, F9: ProbeParam,
    F10: ProbeParam, F11: ProbeParam, F12: ProbeParam, F13: ProbeParam, F14: ProbeParam,
    F15: ProbeParam,
> ExclusiveProbeFunction<(CollectionDeposit, (F0, F1, F2, F3, F4, F5, F6, F7, F8, F9, F10, F11, F12, F13, F14, F15), Out)>
    for Func where
    for <'a>&'a mut Func: FnMut(&'a mut CollectionDeposit, F0, F1, F2, F3, F4, F5, F6, F7, F8, F9, F10, F11, F12, F13, F14, F15) -> Out,
    Out: 'static,
 {
    type In = ();

    type Out = Out;

    type Param = (F0, F1, F2, F3, F4, F5, F6, F7, F8, F9, F10, F11, F12, F13, F14, F15);
}

} // verus!
