//! Injection of services and parameters into handler functions: the
//! wrappers that mark an injected service and a positional parameter, and
//! the traits that handlers and injectors implement.

use std::ops::Deref;
use vstd::prelude::*;

verus! {

/// A service handed to a handler by the injector.
#[derive(Debug, PartialEq)]
pub struct Inject<T>(pub T);

/// The parameter at position `N` of a handler call.
#[derive(Debug, PartialEq)]
pub struct Param<T, const N: usize>(pub T);

impl<T> Deref for Inject<T> {
    type Target = T;

    fn deref(&self) -> (r: &T)
        ensures
            *r == self.0,
    {
        &self.0
    }
}

impl<T, const N: usize> Deref for Param<T, N> {
    type Target = T;

    fn deref(&self) -> (r: &T)
        ensures
            *r == self.0,
    {
        &self.0
    }
}

impl<T> Inject<T> {
    /// Marks a service as injected.
    pub fn new(value: T) -> (r: Self)
        ensures
            r.0 == value,
    {
        Inject(value)
    }
}

impl<T, const N: usize> Param<T, N> {
    /// Marks a value as the parameter at position `N`.
    pub fn new(value: T) -> (r: Self)
        ensures
            r.0 == value,
    {
        Param(value)
    }

    /// The position of the parameter.
    pub fn position(&self) -> (r: usize)
        ensures
            r == N,
    {
        N
    }
}

/// What a handler can take: injected services, positional parameters, and
/// tuples of up to four of them.
pub trait InjectParam {}

impl<T> InjectParam for Inject<T> {}

impl<T, const N: usize> InjectParam for Param<T, N> {}

impl InjectParam for () {}

impl<P0: InjectParam> InjectParam for (P0,) {}

impl<P0: InjectParam, P1: InjectParam> InjectParam for (P0, P1) {}

impl<P0: InjectParam, P1: InjectParam, P2: InjectParam> InjectParam for (P0, P1, P2) {}

impl<P0: InjectParam, P1: InjectParam, P2: InjectParam, P3: InjectParam> InjectParam for (P0, P1, P2, P3) {}

/// What remains of a handler's parameters once the injector has supplied
/// its services: the positional parameters alone.
pub trait InjectedParam {
    type Result;
}

impl<T, const N: usize> InjectedParam for Param<T, N> {
    type Result = Param<T, N>;
}

impl InjectedParam for () {
    type Result = ();
}

impl<T0, const N0: usize> InjectedParam for (Param<T0, N0>,) {
    type Result = (Param<T0, N0>,);
}

impl<T0> InjectedParam for (Inject<T0>,) {
    type Result = ();
}

impl<T0, const N0: usize, T1, const N1: usize> InjectedParam for (Param<T0, N0>, Param<T1, N1>) {
    type Result = (Param<T0, N0>, Param<T1, N1>);
}

impl<T0, const N0: usize, T1> InjectedParam for (Param<T0, N0>, Inject<T1>) {
    type Result = (Param<T0, N0>,);
}

impl<T0, T1, const N1: usize> InjectedParam for (Inject<T0>, Param<T1, N1>) {
    type Result = (Param<T1, N1>,);
}

impl<T0, T1> InjectedParam for (Inject<T0>, Inject<T1>) {
    type Result = ();
}

/// A handler that takes the parameters `P` and gives `O`.
pub trait InjectFunction<P: InjectParam, O> {
    fn run(&mut self, param: P) -> O;
}

/// A handler whose services were injected and that now takes only its
/// positional parameters `P`.
pub trait InjectedFunction<P: InjectedParam, O> {
    fn run(&mut self, param: P) -> O;
}

/// Something that supplies the parameter `T` of a handler, given the
/// positional parameters of the call.
pub trait Injector<T: InjectParam, I> {
    fn get<P: InjectedParam<Result = I>>(&self, param: P) -> T;
}

/// Turning a handler into one with its services injected.
pub trait InjectFunctionExt<P: InjectParam, O> {
    fn inject<I: Injector<P, ()>>(self, injector: I) -> O;
}

} // verus!
