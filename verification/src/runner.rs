//! The runner's configuration: the options of the device and the dispatch
//! of the service's backends, put together step by step.

use std::marker::PhantomData;
use vstd::prelude::*;
use crate::options::Options;

verus! {

/// Collects what a runner needs. `D` is the dispatch of the service's
/// backends.
pub struct Builder<D> {
    options: Options,
    dispatch: D,
}

/// A configured device, ready to be run with the applications `A`.
pub struct Runner<D, A> {
    options: Options,
    dispatch: D,
    _marker: PhantomData<A>,
}

impl<D> Builder<D> {
    /// The options the builder holds.
    pub closed spec fn options(&self) -> Options {
        self.options
    }

    /// The dispatch the builder holds.
    pub closed spec fn backends(&self) -> D {
        self.dispatch
    }

    /// A builder for a device with the given options and the default
    /// dispatch.
    pub fn new(options: Options) -> (builder: Self) where D: Default
        ensures
            builder.options() == options,
            call_ensures(D::default, (), builder.backends()),
    {
        Builder { options, dispatch: D::default() }
    }

    /// Replaces the dispatch and keeps the options.
    pub fn dispatch<E>(self, dispatch: E) -> (builder: Builder<E>)
        ensures
            builder.options() == self.options(),
            builder.backends() == dispatch,
    {
        Builder { options: self.options, dispatch }
    }

    /// The runner for what was collected.
    pub fn build<A>(self) -> (runner: Runner<D, A>)
        ensures
            runner.options() == self.options(),
            runner.backends() == self.backends(),
    {
        Runner { options: self.options, dispatch: self.dispatch, _marker: PhantomData }
    }
}

impl<D, A> Runner<D, A> {
    /// The options of the device.
    pub closed spec fn options(&self) -> Options {
        self.options
    }

    /// The dispatch of the service's backends.
    pub closed spec fn backends(&self) -> D {
        self.dispatch
    }

    /// A builder for a runner with the given options.
    pub fn builder(options: Options) -> (builder: Builder<D>) where D: Default
        ensures
            builder.options() == options,
            call_ensures(D::default, (), builder.backends()),
    {
        Builder::new(options)
    }

    /// The options of the device.
    pub fn device_options(&self) -> (options: &Options)
        ensures
            *options == self.options(),
    {
        &self.options
    }

    /// Takes the runner apart, for the loops that run it.
    pub fn into_parts(self) -> (parts: (Options, D))
        ensures
            parts.0 == self.options(),
            parts.1 == self.backends(),
    {
        (self.options, self.dispatch)
    }
}

} // verus!
