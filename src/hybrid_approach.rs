//! A service selector resolved per service type.

use vstd::prelude::*;

verus! {

/// Selects the service of type `T`.
pub struct ServiceSelector<T> {
    marker: core::marker::PhantomData<T>,
}

impl<T> ServiceSelector<T> {
    pub fn new() -> (r: ServiceSelector<T>) {
        ServiceSelector { marker: core::marker::PhantomData }
    }
}

/// Provides the one instance of a service.
pub trait ServiceProvider<T> {
    fn get() -> &'static T;
}

/// Marks the selector approach.
#[derive(Debug)]
pub struct HybridApproachPerformance;

/// Marks the function-table approach.
#[derive(Debug)]
pub struct FunctionTablePerformance;

/// Marks the trait-object approach.
#[derive(Debug)]
pub struct TraitObjectPerformance;

/// The outcome of the comparison: the selector approach.
#[derive(Debug)]
pub struct PerformanceConclusion;

} // verus!
