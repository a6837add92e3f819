//! The engine service: its catalog and bridge state, fixed at startup, and
//! the decisions it takes per request before any kernel runs.

use vstd::prelude::*;
use crate::catalog::{AlgorithmInfo, Implementation, Registry};
use crate::dispatch::{candidates_spec, plan_candidates, AnalysisOptions, EngineError, ErrorKind};
use crate::response::{health_check, BridgeState, HealthResponse};

verus! {

/// The engine service.
pub struct AnalyticsService {
    registry: Registry,
    bridge: BridgeState,
}

impl AnalyticsService {
    pub closed spec fn wf(&self) -> bool {
        &&& self.registry.wf()
        &&& (self.bridge != BridgeState::Available ==> self.registry.alternate_names().len() == 0)
    }

    pub closed spec fn bridge_spec(&self) -> BridgeState {
        self.bridge
    }

    pub closed spec fn registry_spec(&self) -> Registry {
        self.registry
    }

    /// A service built without the alternate bridge.
    pub fn new() -> (r: AnalyticsService)
        ensures
            r.wf(),
            r.bridge_spec() == BridgeState::Disabled,
            r.registry_spec().alternate_names().len() == 0,
    {
        AnalyticsService { registry: Registry::new(), bridge: BridgeState::Disabled }
    }

    /// A service whose bridge was probed once at startup: when the probe
    /// succeeded, the bridge contributes `descriptors`; otherwise it is
    /// unavailable and contributes nothing.
    pub fn with_bridge(probe_succeeded: bool, descriptors: Vec<AlgorithmInfo>) -> (r: AnalyticsService)
        ensures
            r.wf(),
            r.bridge_spec() == if probe_succeeded {
                BridgeState::Available
            } else {
                BridgeState::Unavailable
            },
            r.registry_spec().alternate_names() == if probe_succeeded {
                crate::catalog::names_of(descriptors@)
            } else {
                Seq::<Seq<char>>::empty()
            },
    {
        if probe_succeeded {
            AnalyticsService {
                registry: Registry::with_alternate(descriptors),
                bridge: BridgeState::Available,
            }
        } else {
            AnalyticsService { registry: Registry::new(), bridge: BridgeState::Unavailable }
        }
    }

    /// The candidates for a request, in the order they are to be tried.
    pub fn plan(&self, algorithm: &str, options: &AnalysisOptions) -> (r: Result<
        Vec<Implementation>,
        EngineError,
    >)
        requires
            self.wf(),
        ensures
            ({
                let c = candidates_spec(
                    crate::catalog::ImplSet {
                        native: crate::catalog::native_names().contains(algorithm@),
                        alternate: self.registry_spec().alternate_names().contains(algorithm@),
                    },
                    options.prefer_native,
                    options.allow_alternate,
                );
                &&& (r is Ok <==> c.len() > 0)
                &&& (r is Ok ==> r->Ok_0@ == c)
                &&& (r is Err ==> r->Err_0.kind == ErrorKind::NotImplemented)
            }),
    {
        let impls = self.registry.implementations(algorithm);
        plan_candidates(algorithm, impls, options)
    }

    /// The health probe's reply.
    pub fn health_check(&self, version: &str) -> (r: HealthResponse)
        ensures
            r.healthy,
            r.capabilities@.len() == 2,
            r.capabilities@[0].0@ == "native"@,
            r.capabilities@[0].1@ == "available"@,
            r.capabilities@[1].0@ == "alternate"@,
            r.capabilities@[1].1@ == self.bridge_spec().label_spec(),
    {
        health_check(self.bridge, version)
    }

    /// A snapshot of the catalog; equal names on every call.
    pub fn get_supported_algorithms(&self) -> (r: Vec<AlgorithmInfo>)
        requires
            self.wf(),
        ensures
            crate::catalog::names_of(r@) == self.registry_spec().listed_names(),
            r@.map_values(|a: AlgorithmInfo| crate::catalog::info_view(a)) == self.registry_spec().listed_infos(),
    {
        self.registry.list()
    }
}

/// Two snapshots of one service's catalog hold equal descriptors, in the
/// same order.
pub proof fn lemma_descriptors_stable(s: AnalyticsService, a: Seq<AlgorithmInfo>, b: Seq<AlgorithmInfo>)
    requires
        a.map_values(|x: AlgorithmInfo| crate::catalog::info_view(x)) == s.registry_spec().listed_infos(),
        b.map_values(|x: AlgorithmInfo| crate::catalog::info_view(x)) == s.registry_spec().listed_infos(),
    ensures
        a.len() == b.len(),
        forall|i: int| 0 <= i < a.len() ==> crate::catalog::info_view(#[trigger] a[i]) == crate::catalog::info_view(b[i]),
{
    assert(a.map_values(|x: AlgorithmInfo| crate::catalog::info_view(x)).len() == a.len());
    assert(b.map_values(|x: AlgorithmInfo| crate::catalog::info_view(x)).len() == b.len());
    assert forall|i: int| 0 <= i < a.len() implies crate::catalog::info_view(#[trigger] a[i]) == crate::catalog::info_view(b[i]) by {
        assert(a.map_values(|x: AlgorithmInfo| crate::catalog::info_view(x))[i] == crate::catalog::info_view(a[i]));
        assert(b.map_values(|x: AlgorithmInfo| crate::catalog::info_view(x))[i] == crate::catalog::info_view(b[i]));
    }
}

} // verus!
