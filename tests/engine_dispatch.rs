use analytics_core::catalog::{ImplSet, Implementation};
use analytics_core::dispatch::{
    effective_timeout_ms, next_step, plan_candidates, AnalysisOptions, DispatchStep, EngineError,
    ErrorKind,
};
use analytics_core::input::{bound_params, check_generate_count, check_input, generator_algorithm, min_data_len};
use analytics_core::response::AnalysisResponse;
use analytics_core::service::AnalyticsService;

fn opts(prefer_native: bool, allow_alternate: bool) -> AnalysisOptions {
    AnalysisOptions { prefer_native, allow_alternate, timeout_ms: 0, include_metadata: true }
}

const BOTH: ImplSet = ImplSet { native: true, alternate: true };
const NATIVE: ImplSet = ImplSet { native: true, alternate: false };
const ALT: ImplSet = ImplSet { native: false, alternate: true };
const NONE: ImplSet = ImplSet { native: false, alternate: false };

#[test]
fn candidate_order_follows_options() {
    assert_eq!(plan_candidates("a", BOTH, &opts(true, true)).unwrap(), vec![Implementation::Native, Implementation::Alternate]);
    assert_eq!(plan_candidates("a", BOTH, &opts(true, false)).unwrap(), vec![Implementation::Native]);
    assert_eq!(plan_candidates("a", BOTH, &opts(false, true)).unwrap(), vec![Implementation::Alternate, Implementation::Native]);
    assert_eq!(plan_candidates("a", BOTH, &opts(false, false)).unwrap(), vec![Implementation::Native]);
    assert_eq!(plan_candidates("a", ALT, &opts(true, true)).unwrap(), vec![Implementation::Alternate]);
    assert_eq!(plan_candidates("a", NATIVE, &opts(false, true)).unwrap(), vec![Implementation::Native]);
    let e = plan_candidates("a", ALT, &opts(true, false)).unwrap_err();
    assert_eq!(e.kind, ErrorKind::NotImplemented);
    let e = plan_candidates("zzz", NONE, &opts(true, true)).unwrap_err();
    assert_eq!(e.kind, ErrorKind::NotImplemented);
    assert!(e.message().starts_with("NotImplemented: "));
    assert!(e.message().contains("zzz"));
}

#[test]
fn default_timeout_applies_to_non_positive_values() {
    assert_eq!(effective_timeout_ms(100), 100);
    assert_eq!(effective_timeout_ms(0), 30000);
    assert_eq!(effective_timeout_ms(-5), 30000);
    let d = AnalysisOptions::default();
    assert!(d.prefer_native && d.allow_alternate && d.include_metadata);
    assert_eq!(d.timeout_ms, 30000);
}

#[test]
fn fallback_to_alternate_when_native_fails() {
    let c = plan_candidates("mean", BOTH, &opts(true, true)).unwrap();
    let mut outcomes: Vec<Result<u64, EngineError>> = vec![];
    match next_step(&c, &outcomes) {
        DispatchStep::Attempt(Implementation::Native) => {}
        other => panic!("unexpected {:?}", other),
    }
    outcomes.push(Err(EngineError::new(ErrorKind::NativeFailure, "stub")));
    match next_step(&c, &outcomes) {
        DispatchStep::Attempt(Implementation::Alternate) => {}
        other => panic!("unexpected {:?}", other),
    }
    outcomes.push(Ok(7));
    match next_step(&c, &outcomes) {
        DispatchStep::Succeeded { implementation, elapsed_ms } => {
            assert_eq!(implementation, Implementation::Alternate);
            assert_eq!(elapsed_ms, 7);
        }
        other => panic!("unexpected {:?}", other),
    }
}

#[test]
fn exhaustion_reports_last_error_after_each_candidate() {
    let c = plan_candidates("mean", BOTH, &opts(true, true)).unwrap();
    let mut outcomes: Vec<Result<u64, EngineError>> = vec![];
    let mut attempts = 0;
    let final_error = loop {
        match next_step(&c, &outcomes) {
            DispatchStep::Attempt(imp) => {
                attempts += 1;
                let kind = match imp {
                    Implementation::Native => ErrorKind::NativeFailure,
                    Implementation::Alternate => ErrorKind::AlternateFailure,
                };
                outcomes.push(Err(EngineError::new(kind, &format!("{} broke", imp.label()))));
            }
            DispatchStep::Failed(e) => break e,
            DispatchStep::Succeeded { .. } => panic!("no candidate succeeds"),
        }
    };
    assert_eq!(attempts, c.len());
    assert_eq!(final_error.kind, ErrorKind::AlternateFailure);
    let r = AnalysisResponse::failure("r1", &final_error);
    assert!(!r.success);
    assert!(r.error_message.contains("alternate broke"));
}

#[test]
fn timeout_on_last_candidate_is_reported_as_timeout() {
    let c = vec![Implementation::Native];
    let outcomes = vec![Err(EngineError::new(ErrorKind::Timeout, "deadline of 100 ms exceeded"))];
    match next_step(&c, &outcomes) {
        DispatchStep::Failed(e) => {
            assert_eq!(e.kind, ErrorKind::Timeout);
            assert_eq!(e.message(), "Timeout: deadline of 100 ms exceeded");
        }
        other => panic!("unexpected {:?}", other),
    }
}

#[test]
fn variance_of_one_point_needs_at_least_two() {
    let e = check_input("variance", 1).unwrap_err();
    assert_eq!(e.kind, ErrorKind::Validation);
    let r = AnalysisResponse::failure("v", &e);
    assert!(!r.success);
    assert!(r.error_message.to_lowercase().contains("at least 2"));
    assert_eq!(r.error_message, "Validation: Need at least 2 data points for variance");
}

#[test]
fn input_size_rules() {
    assert_eq!(check_input("mean", 0).unwrap_err().kind, ErrorKind::EmptyData);
    assert_eq!(check_input("variance", 0).unwrap_err().kind, ErrorKind::EmptyData);
    assert!(check_input("count", 0).is_ok());
    assert!(check_input("generate_normal", 0).is_ok());
    assert!(check_input("mean", 1).is_ok());
    assert_eq!(check_input("skewness", 2).unwrap_err().detail, "Need at least 3 data points for skewness");
    assert!(check_input("skewness", 3).is_ok());
    assert_eq!(check_input("kurtosis", 3).unwrap_err().detail, "Need at least 4 data points for kurtosis");
    assert!(check_input("kurtosis", 4).is_ok());
    assert_eq!(check_input("unknown", 5).unwrap_err().kind, ErrorKind::NotImplemented);
    assert_eq!(min_data_len("correlation"), Some(2));
    assert_eq!(min_data_len("Mean"), None);
}

#[test]
fn generator_rules() {
    assert!(check_generate_count(1).is_ok());
    assert!(check_generate_count(1_000_000).is_ok());
    assert_eq!(check_generate_count(0).unwrap_err().kind, ErrorKind::Validation);
    assert_eq!(check_generate_count(1_000_001).unwrap_err().kind, ErrorKind::Validation);
    assert_eq!(generator_algorithm("uniform").unwrap(), "generate_uniform");
    assert_eq!(generator_algorithm("normal").unwrap(), "generate_normal");
    assert_eq!(generator_algorithm("exponential").unwrap(), "generate_exponential");
    assert_eq!(generator_algorithm("poisson").unwrap_err().kind, ErrorKind::Validation);
}

#[test]
fn mean_reply_carries_native_metadata() {
    let s = AnalyticsService::new();
    let c = s.plan("mean", &AnalysisOptions::default()).unwrap();
    assert_eq!(c, vec![Implementation::Native]);
    let r = AnalysisResponse::from_outcome("m", "mean", 5, true, Ok((c[0], 3, "3.0".to_string())));
    assert!(r.success);
    assert_eq!(r.request_id, "m");
    assert_eq!(r.result_json, "3.0");
    let m = r.metadata.unwrap();
    assert_eq!(m.implementation, "native");
    assert_eq!(m.data_size, 5);
    assert_eq!(m.algorithm, "mean");
    assert_eq!(m.execution_time_ms, 3);
    assert_eq!(m.stats, vec![("data_points".to_string(), "5".to_string())]);
    let quiet = AnalysisResponse::from_outcome("m", "mean", 5, false, Ok((c[0], 3, "3.0".to_string())));
    assert!(quiet.metadata.is_none());
}

#[test]
fn percentile_reply_echoes_kernel_json() {
    let s = AnalyticsService::new();
    let c = s.plan("percentile", &AnalysisOptions::default()).unwrap();
    assert!(check_input("percentile", 5).is_ok());
    let r = AnalysisResponse::from_outcome("p", "percentile", 5, true, Ok((c[0], 0, "4.0".to_string())));
    assert!(r.success);
    assert_eq!(r.result_json, "4.0");
}

#[test]
fn unknown_algorithm_is_not_implemented() {
    let s = AnalyticsService::new();
    let e = s.plan("unknown", &AnalysisOptions::default()).unwrap_err();
    assert_eq!(e.kind, ErrorKind::NotImplemented);
}

#[test]
fn generator_bound_names() {
    assert_eq!(bound_params("generate_uniform"), ("min", Some("max")));
    assert_eq!(bound_params("generate_normal"), ("mean", Some("std_dev")));
    assert_eq!(bound_params("generate_exponential"), ("lambda", None));
}
