use analytics_core::composition::{check_calculation_size, plan_generation};
use analytics_core::dispatch::ErrorKind;
use analytics_core::composition::{
    format_performance_report, get_default_statistics, next_plan_step, preview, select_statistics,
    PlanStep, SeedGenerator,
};

#[test]
fn test_format_performance_report() {
    let report = format_performance_report(100, 50, 10000, "rust");
    assert!(report.contains("10000"));
    assert!(report.contains("100ms"));
    assert!(report.contains("50ms"));
    assert!(report.contains("rust"));
}

#[test]
fn report_throughput_values() {
    let report = format_performance_report(100, 50, 10000, "native");
    assert!(report.contains("150ms"));
    assert!(report.contains("throughput: 66.67 points/ms"));
    assert!(format_performance_report(0, 0, 5, "n").contains("throughput: inf"));
    assert!(format_performance_report(0, 0, 0, "n").contains("throughput: NaN"));
    assert!(format_performance_report(3, 0, 1, "n").contains("throughput: 0.33 points/ms"));
    assert!(format_performance_report(1, 0, 1, "n").contains("throughput: 1.00 points/ms"));
}

fn names(v: &[&str]) -> Vec<String> {
    v.iter().map(|s| s.to_string()).collect()
}

#[test]
fn unknown_statistics_are_dropped_in_order() {
    let (kept, dropped) = select_statistics(&names(&["mean", "bogus", "median", "generate_uniform", "std"]));
    assert_eq!(kept, names(&["mean", "median", "std"]));
    assert_eq!(dropped, names(&["bogus", "generate_uniform"]));
    assert_eq!(get_default_statistics().len(), 13);
}

#[test]
fn comprehensive_plan_runs_generation_then_each_statistic() {
    let stats = names(&["mean", "median", "std"]);
    let mut outcomes: Vec<Result<u64, String>> = vec![];
    let mut calls = vec![];
    loop {
        match next_plan_step(&stats, &outcomes) {
            PlanStep::Generate => {
                calls.push("generate".to_string());
                outcomes.push(Ok(10));
            }
            PlanStep::Calculate(s) => {
                calls.push(s);
                outcomes.push(Ok(5));
            }
            PlanStep::Done { total_ms } => {
                assert_eq!(total_ms, 25);
                break;
            }
            PlanStep::Aborted(e) => panic!("unexpected abort {}", e),
        }
    }
    assert_eq!(calls, names(&["generate", "mean", "median", "std"]));
}

#[test]
fn comprehensive_plan_aborts_on_first_error() {
    let stats = names(&["mean", "median"]);
    let outcomes = vec![Ok(1), Err("Validation: bad".to_string())];
    match next_plan_step(&stats, &outcomes) {
        PlanStep::Aborted(e) => assert_eq!(e, "Validation: bad"),
        other => panic!("unexpected {:?}", other),
    }
    let outcomes = vec![Ok(u64::MAX), Ok(1), Ok(1)];
    match next_plan_step(&stats, &outcomes) {
        PlanStep::Done { total_ms } => assert_eq!(total_ms, u64::MAX),
        other => panic!("unexpected {:?}", other),
    }
}

#[test]
fn preview_takes_first_ten() {
    let data: Vec<u32> = (0..10000).collect();
    assert_eq!(preview(&data), (0..10).collect::<Vec<u32>>());
    assert_eq!(preview(&data), preview(&data));
    assert_eq!(preview(&vec![1.5f64, 2.5]), vec![1.5, 2.5]);
}

#[test]
fn seeds_advance_from_base() {
    let mut g = SeedGenerator::with_base(42);
    assert_eq!(g.next_seed(), 43);
    assert_eq!(g.next_seed(), 44);
    let mut w = SeedGenerator::with_base(u64::MAX);
    assert_eq!(w.next_seed(), 0);
    let _ = SeedGenerator::new().next_seed();
}

#[test]
fn generation_plan_defaults_and_bounds() {
    let mut seeds = SeedGenerator::with_base(1000);
    let p = plan_generation(None, Some(42), None, &mut seeds).unwrap();
    assert_eq!((p.count, p.seed, p.algorithm.as_str()), (10000, 42, "generate_uniform"));
    let p = plan_generation(Some(5), None, Some("normal"), &mut seeds).unwrap();
    assert_eq!((p.count, p.seed, p.algorithm.as_str()), (5, 1001, "generate_normal"));
    assert_eq!(plan_generation(Some(0), None, None, &mut seeds).unwrap_err().kind, ErrorKind::Validation);
    assert_eq!(plan_generation(Some(1_000_001), None, None, &mut seeds).unwrap_err().kind, ErrorKind::Validation);
    assert_eq!(plan_generation(None, None, Some("cauchy"), &mut seeds).unwrap_err().kind, ErrorKind::Validation);
    assert_eq!(check_calculation_size(0).unwrap_err().kind, ErrorKind::EmptyData);
    assert!(check_calculation_size(10_000_000).is_ok());
    assert_eq!(check_calculation_size(10_000_001).unwrap_err().kind, ErrorKind::Validation);
}

