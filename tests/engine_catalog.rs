use analytics_core::catalog::{get_supported_algorithms, is_algorithm_supported, AlgorithmInfo, Implementation, Registry};
use analytics_core::service::AnalyticsService;

#[test]
fn test_algorithm_support() {
    assert!(is_algorithm_supported("mean", "rust"));
    assert!(is_algorithm_supported("summary", "rust"));
    assert!(!is_algorithm_supported("nonexistent", "rust"));
}

#[test]
fn test_get_algorithms() {
    let algorithms = get_supported_algorithms();
    assert!(!algorithms.is_empty());
    assert!(algorithms.iter().any(|a| a.name == "mean"));
    assert!(algorithms.iter().any(|a| a.name == "summary"));
}

#[test]
fn catalog_lists_every_required_algorithm_as_native() {
    let required = [
        "mean", "median", "mode", "std", "variance", "min", "max", "range", "percentile", "q1",
        "q3", "iqr", "count", "skewness", "kurtosis", "correlation", "summary",
        "generate_uniform", "generate_normal", "generate_exponential",
    ];
    let algorithms = get_supported_algorithms();
    assert_eq!(algorithms.len(), required.len());
    for (a, name) in algorithms.iter().zip(required.iter()) {
        assert_eq!(a.name, *name);
        assert_eq!(a.implementations, vec!["native".to_string()]);
        assert!(a.required_params.is_empty());
    }
    let percentile = algorithms.iter().find(|a| a.name == "percentile").unwrap();
    assert_eq!(percentile.optional_params, vec!["percentile".to_string()]);
}

#[test]
fn native_labels_and_alternate_labels() {
    assert!(is_algorithm_supported("median", "native"));
    assert!(!is_algorithm_supported("median", "alternate"));
    assert!(!is_algorithm_supported("median", "python"));
    assert!(!is_algorithm_supported("median", "gpu"));
    assert_eq!(Implementation::from_label("rust"), Some(Implementation::Native));
    assert_eq!(Implementation::from_label("python"), Some(Implementation::Alternate));
    assert_eq!(Implementation::from_label("Native"), None);
    assert_eq!(Implementation::Alternate.label(), "alternate");
}

fn alt(name: &str) -> AlgorithmInfo {
    AlgorithmInfo {
        name: name.to_string(),
        description: "from the bridge".to_string(),
        implementations: vec!["python".to_string()],
        required_params: vec![],
        optional_params: vec![],
    }
}

#[test]
fn registry_merges_alternate_descriptors() {
    let r = Registry::with_alternate(vec![alt("mean"), alt("fft")]);
    let mean = r.implementations("mean");
    assert!(mean.native && mean.alternate);
    let fft = r.implementations("fft");
    assert!(!fft.native && fft.alternate);
    let none = r.implementations("nope");
    assert!(!none.native && !none.alternate);
    let list = r.list();
    assert_eq!(list.len(), 22);
    assert_eq!(list[20].name, "mean");
    assert_eq!(list[20].implementations, vec!["alternate".to_string()]);
    assert_eq!(list[21].name, "fft");
    assert_eq!(r.lookup("fft").unwrap().name, "fft");
    assert_eq!(r.lookup("mean").unwrap().implementations, vec!["native".to_string()]);
    assert!(r.lookup("nope").is_none());
}

#[test]
fn descriptors_are_equal_across_calls() {
    let s = AnalyticsService::new();
    let a: Vec<String> = s.get_supported_algorithms().into_iter().map(|a| a.name).collect();
    let b: Vec<String> = s.get_supported_algorithms().into_iter().map(|a| a.name).collect();
    assert_eq!(a, b);
    assert_eq!(a.len(), 20);
}

#[test]
fn descriptors_carry_descriptions_and_repeat_exactly() {
    let a = get_supported_algorithms();
    let b = get_supported_algorithms();
    assert_eq!(a[0].description, "Calculate arithmetic mean");
    assert_eq!(a[19].description, "Generate exponentially distributed data");
    for (x, y) in a.iter().zip(b.iter()) {
        assert_eq!((&x.name, &x.description, &x.implementations, &x.required_params, &x.optional_params),
                   (&y.name, &y.description, &y.implementations, &y.required_params, &y.optional_params));
    }
    let r = Registry::with_alternate(vec![alt("fft")]);
    let fft = r.lookup("fft").unwrap();
    assert_eq!(fft.description, "from the bridge");
    assert_eq!(r.list()[20].description, "from the bridge");
}
