use analytics_core::error::{with_full_trace, with_location, with_trace, AppError, ErrorCode};
use analytics_core::function_registry::{AccessLevel, FunctionMetadata, FunctionRegistry, HttpMethod, HttpRoute};

type FunctionCaller = Box<dyn Fn(&[u8]) -> Result<Vec<u8>, String> + Send + Sync>;

#[test]
fn test_error_creation() {
    let error = AppError::bad_request("测试错误");
    assert_eq!(error.code, ErrorCode::BadRequest);
    assert_eq!(error.message, "测试错误");
    assert_eq!(error.code.status_code(), 400);
}

#[test]
fn test_error_with_context() {
    let error = AppError::internal("内部错误").with_context("用户ID: 123");

    assert_eq!(error.code, ErrorCode::Internal);
    assert_eq!(error.context, Some("用户ID: 123".to_string()));
}

#[test]
fn test_error_display() {
    let error = AppError::not_found("用户不存在").with_context("查询用户信息");

    let display_str = error.display_string();
    assert!(display_str.contains("404"));
    assert!(display_str.contains("用户不存在"));
    assert!(display_str.contains("查询用户信息"));
}

#[test]
fn error_display_full_text() {
    let e = with_full_trace(AppError::timeout("slow"), "t1".to_string(), "c1".to_string(), "here");
    assert_eq!(
        e.display_string(),
        "[504] slow (TraceID: t1) (CorrelationID: c1) (Location: here)"
    );
    let e = with_trace(AppError::database("db"), "t2".to_string(), "there");
    assert_eq!(e.trace_id, Some("t2".to_string()));
    assert_eq!(e.location, Some("there".to_string()));
    let e = with_location(AppError::validation("v"), "x");
    assert_eq!(e.display_string(), "[422] v (Location: x)");
}

#[test]
fn error_codes_and_classes() {
    let codes = [
        (ErrorCode::BadRequest, 400), (ErrorCode::Unauthorized, 401), (ErrorCode::Forbidden, 403),
        (ErrorCode::NotFound, 404), (ErrorCode::Validation, 422), (ErrorCode::TooManyRequests, 429),
        (ErrorCode::Internal, 500), (ErrorCode::NotImplemented, 501),
        (ErrorCode::ServiceUnavailable, 503), (ErrorCode::Database, 500), (ErrorCode::Timeout, 504),
    ];
    for (c, s) in codes {
        assert_eq!(c.status_code(), s);
        assert_eq!(c.is_client_error(), s < 500);
        assert_eq!(c.is_server_error(), s >= 500);
    }
    assert_eq!(AppError::unauthorized("u").code, ErrorCode::Unauthorized);
    assert_eq!(AppError::forbidden("f").code, ErrorCode::Forbidden);
    let e = AppError::new(ErrorCode::Internal, "m").with_trace_id("t").with_correlation_id("c").with_source("io");
    assert_eq!(e.trace_id, Some("t".to_string()));
    assert_eq!(e.correlation_id, Some("c".to_string()));
    assert_eq!(e.source, Some("io".to_string()));
    assert_eq!(AppError::generate_trace_id().len(), 36);
}

#[test]
fn test_function_registration() {
    let mut registry: FunctionRegistry<FunctionCaller> = FunctionRegistry::new();

    let metadata = FunctionMetadata {
        fn_path: "test.hello".to_string(),
        http_route: Some(HttpRoute {
            method: HttpMethod::GET,
            path: "/api/hello".to_string(),
        }),
        inline: true,
        access: AccessLevel::Public,
        version: "1.0.0".to_string(),
        description: Some("Test function".to_string()),
    };

    let caller =
        Box::new(|_input: &[u8]| -> Result<Vec<u8>, String> { Ok(b"Hello, World!".to_vec()) });

    assert!(registry.register_function(metadata, caller).is_ok());

    let result = registry.call_function("test.hello", b"").unwrap();
    assert_eq!(result, b"Hello, World!");

    let fn_path = registry.find_function_by_route(&HttpMethod::GET, "/api/hello");
    assert_eq!(fn_path, Some("test.hello".to_string()));
}

#[test]
fn test_registry_stats() {
    let mut registry: FunctionRegistry<FunctionCaller> = FunctionRegistry::new();

    let metadata1 = FunctionMetadata {
        fn_path: "test.public".to_string(),
        http_route: Some(HttpRoute {
            method: HttpMethod::POST,
            path: "/api/public".to_string(),
        }),
        inline: false,
        access: AccessLevel::Public,
        version: "1.0.0".to_string(),
        description: None,
    };

    let metadata2 = FunctionMetadata {
        fn_path: "test.internal".to_string(),
        http_route: None,
        inline: true,
        access: AccessLevel::Internal,
        version: "1.0.0".to_string(),
        description: None,
    };

    let dummy_caller1 = Box::new(|_: &[u8]| Ok(Vec::new()));
    let dummy_caller2 = Box::new(|_: &[u8]| Ok(Vec::new()));

    registry
        .register_function(metadata1, dummy_caller1)
        .unwrap();
    registry
        .register_function(metadata2, dummy_caller2)
        .unwrap();

    let stats = registry.stats();
    assert_eq!(stats.total_functions, 2);
    assert_eq!(stats.http_functions, 1);
    assert_eq!(stats.public_functions, 1);
    assert_eq!(stats.internal_functions, 1);
}

fn meta(path: &str, route: Option<(HttpMethod, &str)>) -> FunctionMetadata {
    FunctionMetadata {
        fn_path: path.to_string(),
        http_route: route.map(|(method, p)| HttpRoute { method, path: p.to_string() }),
        inline: false,
        access: AccessLevel::Private,
        version: "1".to_string(),
        description: None,
    }
}

#[test]
fn registry_refuses_duplicates_and_replaces_routes() {
    let mut r: FunctionRegistry<FunctionCaller> = FunctionRegistry::new();
    r.register_function(meta("a", Some((HttpMethod::GET, "/x"))), Box::new(|i: &[u8]| Ok(i.to_vec()))).unwrap();
    let e = r.register_function(meta("a", None), Box::new(|_: &[u8]| Ok(vec![]))).unwrap_err();
    assert_eq!(e, "Function already registered: a");
    r.register_function(meta("b", Some((HttpMethod::GET, "/x"))), Box::new(|_: &[u8]| Err("no".to_string()))).unwrap();
    assert_eq!(r.find_function_by_route(&HttpMethod::GET, "/x"), Some("b".to_string()));
    assert_eq!(r.find_function_by_route(&HttpMethod::POST, "/x"), None);
    assert_eq!(r.list_functions(), vec!["a".to_string(), "b".to_string()]);
    assert_eq!(r.list_http_routes(), vec![("GET /x".to_string(), "b".to_string())]);
    assert_eq!(r.call_function("a", b"echo").unwrap(), b"echo".to_vec());
    assert_eq!(r.call_function("b", b"").unwrap_err(), "no");
    assert_eq!(r.call_function("zz", b"").unwrap_err(), "Function not found: zz");
    assert_eq!(r.get_metadata("a").unwrap().fn_path, "a");
    let b = r.get_metadata("b").unwrap();
    assert_eq!(b.http_route.unwrap().path, "/x");
    assert_eq!(b.access, AccessLevel::Private);
    assert_eq!(b.version, "1");
    assert!(r.get_metadata("zz").is_none());
    let s = r.stats();
    assert_eq!((s.total_functions, s.http_functions, s.public_functions, s.internal_functions), (2, 1, 0, 0));
}

#[test]
fn method_and_access_parsing() {
    assert_eq!("get".parse::<HttpMethod>(), Ok(HttpMethod::GET));
    assert_eq!(HttpMethod::parse("Options"), Ok(HttpMethod::OPTIONS));
    assert_eq!(HttpMethod::parse("TRACE"), Err("Unknown HTTP method: TRACE".to_string()));
    assert_eq!("PUBLIC".parse::<AccessLevel>(), Ok(AccessLevel::Public));
    assert_eq!(AccessLevel::parse("Internal"), Ok(AccessLevel::Internal));
    assert_eq!(AccessLevel::parse("x"), Err("Unknown access level: x".to_string()));
}
