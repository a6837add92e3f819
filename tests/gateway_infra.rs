use analytics_core::http::{is_public_path, HttpResponse};
use analytics_core::monitoring::LogEntry;
use analytics_core::input::{check_data_quality, ValueClass};
use analytics_core::dispatch::ErrorKind;
use analytics_core::cache::MemoryCache;
use analytics_core::auth::{MemoryUserRepository, UserRepository};
use analytics_core::cache::{CacheKeyGenerator, DefaultCacheKeyGenerator};
use analytics_core::config::Environment;
use analytics_core::const_generic;
use analytics_core::crud::{CreateItemRequest, CrudError, Item, UpdateItemRequest};
use analytics_core::error::{AppError, ErrorCode};
use analytics_core::http::{ErrorDetail, HttpClient, HttpFactory, PaginatedResponse, PaginationQuery};
use analytics_core::monitoring::{ConsoleLogger, LogLevel, TraceContext};
use analytics_core::query::{query, QueryBuilder, SafeQuery};
use analytics_core::slices::{initialize_slice_registry, SliceConfig, SliceRegistry};
use analytics_core::static_dispatch;

#[test]
fn test_const_generic_performance() {
    let result = const_generic::login::<{ const_generic::JWT_AUTH }>("admin", "password");
    assert!(result.is_ok());
}

#[test]
fn performance_analysis_test_static_dispatch_performance() {
    let auth_service = static_dispatch::JwtAuthService;
    let result = static_dispatch::login(auth_service, "admin", "password");
    assert!(result.is_ok());
}

#[test]
fn login_variants() {
    assert_eq!(const_generic::login::<{ const_generic::JWT_AUTH }>("admin", "x"), Err("认证失败"));
    assert_eq!(const_generic::login::<{ const_generic::MOCK_AUTH }>("a", "b"), Ok("mock_token".to_string()));
    assert_eq!(static_dispatch::login(static_dispatch::MockAuthService, "a", "b"), Ok("token_123".to_string()));
    assert!(static_dispatch::login(static_dispatch::JwtAuthService, "root", "password").is_err());
}

#[test]
fn test_slice_registry_creation() {
    let registry = SliceRegistry::new();
    assert_eq!(registry.list_slice_names().len(), 0);
}

#[test]
fn test_slice_registration() {
    let mut registry = SliceRegistry::new();

    let config = SliceConfig {
        name: "test_slice".to_string(),
        version: "1.0.0".to_string(),
        enabled: true,
        routes: vec!["/api/test".to_string()],
    };

    registry.register_slice(config);

    assert_eq!(registry.list_slice_names().len(), 1);
    assert!(registry.get_slice("test_slice").is_some());
}

#[test]
fn test_enabled_slices_filter() {
    let mut registry = SliceRegistry::new();

    registry.register_slice(SliceConfig {
        name: "enabled_slice".to_string(),
        version: "1.0.0".to_string(),
        enabled: true,
        routes: vec!["/api/enabled".to_string()],
    });

    registry.register_slice(SliceConfig {
        name: "disabled_slice".to_string(),
        version: "1.0.0".to_string(),
        enabled: false,
        routes: vec!["/api/disabled".to_string()],
    });

    let enabled_slices = registry.enabled_slices();
    assert_eq!(enabled_slices.len(), 1);
    assert_eq!(enabled_slices[0].name, "enabled_slice");
}

#[test]
fn slice_registration_replaces_same_name() {
    let mut registry = initialize_slice_registry();
    let cfg = |v: &str| SliceConfig { name: "s".to_string(), version: v.to_string(), enabled: true, routes: vec![] };
    registry.register_slice(cfg("1"));
    registry.register_slice(cfg("2"));
    assert_eq!(registry.list_slice_names(), vec![&"s".to_string()]);
    assert_eq!(registry.get_slice("s").unwrap().version, "2");
    assert!(registry.get_slice("t").is_none());
}

#[test]
fn pagination_rules() {
    let q = PaginationQuery { page: Some(0), size: Some(500), sort: Some("name".to_string()), order: Some("desc".to_string()) };
    assert_eq!(q.page(), 1);
    assert_eq!(q.size(), 100);
    assert_eq!(q.offset(), 0);
    assert_eq!(q.sort_field(), Some("name"));
    assert!(q.is_desc());
    let d = PaginationQuery { page: Some(3), size: None, sort: None, order: Some("asc".to_string()) };
    assert_eq!(d.size(), 20);
    assert_eq!(d.offset(), 40);
    assert!(!d.is_desc());
    let r = PaginatedResponse::new(vec![1, 2], &d, 41);
    assert_eq!(r.pagination.pages, 3);
    assert!(!r.pagination.has_next);
    assert!(r.pagination.has_prev);
    let r = PaginatedResponse::new(Vec::<u8>::new(), &PaginationQuery { page: None, size: Some(10), sort: None, order: None }, 0);
    assert_eq!(r.pagination.pages, 0);
    assert!(!r.pagination.has_prev);
}

#[test]
fn http_echo_client_and_error_detail() {
    let c = HttpFactory::create_client().with_timeout(5).with_header("a", "1").with_header("a", "2");
    assert_eq!(c.timeout_secs(), 5);
    assert_eq!(c.get("/u").unwrap(), "{\"url\": \"/u\", \"method\": \"GET\"}");
    assert_eq!(c.post("/u", "b").unwrap(), "{\"url\": \"/u\", \"method\": \"POST\", \"body\": \"b\"}");
    let e = AppError::new(ErrorCode::NotFound, "gone").with_context("ctx");
    let d = ErrorDetail::from_app_error(&e);
    assert_eq!(d.code, "NotFound");
    assert_eq!(d.message, "gone");
    assert_eq!(d.context, Some("ctx".to_string()));
}

#[test]
fn safe_query_builds_parameterized_sql() {
    let (sql, params) = SafeQuery::new("items")
        .select(&["id", "name"])
        .where_eq("name", "x")
        .order_by_safe("name", true)
        .paginate(10, 20)
        .build();
    assert_eq!(sql, "SELECT id, name FROM items WHERE name = ? ORDER BY name DESC LIMIT ? OFFSET ?");
    assert_eq!(params, vec!["x".to_string(), "10".to_string(), "20".to_string()]);
    let (sql, params) = SafeQuery::new("items").order_by_safe("1; DROP TABLE items", true).build();
    assert_eq!(sql, "SELECT * FROM items ORDER BY created_at ASC");
    assert!(params.is_empty());
}

#[test]
fn simple_query_builder_sql() {
    let (sql, params) = query()
        .select(&["a", "b"])
        .from("t")
        .where_clause("a > ?", vec!["1".to_string()])
        .where_clause("b < ?", vec!["2".to_string()])
        .order_by("a", false)
        .limit(5)
        .offset(7)
        .build();
    assert_eq!(sql, "SELECT a, b FROM t WHERE a > ? AND b < ? ORDER BY a ASC LIMIT 5 OFFSET 7");
    assert_eq!(params, vec!["1".to_string(), "2".to_string()]);
    let (sql, _) = query().from("t").build();
    assert_eq!(sql, "SELECT * FROM t");
}

#[test]
fn environment_names() {
    assert_eq!(Environment::from_name("PROD"), Environment::Production);
    assert_eq!(Environment::from_name("staging"), Environment::Staging);
    assert_eq!(Environment::from_name("Test"), Environment::Test);
    assert_eq!(Environment::from_name("whatever"), Environment::Development);
    assert!(Environment::Production.is_production());
    assert!(Environment::Development.is_development());
    assert!(Environment::Test.is_test());
    assert_eq!(Environment::Staging.name(), "staging");
}

#[test]
fn log_levels_and_logger() {
    assert_eq!(LogLevel::from_str("WARNING"), Some(LogLevel::Warn));
    assert_eq!(LogLevel::from_str("Info"), Some(LogLevel::Info));
    assert_eq!(LogLevel::from_str("loud"), None);
    assert_eq!(LogLevel::Error.as_str(), "error");
    let mut l = ConsoleLogger::new(LogLevel::Info);
    assert!(l.should_log(LogLevel::Error));
    assert!(!l.should_log(LogLevel::Debug));
    l.set_level(LogLevel::Trace);
    assert!(l.should_log(LogLevel::Trace));
}

#[test]
fn trace_context_headers() {
    let root = TraceContext::new();
    assert_eq!(root.trace_id.len(), 36);
    let child = root.child_span();
    assert_eq!(child.trace_id, root.trace_id);
    assert_eq!(child.parent_span_id, Some(root.span_id.clone()));
    assert_ne!(child.span_id, root.span_id);
    let h = child.to_headers();
    assert_eq!(h.len(), 3);
    assert_eq!(h[0], ("x-trace-id".to_string(), root.trace_id.clone()));
    assert_eq!(h[2], ("x-parent-span-id".to_string(), root.span_id.clone()));
    assert_eq!(root.to_headers().len(), 2);
}

#[test]
fn item_request_validation() {
    let ok = CreateItemRequest { name: "测试项目".to_string(), description: Some("测试描述".to_string()), value: 100 };
    assert!(ok.validate().is_ok());
    let blank = CreateItemRequest { name: " \t".to_string(), description: None, value: 1 };
    assert!(matches!(blank.validate(), Err(CrudError::Validation { message }) if message == "名称不能为空"));
    let long = CreateItemRequest { name: "名".repeat(34), description: None, value: 1 };
    assert!(matches!(long.validate(), Err(CrudError::Validation { .. })));
    let fits = CreateItemRequest { name: "名".repeat(33), description: None, value: 1 };
    assert!(fits.validate().is_ok());
    let desc = CreateItemRequest { name: "n".to_string(), description: Some("d".repeat(501)), value: 1 };
    assert!(matches!(desc.validate(), Err(CrudError::Validation { message }) if message == "描述长度不能超过500字符"));
    let upd = UpdateItemRequest { name: None, description: None, value: None };
    assert!(upd.validate().is_ok());
    assert!(!upd.has_updates());
    let upd = UpdateItemRequest { name: Some(String::new()), description: None, value: Some(3) };
    assert!(upd.validate().is_err());
    assert!(upd.has_updates());
}

#[test]
fn item_update_applies_given_fields() {
    let mut item = Item::new("id1".to_string(), "a".to_string(), None, 1);
    assert_eq!(item.created_at, item.updated_at);
    item.apply_update(&UpdateItemRequest { name: None, description: Some("d".to_string()), value: Some(5) });
    assert_eq!(item.name, "a");
    assert_eq!(item.description, Some("d".to_string()));
    assert_eq!(item.value, 5);
}

#[test]
fn memory_user_repository() {
    let r = MemoryUserRepository::new();
    assert_eq!(r.find_by_username("testuser").unwrap().unwrap().id, "user123");
    assert!(r.find_by_username("nobody").unwrap().is_none());
    assert!(r.verify_credentials("testuser", "password123").unwrap());
    assert!(!r.verify_credentials("testuser", "x").unwrap());
    assert!(!r.verify_credentials("nobody", "password123").unwrap());
}

#[test]
fn cache_keys() {
    let g = DefaultCacheKeyGenerator;
    assert_eq!(g.generate("p", &["a", "b"]), "p:a:b");
    assert_eq!(g.generate("p", &[]), "p:");
    assert_eq!(g.entity_key("item", "7"), "item:7");
    assert_eq!(g.list_key("item", "all"), "item:list:all");
    assert_eq!(g.user_key("u", "r"), "user:u:r");
    assert_eq!(g.session_key("s"), "session:s");
    assert_eq!(g.permission_key("u", "r", "w"), "permission:u:r:w");
}

#[test]
fn memory_cache_expiry_and_counters() {
    let mut c = MemoryCache::new();
    c.set("a", "1", Some(10), 100);
    c.set("b", "2", None, 100);
    assert_eq!(c.get("a", 110), Some("1".to_string()));
    assert!(c.contains_live("a", 110));
    assert_eq!(c.get("a", 111), None);
    assert!(!c.contains_live("a", 111));
    assert_eq!(c.get("b", u64::MAX), Some("2".to_string()));
    assert_eq!(c.hit_count(), 2);
    assert_eq!(c.miss_count(), 1);
    c.set("b", "22", None, 0);
    assert_eq!(c.get("b", 0), Some("22".to_string()));
    assert_eq!(c.calculate_memory_usage(), 1 + 2 + 64);
    c.delete("b");
    assert_eq!(c.get("b", 0), None);
    c.set("k", "v", Some(u64::MAX), 5);
    assert!(c.contains_live("k", u64::MAX));
    c.clear();
    assert_eq!(c.hit_count(), 0);
    assert_eq!(c.calculate_memory_usage(), 0);
}

#[test]
fn data_quality_classes() {
    assert_eq!(check_data_quality(&vec![]).unwrap_err().kind, ErrorKind::EmptyData);
    assert!(check_data_quality(&vec![ValueClass::Finite, ValueClass::Finite]).is_ok());
    let e = check_data_quality(&vec![ValueClass::Finite, ValueClass::NaN, ValueClass::Infinite]).unwrap_err();
    assert_eq!(e.kind, ErrorKind::Validation);
    assert_eq!(e.detail, "data holds NaN at position 1");
    let e = check_data_quality(&vec![ValueClass::Infinite]).unwrap_err();
    assert_eq!(e.detail, "data holds an infinite value at position 0");
}

#[test]
fn public_paths() {
    assert!(is_public_path("/"));
    assert!(is_public_path("/health"));
    assert!(is_public_path("/api/auth/login"));
    assert!(!is_public_path("/api/items"));
}

#[test]
fn http_responses() {
    let s = HttpResponse::success(5u8);
    assert_eq!((s.status, s.message.as_str(), s.data), (200, "Success", Some(5)));
    let s = s.with_trace_id("t".to_string());
    assert_eq!(s.trace_id, Some("t".to_string()));
    let ok = HttpResponse::ok();
    assert_eq!((ok.status, ok.message.as_str()), (200, "OK"));
    let r = HttpResponse::from_app_error(AppError::validation("bad").with_trace_id("tr"));
    assert_eq!(r.status, 422);
    assert_eq!(r.message, "bad");
    assert_eq!(r.error.as_ref().unwrap().code, "Validation");
    assert_eq!(r.trace_id, Some("tr".to_string()));
}

#[test]
fn log_lines() {
    let logger = ConsoleLogger::new(LogLevel::Info);
    let e = LogEntry::new(LogLevel::Info, "hello".to_string())
        .with_trace_id("t1".to_string())
        .with_location("a.rs".to_string(), 7);
    let mut e = e;
    e.timestamp = 0;
    let line = logger.format_entry(&e).unwrap();
    assert_eq!(line, "[1970-01-01 00:00:00] [INFO] hello [trace_id=t1] [a.rs:7]");
    let d = LogEntry::new(LogLevel::Debug, "quiet".to_string());
    assert!(logger.format_entry(&d).is_none());
    let f = LogEntry::new(LogLevel::Warn, "w".to_string()).with_field("k", "1".to_string());
    assert_eq!(f.fields, vec![("k".to_string(), "1".to_string())]);
}
