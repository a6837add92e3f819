use analytics_core::cache::CacheFactory;
use analytics_core::composition::DefaultRandomDataGenerator;
use analytics_core::connection::{
    AnalyticsEngineClient, AnalyticsEngineClientFactory, ConnectionEvent, TransportCode,
};
use analytics_core::dispatch::ErrorKind;
use analytics_core::error::{AppError, AppResult, ErrorCode, ResultExt};
use analytics_core::ml_catalog;
use analytics_core::text::parse_u64;

#[test]
fn client_settings_and_defaults() {
    let c = AnalyticsEngineClient::from_settings(None, Some("5"), Some("abc"));
    assert_eq!(c.endpoint(), "http://127.0.0.1:50051");
    assert_eq!(c.connection_timeout_secs(), 5);
    assert_eq!(c.deadline_ms(0), 30000);
    assert_eq!(c.deadline_ms(100), 100);
    let c = AnalyticsEngineClient::from_settings(Some("http://e:1"), None, Some("7"));
    assert_eq!(c.endpoint(), "http://e:1");
    assert_eq!(c.connection_timeout_secs(), 10);
    assert_eq!(c.deadline_ms(-3), 7000);
    assert_eq!(AnalyticsEngineClientFactory::create_prod().endpoint(), "http://10.0.0.1:50051");
    assert_eq!(AnalyticsEngineClientFactory::create_dev().endpoint(), "http://127.0.0.1:50051");
}

#[test]
fn client_channel_is_lazy_and_invalidated_on_unavailable() {
    let mut c = AnalyticsEngineClient::new("http://e:1");
    assert!(c.needs_connect());
    assert!(!c.is_connected());
    c.record(ConnectionEvent::Connect);
    c.record(ConnectionEvent::ConnectSucceeded);
    assert!(c.is_connected());
    assert!(!c.needs_connect());
    assert_eq!(c.record_failure(TransportCode::DeadlineExceeded), ErrorKind::Timeout);
    assert!(c.is_connected());
    assert_eq!(c.record_failure(TransportCode::Unavailable), ErrorKind::Transport);
    assert!(!c.is_connected());
    assert!(c.needs_connect());
    c.record(ConnectionEvent::Connect);
    c.record(ConnectionEvent::ConnectFailed);
    assert!(c.needs_connect());
    c.disconnect();
    assert!(!c.is_connected());
}

#[test]
fn result_annotations() {
    let failed: AppResult<u8> = Err(Box::new(AppError::not_found("x")));
    let e = failed.with_context("ctx").unwrap_err();
    assert_eq!(e.context, Some("ctx".to_string()));
    let failed: AppResult<u8> = Err(Box::new(AppError::not_found("x")));
    assert_eq!(failed.with_trace("t").unwrap_err().trace_id, Some("t".to_string()));
    let failed: AppResult<u8> = Err(Box::new(AppError::not_found("x")));
    let e = failed.map_err_to(ErrorCode::Internal, "y").unwrap_err();
    assert_eq!((e.code, e.message.as_str()), (ErrorCode::Internal, "y"));
    let fine: AppResult<u8> = Ok(3);
    assert_eq!(fine.with_context("c").unwrap(), 3);
}

#[test]
fn factories_and_generator_bookkeeping() {
    let mut cache = CacheFactory::create_memory();
    assert_eq!(cache.get("a", 0), None);
    let mut g = DefaultRandomDataGenerator::new();
    assert!(g.get_performance_metrics().is_empty());
    g.record_draw("normal", 250);
    assert_eq!(
        g.get_performance_metrics(),
        vec![
            ("last_distribution".to_string(), "normal".to_string()),
            ("last_count".to_string(), "250".to_string())
        ]
    );
}

#[test]
fn ml_catalog_names() {
    assert_eq!(
        ml_catalog::get_supported_algorithms(),
        vec!["k_means", "linear_regression", "moving_average", "outlier_detection", "correlation_analysis"]
    );
}

#[test]
fn decimal_parsing_matches_std() {
    for s in ["0", "42", "+7", "007", "18446744073709551615", "18446744073709551616", "", "+", "-1", "1a", " 1"] {
        assert_eq!(parse_u64(s), s.parse::<u64>().ok(), "input {s:?}");
    }
}

#[test]
fn error_texts() {
    use_error_texts();
}

fn use_error_texts() {
    let e = analytics_core::crud::CrudError::ItemNotFound { id: "x".to_string() };
    assert_eq!(e.message(), "Item不存在：x");
    let e = analytics_core::crud::CrudError::Validation { message: "名称不能为空".to_string() };
    assert_eq!(e.message(), "验证错误：名称不能为空");
    assert_eq!(analytics_core::auth::AuthError::Database("io".to_string()).message(), "数据库错误: io");
    assert_eq!(analytics_core::auth::AuthError::TokenExpired.message(), "令牌已过期");
}
