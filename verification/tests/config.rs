use crpipeline::config::{base_url, bucket_name, AdminConfig, AppConfig, CleanupConfig, WorkerConfig};
use crpipeline::email::smtp_configured;
use crpipeline::jobs::status_is_final;

fn o(s: &str) -> Option<String> {
    Some(s.to_string())
}

const SECRET: &str = "0123456789abcdef0123456789abcdef";

#[test]
fn app_config_defaults() {
    let c = AppConfig::from_env(o("db"), o(SECRET), o("bucket"), None, None, None).ok().unwrap();
    assert_eq!(c.frontend_origin, "*");
    assert_eq!(c.email_queue_provider, "memory");
    assert_eq!(c.email_queue_size, 100);
    let c = AppConfig::from_env(o("db"), o(SECRET), o("b"), o("http://x"), o("redis"), o("7")).ok().unwrap();
    assert_eq!((c.frontend_origin.as_str(), c.email_queue_provider.as_str(), c.email_queue_size), ("http://x", "redis", 7));
    let c = AppConfig::from_env(o("db"), o(SECRET), o("b"), None, None, o("x")).ok().unwrap();
    assert_eq!(c.email_queue_size, 100);
}

#[test]
fn app_config_errors() {
    assert_eq!(AppConfig::from_env(None, o(SECRET), o("b"), None, None, None).err().unwrap(), "DATABASE_URL not set");
    assert_eq!(AppConfig::from_env(o("db"), None, o("b"), None, None, None).err().unwrap(), "JWT_SECRET not set");
    let weak = "JWT_SECRET must be at least 32 characters and not 'changeme'";
    assert_eq!(AppConfig::from_env(o("db"), o("short"), o("b"), None, None, None).err().unwrap(), weak);
    assert_eq!(AppConfig::from_env(o("db"), o("changeme"), o("b"), None, None, None).err().unwrap(), weak);
    assert_eq!(AppConfig::from_env(o("db"), o(SECRET), None, None, None, None).err().unwrap(), "S3_BUCKET not set");
}

#[test]
fn secret_length_counts_bytes() {
    // 16 two-byte characters are 32 bytes.
    let s = "éééééééééééééééé";
    assert!(AppConfig::from_env(o("db"), o(s), o("b"), None, None, None).is_ok());
}

#[test]
fn worker_config_defaults_and_parsing() {
    let c = WorkerConfig::from_env(o("db"), o("redis"), None, false, None, None, None).ok().unwrap();
    assert_eq!((c.s3_bucket.as_str(), c.worker_concurrency, c.metrics_port), ("uploads", 1, 9100));
    assert_eq!(c.shutdown_after_idle, None);
    let c = WorkerConfig::from_env(o("db"), o("r"), o("b"), true, o("+4"), o("70000"), o("15")).ok().unwrap();
    assert_eq!((c.worker_concurrency, c.metrics_port, c.shutdown_after_idle), (4, 9100, Some(15)));
    assert!(c.process_one_job);
    assert_eq!(WorkerConfig::from_env(o("db"), None, None, false, None, None, None).err().unwrap(), "REDIS_URL not set");
}

#[test]
fn cleanup_and_admin_configs() {
    let c = CleanupConfig::from_env(o("db"), None, o("30")).ok().unwrap();
    assert_eq!((c.s3_bucket.as_str(), c.interval_minutes), ("uploads", Some(30)));
    assert_eq!(CleanupConfig::from_env(None, None, None).err().unwrap(), "DATABASE_URL not set");
    assert_eq!(AdminConfig::from_env(o("db")).ok().unwrap().database_url, "db");
    assert!(AdminConfig::from_env(None).is_err());
}

#[test]
fn url_and_bucket_defaults() {
    assert_eq!(base_url(None), "http://localhost:8080");
    assert_eq!(base_url(o("https://app.example")), "https://app.example");
    assert_eq!(bucket_name(None), "uploads");
    assert_eq!(bucket_name(o("docs")), "docs");
}

#[test]
fn smtp_needs_all_settings_and_a_port() {
    assert!(smtp_configured(Some("smtp.x"), Some("587"), Some("u"), Some("p")));
    assert!(!smtp_configured(Some("smtp.x"), Some("70000"), Some("u"), Some("p")));
    assert!(!smtp_configured(Some("smtp.x"), Some("587"), None, Some("p")));
    assert!(!smtp_configured(None, Some("587"), Some("u"), Some("p")));
}

#[test]
fn job_status_events_end_on_final_status() {
    assert!(status_is_final("completed"));
    assert!(status_is_final("failed"));
    assert!(!status_is_final("pending"));
    assert!(!status_is_final("processing"));
}
