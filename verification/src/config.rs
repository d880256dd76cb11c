//! The configurations of the server, the worker, the cleanup job and the
//! admin tool, read from the values of their environment variables.
//!
//! Each `from_env` takes the value of each variable it reads (`None` where
//! the variable is not set): reading the environment itself is left to the
//! program that starts.

use vstd::prelude::*;
use vstd::utf8::encode_utf8;
use crate::text::{parsed_within, parse_usize, parse_u16, parse_u64_str, chars_of, chars_eq};

verus! {

/// The server's configuration.
pub struct AppConfig {
    pub database_url: String,
    pub jwt_secret: String,
    pub s3_bucket: String,
    pub frontend_origin: String,
    pub email_queue_provider: String,
    pub email_queue_size: usize,
}

/// The worker's configuration.
pub struct WorkerConfig {
    pub database_url: String,
    pub redis_url: String,
    pub s3_bucket: String,
    pub process_one_job: bool,
    pub worker_concurrency: usize,
    pub metrics_port: u16,
    pub shutdown_after_idle: Option<u64>,
}

/// The cleanup job's configuration.
pub struct CleanupConfig {
    pub database_url: String,
    pub s3_bucket: String,
    pub interval_minutes: Option<u64>,
}

/// The admin tool's configuration.
pub struct AdminConfig {
    pub database_url: String,
}

/// The length of a text in UTF-8 bytes (`str::len`).
pub open spec fn byte_len(s: Seq<char>) -> usize {
    encode_utf8(s).len() as usize
}

/// Whether a JWT secret is acceptable: at least 32 bytes long and not the
/// placeholder "changeme".
pub open spec fn secret_ok(s: Seq<char>) -> bool {
    byte_len(s) >= 32 && s != "changeme"@
}

/// A number setting: its value where it parses, else the default.
pub open spec fn number_or(setting: Option<String>, max: nat, default: nat) -> nat {
    match setting {
        Some(v) => match parsed_within(v@, max) {
            Some(x) => x,
            None => default,
        },
        None => default,
    }
}

/// An optional number setting: its value where it is set and parses.
pub open spec fn optional_number(setting: Option<String>, max: nat) -> Option<nat> {
    match setting {
        Some(v) => parsed_within(v@, max),
        None => None,
    }
}

/// A text setting, or its default where it is not set.
pub open spec fn text_or(setting: Option<String>, default: Seq<char>) -> Seq<char> {
    match setting {
        Some(v) => v@,
        None => default,
    }
}

fn usize_or(setting: &Option<String>, default: usize) -> (r: usize)
    ensures
        r == number_or(*setting, usize::MAX as nat, default as nat),
{
    match setting {
        Some(v) => match parse_usize(v.as_str()) {
            Some(x) => x,
            None => default,
        },
        None => default,
    }
}

fn optional_u64(setting: &Option<String>) -> (r: Option<u64>)
    ensures
        match r {
            Some(x) => optional_number(*setting, u64::MAX as nat) == Some(x as nat),
            None => optional_number(*setting, u64::MAX as nat) is None,
        },
{
    match setting {
        Some(v) => parse_u64_str(v.as_str()),
        None => None,
    }
}

fn string_or(setting: Option<String>, default: &str) -> (r: String)
    ensures
        r@ == text_or(setting, default@),
{
    match setting {
        Some(v) => v,
        None => default.to_owned(),
    }
}

impl AppConfig {
    /// The server's configuration from `DATABASE_URL`, `JWT_SECRET`,
    /// `S3_BUCKET`, `FRONTEND_ORIGIN`, `EMAIL_QUEUE_PROVIDER` and
    /// `EMAIL_QUEUE_SIZE`. The first three are required, and the secret must
    /// be acceptable; the others default to "*", "memory" and 100.
    pub fn from_env(
        database_url: Option<String>,
        jwt_secret: Option<String>,
        s3_bucket: Option<String>,
        frontend_origin: Option<String>,
        email_queue_provider: Option<String>,
        email_queue_size: Option<String>,
    ) -> (r: Result<AppConfig, String>)
        ensures
            match r {
                Ok(c) => {
                    &&& database_url == Some(c.database_url)
                    &&& jwt_secret == Some(c.jwt_secret)
                    &&& secret_ok(c.jwt_secret@)
                    &&& s3_bucket == Some(c.s3_bucket)
                    &&& c.frontend_origin@ == text_or(frontend_origin, "*"@)
                    &&& c.email_queue_provider@ == text_or(email_queue_provider, "memory"@)
                    &&& c.email_queue_size == number_or(email_queue_size, usize::MAX as nat, 100)
                },
                Err(e) => if database_url is None {
                    e@ == "DATABASE_URL not set"@
                } else if jwt_secret is None {
                    e@ == "JWT_SECRET not set"@
                } else if !secret_ok(jwt_secret->0@) {
                    e@ == "JWT_SECRET must be at least 32 characters and not 'changeme'"@
                } else {
                    s3_bucket is None && e@ == "S3_BUCKET not set"@
                },
            },
    {
        let database_url = match database_url {
            Some(v) => v,
            None => {
                return Err("DATABASE_URL not set".to_owned());
            },
        };
        let jwt_secret = match jwt_secret {
            Some(v) => v,
            None => {
                return Err("JWT_SECRET not set".to_owned());
            },
        };
        let n = jwt_secret.as_str().len();
        if n < 32 || chars_eq(&chars_of(jwt_secret.as_str()), &chars_of("changeme")) {
            return Err("JWT_SECRET must be at least 32 characters and not 'changeme'".to_owned());
        }
        let s3_bucket = match s3_bucket {
            Some(v) => v,
            None => {
                return Err("S3_BUCKET not set".to_owned());
            },
        };
        let email_queue_size = usize_or(&email_queue_size, 100);
        Ok(AppConfig {
            database_url,
            jwt_secret,
            s3_bucket,
            frontend_origin: string_or(frontend_origin, "*"),
            email_queue_provider: string_or(email_queue_provider, "memory"),
            email_queue_size,
        })
    }
}

impl WorkerConfig {
    /// The worker's configuration from `DATABASE_URL`, `REDIS_URL`,
    /// `S3_BUCKET`, whether `PROCESS_ONE_JOB` is set, `WORKER_CONCURRENCY`,
    /// `METRICS_PORT` and `SHUTDOWN_AFTER_IDLE`. The first two are required;
    /// the bucket defaults to "uploads", the concurrency to 1, the port to
    /// 9100, and the idle shutdown is off unless it parses.
    pub fn from_env(
        database_url: Option<String>,
        redis_url: Option<String>,
        s3_bucket: Option<String>,
        process_one_job: bool,
        worker_concurrency: Option<String>,
        metrics_port: Option<String>,
        shutdown_after_idle: Option<String>,
    ) -> (r: Result<WorkerConfig, String>)
        ensures
            match r {
                Ok(c) => {
                    &&& database_url == Some(c.database_url)
                    &&& redis_url == Some(c.redis_url)
                    &&& c.s3_bucket@ == text_or(s3_bucket, "uploads"@)
                    &&& c.process_one_job == process_one_job
                    &&& c.worker_concurrency == number_or(worker_concurrency, usize::MAX as nat, 1)
                    &&& c.metrics_port == number_or(metrics_port, u16::MAX as nat, 9100)
                    &&& match c.shutdown_after_idle {
                        Some(x) => optional_number(shutdown_after_idle, u64::MAX as nat) == Some(x as nat),
                        None => optional_number(shutdown_after_idle, u64::MAX as nat) is None,
                    }
                },
                Err(e) => if database_url is None {
                    e@ == "DATABASE_URL not set"@
                } else {
                    redis_url is None && e@ == "REDIS_URL not set"@
                },
            },
    {
        let database_url = match database_url {
            Some(v) => v,
            None => {
                return Err("DATABASE_URL not set".to_owned());
            },
        };
        let redis_url = match redis_url {
            Some(v) => v,
            None => {
                return Err("REDIS_URL not set".to_owned());
            },
        };
        let port = match &metrics_port {
            Some(v) => match parse_u16(v.as_str()) {
                Some(p) => p,
                None => 9100,
            },
            None => 9100,
        };
        Ok(WorkerConfig {
            database_url,
            redis_url,
            s3_bucket: string_or(s3_bucket, "uploads"),
            process_one_job,
            worker_concurrency: usize_or(&worker_concurrency, 1),
            metrics_port: port,
            shutdown_after_idle: optional_u64(&shutdown_after_idle),
        })
    }
}

impl CleanupConfig {
    /// The cleanup job's configuration from `DATABASE_URL` (required),
    /// `S3_BUCKET` (default "uploads") and `CLEANUP_INTERVAL_MINUTES`.
    pub fn from_env(
        database_url: Option<String>,
        s3_bucket: Option<String>,
        interval_minutes: Option<String>,
    ) -> (r: Result<CleanupConfig, String>)
        ensures
            match r {
                Ok(c) => {
                    &&& database_url == Some(c.database_url)
                    &&& c.s3_bucket@ == text_or(s3_bucket, "uploads"@)
                    &&& match c.interval_minutes {
                        Some(x) => optional_number(interval_minutes, u64::MAX as nat) == Some(x as nat),
                        None => optional_number(interval_minutes, u64::MAX as nat) is None,
                    }
                },
                Err(e) => database_url is None && e@ == "DATABASE_URL not set"@,
            },
    {
        let database_url = match database_url {
            Some(v) => v,
            None => {
                return Err("DATABASE_URL not set".to_owned());
            },
        };
        Ok(CleanupConfig {
            database_url,
            s3_bucket: string_or(s3_bucket, "uploads"),
            interval_minutes: optional_u64(&interval_minutes),
        })
    }
}

impl AdminConfig {
    /// The admin tool's configuration from `DATABASE_URL` (required).
    pub fn from_env(database_url: Option<String>) -> (r: Result<AdminConfig, String>)
        ensures
            match r {
                Ok(c) => database_url == Some(c.database_url),
                Err(e) => database_url is None && e@ == "DATABASE_URL not set"@,
            },
    {
        match database_url {
            Some(v) => Ok(AdminConfig { database_url: v }),
            None => Err("DATABASE_URL not set".to_owned()),
        }
    }
}

/// The public base URL that links in emails start with: `BASE_URL`, else
/// "http://localhost:8080".
pub fn base_url(setting: Option<String>) -> (r: String)
    ensures
        r@ == text_or(setting, "http://localhost:8080"@),
{
    string_or(setting, "http://localhost:8080")
}

/// The bucket that uploads are stored in: `S3_BUCKET`, else "uploads".
pub fn bucket_name(setting: Option<String>) -> (r: String)
    ensures
        r@ == text_or(setting, "uploads"@),
{
    string_or(setting, "uploads")
}

} // verus!
