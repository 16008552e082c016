use vstd::prelude::*;

verus! {

/// The worker's settings.
#[derive(Clone, Debug)]
pub struct Config {
    pub redis: RedisConfig,
    pub storage: StorageConfig,
    pub processing: ProcessingConfig,
    pub logging: LoggingConfig,
}

/// Where jobs are queued.
#[derive(Clone, Debug)]
pub struct RedisConfig {
    pub url: String,
    pub queue_name: String,
}

/// Where job files live.
#[derive(Clone, Debug)]
pub struct StorageConfig {
    pub storage_type: String,
    pub input_path: String,
    pub output_path: String,
    pub s3: S3Config,
}

/// An object store bucket; empty where none is configured.
#[derive(Clone, Debug)]
pub struct S3Config {
    pub bucket: String,
    pub region: String,
}

impl Default for S3Config {
    fn default() -> (r: S3Config)
        ensures
            r.bucket@.len() == 0,
            r.region@.len() == 0,
    {
        S3Config { bucket: String::new(), region: String::new() }
    }
}

/// Limits that a supervisor enforces on jobs.
#[derive(Clone, Debug)]
pub struct ProcessingConfig {
    pub max_workers: usize,
    pub timeout_seconds: u64,
}

#[derive(Clone, Debug)]
pub struct LoggingConfig {
    pub level: String,
    pub format: String,
}

} // verus!
