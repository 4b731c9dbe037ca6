//! Configuration snapshot consumed by the library: cache time-to-lives,
//! retry policy fields, and rate-limit enablement with per-service limits.
//!
//! Loading from the environment or from a file is outside work; the shell
//! builds one of these values and hands it in. The defaults here are the
//! safe defaults that apply when nothing overrides them.

use vstd::prelude::*;

verus! {

/// Cloud-tooling defaults.
#[derive(Clone)]
pub struct AzureConfig {
    /// Default subscription identifier.
    pub default_subscription: Option<String>,
    /// Default resource group name pattern.
    pub resource_group_pattern: Option<String>,
    /// Default deployment location.
    pub default_location: String,
}

/// Version-control-hosting defaults.
#[derive(Clone)]
pub struct GitHubConfig {
    /// Default repository owner.
    pub default_owner: Option<String>,
    /// Default repository name.
    pub default_repo: Option<String>,
    /// API rate limit, in requests per minute.
    pub api_rate_limit: u32,
}

/// Caching configuration.
#[derive(Clone)]
pub struct CacheConfig {
    /// Whether caching stores anything at all.
    pub enabled: bool,
    /// Default time-to-live for cached data, in seconds.
    pub default_ttl: u64,
    /// Time-to-live of the resource inventory cache, in seconds.
    pub azure_resources_ttl: u64,
    /// Time-to-live of the deployment history cache, in seconds.
    pub github_deployments_ttl: u64,
}

/// Retry configuration.
#[derive(Clone)]
pub struct RetryConfig {
    /// Whether failed operations are retried at all.
    pub enabled: bool,
    /// Maximum number of retries after the first attempt.
    pub max_retries: u32,
    /// Initial backoff delay, in milliseconds.
    pub initial_backoff_ms: u64,
    /// Cap on the backoff delay, in milliseconds.
    pub max_backoff_ms: u64,
    /// Whole-number factor by which the backoff grows per round.
    pub backoff_multiplier: u64,
}

/// Rate-limiting configuration.
#[derive(Clone)]
pub struct RateLimitConfig {
    /// Whether callers are made to wait at all.
    pub enabled: bool,
    /// Cloud API limit, in requests per minute.
    pub azure_requests_per_minute: u32,
    /// Version-control API limit, in requests per minute.
    pub github_requests_per_minute: u32,
}

/// The whole configuration snapshot.
#[derive(Clone)]
pub struct AppConfig {
    pub azure: AzureConfig,
    pub github: GitHubConfig,
    pub cache: CacheConfig,
    pub retry: RetryConfig,
    pub rate_limit: RateLimitConfig,
}

impl Default for AzureConfig {
    /// No subscription, no pattern, the default location.
    fn default() -> (r: AzureConfig)
        ensures
            r.default_subscription is None,
            r.resource_group_pattern is None,
            r.default_location@ == "westeurope"@,
    {
        AzureConfig {
            default_subscription: None,
            resource_group_pattern: None,
            default_location: "westeurope".to_owned(),
        }
    }
}

impl Default for GitHubConfig {
    /// No repository defaults; sixty requests per minute.
    fn default() -> (r: GitHubConfig)
        ensures
            r.default_owner is None,
            r.default_repo is None,
            r.api_rate_limit == 60,
    {
        GitHubConfig { default_owner: None, default_repo: None, api_rate_limit: 60 }
    }
}

impl Default for CacheConfig {
    /// Caching on; five minutes by default, ten for deployment history.
    fn default() -> (r: CacheConfig)
        ensures
            r.enabled,
            r.default_ttl == 300,
            r.azure_resources_ttl == 300,
            r.github_deployments_ttl == 600,
    {
        CacheConfig {
            enabled: true,
            default_ttl: 300,
            azure_resources_ttl: 300,
            github_deployments_ttl: 600,
        }
    }
}

impl Default for RetryConfig {
    /// Retries on; three retries, from 100 ms doubling up to 5000 ms.
    fn default() -> (r: RetryConfig)
        ensures
            r.enabled,
            r.max_retries == 3,
            r.initial_backoff_ms == 100,
            r.max_backoff_ms == 5000,
            r.backoff_multiplier == 2,
    {
        RetryConfig {
            enabled: true,
            max_retries: 3,
            initial_backoff_ms: 100,
            max_backoff_ms: 5000,
            backoff_multiplier: 2,
        }
    }
}

impl Default for RateLimitConfig {
    /// Rate limiting on; thirty cloud calls and sixty hosting calls per
    /// minute.
    fn default() -> (r: RateLimitConfig)
        ensures
            r.enabled,
            r.azure_requests_per_minute == 30,
            r.github_requests_per_minute == 60,
    {
        RateLimitConfig { enabled: true, azure_requests_per_minute: 30, github_requests_per_minute:
            60 }
    }
}

impl Default for AppConfig {
    /// The composition of every section's default.
    fn default() -> (r: AppConfig)
        ensures
            r.azure.default_subscription is None,
            r.azure.default_location@ == "westeurope"@,
            r.github.api_rate_limit == 60,
            r.cache.enabled && r.cache.default_ttl == 300 && r.cache.azure_resources_ttl == 300
                && r.cache.github_deployments_ttl == 600,
            r.retry.enabled && r.retry.max_retries == 3 && r.retry.initial_backoff_ms == 100
                && r.retry.max_backoff_ms == 5000 && r.retry.backoff_multiplier == 2,
            r.rate_limit.enabled && r.rate_limit.azure_requests_per_minute == 30
                && r.rate_limit.github_requests_per_minute == 60,
    {
        AppConfig {
            azure: AzureConfig::default(),
            github: GitHubConfig::default(),
            cache: CacheConfig::default(),
            retry: RetryConfig::default(),
            rate_limit: RateLimitConfig::default(),
        }
    }
}

impl AppConfig {
    /// Merges another snapshot into this one; the other takes precedence.
    /// Optional fields win only when set, the location only when non-empty,
    /// and the whole cache, retry and rate-limit sections are taken over.
    pub fn merge(&mut self, other: AppConfig)
        ensures
            final(self).azure.default_subscription == (if other.azure.default_subscription
                is Some {
                other.azure.default_subscription
            } else {
                old(self).azure.default_subscription
            }),
            final(self).azure.default_location == (if other.azure.default_location@.len() > 0 {
                other.azure.default_location
            } else {
                old(self).azure.default_location
            }),
            final(self).azure.resource_group_pattern == (if other.azure.resource_group_pattern
                is Some {
                other.azure.resource_group_pattern
            } else {
                old(self).azure.resource_group_pattern
            }),
            final(self).github.default_owner == (if other.github.default_owner is Some {
                other.github.default_owner
            } else {
                old(self).github.default_owner
            }),
            final(self).github.default_repo == (if other.github.default_repo is Some {
                other.github.default_repo
            } else {
                old(self).github.default_repo
            }),
            final(self).github.api_rate_limit == other.github.api_rate_limit,
            final(self).cache == other.cache,
            final(self).retry == other.retry,
            final(self).rate_limit == other.rate_limit,
    {
        if other.azure.default_subscription.is_some() {
            self.azure.default_subscription = other.azure.default_subscription;
        }
        if !other.azure.default_location.as_str().is_empty() {
            self.azure.default_location = other.azure.default_location;
        }
        if other.azure.resource_group_pattern.is_some() {
            self.azure.resource_group_pattern = other.azure.resource_group_pattern;
        }
        if other.github.default_owner.is_some() {
            self.github.default_owner = other.github.default_owner;
        }
        if other.github.default_repo.is_some() {
            self.github.default_repo = other.github.default_repo;
        }
        self.github.api_rate_limit = other.github.api_rate_limit;
        self.cache = other.cache;
        self.retry = other.retry;
        self.rate_limit = other.rate_limit;
    }
}

} // verus!
