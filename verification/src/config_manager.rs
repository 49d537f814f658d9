//! Persistent configuration: feature flags, environment settings, validation.
//!
//! Reading and writing the configuration file is done by the caller; this
//! module decides the file format from the path and holds the logic over the
//! loaded values.

use vstd::prelude::*;
use crate::cli::Cli;
use crate::config::ProxyConfig;
use crate::text::{has_suffix, owned, str_eq, str_ends_with};

verus! {

broadcast use vstd::string::group_string_axioms;

/// Feature flags for controlling experimental and optional functionality.
#[derive(Debug, Clone, Copy, PartialEq, Eq, Structural)]
pub struct FeatureFlags {
    /// Enable the new chat endpoint by default.
    pub enable_new_chat_endpoint: bool,
    /// Enable streaming responses.
    pub enable_streaming: bool,
    /// Enable tool calling support.
    pub enable_tool_calls: bool,
    /// Enable request/response caching.
    pub enable_caching: bool,
    /// Enable metrics collection.
    pub enable_metrics: bool,
    /// Enable rate limiting.
    pub enable_rate_limiting: bool,
    /// Enable request logging to file.
    pub enable_request_logging: bool,
    /// Enable response compression.
    pub enable_compression: bool,
}

/// The default flags: only the new chat endpoint is on.
pub open spec fn default_feature_flags() -> FeatureFlags {
    FeatureFlags {
        enable_new_chat_endpoint: true,
        enable_streaming: false,
        enable_tool_calls: false,
        enable_caching: false,
        enable_metrics: false,
        enable_rate_limiting: false,
        enable_request_logging: false,
        enable_compression: false,
    }
}

impl Default for FeatureFlags {
    fn default() -> (r: Self)
        ensures
            r == default_feature_flags(),
    {
        FeatureFlags {
            enable_new_chat_endpoint: true,
            enable_streaming: false,
            enable_tool_calls: false,
            enable_caching: false,
            enable_metrics: false,
            enable_rate_limiting: false,
            enable_request_logging: false,
            enable_compression: false,
        }
    }
}

/// The features that a flag can switch, in their canonical order.
#[derive(Debug, Clone, Copy, PartialEq, Eq, Structural)]
pub enum Feature {
    NewChatEndpoint,
    Streaming,
    ToolCalls,
    Caching,
    Metrics,
    RateLimiting,
    RequestLogging,
    Compression,
}

/// The name by which a feature is addressed.
pub open spec fn feature_name(f: Feature) -> Seq<char> {
    match f {
        Feature::NewChatEndpoint => "new_chat_endpoint"@,
        Feature::Streaming => "streaming"@,
        Feature::ToolCalls => "tool_calls"@,
        Feature::Caching => "caching"@,
        Feature::Metrics => "metrics"@,
        Feature::RateLimiting => "rate_limiting"@,
        Feature::RequestLogging => "request_logging"@,
        Feature::Compression => "compression"@,
    }
}

/// The feature addressed by `name`, if any.
pub open spec fn feature_named(name: Seq<char>) -> Option<Feature> {
    if name == "new_chat_endpoint"@ {
        Some(Feature::NewChatEndpoint)
    } else if name == "streaming"@ {
        Some(Feature::Streaming)
    } else if name == "tool_calls"@ {
        Some(Feature::ToolCalls)
    } else if name == "caching"@ {
        Some(Feature::Caching)
    } else if name == "metrics"@ {
        Some(Feature::Metrics)
    } else if name == "rate_limiting"@ {
        Some(Feature::RateLimiting)
    } else if name == "request_logging"@ {
        Some(Feature::RequestLogging)
    } else if name == "compression"@ {
        Some(Feature::Compression)
    } else {
        None
    }
}

impl FeatureFlags {
    /// The value of one flag.
    pub open spec fn get(self, f: Feature) -> bool {
        match f {
            Feature::NewChatEndpoint => self.enable_new_chat_endpoint,
            Feature::Streaming => self.enable_streaming,
            Feature::ToolCalls => self.enable_tool_calls,
            Feature::Caching => self.enable_caching,
            Feature::Metrics => self.enable_metrics,
            Feature::RateLimiting => self.enable_rate_limiting,
            Feature::RequestLogging => self.enable_request_logging,
            Feature::Compression => self.enable_compression,
        }
    }

    /// The flags with one flag set to `v`.
    pub open spec fn set(self, f: Feature, v: bool) -> FeatureFlags {
        match f {
            Feature::NewChatEndpoint => FeatureFlags { enable_new_chat_endpoint: v, ..self },
            Feature::Streaming => FeatureFlags { enable_streaming: v, ..self },
            Feature::ToolCalls => FeatureFlags { enable_tool_calls: v, ..self },
            Feature::Caching => FeatureFlags { enable_caching: v, ..self },
            Feature::Metrics => FeatureFlags { enable_metrics: v, ..self },
            Feature::RateLimiting => FeatureFlags { enable_rate_limiting: v, ..self },
            Feature::RequestLogging => FeatureFlags { enable_request_logging: v, ..self },
            Feature::Compression => FeatureFlags { enable_compression: v, ..self },
        }
    }

    /// The value of the flag addressed by `name`, if the name is known.
    pub open spec fn value_named(self, name: Seq<char>) -> Option<bool> {
        match feature_named(name) {
            Some(f) => Some(self.get(f)),
            None => None,
        }
    }

    /// The names of the enabled features, in canonical order.
    pub open spec fn enabled_names(self) -> Seq<Seq<char>> {
        (if self.enable_new_chat_endpoint { seq!["new_chat_endpoint"@] } else { seq![] })
        + (if self.enable_streaming { seq!["streaming"@] } else { seq![] })
        + (if self.enable_tool_calls { seq!["tool_calls"@] } else { seq![] })
        + (if self.enable_caching { seq!["caching"@] } else { seq![] })
        + (if self.enable_metrics { seq!["metrics"@] } else { seq![] })
        + (if self.enable_rate_limiting { seq!["rate_limiting"@] } else { seq![] })
        + (if self.enable_request_logging { seq!["request_logging"@] } else { seq![] })
        + (if self.enable_compression { seq!["compression"@] } else { seq![] })
    }

    /// Reads one flag.
    pub fn get_flag(&self, f: Feature) -> (r: bool)
        ensures
            r == self.get(f),
    {
        match f {
            Feature::NewChatEndpoint => self.enable_new_chat_endpoint,
            Feature::Streaming => self.enable_streaming,
            Feature::ToolCalls => self.enable_tool_calls,
            Feature::Caching => self.enable_caching,
            Feature::Metrics => self.enable_metrics,
            Feature::RateLimiting => self.enable_rate_limiting,
            Feature::RequestLogging => self.enable_request_logging,
            Feature::Compression => self.enable_compression,
        }
    }

    /// Writes one flag.
    pub fn set_flag(&mut self, f: Feature, v: bool)
        ensures
            *final(self) == old(self).set(f, v),
    {
        match f {
            Feature::NewChatEndpoint => self.enable_new_chat_endpoint = v,
            Feature::Streaming => self.enable_streaming = v,
            Feature::ToolCalls => self.enable_tool_calls = v,
            Feature::Caching => self.enable_caching = v,
            Feature::Metrics => self.enable_metrics = v,
            Feature::RateLimiting => self.enable_rate_limiting = v,
            Feature::RequestLogging => self.enable_request_logging = v,
            Feature::Compression => self.enable_compression = v,
        }
    }
}

impl Feature {
    /// The feature addressed by `name`, if any.
    pub fn from_name(name: &str) -> (r: Option<Feature>)
        ensures
            r == feature_named(name@),
    {
        if str_eq(name, "new_chat_endpoint") {
            Some(Feature::NewChatEndpoint)
        } else if str_eq(name, "streaming") {
            Some(Feature::Streaming)
        } else if str_eq(name, "tool_calls") {
            Some(Feature::ToolCalls)
        } else if str_eq(name, "caching") {
            Some(Feature::Caching)
        } else if str_eq(name, "metrics") {
            Some(Feature::Metrics)
        } else if str_eq(name, "rate_limiting") {
            Some(Feature::RateLimiting)
        } else if str_eq(name, "request_logging") {
            Some(Feature::RequestLogging)
        } else if str_eq(name, "compression") {
            Some(Feature::Compression)
        } else {
            None
        }
    }
}

/// Environment-specific configuration settings.
#[derive(Debug)]
pub struct EnvironmentConfig {
    /// Environment name (development, staging, production).
    pub environment: String,
    /// Log level (trace, debug, info, warn, error).
    pub log_level: String,
    /// Server host binding.
    pub host: String,
    /// Server port.
    pub port: u16,
    /// Request timeout in seconds.
    pub request_timeout_seconds: u64,
    /// Maximum concurrent requests.
    pub max_concurrent_requests: Option<usize>,
    /// Enable CORS.
    pub enable_cors: bool,
    /// Allowed origins for CORS.
    pub cors_origins: Vec<String>,
}

impl EnvironmentConfig {
    /// Two settings that hold the same values.
    pub open spec fn same_as(self, other: EnvironmentConfig) -> bool {
        &&& self.environment@ == other.environment@
        &&& self.log_level@ == other.log_level@
        &&& self.host@ == other.host@
        &&& self.port == other.port
        &&& self.request_timeout_seconds == other.request_timeout_seconds
        &&& self.max_concurrent_requests == other.max_concurrent_requests
        &&& self.enable_cors == other.enable_cors
        &&& self.cors_origins.deep_view() == other.cors_origins.deep_view()
    }

    /// The default settings: development, info, 127.0.0.1:8000, 30 s timeout,
    /// no concurrency limit, CORS on for every origin.
    pub open spec fn is_default(self) -> bool {
        &&& self.environment@ == "development"@
        &&& self.log_level@ == "info"@
        &&& self.host@ == "127.0.0.1"@
        &&& self.port == 8000
        &&& self.request_timeout_seconds == 30
        &&& self.max_concurrent_requests is None
        &&& self.enable_cors
        &&& self.cors_origins.deep_view() == seq!["*"@]
    }

    /// A copy of these settings.
    pub fn duplicate(&self) -> (r: EnvironmentConfig)
        ensures
            r.same_as(*self),
    {
        let mut origins: Vec<String> = Vec::new();
        let mut i: usize = 0;
        while i < self.cors_origins.len()
            invariant
                i <= self.cors_origins.len(),
                origins@.len() == i,
                forall|k: int| 0 <= k < i ==> (#[trigger] origins@[k])@ == self.cors_origins@[k]@,
            decreases self.cors_origins.len() - i,
        {
            let item = self.cors_origins[i].clone();
            origins.push(item);
            i += 1;
        }
        assert(origins.deep_view() =~= self.cors_origins.deep_view());
        EnvironmentConfig {
            environment: self.environment.clone(),
            log_level: self.log_level.clone(),
            host: self.host.clone(),
            port: self.port,
            request_timeout_seconds: self.request_timeout_seconds,
            max_concurrent_requests: self.max_concurrent_requests,
            enable_cors: self.enable_cors,
            cors_origins: origins,
        }
    }
}

impl Default for EnvironmentConfig {
    fn default() -> (r: Self)
        ensures
            r.is_default(),
    {
        let mut origins: Vec<String> = Vec::new();
        origins.push(owned("*"));
        assert(origins.deep_view() =~= seq!["*"@]);
        EnvironmentConfig {
            environment: owned("development"),
            log_level: owned("info"),
            host: owned("127.0.0.1"),
            port: 8000,
            request_timeout_seconds: 30,
            max_concurrent_requests: None,
            enable_cors: true,
            cors_origins: origins,
        }
    }
}

/// Configuration file contents.
#[derive(Debug)]
pub struct ConfigFile {
    /// Proxy server configuration.
    pub proxy: ProxyConfig,
    /// Feature flags for experimental functionality.
    pub features: FeatureFlags,
    /// Environment-specific settings.
    pub environment: EnvironmentConfig,
}

impl ConfigFile {
    /// The configuration used when no file could be loaded.
    pub open spec fn is_default(self) -> bool {
        &&& self.proxy == (ProxyConfig { enable_chat_streaming: false, include_debug_info: false })
        &&& self.features == default_feature_flags()
        &&& self.environment.is_default()
    }
}

impl Default for ConfigFile {
    fn default() -> (r: Self)
        ensures
            r.is_default(),
    {
        ConfigFile {
            proxy: ProxyConfig::default(),
            features: FeatureFlags::default(),
            environment: EnvironmentConfig::default(),
        }
    }
}

/// The messages that validation reports for a configuration, in order.
pub open spec fn config_errors(c: ConfigFile) -> Seq<Seq<char>> {
    let env = c.environment;
    (if env.port == 0 { seq!["Port cannot be 0"@] } else { seq![] })
    + (if env.request_timeout_seconds == 0 { seq!["Request timeout cannot be 0"@] } else { seq![] })
    + (if !(env.environment@ == "development"@ || env.environment@ == "staging"@
        || env.environment@ == "production"@) {
        seq!["Environment must be one of: development, staging, production"@]
    } else {
        seq![]
    })
    + (if !(env.log_level@ == "trace"@ || env.log_level@ == "debug"@ || env.log_level@ == "info"@
        || env.log_level@ == "warn"@ || env.log_level@ == "error"@) {
        seq!["Log level must be one of: trace, debug, info, warn, error"@]
    } else {
        seq![]
    })
}

/// Serialization format of a configuration file.
#[derive(Debug, Clone, Copy, PartialEq, Eq, Structural)]
pub enum ConfigFormat {
    Json,
    Yaml,
    Toml,
}

/// The format a path's extension selects: `.json`, `.yaml` or `.yml`, and
/// TOML for every other path.
pub open spec fn format_for_path(path: Seq<char>) -> ConfigFormat {
    if has_suffix(path, ".json"@) {
        ConfigFormat::Json
    } else if has_suffix(path, ".yaml"@) || has_suffix(path, ".yml"@) {
        ConfigFormat::Yaml
    } else {
        ConfigFormat::Toml
    }
}

/// Chooses the file format for a configuration path.
pub fn config_format(path: &str) -> (r: ConfigFormat)
    ensures
        r == format_for_path(path@),
{
    if str_ends_with(path, ".json") {
        ConfigFormat::Json
    } else if str_ends_with(path, ".yaml") || str_ends_with(path, ".yml") {
        ConfigFormat::Yaml
    } else {
        ConfigFormat::Toml
    }
}

/// Appends `text` to `v` when `cond` holds.
fn push_name_if(v: &mut Vec<String>, cond: bool, text: &str)
    ensures
        final(v).deep_view() == old(v).deep_view() + (if cond { seq![text@] } else { seq![] }),
{
    if cond {
        let ghost before = v@;
        v.push(owned(text));
        assert(v.deep_view() =~= old(v).deep_view() + seq![text@]) by {
            assert forall|k: int| 0 <= k < before.len() implies v@[k] == before[k] by {}
        }
    } else {
        assert(v.deep_view() =~= old(v).deep_view() + Seq::<Seq<char>>::empty());
    }
}

/// Effective configuration after merging all sources.
#[derive(Debug)]
pub struct EffectiveConfig {
    pub proxy: ProxyConfig,
    pub features: FeatureFlags,
    pub environment: EnvironmentConfig,
}

impl EffectiveConfig {
    /// Whether a feature is enabled; unknown names are disabled.
    pub fn is_feature_enabled(&self, feature: &str) -> (r: bool)
        ensures
            r == match self.features.value_named(feature@) {
                Some(v) => v,
                None => false,
            },
    {
        match Feature::from_name(feature) {
            Some(f) => self.features.get_flag(f),
            None => false,
        }
    }

    /// The names of all enabled features, in canonical order.
    pub fn get_enabled_features(&self) -> (r: Vec<String>)
        ensures
            r.deep_view() == self.features.enabled_names(),
    {
        let f = &self.features;
        let mut enabled: Vec<String> = Vec::new();
        push_name_if(&mut enabled, f.enable_new_chat_endpoint, "new_chat_endpoint");
        push_name_if(&mut enabled, f.enable_streaming, "streaming");
        push_name_if(&mut enabled, f.enable_tool_calls, "tool_calls");
        push_name_if(&mut enabled, f.enable_caching, "caching");
        push_name_if(&mut enabled, f.enable_metrics, "metrics");
        push_name_if(&mut enabled, f.enable_rate_limiting, "rate_limiting");
        push_name_if(&mut enabled, f.enable_request_logging, "request_logging");
        push_name_if(&mut enabled, f.enable_compression, "compression");
        assert(enabled.deep_view() =~= self.features.enabled_names());
        enabled
    }
}

/// Configuration manager: the path of the configuration file and the
/// configuration it holds.
pub struct ConfigManager {
    config_path: String,
    config: ConfigFile,
}

impl ConfigManager {
    /// The configuration held.
    pub closed spec fn config_view(&self) -> ConfigFile {
        self.config
    }

    /// The path of the configuration file.
    pub closed spec fn path_view(&self) -> Seq<char> {
        self.config_path@
    }

    /// Creates a manager for `config_path` from what loading that file gave:
    /// the loaded configuration, or the default one where loading failed.
    pub fn new(config_path: &str, loaded: Option<ConfigFile>) -> (r: Self)
        ensures
            r.path_view() == config_path@,
            match loaded {
                Some(c) => r.config_view() == c,
                None => r.config_view().is_default(),
            },
    {
        let config = match loaded {
            Some(c) => c,
            None => ConfigFile::default(),
        };
        ConfigManager { config_path: owned(config_path), config }
    }

    /// The path of the configuration file.
    pub fn path(&self) -> (r: &str)
        ensures
            r@ == self.path_view(),
    {
        self.config_path.as_str()
    }

    /// The format in which the configuration file is read and written.
    pub fn format(&self) -> (r: ConfigFormat)
        ensures
            r == format_for_path(self.path_view()),
    {
        config_format(self.config_path.as_str())
    }

    /// Gets the current configuration.
    pub fn get_config(&self) -> (r: &ConfigFile)
        ensures
            *r == self.config_view(),
    {
        &self.config
    }

    /// Gets a mutable reference to the configuration.
    pub fn get_config_mut(&mut self) -> (r: &mut ConfigFile)
        ensures
            *r == old(self).config_view(),
            final(self).config_view() == *final(r),
            final(self).path_view() == old(self).path_view(),
    {
        &mut self.config
    }

    /// Updates the proxy configuration.
    pub fn update_proxy_config(&mut self, proxy_config: ProxyConfig)
        ensures
            final(self).config_view() == (ConfigFile { proxy: proxy_config, ..old(self).config_view() }),
            final(self).path_view() == old(self).path_view(),
    {
        self.config.proxy = proxy_config;
    }

    /// Updates feature flags.
    pub fn update_feature_flags(&mut self, feature_flags: FeatureFlags)
        ensures
            final(self).config_view() == (ConfigFile { features: feature_flags, ..old(self).config_view() }),
            final(self).path_view() == old(self).path_view(),
    {
        self.config.features = feature_flags;
    }

    /// Updates environment configuration.
    pub fn update_environment_config(&mut self, env_config: EnvironmentConfig)
        ensures
            final(self).config_view() == (ConfigFile { environment: env_config, ..old(self).config_view() }),
            final(self).path_view() == old(self).path_view(),
    {
        self.config.environment = env_config;
    }

    /// Enables or disables the feature flag named `flag`; an unknown name is
    /// an error and changes nothing.
    pub fn set_feature_flag(&mut self, flag: &str, enabled: bool) -> (r: Result<(), String>)
        ensures
            final(self).path_view() == old(self).path_view(),
            match feature_named(flag@) {
                Some(f) => {
                    &&& r is Ok
                    &&& final(self).config_view() == (ConfigFile {
                        features: old(self).config_view().features.set(f, enabled),
                        ..old(self).config_view()
                    })
                },
                None => {
                    &&& r matches Err(msg) && msg@ == "Unknown feature flag: "@ + flag@
                    &&& final(self).config_view() == old(self).config_view()
                },
            },
    {
        match Feature::from_name(flag) {
            Some(f) => {
                self.config.features.set_flag(f, enabled);
                Ok(())
            },
            None => {
                let mut msg = owned("Unknown feature flag: ");
                crate::text::push_str(&mut msg, flag);
                Err(msg)
            },
        }
    }

    /// Gets the value of the feature flag named `flag`.
    pub fn get_feature_flag(&self, flag: &str) -> (r: Result<bool, String>)
        ensures
            match self.config_view().features.value_named(flag@) {
                Some(v) => r == Ok::<bool, String>(v),
                None => r matches Err(msg) && msg@ == "Unknown feature flag: "@ + flag@,
            },
    {
        match Feature::from_name(flag) {
            Some(f) => Ok(self.config.features.get_flag(f)),
            None => {
                let mut msg = owned("Unknown feature flag: ");
                crate::text::push_str(&mut msg, flag);
                Err(msg)
            },
        }
    }

    /// Validates the current configuration: every problem found, in order.
    pub fn validate_config(&self) -> (r: Result<(), Vec<String>>)
        ensures
            match r {
                Ok(()) => config_errors(self.config_view()).len() == 0,
                Err(errors) => {
                    &&& errors.deep_view() == config_errors(self.config_view())
                    &&& errors.len() > 0
                },
            },
    {
        let env = &self.config.environment;
        let mut errors: Vec<String> = Vec::new();
        push_name_if(&mut errors, env.port == 0, "Port cannot be 0");
        push_name_if(&mut errors, env.request_timeout_seconds == 0, "Request timeout cannot be 0");
        let e = env.environment.as_str();
        let env_ok = str_eq(e, "development") || str_eq(e, "staging") || str_eq(e, "production");
        push_name_if(
            &mut errors,
            !env_ok,
            "Environment must be one of: development, staging, production",
        );
        let l = env.log_level.as_str();
        let level_ok = str_eq(l, "trace") || str_eq(l, "debug") || str_eq(l, "info") || str_eq(
            l,
            "warn",
        ) || str_eq(l, "error");
        push_name_if(
            &mut errors,
            !level_ok,
            "Log level must be one of: trace, debug, info, warn, error",
        );
        assert(errors.deep_view() =~= config_errors(self.config_view()));
        if errors.len() == 0 {
            Ok(())
        } else {
            Err(errors)
        }
    }

    /// Merges command-line options into the configuration: the debug switch,
    /// the port and the host.
    pub fn merge_with_cli_args(&mut self, cli_args: &Cli)
        ensures
            final(self).path_view() == old(self).path_view(),
            final(self).config_view().proxy == (ProxyConfig {
                include_debug_info: cli_args.include_debug_info,
                ..old(self).config_view().proxy
            }),
            final(self).config_view().features == old(self).config_view().features,
            final(self).config_view().environment == (EnvironmentConfig {
                port: cli_args.port,
                host: cli_args.host,
                ..old(self).config_view().environment
            }),
    {
        self.config.proxy.include_debug_info = cli_args.include_debug_info;
        self.config.environment.port = cli_args.port;
        self.config.environment.host = cli_args.host.clone();
    }

    /// The effective configuration: a copy of the held one.
    pub fn get_effective_config(&self) -> (r: EffectiveConfig)
        ensures
            r.proxy == self.config_view().proxy,
            r.features == self.config_view().features,
            r.environment.same_as(self.config_view().environment),
    {
        EffectiveConfig {
            proxy: self.config.proxy,
            features: self.config.features,
            environment: self.config.environment.duplicate(),
        }
    }
}

// ---------------------------------------------------------------------------
// Laws
// ---------------------------------------------------------------------------

/// The feature names are pairwise distinct: their lengths differ, except for
/// `caching` and `metrics`, which differ in their first letter.
proof fn lemma_feature_name_shapes()
    ensures
        "new_chat_endpoint"@.len() == 17,
        "streaming"@.len() == 9,
        "tool_calls"@.len() == 10,
        "caching"@.len() == 7,
        "metrics"@.len() == 7,
        "rate_limiting"@.len() == 13,
        "request_logging"@.len() == 15,
        "compression"@.len() == 11,
        "caching"@[0] == 'c',
        "metrics"@[0] == 'm',
{
    reveal_strlit("new_chat_endpoint");
    reveal_strlit("streaming");
    reveal_strlit("tool_calls");
    reveal_strlit("caching");
    reveal_strlit("metrics");
    reveal_strlit("rate_limiting");
    reveal_strlit("request_logging");
    reveal_strlit("compression");
}

/// Every feature is addressed by its own name.
pub proof fn law_feature_names_round_trip(f: Feature)
    ensures
        feature_named(feature_name(f)) == Some(f),
{
    lemma_feature_name_shapes();
}

/// Reading a flag after setting it gives the value set.
pub proof fn law_set_then_get(flags: FeatureFlags, name: Seq<char>, v: bool)
    requires
        feature_named(name) is Some,
    ensures
        flags.set(feature_named(name)->0, v).value_named(name) == Some(v),
{
}

/// Setting one flag leaves every other flag as it was.
pub proof fn law_set_leaves_other_flags(flags: FeatureFlags, f: Feature, g: Feature, v: bool)
    requires
        f != g,
    ensures
        flags.set(f, v).get(g) == flags.get(g),
{
}

/// Appending an optional singleton adds exactly that element.
proof fn lemma_contains_after_optional(prefix: Seq<Seq<char>>, b: bool, x: Seq<char>, y: Seq<char>)
    ensures
        (prefix + (if b { seq![x] } else { seq![] })).contains(y)
            <==> (prefix.contains(y) || (b && y == x)),
{
    let s = prefix + (if b { seq![x] } else { seq![] });
    if prefix.contains(y) {
        let i = choose|i: int| 0 <= i < prefix.len() && prefix[i] == y;
        assert(s[i] == y);
    }
    if b && y == x {
        assert(s[prefix.len() as int] == y);
    }
    if s.contains(y) {
        let i = choose|i: int| 0 <= i < s.len() && s[i] == y;
        if i < prefix.len() {
            assert(prefix[i] == y);
        }
    }
}

/// The enabled features listed are exactly the known flags that are on.
pub proof fn law_enabled_names_are_enabled_flags(flags: FeatureFlags, name: Seq<char>)
    ensures
        flags.enabled_names().contains(name) <==> flags.value_named(name) == Some(true),
{
    lemma_feature_name_shapes();
    let e: Seq<Seq<char>> = seq![];
    let s1 = e + (if flags.enable_new_chat_endpoint { seq!["new_chat_endpoint"@] } else { seq![] });
    assert(s1 =~= (if flags.enable_new_chat_endpoint { seq!["new_chat_endpoint"@] } else { seq![] }));
    lemma_contains_after_optional(e, flags.enable_new_chat_endpoint, "new_chat_endpoint"@, name);
    let s2 = s1 + (if flags.enable_streaming { seq!["streaming"@] } else { seq![] });
    lemma_contains_after_optional(s1, flags.enable_streaming, "streaming"@, name);
    let s3 = s2 + (if flags.enable_tool_calls { seq!["tool_calls"@] } else { seq![] });
    lemma_contains_after_optional(s2, flags.enable_tool_calls, "tool_calls"@, name);
    let s4 = s3 + (if flags.enable_caching { seq!["caching"@] } else { seq![] });
    lemma_contains_after_optional(s3, flags.enable_caching, "caching"@, name);
    let s5 = s4 + (if flags.enable_metrics { seq!["metrics"@] } else { seq![] });
    lemma_contains_after_optional(s4, flags.enable_metrics, "metrics"@, name);
    let s6 = s5 + (if flags.enable_rate_limiting { seq!["rate_limiting"@] } else { seq![] });
    lemma_contains_after_optional(s5, flags.enable_rate_limiting, "rate_limiting"@, name);
    let s7 = s6 + (if flags.enable_request_logging { seq!["request_logging"@] } else { seq![] });
    lemma_contains_after_optional(s6, flags.enable_request_logging, "request_logging"@, name);
    let s8 = s7 + (if flags.enable_compression { seq!["compression"@] } else { seq![] });
    lemma_contains_after_optional(s7, flags.enable_compression, "compression"@, name);
    assert(s8 =~= flags.enabled_names());
}

/// The default configuration passes validation.
pub proof fn law_default_config_is_valid(c: ConfigFile)
    requires
        c.is_default(),
    ensures
        config_errors(c).len() == 0,
{
    reveal_strlit("development");
    reveal_strlit("info");
    reveal_strlit("trace");
    reveal_strlit("debug");
}


/// A configuration passes validation whenever its port and timeout are not
/// zero, its environment is `development`, `staging` or `production`, and
/// its log level is `trace`, `debug`, `info`, `warn` or `error`; an
/// environment outside those three is always reported.
pub proof fn law_valid_settings_pass(c: ConfigFile)
    ensures
        (c.environment.port != 0 && c.environment.request_timeout_seconds != 0 && (
        c.environment.environment@ == "development"@ || c.environment.environment@ == "staging"@
            || c.environment.environment@ == "production"@) && (c.environment.log_level@ == "trace"@
            || c.environment.log_level@ == "debug"@ || c.environment.log_level@ == "info"@
            || c.environment.log_level@ == "warn"@ || c.environment.log_level@ == "error"@))
            ==> config_errors(c).len() == 0,
        !(c.environment.environment@ == "development"@ || c.environment.environment@ == "staging"@
            || c.environment.environment@ == "production"@) ==> config_errors(c).contains(
            "Environment must be one of: development, staging, production"@,
        ),
{
    let env = c.environment;
    let e1: Seq<Seq<char>> = if env.port == 0 { seq!["Port cannot be 0"@] } else { seq![] };
    let e2: Seq<Seq<char>> = if env.request_timeout_seconds == 0 {
        seq!["Request timeout cannot be 0"@]
    } else {
        seq![]
    };
    let m = "Environment must be one of: development, staging, production"@;
    if !(env.environment@ == "development"@ || env.environment@ == "staging"@
        || env.environment@ == "production"@) {
        assert(config_errors(c)[(e1.len() + e2.len()) as int] == m);
    }
}


/// A zero port, a zero timeout and a log level outside the five are each
/// reported, whatever else the configuration holds.
pub proof fn law_invalid_settings_reported(c: ConfigFile)
    ensures
        c.environment.port == 0 ==> config_errors(c).contains("Port cannot be 0"@),
        c.environment.request_timeout_seconds == 0 ==> config_errors(c).contains(
            "Request timeout cannot be 0"@,
        ),
        !(c.environment.log_level@ == "trace"@ || c.environment.log_level@ == "debug"@
            || c.environment.log_level@ == "info"@ || c.environment.log_level@ == "warn"@
            || c.environment.log_level@ == "error"@) ==> config_errors(c).contains(
            "Log level must be one of: trace, debug, info, warn, error"@,
        ),
{
    let env = c.environment;
    let errs = config_errors(c);
    if env.port == 0 {
        assert(errs[0] == "Port cannot be 0"@);
    }
    if env.request_timeout_seconds == 0 {
        let i: int = if env.port == 0 { 1 } else { 0 };
        assert(errs[i] == "Request timeout cannot be 0"@);
    }
    if !(env.log_level@ == "trace"@ || env.log_level@ == "debug"@ || env.log_level@ == "info"@
        || env.log_level@ == "warn"@ || env.log_level@ == "error"@) {
        assert(errs[errs.len() - 1] == "Log level must be one of: trace, debug, info, warn, error"@);
    }
}

} // verus!
