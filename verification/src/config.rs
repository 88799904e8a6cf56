//! Configuration model, its default and its validation.

use vstd::prelude::*;
use crate::text::{join_path, joined, path_style, PathStyle};

verus! {

/// Which proxy kernel drives the gateway.
#[derive(Debug, Clone, Copy, PartialEq, Eq, Structural)]
pub enum EngineKind {
    Mihomo,
    SingBox,
}

/// Where the proxy nodes come from.
#[derive(Debug, Clone, Copy, PartialEq, Eq, Structural)]
pub enum ProxySourceMode {
    Subscription,
    LocalFile,
}

/// Which LAN devices the policy covers.
#[derive(Debug, Clone, Copy, PartialEq, Eq, Structural)]
pub enum DeviceMode {
    All,
    Allowlist,
}

/// How traffic is routed by the engine.
#[derive(Debug, Clone, Copy, PartialEq, Eq, Structural)]
pub enum RouteMode {
    Rule,
    Global,
    Direct,
}

/// How LAN devices are brought onto the gateway.
#[derive(Debug, Clone, Copy, PartialEq, Eq, Structural)]
pub enum EnforcementMode {
    GatewayOnly,
    DhcpAssist,
    PolicyRoute,
}

/// The whole configuration file.
#[derive(Debug, Clone)]
pub struct AppConfig {
    pub engine: EngineKind,
    pub runtime: RuntimeConfig,
    pub executables: Executables,
    pub inbound: InboundConfig,
    pub source: SourceConfig,
    pub gateway: GatewayConfig,
    pub enforcement: EnforcementConfig,
    pub routing: RoutingConfig,
    pub device_policy: DevicePolicy,
    pub security: SecurityConfig,
}

/// Files the gateway keeps at run time.
#[derive(Debug, Clone)]
pub struct RuntimeConfig {
    pub work_dir: String,
    pub state_file: String,
    pub audit_file: String,
}

/// Kernel executables, by name on `PATH` or by path.
#[derive(Debug, Clone)]
pub struct Executables {
    pub mihomo: String,
    pub sing_box: String,
}

/// Listening address and ports of the engine.
#[derive(Debug, Clone)]
pub struct InboundConfig {
    pub bind_address: String,
    pub mixed_port: u16,
    pub redir_port: u16,
    pub dns_port: u16,
    pub api_port: u16,
}

/// The proxy provider.
#[derive(Debug, Clone)]
pub struct SourceConfig {
    pub mode: ProxySourceMode,
    pub subscription_url: Option<String>,
    pub local_file: Option<String>,
    pub provider_name: String,
}

/// Gateway automation switches.
#[derive(Debug, Clone)]
pub struct GatewayConfig {
    pub interface: Option<String>,
    pub lan_cidr: String,
    pub auto_ip_forward: bool,
    pub auto_nat: bool,
}

/// Device enforcement.
#[derive(Debug, Clone)]
pub struct EnforcementConfig {
    pub mode: EnforcementMode,
    pub targets: Vec<String>,
}

/// Routing preferences.
#[derive(Debug, Clone)]
pub struct RoutingConfig {
    pub mode: RouteMode,
    pub domestic_direct: bool,
    pub block_ads: bool,
}

/// Which devices are covered.
#[derive(Debug, Clone)]
pub struct DevicePolicy {
    pub mode: DeviceMode,
    pub allowlist: Vec<DeviceRule>,
}

/// One allowlisted device.
#[derive(Debug, Clone)]
pub struct DeviceRule {
    pub name: String,
    pub ip: String,
    pub mac: Option<String>,
}

/// Safety switches.
#[derive(Debug, Clone)]
pub struct SecurityConfig {
    pub allow_unsafe_experimental: bool,
    pub enable_audit_log: bool,
}

/// Why a configuration is refused.
#[derive(Debug, Clone, PartialEq, Eq)]
pub enum ConfigError {
    MissingSubscriptionUrl,
    MissingLocalFile,
    LocalFileNotFound { path: String },
    EmptyAllowlist,
    ZeroPort,
    EmptyPolicyTargets,
}

impl EngineKind {
    /// The engine's name as written in the configuration file.
    pub open spec fn spec_name(self) -> Seq<char> {
        match self {
            EngineKind::Mihomo => "mihomo"@,
            EngineKind::SingBox => "sing-box"@,
        }
    }

    /// The engine's name as written in the configuration file.
    pub fn as_str(&self) -> (r: &'static str)
        ensures
            r@ == self.spec_name(),
    {
        match self {
            EngineKind::Mihomo => "mihomo",
            EngineKind::SingBox => "sing-box",
        }
    }
}

/// The base directory of the runtime files under a home directory.
pub open spec fn default_base(home: Seq<char>, style: PathStyle) -> Seq<char> {
    joined(home, ".ok-proxy"@, style)
}

/// `c` is the default configuration for the home directory `home`, with
/// paths written in `style`.
pub open spec fn is_default_config(c: AppConfig, home: Seq<char>, style: PathStyle) -> bool {
    let base = default_base(home, style);
    &&& c.engine == EngineKind::Mihomo
    &&& c.runtime.work_dir@ == base
    &&& c.runtime.state_file@ == joined(base, "state.json"@, style)
    &&& c.runtime.audit_file@ == joined(base, "audit.log"@, style)
    &&& c.executables.mihomo@ == "mihomo"@
    &&& c.executables.sing_box@ == "sing-box"@
    &&& c.inbound.bind_address@ == "0.0.0.0"@
    &&& c.inbound.mixed_port == 7890
    &&& c.inbound.redir_port == 7892
    &&& c.inbound.dns_port == 5353
    &&& c.inbound.api_port == 9090
    &&& c.source.mode == ProxySourceMode::Subscription
    &&& c.source.subscription_url matches Some(u) && u@ == "https://example.com/subscription"@
    &&& c.source.local_file is None
    &&& c.source.provider_name@ == "default-subscription"@
    &&& c.gateway.interface is None
    &&& c.gateway.lan_cidr@ == "192.168.0.0/16"@
    &&& c.gateway.auto_ip_forward
    &&& c.gateway.auto_nat
    &&& c.enforcement.mode == EnforcementMode::GatewayOnly
    &&& c.enforcement.targets@.len() == 0
    &&& c.routing.mode == RouteMode::Rule
    &&& c.routing.domestic_direct
    &&& c.routing.block_ads
    &&& c.device_policy.mode == DeviceMode::All
    &&& c.device_policy.allowlist@.len() == 0
    &&& !c.security.allow_unsafe_experimental
    &&& c.security.enable_audit_log
}

/// The first check that `c` fails, given whether its local source file exists.
pub open spec fn validation_error(c: AppConfig, local_file_exists: bool) -> Option<ConfigError> {
    let source_error = match c.source.mode {
        ProxySourceMode::Subscription => match c.source.subscription_url {
            Some(u) => if u@.len() == 0 { Some(ConfigError::MissingSubscriptionUrl) } else { None },
            None => Some(ConfigError::MissingSubscriptionUrl),
        },
        ProxySourceMode::LocalFile => match c.source.local_file {
            None => Some(ConfigError::MissingLocalFile),
            Some(p) => if !local_file_exists {
                Some(ConfigError::LocalFileNotFound { path: p })
            } else {
                None
            },
        },
    };
    if source_error is Some {
        source_error
    } else if c.device_policy.mode == DeviceMode::Allowlist && c.device_policy.allowlist@.len() == 0 {
        Some(ConfigError::EmptyAllowlist)
    } else if c.inbound.dns_port == 0 || c.inbound.mixed_port == 0 || c.inbound.redir_port == 0
        || c.inbound.api_port == 0 {
        Some(ConfigError::ZeroPort)
    } else if c.enforcement.mode == EnforcementMode::PolicyRoute && c.enforcement.targets@.len() == 0 {
        Some(ConfigError::EmptyPolicyTargets)
    } else {
        None
    }
}

/// The result that a check with outcome `e` returns.
pub open spec fn outcome(e: Option<ConfigError>) -> Result<(), ConfigError> {
    match e {
        Some(err) => Err(err),
        None => Ok(()),
    }
}

/// The text of a configuration error.
pub open spec fn config_error_message(e: ConfigError) -> Seq<char> {
    match e {
        ConfigError::MissingSubscriptionUrl => "source.subscription_url is required when mode=subscription"@,
        ConfigError::MissingLocalFile => "source.local_file is required when mode=local-file"@,
        ConfigError::LocalFileNotFound { path } => "source.local_file not found: "@ + path@,
        ConfigError::EmptyAllowlist => "device_policy.allowlist must not be empty when mode=allowlist"@,
        ConfigError::ZeroPort => "inbound ports must be non-zero"@,
        ConfigError::EmptyPolicyTargets => "enforcement.targets must not be empty when mode=policy-route"@,
    }
}

impl ConfigError {
    /// The human-readable text of the error.
    pub fn message(&self) -> (r: String)
        ensures
            r@ == config_error_message(*self),
    {
        match self {
            ConfigError::MissingSubscriptionUrl => "source.subscription_url is required when mode=subscription".to_owned(),
            ConfigError::MissingLocalFile => "source.local_file is required when mode=local-file".to_owned(),
            ConfigError::LocalFileNotFound { path } => {
                let mut r = "source.local_file not found: ".to_owned();
                r.append(path.as_str());
                r
            },
            ConfigError::EmptyAllowlist => "device_policy.allowlist must not be empty when mode=allowlist".to_owned(),
            ConfigError::ZeroPort => "inbound ports must be non-zero".to_owned(),
            ConfigError::EmptyPolicyTargets => "enforcement.targets must not be empty when mode=policy-route".to_owned(),
        }
    }
}

/// `dirs::home_dir`: the current user's home directory, if one can be
/// determined. It depends on the environment, so nothing is stated of it.
#[verifier::external_body]
fn home_dir_text() -> Option<String> {
    match dirs::home_dir() {
        Some(p) => Some(p.display().to_string()),
        None => None,
    }
}

/// `std::path::Path::exists`: whether something exists at the path. It
/// depends on the file system, so nothing is stated of it.
#[verifier::external_body]
fn path_exists(path: &str) -> bool {
    std::path::Path::new(path).exists()
}

impl AppConfig {
    /// The default configuration with its runtime files under `home`, paths
    /// written in `style`.
    pub fn default_in(home: &str, style: PathStyle) -> (c: AppConfig)
        ensures
            is_default_config(c, home@, style),
    {
        let base = join_path(home, ".ok-proxy", style);
        let state_file = join_path(base.as_str(), "state.json", style);
        let audit_file = join_path(base.as_str(), "audit.log", style);
        AppConfig {
            engine: EngineKind::Mihomo,
            runtime: RuntimeConfig { work_dir: base, state_file, audit_file },
            executables: Executables {
                mihomo: "mihomo".to_owned(),
                sing_box: "sing-box".to_owned(),
            },
            inbound: InboundConfig {
                bind_address: "0.0.0.0".to_owned(),
                mixed_port: 7890,
                redir_port: 7892,
                dns_port: 5353,
                api_port: 9090,
            },
            source: SourceConfig {
                mode: ProxySourceMode::Subscription,
                subscription_url: Some("https://example.com/subscription".to_owned()),
                local_file: None,
                provider_name: "default-subscription".to_owned(),
            },
            gateway: GatewayConfig {
                interface: None,
                lan_cidr: "192.168.0.0/16".to_owned(),
                auto_ip_forward: true,
                auto_nat: true,
            },
            enforcement: EnforcementConfig { mode: EnforcementMode::GatewayOnly, targets: Vec::new() },
            routing: RoutingConfig { mode: RouteMode::Rule, domestic_direct: true, block_ads: true },
            device_policy: DevicePolicy { mode: DeviceMode::All, allowlist: Vec::new() },
            security: SecurityConfig { allow_unsafe_experimental: false, enable_audit_log: true },
        }
    }

    /// Checks the configuration, given whether its local source file exists.
    pub fn validate_with(&self, local_file_exists: bool) -> (r: Result<(), ConfigError>)
        ensures
            r == outcome(validation_error(*self, local_file_exists)),
    {
        match self.source.mode {
            ProxySourceMode::Subscription => {
                let missing = match &self.source.subscription_url {
                    Some(u) => u.as_str().is_empty(),
                    None => true,
                };
                if missing {
                    return Err(ConfigError::MissingSubscriptionUrl);
                }
            },
            ProxySourceMode::LocalFile => {
                match &self.source.local_file {
                    None => {
                        return Err(ConfigError::MissingLocalFile);
                    },
                    Some(p) => {
                        if !local_file_exists {
                            return Err(ConfigError::LocalFileNotFound { path: p.clone() });
                        }
                    },
                }
            },
        }
        if self.device_policy.mode == DeviceMode::Allowlist && self.device_policy.allowlist.len() == 0 {
            return Err(ConfigError::EmptyAllowlist);
        }
        if self.inbound.dns_port == 0 || self.inbound.mixed_port == 0 || self.inbound.redir_port == 0
            || self.inbound.api_port == 0 {
            return Err(ConfigError::ZeroPort);
        }
        if self.enforcement.mode == EnforcementMode::PolicyRoute && self.enforcement.targets.len() == 0 {
            return Err(ConfigError::EmptyPolicyTargets);
        }
        Ok(())
    }

    /// The file whose existence the check depends on: the local source file,
    /// when the source mode is a local file and names one.
    pub fn file_to_check(&self) -> (r: Option<&str>)
        ensures
            match r {
                Some(p) => self.source.mode == ProxySourceMode::LocalFile && (self.source.local_file matches Some(f) && p@ == f@),
                None => !(self.source.mode == ProxySourceMode::LocalFile && self.source.local_file is Some),
            },
    {
        match (&self.source.mode, &self.source.local_file) {
            (ProxySourceMode::LocalFile, Some(p)) => Some(p.as_str()),
            _ => None,
        }
    }

    /// Checks the configuration, looking up its local source file on disk
    /// when the source mode names one.
    pub fn validate(&self) -> (r: Result<(), ConfigError>)
        ensures
            r == outcome(validation_error(*self, true)) || r == outcome(validation_error(*self, false)),
            !(self.source.mode == ProxySourceMode::LocalFile && self.source.local_file is Some)
                ==> r == outcome(validation_error(*self, true)),
    {
        let exists = match self.file_to_check() {
            Some(p) => path_exists(p),
            None => true,
        };
        self.validate_with(exists)
    }

    /// The executable of the configured engine.
    pub fn engine_binary(&self) -> (r: &str)
        ensures
            r@ == (match self.engine {
                EngineKind::Mihomo => self.executables.mihomo@,
                EngineKind::SingBox => self.executables.sing_box@,
            }),
    {
        match self.engine {
            EngineKind::Mihomo => self.executables.mihomo.as_str(),
            EngineKind::SingBox => self.executables.sing_box.as_str(),
        }
    }
}

/// Law: the default configuration passes validation, whatever the disk
/// holds; `init` writes a configuration that can be used as it is.
pub proof fn law_default_is_valid(c: AppConfig, home: Seq<char>, style: PathStyle, local_file_exists: bool)
    requires
        is_default_config(c, home, style),
    ensures
        validation_error(c, local_file_exists) is None,
{
    reveal_strlit("https://example.com/subscription");
}

impl AppConfig {
    /// The default configuration under the home directory `home`, or under
    /// `.` where none is known, with paths written in `style`.
    pub fn default_for_home(home: Option<String>, style: PathStyle) -> (c: AppConfig)
        ensures
            is_default_config(c, match home { Some(h) => h@, None => "."@ }, style),
    {
        match home {
            Some(h) => AppConfig::default_in(h.as_str(), style),
            None => AppConfig::default_in(".", style),
        }
    }
}

impl Default for AppConfig {
    /// The default configuration with its runtime files under the current
    /// user's home directory, or under `.` where none can be determined,
    /// with paths written as the platform writes them.
    fn default() -> (c: AppConfig)
        ensures
            exists|home: Seq<char>, style: PathStyle| is_default_config(c, home, style),
    {
        AppConfig::default_for_home(home_dir_text(), path_style())
    }
}

} // verus!
