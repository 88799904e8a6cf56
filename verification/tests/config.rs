use omnilan::text::PathStyle;
use omnilan::config::{
    AppConfig, ConfigError, DeviceMode, DeviceRule, EngineKind, EnforcementMode, ProxySourceMode,
    RouteMode,
};

fn base() -> AppConfig {
    AppConfig::default_in("/home/u", PathStyle::Unix)
}

#[test]
fn default_in_home() {
    let c = base();
    assert_eq!(c.engine, EngineKind::Mihomo);
    assert_eq!(c.runtime.work_dir, "/home/u/.ok-proxy");
    assert_eq!(c.runtime.state_file, "/home/u/.ok-proxy/state.json");
    assert_eq!(c.runtime.audit_file, "/home/u/.ok-proxy/audit.log");
    assert_eq!(c.executables.mihomo, "mihomo");
    assert_eq!(c.executables.sing_box, "sing-box");
    assert_eq!(c.inbound.bind_address, "0.0.0.0");
    assert_eq!((c.inbound.mixed_port, c.inbound.redir_port, c.inbound.dns_port, c.inbound.api_port), (7890, 7892, 5353, 9090));
    assert_eq!(c.source.mode, ProxySourceMode::Subscription);
    assert_eq!(c.source.subscription_url.as_deref(), Some("https://example.com/subscription"));
    assert!(c.source.local_file.is_none());
    assert_eq!(c.source.provider_name, "default-subscription");
    assert!(c.gateway.interface.is_none());
    assert_eq!(c.gateway.lan_cidr, "192.168.0.0/16");
    assert!(c.gateway.auto_ip_forward && c.gateway.auto_nat);
    assert_eq!(c.enforcement.mode, EnforcementMode::GatewayOnly);
    assert!(c.enforcement.targets.is_empty());
    assert_eq!(c.routing.mode, RouteMode::Rule);
    assert!(c.routing.domestic_direct && c.routing.block_ads);
    assert_eq!(c.device_policy.mode, DeviceMode::All);
    assert!(!c.security.allow_unsafe_experimental);
    assert!(c.security.enable_audit_log);
}

#[test]
fn default_in_trailing_separator_and_empty_home() {
    assert_eq!(AppConfig::default_in("/root/", PathStyle::Unix).runtime.work_dir, "/root/.ok-proxy");
    assert_eq!(AppConfig::default_in("", PathStyle::Unix).runtime.state_file, ".ok-proxy/state.json");
}

#[test]
fn default_config_is_valid() {
    assert_eq!(base().validate_with(true), Ok(()));
    assert_eq!(base().validate_with(false), Ok(()));
    assert_eq!(base().validate(), Ok(()));
    assert_eq!(AppConfig::default().validate(), Ok(()));
}

#[test]
fn validation_errors() {
    let mut c = base();
    c.source.subscription_url = None;
    assert_eq!(c.validate_with(true), Err(ConfigError::MissingSubscriptionUrl));
    c.source.subscription_url = Some(String::new());
    assert_eq!(c.validate_with(true), Err(ConfigError::MissingSubscriptionUrl));

    let mut c = base();
    c.source.mode = ProxySourceMode::LocalFile;
    assert_eq!(c.validate_with(true), Err(ConfigError::MissingLocalFile));
    c.source.local_file = Some("/nope/nodes.yaml".to_string());
    assert_eq!(c.validate_with(false), Err(ConfigError::LocalFileNotFound { path: "/nope/nodes.yaml".to_string() }));
    assert_eq!(c.validate_with(true), Ok(()));
    assert_eq!(c.validate(), Err(ConfigError::LocalFileNotFound { path: "/nope/nodes.yaml".to_string() }));

    let mut c = base();
    c.device_policy.mode = DeviceMode::Allowlist;
    assert_eq!(c.validate_with(true), Err(ConfigError::EmptyAllowlist));
    c.device_policy.allowlist.push(DeviceRule { name: "tv".to_string(), ip: "192.168.1.9".to_string(), mac: None });
    assert_eq!(c.validate_with(true), Ok(()));

    for port in 0..4 {
        let mut c = base();
        match port {
            0 => c.inbound.dns_port = 0,
            1 => c.inbound.mixed_port = 0,
            2 => c.inbound.redir_port = 0,
            _ => c.inbound.api_port = 0,
        }
        assert_eq!(c.validate_with(true), Err(ConfigError::ZeroPort));
    }

    let mut c = base();
    c.enforcement.mode = EnforcementMode::PolicyRoute;
    assert_eq!(c.validate_with(true), Err(ConfigError::EmptyPolicyTargets));
    c.enforcement.targets.push("192.168.1.20".to_string());
    assert_eq!(c.validate_with(true), Ok(()));
}

#[test]
fn first_failed_check_wins() {
    let mut c = base();
    c.source.subscription_url = None;
    c.inbound.dns_port = 0;
    assert_eq!(c.validate_with(true), Err(ConfigError::MissingSubscriptionUrl));
}

#[test]
fn error_messages() {
    assert_eq!(ConfigError::MissingSubscriptionUrl.message(), "source.subscription_url is required when mode=subscription");
    assert_eq!(ConfigError::MissingLocalFile.message(), "source.local_file is required when mode=local-file");
    assert_eq!(ConfigError::LocalFileNotFound { path: "x.yaml".to_string() }.message(), "source.local_file not found: x.yaml");
    assert_eq!(ConfigError::EmptyAllowlist.message(), "device_policy.allowlist must not be empty when mode=allowlist");
    assert_eq!(ConfigError::ZeroPort.message(), "inbound ports must be non-zero");
    assert_eq!(ConfigError::EmptyPolicyTargets.message(), "enforcement.targets must not be empty when mode=policy-route");
}

#[test]
fn engine_names_and_binaries() {
    let mut c = base();
    assert_eq!(c.engine_binary(), "mihomo");
    assert_eq!(EngineKind::Mihomo.as_str(), "mihomo");
    c.engine = EngineKind::SingBox;
    c.executables.sing_box = "/opt/sb".to_string();
    assert_eq!(c.engine_binary(), "/opt/sb");
    assert_eq!(EngineKind::SingBox.as_str(), "sing-box");
}

#[test]
fn default_for_home_and_platform_default() {
    let c = AppConfig::default_for_home(Some("/home/u".to_string()), PathStyle::Unix);
    assert_eq!(c.runtime.work_dir, "/home/u/.ok-proxy");
    let d = AppConfig::default_for_home(None, PathStyle::Unix);
    assert_eq!(d.runtime.work_dir, "./.ok-proxy");
    assert_eq!(d.runtime.audit_file, "./.ok-proxy/audit.log");
    let w = AppConfig::default_for_home(Some("C:\\Users\\u".to_string()), PathStyle::Windows);
    assert_eq!(w.runtime.state_file, "C:\\Users\\u\\.ok-proxy\\state.json");
    let e = AppConfig::default_in("a\\", PathStyle::Unix);
    assert_eq!(e.runtime.work_dir, "a\\/.ok-proxy");
    let host = AppConfig::default();
    let home = dirs::home_dir().unwrap_or_else(|| std::path::PathBuf::from("."));
    let base = home.join(".ok-proxy");
    assert_eq!(host.runtime.work_dir, base.display().to_string());
    assert_eq!(host.runtime.state_file, base.join("state.json").display().to_string());
}

#[test]
fn file_to_check_names_the_local_source() {
    let mut c = AppConfig::default_in("/h", PathStyle::Unix);
    assert_eq!(c.file_to_check(), None);
    c.source.mode = ProxySourceMode::LocalFile;
    assert_eq!(c.file_to_check(), None);
    c.source.local_file = Some("/etc/nodes.yaml".to_string());
    assert_eq!(c.file_to_check(), Some("/etc/nodes.yaml"));
}
