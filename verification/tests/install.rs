use omnilan::text::PathStyle;
use omnilan::infra::kernel::{after_mirror_attempt, MirrorStep};
use omnilan::config::{AppConfig, EngineKind};
use omnilan::infra::kernel::{self, KernelError};
use omnilan::infra::platform::Os;
use omnilan::infra::service;

#[test]
fn kernel_targets_and_dirs() {
    assert_eq!(kernel::install_targets(None), vec![EngineKind::Mihomo, EngineKind::SingBox]);
    assert_eq!(kernel::install_targets(Some(EngineKind::SingBox)), vec![EngineKind::SingBox]);
    let cfg = AppConfig::default_in("/h", PathStyle::Unix);
    assert_eq!(kernel::bin_dir(&cfg, PathStyle::Unix), "/h/.ok-proxy/bin");
    assert_eq!(kernel::kernel_tmp_dir(&cfg, PathStyle::Unix), "/h/.ok-proxy/tmp-kernel");
}

#[test]
fn kernel_assets() {
    assert_eq!(kernel::mihomo_asset("linux", "x86_64"), Ok("mihomo-linux-amd64".to_string()));
    assert_eq!(kernel::mihomo_asset("macos", "aarch64"), Ok("mihomo-darwin-arm64".to_string()));
    let e = kernel::mihomo_asset("windows", "x86_64").unwrap_err();
    assert_eq!(e.message(), "unsupported platform for mihomo: windows/x86_64");
    assert_eq!(
        kernel::singbox_asset("linux", "aarch64"),
        Ok(("sing-box-1.12.4-linux-arm64.tar.gz".to_string(), "sing-box".to_string(), false))
    );
    assert_eq!(
        kernel::singbox_asset("windows", "x86_64"),
        Ok(("sing-box-1.12.4-windows-amd64.zip".to_string(), "sing-box.exe".to_string(), true))
    );
    assert_eq!(
        kernel::singbox_asset("freebsd", "x86_64"),
        Err(KernelError::UnsupportedPlatform { engine: EngineKind::SingBox, os: "freebsd".to_string(), arch: "x86_64".to_string() })
    );
    assert_eq!(kernel::trim_leading_v("vv1.2"), "1.2");
    assert_eq!(KernelError::MissingExtractedBinary { path: "/t/sb".to_string() }.message(), "cannot find extracted sing-box binary: /t/sb");
}

#[test]
fn kernel_sources() {
    let src = kernel::mihomo_download_url("mihomo-linux-amd64");
    assert_eq!(src, "https://github.com/MetaCubeX/mihomo/releases/download/v1.19.8/mihomo-linux-amd64");
    let urls = kernel::mirror_urls(&src, &kernel::mihomo_mirrors());
    assert_eq!(urls.len(), 4);
    assert_eq!(urls[0], src);
    assert_eq!(urls[1], format!("https://ghp.ci/{}", src));
    assert_eq!(kernel::singbox_mirrors().len(), 3);
    assert_eq!(
        kernel::singbox_download_url("a.tar.gz"),
        "https://github.com/SagerNet/sing-box/releases/download/v1.12.4/a.tar.gz"
    );
    let d = kernel::download_command("/b/m", "https://x/y");
    assert_eq!((d.program.as_str(), d.args.clone()), ("curl", vec!["-fsSL".to_string(), "-o".into(), "/b/m".into(), "https://x/y".into()]));
    assert_eq!(kernel::extract_command("a.tgz", "/o", false, Os::Linux).args, vec!["-xzf", "a.tgz", "-C", "/o"]);
    assert_eq!(kernel::extract_command("a.zip", "/o", true, Os::Linux).program, "unzip");
    assert_eq!(
        kernel::extract_command("a.zip", "/o", true, Os::Windows).args[2],
        "Expand-Archive -Path 'a.zip' -DestinationPath '/o' -Force"
    );
    assert_eq!(kernel::installed_line(EngineKind::SingBox, "/b/sb"), "sing-box -> /b/sb");
}

#[test]
fn service_units() {
    let cfg = AppConfig::default_in("/h", PathStyle::Unix);
    let managed = service::managed_config_path(&cfg, PathStyle::Unix);
    assert_eq!(managed, "/h/.ok-proxy/omnilan.yaml");
    let unit = service::render_systemd_unit("/usr/bin/omnilan", &managed);
    assert!(unit.starts_with("[Unit]\nDescription=OmniLAN Gateway Service\n"));
    assert!(unit.contains("ExecStart=/usr/bin/omnilan run -c /h/.ok-proxy/omnilan.yaml\nRestart=always\n"));
    let plist = service::render_launchd_plist("/usr/bin/omnilan", &managed);
    assert!(plist.contains("<string>/usr/bin/omnilan</string>\n    <string>run</string>\n    <string>-c</string>\n    <string>/h/.ok-proxy/omnilan.yaml</string>"));
    assert_eq!(service::service_program(None), "omnilan");
    assert_eq!(service::service_program(Some("/x/omnilan".to_string())), "/x/omnilan");
    assert_eq!(service::systemd_unit_path(), "/etc/systemd/system/omnilan.service");
    assert_eq!(service::launchd_plist_path("/Users/u"), "/Users/u/Library/LaunchAgents/com.omnilan.agent.plist");
    let t = service::schtasks_create_command("C:\\o.exe", "C:\\w\\omnilan.yaml");
    assert_eq!(t.args[8], "\"C:\\o.exe\" run -c \"C:\\w\\omnilan.yaml\"");
}

#[test]
fn mirror_attempts_stop_at_first_success() {
    assert_eq!(after_mirror_attempt(0, 3, true), MirrorStep::Downloaded);
    assert_eq!(after_mirror_attempt(0, 3, false), MirrorStep::TryNext(1));
    assert_eq!(after_mirror_attempt(1, 3, false), MirrorStep::TryNext(2));
    assert_eq!(after_mirror_attempt(2, 3, false), MirrorStep::Exhausted);
    assert_eq!(after_mirror_attempt(2, 3, true), MirrorStep::Downloaded);
    assert_eq!(after_mirror_attempt(0, 0, false), MirrorStep::Exhausted);
    assert_eq!(after_mirror_attempt(usize::MAX, usize::MAX, false), MirrorStep::Exhausted);
}

#[test]
fn extraction_failures_and_service_commands() {
    assert_eq!(kernel::extract_failure_message(true, false), "failed to extract zip");
    assert_eq!(kernel::extract_failure_message(true, true), "failed to extract zip archive");
    assert_eq!(kernel::extract_failure_message(false, false), "failed to extract tar.gz");
    assert_eq!(kernel::extract_failure_message(false, true), "failed to extract tar.gz archive");
    let enable = service::systemd_enable_commands();
    assert_eq!(enable[0].args, vec!["daemon-reload"]);
    assert_eq!(enable[1].args, vec!["enable", "--now", "omnilan.service"]);
    let remove = service::systemd_remove_commands();
    assert_eq!(remove[1].program, "rm");
    assert_eq!(remove[1].args, vec!["-f", "/etc/systemd/system/omnilan.service"]);
    assert_eq!(service::launchctl_load_command("/p").args, vec!["load", "-w", "/p"]);
    assert_eq!(service::launchctl_unload_command("/p").args, vec!["unload", "/p"]);
    assert_eq!(service::schtasks_delete_command().args, vec!["/Delete", "/TN", "OmniLAN", "/F"]);
}
