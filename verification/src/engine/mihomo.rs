//! The mihomo engine and its YAML profile.

use vstd::prelude::*;
use crate::command::{CommandSpec, texts};
use crate::config::{AppConfig, EngineKind, ProxySourceMode, RouteMode};
use crate::infra::platform::command_exists;
use crate::engine::{binary_outcome, check_binary, EngineArtifacts, EngineError};
use crate::text::{
    contains, decimal, decimal_text, ends_with, join_path, joined, lacks_char, lemma_contains_at,
    lemma_contains_in_part, lemma_lacks_char_concat, lemma_lacks_char_not_contains, PathStyle,
};

verus! {

/// The mihomo kernel.
pub struct MihomoEngine;

/// The `mode` value of the profile.
pub open spec fn mihomo_mode(m: RouteMode) -> Seq<char> {
    match m {
        RouteMode::Rule => "rule"@,
        RouteMode::Global => "global"@,
        RouteMode::Direct => "direct"@,
    }
}

/// The text of an optional string, empty when absent.
pub open spec fn text_or_empty(o: Option<String>) -> Seq<char> {
    match o {
        Some(s) => s@,
        None => Seq::empty(),
    }
}

/// The `proxy-providers` block.
pub open spec fn mihomo_provider_block(c: AppConfig) -> Seq<char> {
    let name = c.source.provider_name@;
    match c.source.mode {
        ProxySourceMode::Subscription =>
            "proxy-providers:\n  "@ + name + ":\n    type: http\n    url: \""@
                + text_or_empty(c.source.subscription_url)
                + "\"\n    interval: 1800\n    path: ./proxy_provider/"@ + name
                + ".yaml\n    health-check:\n      enable: true\n      interval: 120\n      url: http://www.gstatic.com/generate_204"@,
        ProxySourceMode::LocalFile =>
            "proxy-providers:\n  "@ + name + ":\n    type: file\n    path: \""@
                + text_or_empty(c.source.local_file) + "\""@,
    }
}

/// The rule sending mainland traffic direct, when enabled.
pub open spec fn mihomo_direct_rule(c: AppConfig) -> Seq<char> {
    if c.routing.domestic_direct { "\n  - GEOIP,CN,DIRECT\n  - GEOSITE,CN,DIRECT"@ } else { Seq::empty() }
}

/// The rule rejecting advertising domains, when enabled.
pub open spec fn mihomo_ad_rule(c: AppConfig) -> Seq<char> {
    if c.routing.block_ads { "\n  - GEOSITE,category-ads-all,REJECT"@ } else { Seq::empty() }
}

/// The whole mihomo profile for a configuration.
pub open spec fn mihomo_yaml(c: AppConfig) -> Seq<char> {
    "mixed-port: "@ + decimal(c.inbound.mixed_port as nat)
        + "\nredir-port: "@ + decimal(c.inbound.redir_port as nat)
        + "\nallow-lan: true\nbind-address: \""@ + c.inbound.bind_address@
        + "\"\nmode: "@ + mihomo_mode(c.routing.mode)
        + "\nlog-level: info\nexternal-controller: 0.0.0.0:"@ + decimal(c.inbound.api_port as nat)
        + "\nipv6: false\n\ntun:\n  enable: true\n  stack: mixed\n  auto-route: true\n  auto-detect-interface: true\n\ndns:\n  enable: true\n  listen: 0.0.0.0:"@
        + decimal(c.inbound.dns_port as nat)
        + "\n  enhanced-mode: fake-ip\n  fake-ip-range: 198.18.0.1/16\n  nameserver:\n    - 223.5.5.5\n    - 119.29.29.29\n    - 1.1.1.1\n\n"@
        + mihomo_provider_block(c)
        + "\n\nproxy-groups:\n  - name: Proxy\n    type: select\n    use:\n      - "@ + c.source.provider_name@
        + "\n    proxies:\n      - Auto\n      - DIRECT\n  - name: Auto\n    type: url-test\n    use:\n      - "@
        + c.source.provider_name@
        + "\n    url: http://www.gstatic.com/generate_204\n    interval: 120\n\nrules:"@
        + mihomo_direct_rule(c) + mihomo_ad_rule(c)
        + "\n  - MATCH,Proxy\n"@
}

/// Law: every mihomo profile declares its mixed port and its proxy
/// providers.
pub proof fn law_mihomo_profile_sections(c: AppConfig)
    ensures
        contains(mihomo_yaml(c), "mixed-port"@),
        contains(mihomo_yaml(c), "proxy-providers"@),
{
    reveal_strlit("mixed-port");
    reveal_strlit("mixed-port: ");
    reveal_strlit("proxy-providers");
    reveal_strlit("proxy-providers:\n  ");
    let y = mihomo_yaml(c);
    assert(y.subrange(0, 10) =~= "mixed-port"@);
    assert(y.subrange(0int, 0int + "mixed-port"@.len()) == "mixed-port"@);
    let pre = "mixed-port: "@ + decimal(c.inbound.mixed_port as nat)
        + "\nredir-port: "@ + decimal(c.inbound.redir_port as nat)
        + "\nallow-lan: true\nbind-address: \""@ + c.inbound.bind_address@
        + "\"\nmode: "@ + mihomo_mode(c.routing.mode)
        + "\nlog-level: info\nexternal-controller: 0.0.0.0:"@ + decimal(c.inbound.api_port as nat)
        + "\nipv6: false\n\ntun:\n  enable: true\n  stack: mixed\n  auto-route: true\n  auto-detect-interface: true\n\ndns:\n  enable: true\n  listen: 0.0.0.0:"@
        + decimal(c.inbound.dns_port as nat)
        + "\n  enhanced-mode: fake-ip\n  fake-ip-range: 198.18.0.1/16\n  nameserver:\n    - 223.5.5.5\n    - 119.29.29.29\n    - 1.1.1.1\n\n"@;
    let b = mihomo_provider_block(c);
    assert(b.subrange(0, 15) =~= "proxy-providers"@);
    assert(y.subrange(pre.len() as int, pre.len() + 15int) =~= "proxy-providers"@);
}

/// The profile splits at `p` and `t` as its text before and after its last
/// `rules:` line, and `t`, the rules section, holds the two mainland rules
/// exactly when `routing.domestic_direct` is on, the advertising rule
/// exactly when `routing.block_ads` is on, and ends with the catch-all rule.
pub open spec fn mihomo_rules_section(c: AppConfig, p: Seq<char>, t: Seq<char>) -> bool {
    &&& mihomo_yaml(c) == p + "\nrules:"@ + t
    &&& !contains(t, "\nrules:"@)
    &&& (contains(t, "  - GEOIP,CN,DIRECT"@) <==> c.routing.domestic_direct)
    &&& (contains(t, "  - GEOSITE,CN,DIRECT"@) <==> c.routing.domestic_direct)
    &&& (contains(t, "  - GEOSITE,category-ads-all,REJECT"@) <==> c.routing.block_ads)
    &&& ends_with(t, "\n  - MATCH,Proxy\n"@)
}

/// Law: each routing switch controls only its own rules: the profile's
/// rules section sends mainland traffic direct exactly when
/// `routing.domestic_direct` is on, rejects advertising domains exactly when
/// `routing.block_ads` is on, and always ends by sending the rest to the
/// proxy.
pub proof fn law_mihomo_rule_switches(c: AppConfig)
    ensures
        exists|p: Seq<char>, t: Seq<char>| #[trigger] mihomo_rules_section(c, p, t),
{
    reveal_strlit("\n    url: http://www.gstatic.com/generate_204\n    interval: 120\n\nrules:");
    reveal_strlit("\n    url: http://www.gstatic.com/generate_204\n    interval: 120\n");
    reveal_strlit("\nrules:");
    reveal_strlit("\n  - GEOIP,CN,DIRECT\n  - GEOSITE,CN,DIRECT");
    reveal_strlit("\n  - GEOSITE,category-ads-all,REJECT");
    reveal_strlit("\n  - MATCH,Proxy\n");
    reveal_strlit("  - GEOIP,CN,DIRECT");
    reveal_strlit("  - GEOSITE,CN,DIRECT");
    reveal_strlit("  - GEOSITE,category-ads-all,REJECT");
    let d = "\n  - GEOIP,CN,DIRECT\n  - GEOSITE,CN,DIRECT"@;
    let a = "\n  - GEOSITE,category-ads-all,REJECT"@;
    let m = "\n  - MATCH,Proxy\n"@;
    let geoip = "  - GEOIP,CN,DIRECT"@;
    let geosite = "  - GEOSITE,CN,DIRECT"@;
    let ads = "  - GEOSITE,category-ads-all,REJECT"@;
    let dr = mihomo_direct_rule(c);
    let ar = mihomo_ad_rule(c);
    let t = dr + ar + m;
    let x =
    "mixed-port: "@ + decimal(c.inbound.mixed_port as nat)
        + "\nredir-port: "@ + decimal(c.inbound.redir_port as nat)
        + "\nallow-lan: true\nbind-address: \""@ + c.inbound.bind_address@
        + "\"\nmode: "@ + mihomo_mode(c.routing.mode)
        + "\nlog-level: info\nexternal-controller: 0.0.0.0:"@ + decimal(c.inbound.api_port as nat)
        + "\nipv6: false\n\ntun:\n  enable: true\n  stack: mixed\n  auto-route: true\n  auto-detect-interface: true\n\ndns:\n  enable: true\n  listen: 0.0.0.0:"@
        + decimal(c.inbound.dns_port as nat)
        + "\n  enhanced-mode: fake-ip\n  fake-ip-range: 198.18.0.1/16\n  nameserver:\n    - 223.5.5.5\n    - 119.29.29.29\n    - 1.1.1.1\n\n"@
        + mihomo_provider_block(c)
        + "\n\nproxy-groups:\n  - name: Proxy\n    type: select\n    use:\n      - "@ + c.source.provider_name@
        + "\n    proxies:\n      - Auto\n      - DIRECT\n  - name: Auto\n    type: url-test\n    use:\n      - "@
        + c.source.provider_name@;
    let p = x + "\n    url: http://www.gstatic.com/generate_204\n    interval: 120\n"@;
    assert("\n    url: http://www.gstatic.com/generate_204\n    interval: 120\n\nrules:"@ =~= "\n    url: http://www.gstatic.com/generate_204\n    interval: 120\n"@ + "\nrules:"@);
    assert(mihomo_yaml(c) =~= p + "\nrules:"@ + t);
    // No rule text holds a colon, an `N` or a lower-case `g` where not expected.
    assert(lacks_char(d, ':'));
    assert(lacks_char(a, ':'));
    assert(lacks_char(m, ':'));
    assert(lacks_char(a, 'N'));
    assert(lacks_char(m, 'N'));
    assert(lacks_char(d, 'g'));
    assert(lacks_char(m, 'g'));
    assert(lacks_char(Seq::<char>::empty(), ':'));
    assert(lacks_char(Seq::<char>::empty(), 'N'));
    assert(lacks_char(Seq::<char>::empty(), 'g'));
    lemma_lacks_char_concat(dr, ar, ':');
    lemma_lacks_char_concat(dr + ar, m, ':');
    assert("\nrules:"@[6] == ':');
    lemma_lacks_char_not_contains(t, "\nrules:"@, 6);
    if c.routing.domestic_direct {
        assert(d.subrange(1, 1 + geoip.len() as int) =~= geoip);
        lemma_contains_at(d, geoip, 1);
        assert(d.subrange(21, 21 + geosite.len() as int) =~= geosite);
        lemma_contains_at(d, geosite, 21);
        lemma_contains_in_part(Seq::<char>::empty(), d, ar + m, geoip);
        lemma_contains_in_part(Seq::<char>::empty(), d, ar + m, geosite);
        assert(Seq::<char>::empty() + d + (ar + m) =~= t);
    } else {
        lemma_lacks_char_concat(ar, m, 'N');
        assert(t =~= ar + m);
        assert(geoip[11] == 'N');
        assert(geosite[13] == 'N');
        lemma_lacks_char_not_contains(t, geoip, 11);
        lemma_lacks_char_not_contains(t, geosite, 13);
    }
    if c.routing.block_ads {
        assert(a.subrange(1, 1 + ads.len() as int) =~= ads);
        lemma_contains_at(a, ads, 1);
        lemma_contains_in_part(dr, a, m, ads);
    } else {
        lemma_lacks_char_concat(dr, m, 'g');
        assert(t =~= dr + m);
        assert(ads[16] == 'g');
        lemma_lacks_char_not_contains(t, ads, 16);
    }
    assert(t.subrange(t.len() - m.len(), t.len() as int) =~= m);
    assert(mihomo_rules_section(c, p, t));
}

fn optional_text(o: &Option<String>) -> (r: String)
    ensures
        r@ == text_or_empty(*o),
{
    match o {
        Some(s) => s.clone(),
        None => String::new(),
    }
}

fn provider_block(cfg: &AppConfig) -> (r: String)
    ensures
        r@ == mihomo_provider_block(*cfg),
{
    let name = cfg.source.provider_name.as_str();
    match cfg.source.mode {
        ProxySourceMode::Subscription => {
            let url = optional_text(&cfg.source.subscription_url);
            let mut r = "proxy-providers:\n  ".to_owned();
            r.append(name);
            r.append(":\n    type: http\n    url: \"");
            r.append(url.as_str());
            r.append("\"\n    interval: 1800\n    path: ./proxy_provider/");
            r.append(name);
            r.append(".yaml\n    health-check:\n      enable: true\n      interval: 120\n      url: http://www.gstatic.com/generate_204");
            r
        },
        ProxySourceMode::LocalFile => {
            let path = optional_text(&cfg.source.local_file);
            let mut r = "proxy-providers:\n  ".to_owned();
            r.append(name);
            r.append(":\n    type: file\n    path: \"");
            r.append(path.as_str());
            r.append("\"");
            r
        },
    }
}

/// Renders the mihomo profile of a configuration.
pub fn render_mihomo_yaml(cfg: &AppConfig) -> (r: String)
    ensures
        r@ == mihomo_yaml(*cfg),
{
    let mode = match cfg.routing.mode {
        RouteMode::Rule => "rule",
        RouteMode::Global => "global",
        RouteMode::Direct => "direct",
    };
    let providers = provider_block(cfg);
    let direct_rule = if cfg.routing.domestic_direct { "\n  - GEOIP,CN,DIRECT\n  - GEOSITE,CN,DIRECT" } else { "" };
    let ad_rule = if cfg.routing.block_ads { "\n  - GEOSITE,category-ads-all,REJECT" } else { "" };
    proof {
        reveal_strlit("");
    }
    let mut r = "mixed-port: ".to_owned();
    r.append(decimal_text(cfg.inbound.mixed_port as u64).as_str());
    r.append("\nredir-port: ");
    r.append(decimal_text(cfg.inbound.redir_port as u64).as_str());
    r.append("\nallow-lan: true\nbind-address: \"");
    r.append(cfg.inbound.bind_address.as_str());
    r.append("\"\nmode: ");
    r.append(mode);
    r.append("\nlog-level: info\nexternal-controller: 0.0.0.0:");
    r.append(decimal_text(cfg.inbound.api_port as u64).as_str());
    r.append("\nipv6: false\n\ntun:\n  enable: true\n  stack: mixed\n  auto-route: true\n  auto-detect-interface: true\n\ndns:\n  enable: true\n  listen: 0.0.0.0:");
    r.append(decimal_text(cfg.inbound.dns_port as u64).as_str());
    r.append("\n  enhanced-mode: fake-ip\n  fake-ip-range: 198.18.0.1/16\n  nameserver:\n    - 223.5.5.5\n    - 119.29.29.29\n    - 1.1.1.1\n\n");
    r.append(providers.as_str());
    r.append("\n\nproxy-groups:\n  - name: Proxy\n    type: select\n    use:\n      - ");
    r.append(cfg.source.provider_name.as_str());
    r.append("\n    proxies:\n      - Auto\n      - DIRECT\n  - name: Auto\n    type: url-test\n    use:\n      - ");
    r.append(cfg.source.provider_name.as_str());
    r.append("\n    url: http://www.gstatic.com/generate_204\n    interval: 120\n\nrules:");
    r.append(direct_rule);
    r.append(ad_rule);
    r.append("\n  - MATCH,Proxy\n");
    r
}

impl MihomoEngine {
    /// The engine's name.
    pub fn name(&self) -> (r: &'static str)
        ensures
            r@ == "mihomo"@,
    {
        "mihomo"
    }

    /// The executable that is looked up and started: the configured
    /// `executables.mihomo`.
    pub fn binary<'a>(&self, cfg: &'a AppConfig) -> (r: &'a str)
        ensures
            r@ == cfg.executables.mihomo@,
    {
        cfg.executables.mihomo.as_str()
    }

    /// Checks that the configured mihomo executable can be found; when it
    /// cannot, the error names that executable.
    pub fn ensure_binary(&self, cfg: &AppConfig) -> (r: Result<(), EngineError>)
        ensures
            r == binary_outcome(EngineKind::Mihomo, cfg.executables.mihomo, true)
                || r == binary_outcome(EngineKind::Mihomo, cfg.executables.mihomo, false),
    {
        let found = command_exists(self.binary(cfg));
        check_binary(EngineKind::Mihomo, &cfg.executables.mihomo, found)
    }

    /// Where the rendered profile is written, paths written in `style`.
    pub fn render_path(&self, cfg: &AppConfig, style: PathStyle) -> (r: String)
        ensures
            r@ == joined(cfg.runtime.work_dir@, "mihomo.generated.yaml"@, style),
    {
        join_path(cfg.runtime.work_dir.as_str(), "mihomo.generated.yaml", style)
    }

    /// The profile text written by `prepare`.
    pub fn render(&self, cfg: &AppConfig) -> (r: String)
        ensures
            r@ == mihomo_yaml(*cfg),
    {
        render_mihomo_yaml(cfg)
    }

    /// The command that starts mihomo on a rendered profile.
    pub fn command(&self, cfg: &AppConfig, artifacts: &EngineArtifacts) -> (c: CommandSpec)
        ensures
            c.spec_parts() == (cfg.executables.mihomo@, seq![
                "-d"@, cfg.runtime.work_dir@, "-f"@, artifacts.render_path@]),
    {
        let mut args: Vec<String> = Vec::new();
        args.push("-d".to_owned());
        args.push(cfg.runtime.work_dir.clone());
        args.push("-f".to_owned());
        args.push(artifacts.render_path.clone());
        let c = CommandSpec { program: cfg.executables.mihomo.clone(), args };
        assert(texts(c.args@) =~= seq!["-d"@, cfg.runtime.work_dir@, "-f"@, artifacts.render_path@]);
        c
    }
}

} // verus!
