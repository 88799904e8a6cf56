//! The sing-box engine and its JSON profile.

use vstd::prelude::*;
use crate::command::{CommandSpec, texts};
use crate::config::{AppConfig, EngineKind, ProxySourceMode, RouteMode, RoutingConfig};
use crate::infra::platform::command_exists;
use crate::engine::{binary_outcome, check_binary, EngineArtifacts, EngineError};
use crate::text::{
    contains, decimal, decimal_text, join_path, joined, lacks_char, lemma_contains_at, lemma_contains_in_part,
    lemma_lacks_char_concat, lemma_lacks_char_not_contains, PathStyle,
};

verus! {

/// The sing-box kernel.
pub struct SingBoxEngine;

/// The outbound that routing falls back to.
pub open spec fn singbox_route_final(m: RouteMode) -> Seq<char> {
    match m {
        RouteMode::Rule => "Proxy"@,
        RouteMode::Global => "Proxy"@,
        RouteMode::Direct => "direct"@,
    }
}

/// The route rules sending mainland traffic direct, when enabled.
pub open spec fn singbox_cn_rule(c: AppConfig) -> Seq<char> {
    if c.routing.domestic_direct {
        ", {\"rule_set\": \"geoip-cn\", \"outbound\": \"direct\"}, {\"rule_set\": \"geosite-cn\", \"outbound\": \"direct\"}"@
    } else {
        Seq::empty()
    }
}

/// The route rule blocking advertising domains, when enabled.
pub open spec fn singbox_ad_rule(c: AppConfig) -> Seq<char> {
    if c.routing.block_ads {
        ", {\"rule_set\": \"geosite-category-ads-all\", \"outbound\": \"block\"}"@
    } else {
        Seq::empty()
    }
}

/// The `Proxy` selector outbound.
pub open spec fn singbox_proxy_outbound(m: ProxySourceMode) -> Seq<char> {
    match m {
        ProxySourceMode::Subscription =>
            "{\"type\":\"selector\",\"tag\":\"Proxy\",\"outbounds\":[\"auto\",\"direct\"]}"@,
        ProxySourceMode::LocalFile =>
            "{\"type\":\"selector\",\"tag\":\"Proxy\",\"outbounds\":[\"direct\"]}"@,
    }
}

/// The whole sing-box profile for a configuration.
pub open spec fn singbox_json(c: AppConfig) -> Seq<char> {
    "{\n  \"log\": {\n    \"level\": \"info\"\n  },\n  \"dns\": {\n    \"servers\": [\n      { \"tag\": \"local\", \"address\": \"223.5.5.5\", \"detour\": \"direct\" },\n      { \"tag\": \"remote\", \"address\": \"https://1.1.1.1/dns-query\", \"detour\": \"Proxy\" }\n    ],\n    \"rules\": [\n      { \"rule_set\": \"geosite-cn\", \"server\": \"local\" }\n    ],\n    \"final\": \"remote\"\n  },\n  \"inbounds\": [\n    {\n      \"type\": \"mixed\",\n      \"tag\": \"mixed-in\",\n      \"listen\": \""@
        + c.inbound.bind_address@
        + "\",\n      \"listen_port\": "@ + decimal(c.inbound.mixed_port as nat)
        + "\n    },\n    {\n      \"type\": \"redirect\",\n      \"tag\": \"redir-in\",\n      \"listen\": \""@
        + c.inbound.bind_address@
        + "\",\n      \"listen_port\": "@ + decimal(c.inbound.redir_port as nat)
        + "\n    },\n    {\n      \"type\": \"tun\",\n      \"tag\": \"tun-in\",\n      \"inet4_address\": \"172.19.0.1/30\",\n      \"auto_route\": true,\n      \"strict_route\": false\n    }\n  ],\n  \"outbounds\": [\n    "@
        + singbox_proxy_outbound(c.source.mode)
        + ",\n    { \"type\": \"urltest\", \"tag\": \"auto\", \"outbounds\": [\"direct\"], \"url\": \"http://www.gstatic.com/generate_204\", \"interval\": \"2m\" },\n    { \"type\": \"direct\", \"tag\": \"direct\" },\n    { \"type\": \"block\", \"tag\": \"block\" }\n  ],\n  \"route\": {\n    \"rule_set\": [\n      { \"tag\": \"geoip-cn\", \"type\": \"remote\", \"format\": \"binary\", \"url\": \"https://raw.githubusercontent.com/SagerNet/sing-geoip/rule-set/geoip-cn.srs\", \"download_detour\": \"direct\" },\n      { \"tag\": \"geosite-cn\", \"type\": \"remote\", \"format\": \"binary\", \"url\": \"https://raw.githubusercontent.com/SagerNet/sing-geosite/rule-set/geosite-cn.srs\", \"download_detour\": \"direct\" },\n      { \"tag\": \"geosite-category-ads-all\", \"type\": \"remote\", \"format\": \"binary\", \"url\": \"https://raw.githubusercontent.com/SagerNet/sing-geosite/rule-set/geosite-category-ads-all.srs\", \"download_detour\": \"Proxy\" }\n    ],\n    \"rules\": [\n      { \"inbound\": \"mixed-in\", \"outbound\": \"Proxy\" },\n      { \"inbound\": \"redir-in\", \"outbound\": \"Proxy\" },\n      { \"inbound\": \"tun-in\", \"outbound\": \"Proxy\" }"@
        + singbox_cn_rule(c) + singbox_ad_rule(c)
        + "\n    ],\n    \"final\": \""@ + singbox_route_final(c.routing.mode)
        + "\"\n  }\n}\n"@
}

/// Law: every sing-box profile declares its inbounds and its route.
pub proof fn law_singbox_profile_sections(c: AppConfig)
    ensures
        contains(singbox_json(c), "\"inbounds\""@),
        contains(singbox_json(c), "\"route\""@),
{
    reveal_strlit("\"inbounds\"");
    reveal_strlit("\"route\"");
    reveal_strlit("{\n  \"log\": {\n    \"level\": \"info\"\n  },\n  \"dns\": {\n    \"servers\": [\n      { \"tag\": \"local\", \"address\": \"223.5.5.5\", \"detour\": \"direct\" },\n      { \"tag\": \"remote\", \"address\": \"https://1.1.1.1/dns-query\", \"detour\": \"Proxy\" }\n    ],\n    \"rules\": [\n      { \"rule_set\": \"geosite-cn\", \"server\": \"local\" }\n    ],\n    \"final\": \"remote\"\n  },\n  \"inbounds\": [\n    {\n      \"type\": \"mixed\",\n      \"tag\": \"mixed-in\",\n      \"listen\": \"");
    reveal_strlit(",\n    { \"type\": \"urltest\", \"tag\": \"auto\", \"outbounds\": [\"direct\"], \"url\": \"http://www.gstatic.com/generate_204\", \"interval\": \"2m\" },\n    { \"type\": \"direct\", \"tag\": \"direct\" },\n    { \"type\": \"block\", \"tag\": \"block\" }\n  ],\n  \"route\": {\n    \"rule_set\": [\n      { \"tag\": \"geoip-cn\", \"type\": \"remote\", \"format\": \"binary\", \"url\": \"https://raw.githubusercontent.com/SagerNet/sing-geoip/rule-set/geoip-cn.srs\", \"download_detour\": \"direct\" },\n      { \"tag\": \"geosite-cn\", \"type\": \"remote\", \"format\": \"binary\", \"url\": \"https://raw.githubusercontent.com/SagerNet/sing-geosite/rule-set/geosite-cn.srs\", \"download_detour\": \"direct\" },\n      { \"tag\": \"geosite-category-ads-all\", \"type\": \"remote\", \"format\": \"binary\", \"url\": \"https://raw.githubusercontent.com/SagerNet/sing-geosite/rule-set/geosite-category-ads-all.srs\", \"download_detour\": \"Proxy\" }\n    ],\n    \"rules\": [\n      { \"inbound\": \"mixed-in\", \"outbound\": \"Proxy\" },\n      { \"inbound\": \"redir-in\", \"outbound\": \"Proxy\" },\n      { \"inbound\": \"tun-in\", \"outbound\": \"Proxy\" }");
    let y = singbox_json(c);
    assert(y.subrange(333int, 333int + "\"inbounds\""@.len()) =~= "\"inbounds\""@);
    let pre = "{\n  \"log\": {\n    \"level\": \"info\"\n  },\n  \"dns\": {\n    \"servers\": [\n      { \"tag\": \"local\", \"address\": \"223.5.5.5\", \"detour\": \"direct\" },\n      { \"tag\": \"remote\", \"address\": \"https://1.1.1.1/dns-query\", \"detour\": \"Proxy\" }\n    ],\n    \"rules\": [\n      { \"rule_set\": \"geosite-cn\", \"server\": \"local\" }\n    ],\n    \"final\": \"remote\"\n  },\n  \"inbounds\": [\n    {\n      \"type\": \"mixed\",\n      \"tag\": \"mixed-in\",\n      \"listen\": \""@
        + c.inbound.bind_address@
        + "\",\n      \"listen_port\": "@ + decimal(c.inbound.mixed_port as nat)
        + "\n    },\n    {\n      \"type\": \"redirect\",\n      \"tag\": \"redir-in\",\n      \"listen\": \""@
        + c.inbound.bind_address@
        + "\",\n      \"listen_port\": "@ + decimal(c.inbound.redir_port as nat)
        + "\n    },\n    {\n      \"type\": \"tun\",\n      \"tag\": \"tun-in\",\n      \"inet4_address\": \"172.19.0.1/30\",\n      \"auto_route\": true,\n      \"strict_route\": false\n    }\n  ],\n  \"outbounds\": [\n    "@
        + singbox_proxy_outbound(c.source.mode);
    assert(y.subrange(pre.len() + 223int, pre.len() + 223int + "\"route\""@.len()) =~= "\"route\""@);
}

/// The end of the profile: the end of the route rules, the route's final
/// outbound and the closing braces.
pub open spec fn singbox_final_tail(outbound: Seq<char>) -> Seq<char> {
    "\n    ],\n    \"final\": \""@ + outbound + "\"\n  }\n}\n"@
}

/// Law: the route falls back to `direct` in direct mode and to `Proxy` in
/// rule and global mode, and rule and global mode render the same profile.
pub proof fn law_singbox_route_final(c: AppConfig)
    ensures
        ({
            let y = singbox_json(c);
            let t = singbox_final_tail(if c.routing.mode == RouteMode::Direct { "direct"@ } else { "Proxy"@ });
            &&& y.len() >= t.len()
            &&& y.subrange(y.len() - t.len(), y.len() as int) == t
        }),
        singbox_json(AppConfig { routing: RoutingConfig { mode: RouteMode::Rule, ..c.routing }, ..c })
            == singbox_json(AppConfig { routing: RoutingConfig { mode: RouteMode::Global, ..c.routing }, ..c }),
{
    let y = singbox_json(c);
    let t = singbox_final_tail(singbox_route_final(c.routing.mode));
    let x =
    "{\n  \"log\": {\n    \"level\": \"info\"\n  },\n  \"dns\": {\n    \"servers\": [\n      { \"tag\": \"local\", \"address\": \"223.5.5.5\", \"detour\": \"direct\" },\n      { \"tag\": \"remote\", \"address\": \"https://1.1.1.1/dns-query\", \"detour\": \"Proxy\" }\n    ],\n    \"rules\": [\n      { \"rule_set\": \"geosite-cn\", \"server\": \"local\" }\n    ],\n    \"final\": \"remote\"\n  },\n  \"inbounds\": [\n    {\n      \"type\": \"mixed\",\n      \"tag\": \"mixed-in\",\n      \"listen\": \""@
        + c.inbound.bind_address@
        + "\",\n      \"listen_port\": "@ + decimal(c.inbound.mixed_port as nat)
        + "\n    },\n    {\n      \"type\": \"redirect\",\n      \"tag\": \"redir-in\",\n      \"listen\": \""@
        + c.inbound.bind_address@
        + "\",\n      \"listen_port\": "@ + decimal(c.inbound.redir_port as nat)
        + "\n    },\n    {\n      \"type\": \"tun\",\n      \"tag\": \"tun-in\",\n      \"inet4_address\": \"172.19.0.1/30\",\n      \"auto_route\": true,\n      \"strict_route\": false\n    }\n  ],\n  \"outbounds\": [\n    "@
        + singbox_proxy_outbound(c.source.mode)
        + ",\n    { \"type\": \"urltest\", \"tag\": \"auto\", \"outbounds\": [\"direct\"], \"url\": \"http://www.gstatic.com/generate_204\", \"interval\": \"2m\" },\n    { \"type\": \"direct\", \"tag\": \"direct\" },\n    { \"type\": \"block\", \"tag\": \"block\" }\n  ],\n  \"route\": {\n    \"rule_set\": [\n      { \"tag\": \"geoip-cn\", \"type\": \"remote\", \"format\": \"binary\", \"url\": \"https://raw.githubusercontent.com/SagerNet/sing-geoip/rule-set/geoip-cn.srs\", \"download_detour\": \"direct\" },\n      { \"tag\": \"geosite-cn\", \"type\": \"remote\", \"format\": \"binary\", \"url\": \"https://raw.githubusercontent.com/SagerNet/sing-geosite/rule-set/geosite-cn.srs\", \"download_detour\": \"direct\" },\n      { \"tag\": \"geosite-category-ads-all\", \"type\": \"remote\", \"format\": \"binary\", \"url\": \"https://raw.githubusercontent.com/SagerNet/sing-geosite/rule-set/geosite-category-ads-all.srs\", \"download_detour\": \"Proxy\" }\n    ],\n    \"rules\": [\n      { \"inbound\": \"mixed-in\", \"outbound\": \"Proxy\" },\n      { \"inbound\": \"redir-in\", \"outbound\": \"Proxy\" },\n      { \"inbound\": \"tun-in\", \"outbound\": \"Proxy\" }"@
        + singbox_cn_rule(c) + singbox_ad_rule(c);
    let a = "\n    ],\n    \"final\": \""@;
    let rf = singbox_route_final(c.routing.mode);
    let b = "\"\n  }\n}\n"@;
    assert(y == x + a + rf + b);
    assert(t == a + rf + b);
    assert(x + a + rf =~= x + (a + rf));
    assert(x + a + rf + b =~= x + (a + rf + b));
    assert(y =~= x + t);
    assert(y.subrange(y.len() - t.len(), y.len() as int) =~= t);
}

/// The profile splits at `p` and `t` as its text before and after the last
/// `"rules": [` (the start of the route rules), and `t` sends the mainland
/// rule sets to the `direct` outbound when `routing.domestic_direct` is on
/// (the address set exactly then), and the advertising rule set to the
/// `block` outbound exactly when `routing.block_ads` is on.
pub open spec fn singbox_route_rules(c: AppConfig, p: Seq<char>, t: Seq<char>) -> bool {
    &&& singbox_json(c) == p + "\"rules\": ["@ + t
    &&& !contains(t, "\"rules\": ["@)
    &&& (contains(t, "{\"rule_set\": \"geoip-cn\", \"outbound\": \"direct\"}"@) <==> c.routing.domestic_direct)
    &&& (c.routing.domestic_direct ==> contains(t, "{\"rule_set\": \"geosite-cn\", \"outbound\": \"direct\"}"@))
    &&& (contains(t, "{\"rule_set\": \"geosite-category-ads-all\", \"outbound\": \"block\"}"@) <==> c.routing.block_ads)
}

/// Law: in the route rules, advertising domains go to the `block` outbound
/// exactly when `routing.block_ads` is on, and mainland addresses and sites
/// go to the `direct` outbound when `routing.domestic_direct` is on (the
/// addresses exactly then); each switch controls only its own rules.
pub proof fn law_singbox_rule_switches(c: AppConfig)
    ensures
        exists|p: Seq<char>, t: Seq<char>| #[trigger] singbox_route_rules(c, p, t),
{
    reveal_strlit(",\n    { \"type\": \"urltest\", \"tag\": \"auto\", \"outbounds\": [\"direct\"], \"url\": \"http://www.gstatic.com/generate_204\", \"interval\": \"2m\" },\n    { \"type\": \"direct\", \"tag\": \"direct\" },\n    { \"type\": \"block\", \"tag\": \"block\" }\n  ],\n  \"route\": {\n    \"rule_set\": [\n      { \"tag\": \"geoip-cn\", \"type\": \"remote\", \"format\": \"binary\", \"url\": \"https://raw.githubusercontent.com/SagerNet/sing-geoip/rule-set/geoip-cn.srs\", \"download_detour\": \"direct\" },\n      { \"tag\": \"geosite-cn\", \"type\": \"remote\", \"format\": \"binary\", \"url\": \"https://raw.githubusercontent.com/SagerNet/sing-geosite/rule-set/geosite-cn.srs\", \"download_detour\": \"direct\" },\n      { \"tag\": \"geosite-category-ads-all\", \"type\": \"remote\", \"format\": \"binary\", \"url\": \"https://raw.githubusercontent.com/SagerNet/sing-geosite/rule-set/geosite-category-ads-all.srs\", \"download_detour\": \"Proxy\" }\n    ],\n    \"rules\": [\n      { \"inbound\": \"mixed-in\", \"outbound\": \"Proxy\" },\n      { \"inbound\": \"redir-in\", \"outbound\": \"Proxy\" },\n      { \"inbound\": \"tun-in\", \"outbound\": \"Proxy\" }");
    reveal_strlit(",\n    { \"type\": \"urltest\", \"tag\": \"auto\", \"outbounds\": [\"direct\"], \"url\": \"http://www.gstatic.com/generate_204\", \"interval\": \"2m\" },\n    { \"type\": \"direct\", \"tag\": \"direct\" },\n    { \"type\": \"block\", \"tag\": \"block\" }\n  ],\n  \"route\": {\n    \"rule_set\": [\n      { \"tag\": \"geoip-cn\", \"type\": \"remote\", \"format\": \"binary\", \"url\": \"https://raw.githubusercontent.com/SagerNet/sing-geoip/rule-set/geoip-cn.srs\", \"download_detour\": \"direct\" },\n      { \"tag\": \"geosite-cn\", \"type\": \"remote\", \"format\": \"binary\", \"url\": \"https://raw.githubusercontent.com/SagerNet/sing-geosite/rule-set/geosite-cn.srs\", \"download_detour\": \"direct\" },\n      { \"tag\": \"geosite-category-ads-all\", \"type\": \"remote\", \"format\": \"binary\", \"url\": \"https://raw.githubusercontent.com/SagerNet/sing-geosite/rule-set/geosite-category-ads-all.srs\", \"download_detour\": \"Proxy\" }\n    ],\n    ");
    reveal_strlit("\n      { \"inbound\": \"mixed-in\", \"outbound\": \"Proxy\" },\n      { \"inbound\": \"redir-in\", \"outbound\": \"Proxy\" },\n      { \"inbound\": \"tun-in\", \"outbound\": \"Proxy\" }");
    reveal_strlit("\"rules\": [");
    reveal_strlit(", {\"rule_set\": \"geoip-cn\", \"outbound\": \"direct\"}, {\"rule_set\": \"geosite-cn\", \"outbound\": \"direct\"}");
    reveal_strlit(", {\"rule_set\": \"geosite-category-ads-all\", \"outbound\": \"block\"}");
    reveal_strlit("{\"rule_set\": \"geoip-cn\", \"outbound\": \"direct\"}");
    reveal_strlit("{\"rule_set\": \"geosite-cn\", \"outbound\": \"direct\"}");
    reveal_strlit("{\"rule_set\": \"geosite-category-ads-all\", \"outbound\": \"block\"}");
    reveal_strlit("\n    ],\n    \"final\": \"");
    reveal_strlit("\"\n  }\n}\n");
    reveal_strlit("Proxy");
    reveal_strlit("direct");
    let lb1 = "\n      { \"inbound\": \"mixed-in\", \"outbound\": \"Proxy\" },\n      { \"inbound\": \"redir-in\", \"outbound\": \"Proxy\" },\n      { \"inbound\": \"tun-in\", \"outbound\": \"Proxy\" }"@;
    let cr = singbox_cn_rule(c);
    let ar = singbox_ad_rule(c);
    let f1 = "\n    ],\n    \"final\": \""@;
    let rf = singbox_route_final(c.routing.mode);
    let f2 = "\"\n  }\n}\n"@;
    let t = lb1 + cr + ar + f1 + rf + f2;
    let x =
    "{\n  \"log\": {\n    \"level\": \"info\"\n  },\n  \"dns\": {\n    \"servers\": [\n      { \"tag\": \"local\", \"address\": \"223.5.5.5\", \"detour\": \"direct\" },\n      { \"tag\": \"remote\", \"address\": \"https://1.1.1.1/dns-query\", \"detour\": \"Proxy\" }\n    ],\n    \"rules\": [\n      { \"rule_set\": \"geosite-cn\", \"server\": \"local\" }\n    ],\n    \"final\": \"remote\"\n  },\n  \"inbounds\": [\n    {\n      \"type\": \"mixed\",\n      \"tag\": \"mixed-in\",\n      \"listen\": \""@
        + c.inbound.bind_address@
        + "\",\n      \"listen_port\": "@ + decimal(c.inbound.mixed_port as nat)
        + "\n    },\n    {\n      \"type\": \"redirect\",\n      \"tag\": \"redir-in\",\n      \"listen\": \""@
        + c.inbound.bind_address@
        + "\",\n      \"listen_port\": "@ + decimal(c.inbound.redir_port as nat)
        + "\n    },\n    {\n      \"type\": \"tun\",\n      \"tag\": \"tun-in\",\n      \"inet4_address\": \"172.19.0.1/30\",\n      \"auto_route\": true,\n      \"strict_route\": false\n    }\n  ],\n  \"outbounds\": [\n    "@
        + singbox_proxy_outbound(c.source.mode);
    let p = x + ",\n    { \"type\": \"urltest\", \"tag\": \"auto\", \"outbounds\": [\"direct\"], \"url\": \"http://www.gstatic.com/generate_204\", \"interval\": \"2m\" },\n    { \"type\": \"direct\", \"tag\": \"direct\" },\n    { \"type\": \"block\", \"tag\": \"block\" }\n  ],\n  \"route\": {\n    \"rule_set\": [\n      { \"tag\": \"geoip-cn\", \"type\": \"remote\", \"format\": \"binary\", \"url\": \"https://raw.githubusercontent.com/SagerNet/sing-geoip/rule-set/geoip-cn.srs\", \"download_detour\": \"direct\" },\n      { \"tag\": \"geosite-cn\", \"type\": \"remote\", \"format\": \"binary\", \"url\": \"https://raw.githubusercontent.com/SagerNet/sing-geosite/rule-set/geosite-cn.srs\", \"download_detour\": \"direct\" },\n      { \"tag\": \"geosite-category-ads-all\", \"type\": \"remote\", \"format\": \"binary\", \"url\": \"https://raw.githubusercontent.com/SagerNet/sing-geosite/rule-set/geosite-category-ads-all.srs\", \"download_detour\": \"Proxy\" }\n    ],\n    "@;
    assert(",\n    { \"type\": \"urltest\", \"tag\": \"auto\", \"outbounds\": [\"direct\"], \"url\": \"http://www.gstatic.com/generate_204\", \"interval\": \"2m\" },\n    { \"type\": \"direct\", \"tag\": \"direct\" },\n    { \"type\": \"block\", \"tag\": \"block\" }\n  ],\n  \"route\": {\n    \"rule_set\": [\n      { \"tag\": \"geoip-cn\", \"type\": \"remote\", \"format\": \"binary\", \"url\": \"https://raw.githubusercontent.com/SagerNet/sing-geoip/rule-set/geoip-cn.srs\", \"download_detour\": \"direct\" },\n      { \"tag\": \"geosite-cn\", \"type\": \"remote\", \"format\": \"binary\", \"url\": \"https://raw.githubusercontent.com/SagerNet/sing-geosite/rule-set/geosite-cn.srs\", \"download_detour\": \"direct\" },\n      { \"tag\": \"geosite-category-ads-all\", \"type\": \"remote\", \"format\": \"binary\", \"url\": \"https://raw.githubusercontent.com/SagerNet/sing-geosite/rule-set/geosite-category-ads-all.srs\", \"download_detour\": \"Proxy\" }\n    ],\n    \"rules\": [\n      { \"inbound\": \"mixed-in\", \"outbound\": \"Proxy\" },\n      { \"inbound\": \"redir-in\", \"outbound\": \"Proxy\" },\n      { \"inbound\": \"tun-in\", \"outbound\": \"Proxy\" }"@ =~= ",\n    { \"type\": \"urltest\", \"tag\": \"auto\", \"outbounds\": [\"direct\"], \"url\": \"http://www.gstatic.com/generate_204\", \"interval\": \"2m\" },\n    { \"type\": \"direct\", \"tag\": \"direct\" },\n    { \"type\": \"block\", \"tag\": \"block\" }\n  ],\n  \"route\": {\n    \"rule_set\": [\n      { \"tag\": \"geoip-cn\", \"type\": \"remote\", \"format\": \"binary\", \"url\": \"https://raw.githubusercontent.com/SagerNet/sing-geoip/rule-set/geoip-cn.srs\", \"download_detour\": \"direct\" },\n      { \"tag\": \"geosite-cn\", \"type\": \"remote\", \"format\": \"binary\", \"url\": \"https://raw.githubusercontent.com/SagerNet/sing-geosite/rule-set/geosite-cn.srs\", \"download_detour\": \"direct\" },\n      { \"tag\": \"geosite-category-ads-all\", \"type\": \"remote\", \"format\": \"binary\", \"url\": \"https://raw.githubusercontent.com/SagerNet/sing-geosite/rule-set/geosite-category-ads-all.srs\", \"download_detour\": \"Proxy\" }\n    ],\n    "@ + "\"rules\": ["@ + lb1);
    assert(singbox_json(c) =~= p + "\"rules\": ["@ + t);
    let cn = ", {\"rule_set\": \"geoip-cn\", \"outbound\": \"direct\"}, {\"rule_set\": \"geosite-cn\", \"outbound\": \"direct\"}"@;
    let ad = ", {\"rule_set\": \"geosite-category-ads-all\", \"outbound\": \"block\"}"@;
    let e = Seq::<char>::empty();
    assert(lacks_char(lb1, '[') && lacks_char(lb1, 'k') && lacks_char(lb1, 'p'));
    assert(lacks_char(cn, '[') && lacks_char(cn, 'k'));
    assert(lacks_char(ad, '[') && lacks_char(ad, 'p'));
    assert(lacks_char(e, '[') && lacks_char(e, 'k') && lacks_char(e, 'p'));
    assert(lacks_char(f1, '[') && lacks_char(f1, 'k') && lacks_char(f1, 'p'));
    assert(lacks_char(f2, '[') && lacks_char(f2, 'k') && lacks_char(f2, 'p'));
    assert(lacks_char(rf, '[') && lacks_char(rf, 'k') && lacks_char(rf, 'p'));
    lemma_lacks_char_concat(lb1, cr, '[');
    lemma_lacks_char_concat(lb1 + cr, ar, '[');
    lemma_lacks_char_concat(lb1 + cr + ar, f1, '[');
    lemma_lacks_char_concat(lb1 + cr + ar + f1, rf, '[');
    lemma_lacks_char_concat(lb1 + cr + ar + f1 + rf, f2, '[');
    assert("\"rules\": ["@[9] == '[');
    lemma_lacks_char_not_contains(t, "\"rules\": ["@, 9);
    let geoip = "{\"rule_set\": \"geoip-cn\", \"outbound\": \"direct\"}"@;
    let geosite = "{\"rule_set\": \"geosite-cn\", \"outbound\": \"direct\"}"@;
    let ads = "{\"rule_set\": \"geosite-category-ads-all\", \"outbound\": \"block\"}"@;
    let tail = f1 + rf + f2;
    assert(t =~= lb1 + cr + (ar + tail));
    assert(t =~= (lb1 + cr) + ar + tail);
    if c.routing.domestic_direct {
        assert(cn.subrange(2, 2 + geoip.len() as int) =~= geoip);
        lemma_contains_at(cn, geoip, 2);
        assert(cn.subrange(50, 50 + geosite.len() as int) =~= geosite);
        lemma_contains_at(cn, geosite, 50);
        lemma_contains_in_part(lb1, cn, ar + tail, geoip);
        lemma_contains_in_part(lb1, cn, ar + tail, geosite);
    } else {
        lemma_lacks_char_concat(lb1, cr, 'p');
        lemma_lacks_char_concat(lb1 + cr, ar, 'p');
        lemma_lacks_char_concat(lb1 + cr + ar, f1, 'p');
        lemma_lacks_char_concat(lb1 + cr + ar + f1, rf, 'p');
        lemma_lacks_char_concat(lb1 + cr + ar + f1 + rf, f2, 'p');
        assert(geoip[18] == 'p');
        lemma_lacks_char_not_contains(t, geoip, 18);
    }
    if c.routing.block_ads {
        assert(ad.subrange(2, 2 + ads.len() as int) =~= ads);
        lemma_contains_at(ad, ads, 2);
        lemma_contains_in_part(lb1 + cr, ad, tail, ads);
    } else {
        lemma_lacks_char_concat(lb1, cr, 'k');
        lemma_lacks_char_concat(lb1 + cr, ar, 'k');
        lemma_lacks_char_concat(lb1 + cr + ar, f1, 'k');
        lemma_lacks_char_concat(lb1 + cr + ar + f1, rf, 'k');
        lemma_lacks_char_concat(lb1 + cr + ar + f1 + rf, f2, 'k');
        assert(ads[58] == 'k');
        lemma_lacks_char_not_contains(t, ads, 58);
    }
    assert(singbox_route_rules(c, p, t));
}

/// Renders the sing-box profile of a configuration.
pub fn render_sing_box_json(cfg: &AppConfig) -> (r: String)
    ensures
        r@ == singbox_json(*cfg),
{
    let route_final = match cfg.routing.mode {
        RouteMode::Rule => "Proxy",
        RouteMode::Global => "Proxy",
        RouteMode::Direct => "direct",
    };
    let cn_rule = if cfg.routing.domestic_direct {
        ", {\"rule_set\": \"geoip-cn\", \"outbound\": \"direct\"}, {\"rule_set\": \"geosite-cn\", \"outbound\": \"direct\"}"
    } else {
        ""
    };
    let ad_rule = if cfg.routing.block_ads {
        ", {\"rule_set\": \"geosite-category-ads-all\", \"outbound\": \"block\"}"
    } else {
        ""
    };
    let proxy_outbound = match cfg.source.mode {
        ProxySourceMode::Subscription =>
            "{\"type\":\"selector\",\"tag\":\"Proxy\",\"outbounds\":[\"auto\",\"direct\"]}",
        ProxySourceMode::LocalFile =>
            "{\"type\":\"selector\",\"tag\":\"Proxy\",\"outbounds\":[\"direct\"]}",
    };
    proof {
        reveal_strlit("");
    }
    let mut r = "{\n  \"log\": {\n    \"level\": \"info\"\n  },\n  \"dns\": {\n    \"servers\": [\n      { \"tag\": \"local\", \"address\": \"223.5.5.5\", \"detour\": \"direct\" },\n      { \"tag\": \"remote\", \"address\": \"https://1.1.1.1/dns-query\", \"detour\": \"Proxy\" }\n    ],\n    \"rules\": [\n      { \"rule_set\": \"geosite-cn\", \"server\": \"local\" }\n    ],\n    \"final\": \"remote\"\n  },\n  \"inbounds\": [\n    {\n      \"type\": \"mixed\",\n      \"tag\": \"mixed-in\",\n      \"listen\": \"".to_owned();
    r.append(cfg.inbound.bind_address.as_str());
    r.append("\",\n      \"listen_port\": ");
    r.append(decimal_text(cfg.inbound.mixed_port as u64).as_str());
    r.append("\n    },\n    {\n      \"type\": \"redirect\",\n      \"tag\": \"redir-in\",\n      \"listen\": \"");
    r.append(cfg.inbound.bind_address.as_str());
    r.append("\",\n      \"listen_port\": ");
    r.append(decimal_text(cfg.inbound.redir_port as u64).as_str());
    r.append("\n    },\n    {\n      \"type\": \"tun\",\n      \"tag\": \"tun-in\",\n      \"inet4_address\": \"172.19.0.1/30\",\n      \"auto_route\": true,\n      \"strict_route\": false\n    }\n  ],\n  \"outbounds\": [\n    ");
    r.append(proxy_outbound);
    r.append(",\n    { \"type\": \"urltest\", \"tag\": \"auto\", \"outbounds\": [\"direct\"], \"url\": \"http://www.gstatic.com/generate_204\", \"interval\": \"2m\" },\n    { \"type\": \"direct\", \"tag\": \"direct\" },\n    { \"type\": \"block\", \"tag\": \"block\" }\n  ],\n  \"route\": {\n    \"rule_set\": [\n      { \"tag\": \"geoip-cn\", \"type\": \"remote\", \"format\": \"binary\", \"url\": \"https://raw.githubusercontent.com/SagerNet/sing-geoip/rule-set/geoip-cn.srs\", \"download_detour\": \"direct\" },\n      { \"tag\": \"geosite-cn\", \"type\": \"remote\", \"format\": \"binary\", \"url\": \"https://raw.githubusercontent.com/SagerNet/sing-geosite/rule-set/geosite-cn.srs\", \"download_detour\": \"direct\" },\n      { \"tag\": \"geosite-category-ads-all\", \"type\": \"remote\", \"format\": \"binary\", \"url\": \"https://raw.githubusercontent.com/SagerNet/sing-geosite/rule-set/geosite-category-ads-all.srs\", \"download_detour\": \"Proxy\" }\n    ],\n    \"rules\": [\n      { \"inbound\": \"mixed-in\", \"outbound\": \"Proxy\" },\n      { \"inbound\": \"redir-in\", \"outbound\": \"Proxy\" },\n      { \"inbound\": \"tun-in\", \"outbound\": \"Proxy\" }");
    r.append(cn_rule);
    r.append(ad_rule);
    r.append("\n    ],\n    \"final\": \"");
    r.append(route_final);
    r.append("\"\n  }\n}\n");
    r
}

impl SingBoxEngine {
    /// The engine's name.
    pub fn name(&self) -> (r: &'static str)
        ensures
            r@ == "sing-box"@,
    {
        "sing-box"
    }

    /// The executable that is looked up and started: the configured
    /// `executables.sing_box`.
    pub fn binary<'a>(&self, cfg: &'a AppConfig) -> (r: &'a str)
        ensures
            r@ == cfg.executables.sing_box@,
    {
        cfg.executables.sing_box.as_str()
    }

    /// Checks that the configured sing-box executable can be found; when it
    /// cannot, the error names that executable.
    pub fn ensure_binary(&self, cfg: &AppConfig) -> (r: Result<(), EngineError>)
        ensures
            r == binary_outcome(EngineKind::SingBox, cfg.executables.sing_box, true)
                || r == binary_outcome(EngineKind::SingBox, cfg.executables.sing_box, false),
    {
        let found = command_exists(self.binary(cfg));
        check_binary(EngineKind::SingBox, &cfg.executables.sing_box, found)
    }

    /// Where the rendered profile is written, paths written in `style`.
    pub fn render_path(&self, cfg: &AppConfig, style: PathStyle) -> (r: String)
        ensures
            r@ == joined(cfg.runtime.work_dir@, "sing-box.generated.json"@, style),
    {
        join_path(cfg.runtime.work_dir.as_str(), "sing-box.generated.json", style)
    }

    /// The profile text written by `prepare`.
    pub fn render(&self, cfg: &AppConfig) -> (r: String)
        ensures
            r@ == singbox_json(*cfg),
    {
        render_sing_box_json(cfg)
    }

    /// The command that starts sing-box on a rendered profile.
    pub fn command(&self, cfg: &AppConfig, artifacts: &EngineArtifacts) -> (c: CommandSpec)
        ensures
            c.spec_parts() == (cfg.executables.sing_box@, seq![
                "run"@, "-D"@, cfg.runtime.work_dir@, "-c"@, artifacts.render_path@]),
    {
        let mut args: Vec<String> = Vec::new();
        args.push("run".to_owned());
        args.push("-D".to_owned());
        args.push(cfg.runtime.work_dir.clone());
        args.push("-c".to_owned());
        args.push(artifacts.render_path.clone());
        let c = CommandSpec { program: cfg.executables.sing_box.clone(), args };
        assert(texts(c.args@) =~= seq!["run"@, "-D"@, cfg.runtime.work_dir@, "-c"@, artifacts.render_path@]);
        c
    }
}

} // verus!
