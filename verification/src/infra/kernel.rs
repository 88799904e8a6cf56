//! Kernel installation: which engines to fetch, which release asset fits
//! the platform, where it comes from and how it is unpacked.

use vstd::prelude::*;
use crate::command::{texts, CommandSpec};
use crate::config::{AppConfig, EngineKind};
use crate::infra::platform::Os;
use crate::text::{contains, ends_with, join_path, joined, lemma_contains_at, starts_with, PathStyle};

verus! {

/// The mihomo release that is installed.
pub const MIHOMO_VERSION: &'static str = "v1.19.8";

/// The sing-box release that is installed.
pub const SINGBOX_VERSION: &'static str = "v1.12.4";

/// Why a kernel cannot be installed.
#[derive(Debug, Clone, PartialEq, Eq)]
pub enum KernelError {
    UnsupportedPlatform { engine: EngineKind, os: String, arch: String },
    MissingExtractedBinary { path: String },
}

/// The text of a kernel error.
pub open spec fn kernel_error_message(e: KernelError) -> Seq<char> {
    match e {
        KernelError::UnsupportedPlatform { engine: EngineKind::Mihomo, os, arch } =>
            "unsupported platform for mihomo: "@ + os@ + "/"@ + arch@,
        KernelError::UnsupportedPlatform { engine: EngineKind::SingBox, os, arch } =>
            "unsupported platform for sing-box: "@ + os@ + "/"@ + arch@,
        KernelError::MissingExtractedBinary { path } =>
            "cannot find extracted sing-box binary: "@ + path@,
    }
}

impl KernelError {
    /// The human-readable text of the error.
    pub fn message(&self) -> (r: String)
        ensures
            r@ == kernel_error_message(*self),
    {
        match self {
            KernelError::UnsupportedPlatform { engine, os, arch } => {
                let mut r = match engine {
                    EngineKind::Mihomo => "unsupported platform for mihomo: ".to_owned(),
                    EngineKind::SingBox => "unsupported platform for sing-box: ".to_owned(),
                };
                r.append(os.as_str());
                r.append("/");
                r.append(arch.as_str());
                r
            },
            KernelError::MissingExtractedBinary { path } => {
                let mut r = "cannot find extracted sing-box binary: ".to_owned();
                r.append(path.as_str());
                r
            },
        }
    }
}

/// The engines to install: the one asked for, or both.
pub open spec fn install_targets_of(engine: Option<EngineKind>) -> Seq<EngineKind> {
    match engine {
        Some(k) => seq![k],
        None => seq![EngineKind::Mihomo, EngineKind::SingBox],
    }
}

/// The engines to install, in order.
pub fn install_targets(engine: Option<EngineKind>) -> (r: Vec<EngineKind>)
    ensures
        r@ == install_targets_of(engine),
{
    let mut r: Vec<EngineKind> = Vec::new();
    match engine {
        Some(k) => r.push(k),
        None => {
            r.push(EngineKind::Mihomo);
            r.push(EngineKind::SingBox);
        },
    }
    assert(r@ =~= install_targets_of(engine));
    r
}

/// Where downloaded kernels are kept.
pub fn bin_dir(cfg: &AppConfig, style: PathStyle) -> (r: String)
    ensures
        r@ == joined(cfg.runtime.work_dir@, "bin"@, style),
{
    join_path(cfg.runtime.work_dir.as_str(), "bin", style)
}

/// Where sing-box archives are unpacked.
pub fn kernel_tmp_dir(cfg: &AppConfig, style: PathStyle) -> (r: String)
    ensures
        r@ == joined(cfg.runtime.work_dir@, "tmp-kernel"@, style),
{
    join_path(cfg.runtime.work_dir.as_str(), "tmp-kernel", style)
}

/// The mihomo asset suffix for a platform, if it has one.
pub open spec fn mihomo_suffix(os: Seq<char>, arch: Seq<char>) -> Option<Seq<char>> {
    if os == "linux"@ && arch == "x86_64"@ {
        Some("linux-amd64"@)
    } else if os == "linux"@ && arch == "aarch64"@ {
        Some("linux-arm64"@)
    } else if os == "macos"@ && arch == "x86_64"@ {
        Some("darwin-amd64"@)
    } else if os == "macos"@ && arch == "aarch64"@ {
        Some("darwin-arm64"@)
    } else {
        None
    }
}

/// The mihomo release asset for the platform `os`/`arch` (as Rust names them).
pub fn mihomo_asset(os: &str, arch: &str) -> (r: Result<String, KernelError>)
    ensures
        match mihomo_suffix(os@, arch@) {
            Some(suffix) => r matches Ok(a) && a@ == "mihomo-"@ + suffix,
            None => r matches Err(KernelError::UnsupportedPlatform { engine, os: o, arch: a })
                && engine == EngineKind::Mihomo && o@ == os@ && a@ == arch@,
        },
{
    let is_linux = crate::text::str_equal(os, "linux");
    let is_macos = crate::text::str_equal(os, "macos");
    let is_x86 = crate::text::str_equal(arch, "x86_64");
    let is_arm = crate::text::str_equal(arch, "aarch64");
    let suffix = if is_linux && is_x86 {
        "linux-amd64"
    } else if is_linux && is_arm {
        "linux-arm64"
    } else if is_macos && is_x86 {
        "darwin-amd64"
    } else if is_macos && is_arm {
        "darwin-arm64"
    } else {
        return Err(KernelError::UnsupportedPlatform {
            engine: EngineKind::Mihomo,
            os: os.to_owned(),
            arch: arch.to_owned(),
        });
    };
    let mut r = "mihomo-".to_owned();
    r.append(suffix);
    Ok(r)
}

/// Law: a mihomo asset exists exactly for Linux and macOS on x86_64 and
/// aarch64, and it names the host's own system and architecture: `linux-`
/// or `darwin-` first, `-amd64` for x86_64 and `-arm64` for aarch64 last.
pub proof fn law_mihomo_asset_platform(os: Seq<char>, arch: Seq<char>)
    ensures
        mihomo_suffix(os, arch) is Some
            <==> ((os == "linux"@ || os == "macos"@) && (arch == "x86_64"@ || arch == "aarch64"@)),
        forall|s: Seq<char>| #[trigger] mihomo_suffix(os, arch) == Some(s) ==> {
            &&& (arch == "aarch64"@ ==> ends_with(s, "-arm64"@))
            &&& (arch == "x86_64"@ ==> ends_with(s, "-amd64"@))
            &&& (os == "linux"@ ==> starts_with(s, "linux-"@))
            &&& (os == "macos"@ ==> starts_with(s, "darwin-"@))
        },
{
    reveal_strlit("linux");
    reveal_strlit("macos");
    reveal_strlit("x86_64");
    reveal_strlit("aarch64");
    reveal_strlit("linux-amd64");
    reveal_strlit("linux-arm64");
    reveal_strlit("darwin-amd64");
    reveal_strlit("darwin-arm64");
    reveal_strlit("-arm64");
    reveal_strlit("-amd64");
    reveal_strlit("linux-");
    reveal_strlit("darwin-");
    assert("linux"@ != "macos"@) by { assert("linux"@[0] != "macos"@[0]); }
    assert("x86_64"@ != "aarch64"@) by { assert("x86_64"@.len() != "aarch64"@.len()); }
    assert("linux-amd64"@.subrange(5, 11) =~= "-amd64"@);
    assert("linux-arm64"@.subrange(5, 11) =~= "-arm64"@);
    assert("darwin-amd64"@.subrange(6, 12) =~= "-amd64"@);
    assert("darwin-arm64"@.subrange(6, 12) =~= "-arm64"@);
    assert("linux-amd64"@.subrange(0, 6) =~= "linux-"@);
    assert("linux-arm64"@.subrange(0, 6) =~= "linux-"@);
    assert("darwin-amd64"@.subrange(0, 7) =~= "darwin-"@);
    assert("darwin-arm64"@.subrange(0, 7) =~= "darwin-"@);
}

/// `s` without its leading `v` characters.
pub open spec fn strip_leading_v(s: Seq<char>) -> Seq<char>
    decreases s.len(),
{
    if s.len() > 0 && s[0] == 'v' {
        strip_leading_v(s.drop_first())
    } else {
        s
    }
}

/// `s` without its leading `v` characters.
pub fn trim_leading_v(s: &str) -> (r: &str)
    ensures
        r@ == strip_leading_v(s@),
{
    let n = s.unicode_len();
    let mut i: usize = 0;
    assert(s@.subrange(0, n as int) =~= s@);
    while i < n && s.get_char(i) == 'v'
        invariant
            n == s@.len(),
            i <= n,
            strip_leading_v(s@) == strip_leading_v(s@.subrange(i as int, n as int)),
        decreases n - i,
    {
        assert(s@.subrange(i as int, n as int).drop_first() =~= s@.subrange(i + 1, n as int));
        i = i + 1;
    }
    s.substring_char(i, n)
}

/// The sing-box asset's platform part, the binary's name in the archive,
/// and whether the archive is a zip, for a platform, if it has one.
pub open spec fn singbox_platform(os: Seq<char>, arch: Seq<char>) -> Option<(Seq<char>, Seq<char>, bool)> {
    if os == "linux"@ && arch == "x86_64"@ {
        Some(("-linux-amd64.tar.gz"@, "sing-box"@, false))
    } else if os == "linux"@ && arch == "aarch64"@ {
        Some(("-linux-arm64.tar.gz"@, "sing-box"@, false))
    } else if os == "macos"@ && arch == "x86_64"@ {
        Some(("-darwin-amd64.tar.gz"@, "sing-box"@, false))
    } else if os == "macos"@ && arch == "aarch64"@ {
        Some(("-darwin-arm64.tar.gz"@, "sing-box"@, false))
    } else if os == "windows"@ && arch == "x86_64"@ {
        Some(("-windows-amd64.zip"@, "sing-box.exe"@, true))
    } else {
        None
    }
}

/// Law: a sing-box asset exists exactly for Linux and macOS on x86_64 and
/// aarch64 and for Windows on x86_64; its name carries the host's own system
/// and architecture, Windows alone gets a zip archive holding
/// `sing-box.exe`, and the others a tar.gz archive holding `sing-box`.
pub proof fn law_singbox_asset_platform(os: Seq<char>, arch: Seq<char>)
    ensures
        singbox_platform(os, arch) is Some
            <==> (((os == "linux"@ || os == "macos"@) && (arch == "x86_64"@ || arch == "aarch64"@))
                || (os == "windows"@ && arch == "x86_64"@)),
        forall|tail: Seq<char>, bin: Seq<char>, zip: bool| #[trigger] singbox_platform(os, arch) == Some((tail, bin, zip)) ==> {
            &&& (arch == "aarch64"@ ==> contains(tail, "-arm64."@))
            &&& (arch == "x86_64"@ ==> contains(tail, "-amd64."@))
            &&& (os == "linux"@ ==> starts_with(tail, "-linux-"@))
            &&& (os == "macos"@ ==> starts_with(tail, "-darwin-"@))
            &&& (os == "windows"@ ==> starts_with(tail, "-windows-"@))
            &&& (zip <==> os == "windows"@)
            &&& (zip ==> ends_with(tail, ".zip"@) && bin == "sing-box.exe"@)
            &&& (!zip ==> ends_with(tail, ".tar.gz"@) && bin == "sing-box"@)
        },
{
    reveal_strlit("linux");
    reveal_strlit("macos");
    reveal_strlit("windows");
    reveal_strlit("x86_64");
    reveal_strlit("aarch64");
    reveal_strlit("-linux-amd64.tar.gz");
    reveal_strlit("-linux-arm64.tar.gz");
    reveal_strlit("-darwin-amd64.tar.gz");
    reveal_strlit("-darwin-arm64.tar.gz");
    reveal_strlit("-windows-amd64.zip");
    reveal_strlit("-arm64.");
    reveal_strlit("-amd64.");
    reveal_strlit("-linux-");
    reveal_strlit("-darwin-");
    reveal_strlit("-windows-");
    reveal_strlit(".zip");
    reveal_strlit(".tar.gz");
    reveal_strlit("sing-box");
    reveal_strlit("sing-box.exe");
    assert("linux"@ != "macos"@) by { assert("linux"@[0] != "macos"@[0]); }
    assert("linux"@ != "windows"@) by { assert("linux"@.len() != "windows"@.len()); }
    assert("macos"@ != "windows"@) by { assert("macos"@.len() != "windows"@.len()); }
    assert("x86_64"@ != "aarch64"@) by { assert("x86_64"@.len() != "aarch64"@.len()); }
    assert("sing-box"@ != "sing-box.exe"@) by { assert("sing-box"@.len() != "sing-box.exe"@.len()); }
    let la = "-linux-amd64.tar.gz"@;
    let lr = "-linux-arm64.tar.gz"@;
    let da = "-darwin-amd64.tar.gz"@;
    let dr = "-darwin-arm64.tar.gz"@;
    let wa = "-windows-amd64.zip"@;
    assert(la.subrange(6, 13) =~= "-amd64."@);
    lemma_contains_at(la, "-amd64."@, 6);
    assert(lr.subrange(6, 13) =~= "-arm64."@);
    lemma_contains_at(lr, "-arm64."@, 6);
    assert(da.subrange(7, 14) =~= "-amd64."@);
    lemma_contains_at(da, "-amd64."@, 7);
    assert(dr.subrange(7, 14) =~= "-arm64."@);
    lemma_contains_at(dr, "-arm64."@, 7);
    assert(wa.subrange(8, 15) =~= "-amd64."@);
    lemma_contains_at(wa, "-amd64."@, 8);
    assert(la.subrange(0, 7) =~= "-linux-"@);
    assert(lr.subrange(0, 7) =~= "-linux-"@);
    assert(da.subrange(0, 8) =~= "-darwin-"@);
    assert(dr.subrange(0, 8) =~= "-darwin-"@);
    assert(wa.subrange(0, 9) =~= "-windows-"@);
    assert(la.subrange(la.len() - 7, la.len() as int) =~= ".tar.gz"@);
    assert(lr.subrange(lr.len() - 7, lr.len() as int) =~= ".tar.gz"@);
    assert(da.subrange(da.len() - 7, da.len() as int) =~= ".tar.gz"@);
    assert(dr.subrange(dr.len() - 7, dr.len() as int) =~= ".tar.gz"@);
    assert(wa.subrange(wa.len() - 4, wa.len() as int) =~= ".zip"@);
}

/// The sing-box release asset for the platform `os`/`arch`, the binary's
/// name inside it, and whether it is a zip archive.
pub fn singbox_asset(os: &str, arch: &str) -> (r: Result<(String, String, bool), KernelError>)
    ensures
        match singbox_platform(os@, arch@) {
            Some((tail, bin, zip)) => r matches Ok((a, b, z))
                && a@ == "sing-box-"@ + strip_leading_v(SINGBOX_VERSION@) + tail && b@ == bin && z == zip,
            None => r matches Err(KernelError::UnsupportedPlatform { engine, os: o, arch: a })
                && engine == EngineKind::SingBox && o@ == os@ && a@ == arch@,
        },
{
    let is_linux = crate::text::str_equal(os, "linux");
    let is_macos = crate::text::str_equal(os, "macos");
    let is_windows = crate::text::str_equal(os, "windows");
    let is_x86 = crate::text::str_equal(arch, "x86_64");
    let is_arm = crate::text::str_equal(arch, "aarch64");
    let (tail, bin, zip) = if is_linux && is_x86 {
        ("-linux-amd64.tar.gz", "sing-box", false)
    } else if is_linux && is_arm {
        ("-linux-arm64.tar.gz", "sing-box", false)
    } else if is_macos && is_x86 {
        ("-darwin-amd64.tar.gz", "sing-box", false)
    } else if is_macos && is_arm {
        ("-darwin-arm64.tar.gz", "sing-box", false)
    } else if is_windows && is_x86 {
        ("-windows-amd64.zip", "sing-box.exe", true)
    } else {
        return Err(KernelError::UnsupportedPlatform {
            engine: EngineKind::SingBox,
            os: os.to_owned(),
            arch: arch.to_owned(),
        });
    };
    let mut asset = "sing-box-".to_owned();
    asset.append(trim_leading_v(SINGBOX_VERSION));
    asset.append(tail);
    Ok((asset, bin.to_owned(), zip))
}

/// Where a mihomo asset is published.
pub fn mihomo_download_url(asset: &str) -> (r: String)
    ensures
        r@ == "https://github.com/MetaCubeX/mihomo/releases/download/"@ + MIHOMO_VERSION@ + "/"@ + asset@,
{
    let mut r = "https://github.com/MetaCubeX/mihomo/releases/download/".to_owned();
    r.append(MIHOMO_VERSION);
    r.append("/");
    r.append(asset);
    r
}

/// Where a sing-box asset is published.
pub fn singbox_download_url(asset: &str) -> (r: String)
    ensures
        r@ == "https://github.com/SagerNet/sing-box/releases/download/"@ + SINGBOX_VERSION@ + "/"@ + asset@,
{
    let mut r = "https://github.com/SagerNet/sing-box/releases/download/".to_owned();
    r.append(SINGBOX_VERSION);
    r.append("/");
    r.append(asset);
    r
}

/// The mirror prefixes tried for mihomo, the origin first.
pub fn mihomo_mirrors() -> (r: Vec<String>)
    ensures
        texts(r@) == seq![""@, "https://ghp.ci/"@, "https://hub.gitmirror.com/"@, "https://github.moeyy.xyz/"@],
{
    let mut r: Vec<String> = Vec::new();
    r.push("".to_owned());
    r.push("https://ghp.ci/".to_owned());
    r.push("https://hub.gitmirror.com/".to_owned());
    r.push("https://github.moeyy.xyz/".to_owned());
    assert(texts(r@) =~= seq![""@, "https://ghp.ci/"@, "https://hub.gitmirror.com/"@, "https://github.moeyy.xyz/"@]);
    r
}

/// The mirror prefixes tried for sing-box, the origin first.
pub fn singbox_mirrors() -> (r: Vec<String>)
    ensures
        texts(r@) == seq![""@, "https://ghp.ci/"@, "https://hub.gitmirror.com/"@],
{
    let mut r: Vec<String> = Vec::new();
    r.push("".to_owned());
    r.push("https://ghp.ci/".to_owned());
    r.push("https://hub.gitmirror.com/".to_owned());
    assert(texts(r@) =~= seq![""@, "https://ghp.ci/"@, "https://hub.gitmirror.com/"@]);
    r
}

/// The URLs tried for a download, one per mirror prefix, in order.
pub fn mirror_urls(src: &str, prefixes: &Vec<String>) -> (r: Vec<String>)
    ensures
        r@.len() == prefixes@.len(),
        forall|i: int| 0 <= i < r@.len() ==> #[trigger] r@[i]@ == prefixes@[i]@ + src@,
{
    let mut r: Vec<String> = Vec::new();
    let mut i: usize = 0;
    while i < prefixes.len()
        invariant
            i <= prefixes@.len(),
            r@.len() == i,
            forall|j: int| 0 <= j < i ==> #[trigger] r@[j]@ == prefixes@[j]@ + src@,
        decreases prefixes@.len() - i,
    {
        let mut url = prefixes[i].clone();
        url.append(src);
        r.push(url);
        i = i + 1;
    }
    r
}

/// What a download does after trying the mirror URL at `attempt` of `count`.
#[derive(Debug, Clone, Copy, PartialEq, Eq, Structural)]
pub enum MirrorStep {
    /// The file was downloaded; no other mirror is tried.
    Downloaded,
    /// Try the mirror URL at this index next.
    TryNext(usize),
    /// Every mirror failed; the last failure is the download's error.
    Exhausted,
}

/// The step after trying the mirror at `attempt` of `count`: stop at the
/// first success, else go on to the next mirror while there is one.
pub open spec fn mirror_step(attempt: nat, count: nat, success: bool) -> MirrorStep {
    if success {
        MirrorStep::Downloaded
    } else if attempt + 1 < count {
        MirrorStep::TryNext((attempt + 1) as usize)
    } else {
        MirrorStep::Exhausted
    }
}

/// Decides what a download does after trying the mirror at `attempt` of
/// `count`, given whether that attempt succeeded.
pub fn after_mirror_attempt(attempt: usize, count: usize, success: bool) -> (r: MirrorStep)
    ensures
        r == mirror_step(attempt as nat, count as nat, success),
{
    if success {
        MirrorStep::Downloaded
    } else if count > 0 && attempt < count - 1 {
        MirrorStep::TryNext(attempt + 1)
    } else {
        MirrorStep::Exhausted
    }
}

/// The text of a failed extraction: the extractor could not be started, or
/// it exited without success.
pub open spec fn extract_failure(is_zip: bool, started: bool) -> Seq<char> {
    if is_zip {
        if started { "failed to extract zip archive"@ } else { "failed to extract zip"@ }
    } else {
        if started { "failed to extract tar.gz archive"@ } else { "failed to extract tar.gz"@ }
    }
}

/// The text of a failed extraction of a zip (`is_zip`) or tar.gz archive,
/// whose extractor `started` or could not be started.
pub fn extract_failure_message(is_zip: bool, started: bool) -> (r: String)
    ensures
        r@ == extract_failure(is_zip, started),
{
    if is_zip {
        if started { "failed to extract zip archive".to_owned() } else { "failed to extract zip".to_owned() }
    } else {
        if started { "failed to extract tar.gz archive".to_owned() } else { "failed to extract tar.gz".to_owned() }
    }
}

/// The command that downloads `url` to `dest`.
pub fn download_command(dest: &str, url: &str) -> (c: CommandSpec)
    ensures
        c.spec_parts() == ("curl"@, seq!["-fsSL"@, "-o"@, dest@, url@]),
{
    let mut args: Vec<String> = Vec::new();
    args.push("-fsSL".to_owned());
    args.push("-o".to_owned());
    args.push(dest.to_owned());
    args.push(url.to_owned());
    let c = CommandSpec { program: "curl".to_owned(), args };
    assert(texts(c.args@) =~= seq!["-fsSL"@, "-o"@, dest@, url@]);
    c
}

/// The command that unpacks an archive into `out_dir` on `os`.
pub open spec fn extract_parts(archive: Seq<char>, out_dir: Seq<char>, is_zip: bool, os: Os) -> (Seq<char>, Seq<Seq<char>>) {
    if is_zip && os == Os::Windows {
        ("powershell"@, seq!["-NoProfile"@, "-Command"@,
            "Expand-Archive -Path '"@ + archive + "' -DestinationPath '"@ + out_dir + "' -Force"@])
    } else if is_zip {
        ("unzip"@, seq!["-o"@, archive, "-d"@, out_dir])
    } else {
        ("tar"@, seq!["-xzf"@, archive, "-C"@, out_dir])
    }
}

/// Builds the command that unpacks an archive into `out_dir` on `os`.
pub fn extract_command(archive: &str, out_dir: &str, is_zip: bool, os: Os) -> (c: CommandSpec)
    ensures
        c.spec_parts() == extract_parts(archive@, out_dir@, is_zip, os),
{
    let mut args: Vec<String> = Vec::new();
    if is_zip && os == Os::Windows {
        let mut script = "Expand-Archive -Path '".to_owned();
        script.append(archive);
        script.append("' -DestinationPath '");
        script.append(out_dir);
        script.append("' -Force");
        args.push("-NoProfile".to_owned());
        args.push("-Command".to_owned());
        args.push(script);
        let c = CommandSpec { program: "powershell".to_owned(), args };
        assert(texts(c.args@) =~= extract_parts(archive@, out_dir@, is_zip, os).1);
        c
    } else if is_zip {
        args.push("-o".to_owned());
        args.push(archive.to_owned());
        args.push("-d".to_owned());
        args.push(out_dir.to_owned());
        let c = CommandSpec { program: "unzip".to_owned(), args };
        assert(texts(c.args@) =~= extract_parts(archive@, out_dir@, is_zip, os).1);
        c
    } else {
        args.push("-xzf".to_owned());
        args.push(archive.to_owned());
        args.push("-C".to_owned());
        args.push(out_dir.to_owned());
        let c = CommandSpec { program: "tar".to_owned(), args };
        assert(texts(c.args@) =~= extract_parts(archive@, out_dir@, is_zip, os).1);
        c
    }
}

/// The line reported for an installed kernel.
pub fn installed_line(engine: EngineKind, dest: &str) -> (r: String)
    ensures
        r@ == engine.spec_name() + " -> "@ + dest@,
{
    let mut r = engine.as_str().to_owned();
    r.append(" -> ");
    r.append(dest);
    r
}

} // verus!
