//! Compilation targets: target triples and what Node.js and CI make of them.
use vstd::prelude::*;

use crate::text::{ends_with, lemma_split_on_nonempty, split_char, split_on, text_eq, views};

verus! {

/// CPU architectures as Node.js names them (`process.arch`).
#[allow(non_camel_case_types)]
#[derive(Debug, Clone, Copy, PartialEq, Eq, Structural)]
pub enum NodeArch {
    x32,
    x64,
    ia32,
    arm,
    arm64,
    mips,
    mipsel,
    ppc,
    ppc64,
    s390,
    s390x,
}

/// The architecture named by the cpu part of a target triple.
pub open spec fn arch_of(cpu: Seq<char>) -> Option<NodeArch> {
    if cpu == "x32"@ {
        Some(NodeArch::x32)
    } else if cpu == "x86_64"@ {
        Some(NodeArch::x64)
    } else if cpu == "i686"@ {
        Some(NodeArch::ia32)
    } else if cpu == "armv7"@ {
        Some(NodeArch::arm)
    } else if cpu == "aarch64"@ {
        Some(NodeArch::arm64)
    } else if cpu == "mips"@ {
        Some(NodeArch::mips)
    } else if cpu == "mipsel"@ {
        Some(NodeArch::mipsel)
    } else if cpu == "ppc"@ {
        Some(NodeArch::ppc)
    } else if cpu == "ppc64"@ {
        Some(NodeArch::ppc64)
    } else if cpu == "s390"@ {
        Some(NodeArch::s390)
    } else if cpu == "s390x"@ {
        Some(NodeArch::s390x)
    } else {
        None
    }
}

impl NodeArch {
    /// Reads the cpu part of a target triple.
    pub fn from_str(s: &str) -> (r: Option<NodeArch>)
        ensures
            r == arch_of(s@),
    {
        if text_eq(s, "x32") {
            Some(NodeArch::x32)
        } else if text_eq(s, "x86_64") {
            Some(NodeArch::x64)
        } else if text_eq(s, "i686") {
            Some(NodeArch::ia32)
        } else if text_eq(s, "armv7") {
            Some(NodeArch::arm)
        } else if text_eq(s, "aarch64") {
            Some(NodeArch::arm64)
        } else if text_eq(s, "mips") {
            Some(NodeArch::mips)
        } else if text_eq(s, "mipsel") {
            Some(NodeArch::mipsel)
        } else if text_eq(s, "ppc") {
            Some(NodeArch::ppc)
        } else if text_eq(s, "ppc64") {
            Some(NodeArch::ppc64)
        } else if text_eq(s, "s390") {
            Some(NodeArch::s390)
        } else if text_eq(s, "s390x") {
            Some(NodeArch::s390x)
        } else {
            None
        }
    }

    /// The name Node.js gives the architecture.
    pub open spec fn name(self) -> Seq<char> {
        match self {
            NodeArch::x32 => "x86"@,
            NodeArch::x64 => "x64"@,
            NodeArch::ia32 => "ia32"@,
            NodeArch::arm => "arm"@,
            NodeArch::arm64 => "arm64"@,
            NodeArch::mips => "mips"@,
            NodeArch::mipsel => "mipsel"@,
            NodeArch::ppc => "ppc"@,
            NodeArch::ppc64 => "ppc64"@,
            NodeArch::s390 => "s390"@,
            NodeArch::s390x => "s390x"@,
        }
    }

    pub fn to_string(&self) -> (r: String)
        ensures
            r@ == self.name(),
    {
        let s = match self {
            NodeArch::x32 => "x86",
            NodeArch::x64 => "x64",
            NodeArch::ia32 => "ia32",
            NodeArch::arm => "arm",
            NodeArch::arm64 => "arm64",
            NodeArch::mips => "mips",
            NodeArch::mipsel => "mipsel",
            NodeArch::ppc => "ppc",
            NodeArch::ppc64 => "ppc64",
            NodeArch::s390 => "s390",
            NodeArch::s390x => "s390x",
        };
        s.to_string()
    }

    /// Name used for the `architecture` input of GitHub's setup actions.
    pub fn as_github_action_arch(&self) -> (r: &'static str)
        ensures
            r@ == (if *self == NodeArch::x32 {
                "x86"@
            } else {
                "x64"@
            }),
    {
        match self {
            NodeArch::x32 => "x86",
            _ => "x64",
        }
    }
}

/// Operating systems as Node.js names them (`process.platform`).
#[derive(Debug, Clone, PartialEq, Eq)]
pub enum NodePlatform {
    Darwin,
    Freebsd,
    Windows,
    Linux,
    Android,
    Fuchsia,
    Unknown(String),
}

/// The known platform named by the system part of a target triple.
pub open spec fn known_platform(sys: Seq<char>) -> Option<NodePlatform> {
    if sys == "darwin"@ {
        Some(NodePlatform::Darwin)
    } else if sys == "freebsd"@ {
        Some(NodePlatform::Freebsd)
    } else if sys == "windows"@ {
        Some(NodePlatform::Windows)
    } else if sys == "linux"@ {
        Some(NodePlatform::Linux)
    } else if sys == "android"@ {
        Some(NodePlatform::Android)
    } else if sys == "fuchsia"@ {
        Some(NodePlatform::Fuchsia)
    } else {
        None
    }
}

impl NodePlatform {
    /// Whether this is what the system part `sys` of a triple names: a known
    /// platform, or `Unknown` holding `sys` itself.
    pub open spec fn read_from(self, sys: Seq<char>) -> bool {
        match known_platform(sys) {
            Some(p) => self == p,
            None => self matches NodePlatform::Unknown(u) && u@ == sys,
        }
    }

    /// Reads the system part of a target triple.
    pub fn from_str(s: &str) -> (r: NodePlatform)
        ensures
            r.read_from(s@),
    {
        if text_eq(s, "darwin") {
            NodePlatform::Darwin
        } else if text_eq(s, "freebsd") {
            NodePlatform::Freebsd
        } else if text_eq(s, "windows") {
            NodePlatform::Windows
        } else if text_eq(s, "linux") {
            NodePlatform::Linux
        } else if text_eq(s, "android") {
            NodePlatform::Android
        } else if text_eq(s, "fuchsia") {
            NodePlatform::Fuchsia
        } else {
            NodePlatform::Unknown(s.to_string())
        }
    }

    /// The name Node.js gives the platform.
    pub open spec fn name(self) -> Seq<char> {
        match self {
            NodePlatform::Darwin => "darwin"@,
            NodePlatform::Freebsd => "freebsd"@,
            NodePlatform::Windows => "win32"@,
            NodePlatform::Linux => "linux"@,
            NodePlatform::Android => "android"@,
            NodePlatform::Fuchsia => "fuchsia"@,
            NodePlatform::Unknown(s) => s@,
        }
    }

    pub fn to_string(&self) -> (r: String)
        ensures
            r@ == self.name(),
    {
        match self {
            NodePlatform::Darwin => "darwin".to_string(),
            NodePlatform::Freebsd => "freebsd".to_string(),
            NodePlatform::Windows => "win32".to_string(),
            NodePlatform::Linux => "linux".to_string(),
            NodePlatform::Android => "android".to_string(),
            NodePlatform::Fuchsia => "fuchsia".to_string(),
            NodePlatform::Unknown(s) => s.clone(),
        }
    }
}

/// How the CI workflow builds one target.
#[derive(Debug, Clone)]
pub struct GithubWorkflowConfig {
    pub host: &'static str,
    pub docker_image: Option<&'static str>,
    /// Shell commands joined by `&&`.
    pub setup: Option<&'static str>,
}

pub open spec fn opt_view(o: Option<&'static str>) -> Option<Seq<char>> {
    match o {
        Some(s) => Some(s@),
        None => None,
    }
}

impl GithubWorkflowConfig {
    /// Host, docker image and setup, as characters.
    pub open spec fn view(&self) -> (Seq<char>, Option<Seq<char>>, Option<Seq<char>>) {
        (self.host@, opt_view(self.docker_image), opt_view(self.setup))
    }
}

impl Default for GithubWorkflowConfig {
    fn default() -> (r: Self)
        ensures
            r.view() == ("ubuntu-latest"@, None::<Seq<char>>, None::<Seq<char>>),
    {
        GithubWorkflowConfig { host: "ubuntu-latest", docker_image: None, setup: None }
    }
}

/// The CI configuration of each supported target; the default one for others.
pub open spec fn workflow_config_spec(t: Seq<char>) -> (Seq<char>, Option<Seq<char>>, Option<Seq<char>>) {
    if t == "x86_64-apple-darwin"@ || t == "aarch64-apple-darwin"@ {
        ("macos-latest"@, None, None)
    } else if t == "x86_64-pc-windows-msvc"@ || t == "i686-pc-windows-msvc"@ || t
        == "aarch64-pc-windows-msvc"@ {
        ("windows-latest"@, None, None)
    } else if t == "x86_64-unknown-linux-gnu"@ {
        ("ubuntu-latest"@, Some("napi-rs/nodejs-rust:lts-debian"@), None)
    } else if t == "x86_64-unknown-linux-musl"@ || t == "aarch64-unknown-linux-musl"@ {
        ("ubuntu-latest"@, Some("napi-rs/nodejs-rust:lts-alpine"@), None)
    } else if t == "aarch64-unknown-linux-gnu"@ {
        (
            "ubuntu-latest"@,
            None,
            Some(
                "sudo apt-get update && sudo apt-get install g++-aarch64-linux-gnu gcc-aarch64-linux-gnu -y"@,
            ),
        )
    } else if t == "armv7-unknown-linux-gnueabihf"@ {
        (
            "ubuntu-latest"@,
            None,
            Some(
                "sudo apt-get update && sudo apt-get install gcc-arm-linux-gnueabihf g++-arm-linux-gnueabihf -y"@,
            ),
        )
    } else {
        ("ubuntu-latest"@, None, None)
    }
}

fn config(host: &'static str, docker_image: Option<&'static str>, setup: Option<&'static str>) -> (r:
    GithubWorkflowConfig)
    ensures
        r.view() == (host@, opt_view(docker_image), opt_view(setup)),
{
    GithubWorkflowConfig { host, docker_image, setup }
}

/// The CI configuration for `target`.
pub fn get_github_workflow_config(target: &str) -> (r: GithubWorkflowConfig)
    ensures
        r.view() == workflow_config_spec(target@),
{
    if text_eq(target, "x86_64-apple-darwin") || text_eq(target, "aarch64-apple-darwin") {
        config("macos-latest", None, None)
    } else if text_eq(target, "x86_64-pc-windows-msvc") || text_eq(target, "i686-pc-windows-msvc")
        || text_eq(target, "aarch64-pc-windows-msvc") {
        config("windows-latest", None, None)
    } else if text_eq(target, "x86_64-unknown-linux-gnu") {
        config("ubuntu-latest", Some("napi-rs/nodejs-rust:lts-debian"), None)
    } else if text_eq(target, "x86_64-unknown-linux-musl") || text_eq(
        target,
        "aarch64-unknown-linux-musl",
    ) {
        config("ubuntu-latest", Some("napi-rs/nodejs-rust:lts-alpine"), None)
    } else if text_eq(target, "aarch64-unknown-linux-gnu") {
        config(
            "ubuntu-latest",
            None,
            Some(
                "sudo apt-get update && sudo apt-get install g++-aarch64-linux-gnu gcc-aarch64-linux-gnu -y",
            ),
        )
    } else if text_eq(target, "armv7-unknown-linux-gnueabihf") {
        config(
            "ubuntu-latest",
            None,
            Some(
                "sudo apt-get update && sudo apt-get install gcc-arm-linux-gnueabihf g++-arm-linux-gnueabihf -y",
            ),
        )
    } else {
        GithubWorkflowConfig::default()
    }
}

/// `t`, with `androideabi` at its end written `android-eabi`.
pub open spec fn normalized_triple(t: Seq<char>) -> Seq<char> {
    if "androideabi"@.len() <= t.len() && t.subrange(t.len() - "androideabi"@.len(), t.len() as int)
        == "androideabi"@ {
        t.subrange(0, t.len() - 4) + "-"@ + t.subrange(t.len() - 4, t.len() as int)
    } else {
        t
    }
}

/// The `-`-separated parts of a triple.
pub open spec fn triple_parts(t: Seq<char>) -> Seq<Seq<char>> {
    split_on(normalized_triple(t), '-')
}

/// The cpu part: the first.
pub open spec fn triple_cpu(t: Seq<char>) -> Seq<char> {
    triple_parts(t)[0]
}

/// The system part: the second of two parts, else the third.
pub open spec fn triple_sys(t: Seq<char>) -> Seq<char> {
    if triple_parts(t).len() == 2 {
        triple_parts(t)[1]
    } else {
        triple_parts(t)[2]
    }
}

/// The ABI part: the fourth, if there is one.
pub open spec fn triple_abi(t: Seq<char>) -> Option<Seq<char>> {
    if triple_parts(t).len() > 3 {
        Some(triple_parts(t)[3])
    } else {
        None
    }
}

/// A triple that names a system part and a cpu Node.js knows.
pub open spec fn supported_triple(t: Seq<char>) -> bool {
    triple_parts(t).len() >= 2 && arch_of(triple_cpu(t)) is Some
}

/// What Node.js calls the platform of system part `sys`.
pub open spec fn platform_name(sys: Seq<char>) -> Seq<char> {
    match known_platform(sys) {
        Some(p) => p.name(),
        None => sys,
    }
}

/// `platform-arch` or `platform-arch-abi`, as in binary names.
pub open spec fn platform_arch_abi_spec(t: Seq<char>) -> Seq<char> {
    let base = platform_name(triple_sys(t)) + "-"@ + arch_of(triple_cpu(t))->0.name();
    match triple_abi(t) {
        Some(abi) => base + "-"@ + abi,
        None => base,
    }
}

/// A compilation target and what Node.js makes of it.
#[derive(Debug, Clone)]
pub struct Target {
    pub triple: String,
    pub platform_arch_abi: String,
    pub platform: NodePlatform,
    pub arch: NodeArch,
    pub abi: Option<String>,
}

pub open spec fn opt_string_view(o: Option<String>) -> Option<Seq<char>> {
    match o {
        Some(s) => Some(s@),
        None => None,
    }
}

/// The parts of `triple`.
fn parts_of(triple: &str) -> (r: Vec<String>)
    ensures
        views(r@) == triple_parts(triple@),
{
    proof {
        reveal_strlit("androideabi");
    }
    let n = triple.unicode_len();
    if ends_with(triple, "androideabi") {
        let mut s = triple.substring_char(0, n - 4).to_string();
        s.append("-");
        s.append(triple.substring_char(n - 4, n));
        split_char(s.as_str(), '-')
    } else {
        split_char(triple, '-')
    }
}

impl Target {
    /// Whether `Target::new` accepts `triple`.
    pub fn is_supported(triple: &str) -> (r: bool)
        ensures
            r == supported_triple(triple@),
    {
        let parts = parts_of(triple);
        proof {
            lemma_split_on_nonempty(normalized_triple(triple@), '-');
        }
        if parts.len() < 2 {
            return false;
        }
        assert(parts@[0]@ == triple_cpu(triple@));
        NodeArch::from_str(parts[0].as_str()).is_some()
    }

    /// Reads a target triple: the cpu is its first part; the system its second
    /// of two, else its third; the ABI its fourth, if any.
    pub fn new(triple: &str) -> (r: Target)
        requires
            supported_triple(triple@),
        ensures
            r.triple@ == triple@,
            Some(r.arch) == arch_of(triple_cpu(triple@)),
            r.platform.read_from(triple_sys(triple@)),
            opt_string_view(r.abi) == triple_abi(triple@),
            r.platform_arch_abi@ == platform_arch_abi_spec(triple@),
    {
        let parts = parts_of(triple);
        let ghost ps = triple_parts(triple@);
        assert(parts@[0]@ == ps[0]);
        let arch = NodeArch::from_str(parts[0].as_str()).unwrap();
        let sys_index: usize = if parts.len() == 2 {
            1
        } else {
            2
        };
        assert(parts@[sys_index as int]@ == ps[sys_index as int]);
        let platform = NodePlatform::from_str(parts[sys_index].as_str());
        let abi = if parts.len() > 3 {
            assert(parts@[3]@ == ps[3]);
            Some(parts[3].clone())
        } else {
            None
        };
        let mut platform_arch_abi = platform.to_string();
        platform_arch_abi.append("-");
        platform_arch_abi.append(arch.to_string().as_str());
        match &abi {
            Some(a) => {
                platform_arch_abi.append("-");
                platform_arch_abi.append(a.as_str());
            },
            None => {},
        }
        proof {
            match known_platform(triple_sys(triple@)) {
                Some(p) => {},
                None => {},
            }
        }
        Target { triple: triple.to_string(), platform_arch_abi, platform, arch, abi }
    }
}

impl PartialEq for Target {
    /// Targets are the same when their triples are.
    fn eq(&self, other: &Target) -> (r: bool) {
        self.triple == other.triple
    }
}

impl vstd::std_specs::cmp::PartialEqSpecImpl for Target {
    open spec fn obeys_eq_spec() -> bool {
        true
    }

    open spec fn eq_spec(&self, other: &Target) -> bool {
        self.triple@ == other.triple@
    }
}

/// A line of `rustc -vV` output, without a trailing carriage return.
pub open spec fn trim_cr(line: Seq<char>) -> Seq<char> {
    if line.len() > 0 && line.last() == '\r' {
        line.drop_last()
    } else {
        line
    }
}

/// Whether `line` starts with `host:`.
pub open spec fn is_host_line(line: Seq<char>) -> bool {
    "host:"@.len() <= line.len() && line.subrange(0, "host:"@.len() as int) == "host:"@
}

/// Whether one of `lines` starts with `host:`.
pub open spec fn has_host_line(lines: Seq<Seq<char>>) -> bool {
    exists|k: int| 0 <= k < lines.len() && is_host_line(trim_cr(#[trigger] lines[k]))
}

/// The index of the first of `lines` that starts with `host:`, if one does.
pub open spec fn first_host_line(lines: Seq<Seq<char>>) -> int {
    choose|k: int|
        0 <= k < lines.len() && is_host_line(trim_cr(#[trigger] lines[k])) && forall|j: int|
            0 <= j < k ==> !is_host_line(trim_cr(#[trigger] lines[j]))
}

/// The host triple reported in `rustc -vV` output: the second space-separated
/// word of the first line that starts with `host:`.
pub open spec fn host_triple_spec(output: Seq<char>) -> Option<Seq<char>> {
    let lines = split_on(output, '\n');
    if has_host_line(lines) {
        let words = split_on(trim_cr(lines[first_host_line(lines)]), ' ');
        if words.len() >= 2 {
            Some(words[1])
        } else {
            None
        }
    } else {
        None
    }
}

fn trim_cr_exec(line: &str) -> (r: &str)
    ensures
        r@ == trim_cr(line@),
{
    let n = line.unicode_len();
    if n > 0 && line.get_char(n - 1) == '\r' {
        let r = line.substring_char(0, n - 1);
        assert(r@ =~= line@.drop_last());
        r
    } else {
        line
    }
}

fn starts_with_host(line: &str) -> (r: bool)
    ensures
        r == is_host_line(line@),
{
    proof {
        reveal_strlit("host:");
    }
    let n = line.unicode_len();
    if n < 5 {
        return false;
    }
    text_eq(line.substring_char(0, 5), "host:")
}

/// Reads the host triple from `rustc -vV` output.
pub fn host_triple(output: &str) -> (r: Option<String>)
    ensures
        opt_string_view(r) == host_triple_spec(output@),
{
    let lines = split_char(output, '\n');
    let ghost ls = split_on(output@, '\n');
    let mut k: usize = 0;
    while k < lines.len()
        invariant
            k <= lines@.len(),
            views(lines@) == ls,
            ls == split_on(output@, '\n'),
            forall|j: int| 0 <= j < k ==> !is_host_line(trim_cr(#[trigger] ls[j])),
        decreases lines@.len() - k,
    {
        let line = trim_cr_exec(lines[k].as_str());
        assert(lines@[k as int]@ == ls[k as int]);
        if starts_with_host(line) {
            let words = split_char(line, ' ');
            proof {
                assert(line@ == trim_cr(ls[k as int]));
                assert(is_host_line(trim_cr(ls[k as int])));
                assert(0 <= k < ls.len() && is_host_line(trim_cr(ls[k as int])) && forall|j: int|
                    0 <= j < k ==> !is_host_line(trim_cr(#[trigger] ls[j])));
                let c = first_host_line(ls);
                if c < k {
                    assert(!is_host_line(trim_cr(ls[c])));
                } else if c > k {
                    assert(!is_host_line(trim_cr(ls[k as int])));
                }
                assert(c == k);
                assert(trim_cr(ls[first_host_line(ls)]) == line@);
                assert(has_host_line(ls));
            }
            if words.len() >= 2 {
                assert(words@[1]@ == split_on(line@, ' ')[1]);
                return Some(words[1].clone());
            } else {
                return None;
            }
        }
        k += 1;
    }
    None
}

} // verus!
