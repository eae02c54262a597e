//! The build configuration: target architectures and operating systems, the
//! archive format, and the build tool invoked for each target.
use vstd::prelude::*;
use vstd::string::*;
use crate::text::{lower_of, lowercase, same_text};

verus! {

/// A target architecture.
#[derive(Clone, Copy, Debug, PartialEq, Eq, Structural)]
pub enum Arch {
    Amd64,
    Arm,
    Arm64,
}

/// A target operating system.
#[derive(Clone, Copy, Debug, PartialEq, Eq, Structural)]
pub enum Os {
    AppleDarwin,
    UnknownLinuxGnu,
}

/// The canonical token of an architecture, as it appears in file names and
/// toolchain triples.
pub open spec fn arch_token(a: Arch) -> Seq<char> {
    match a {
        Arch::Amd64 => "x86_64"@,
        Arch::Arm => "arm"@,
        Arch::Arm64 => "aarch64"@,
    }
}

/// The canonical token of an operating system.
pub open spec fn os_token(o: Os) -> Seq<char> {
    match o {
        Os::AppleDarwin => "apple-darwin"@,
        Os::UnknownLinuxGnu => "unknown-linux-gnu"@,
    }
}

/// The architecture that a lower-case configuration spelling stands for.
pub open spec fn arch_named(s: Seq<char>) -> Option<Arch> {
    if s == "amd64"@ || s == "x86_64"@ {
        Some(Arch::Amd64)
    } else if s == "arm"@ {
        Some(Arch::Arm)
    } else if s == "arm64"@ || s == "aarch64"@ {
        Some(Arch::Arm64)
    } else {
        None
    }
}

/// The operating system that a lower-case configuration spelling stands for.
pub open spec fn os_named(s: Seq<char>) -> Option<Os> {
    if s == "apple-darwin"@ || s == "darwin"@ || s == "macos"@ {
        Some(Os::AppleDarwin)
    } else if s == "unknown-linux-gnu"@ || s == "linux"@ {
        Some(Os::UnknownLinuxGnu)
    } else {
        None
    }
}

impl Arch {
    /// The canonical token (`x86_64`, `arm`, `aarch64`).
    pub fn to_string(&self) -> (r: String)
        ensures
            r@ == arch_token(*self),
    {
        match self {
            Arch::Amd64 => String::from_str("x86_64"),
            Arch::Arm => String::from_str("arm"),
            Arch::Arm64 => String::from_str("aarch64"),
        }
    }

    /// Reads an already lower-cased spelling; aliases map to one variant.
    pub fn from_lowercase(s: &str) -> (r: Option<Arch>)
        ensures
            r == arch_named(s@),
    {
        if same_text(s, "amd64") || same_text(s, "x86_64") {
            Some(Arch::Amd64)
        } else if same_text(s, "arm") {
            Some(Arch::Arm)
        } else if same_text(s, "arm64") || same_text(s, "aarch64") {
            Some(Arch::Arm64)
        } else {
            None
        }
    }

    /// Reads a configuration spelling in any letter case.
    pub fn parse(s: &str) -> (r: Option<Arch>)
        ensures
            r == arch_named(lower_of(s@)),
    {
        let lower = lowercase(s);
        Arch::from_lowercase(lower.as_str())
    }
}

impl Os {
    /// The canonical token (`apple-darwin`, `unknown-linux-gnu`).
    pub fn to_string(&self) -> (r: String)
        ensures
            r@ == os_token(*self),
    {
        match self {
            Os::AppleDarwin => String::from_str("apple-darwin"),
            Os::UnknownLinuxGnu => String::from_str("unknown-linux-gnu"),
        }
    }

    /// Reads an already lower-cased spelling; aliases map to one variant.
    pub fn from_lowercase(s: &str) -> (r: Option<Os>)
        ensures
            r == os_named(s@),
    {
        if same_text(s, "apple-darwin") || same_text(s, "darwin") || same_text(s, "macos") {
            Some(Os::AppleDarwin)
        } else if same_text(s, "unknown-linux-gnu") || same_text(s, "linux") {
            Some(Os::UnknownLinuxGnu)
        } else {
            None
        }
    }

    /// Reads a configuration spelling in any letter case.
    pub fn parse(s: &str) -> (r: Option<Os>)
        ensures
            r == os_named(lower_of(s@)),
    {
        let lower = lowercase(s);
        Os::from_lowercase(lower.as_str())
    }
}

/// The archive format of packaged binaries.
#[derive(Clone, Copy, Debug, PartialEq, Eq, Structural)]
pub enum Compression {
    TarGz,
}

/// The file extension of an archive format.
pub open spec fn extension_of(c: Compression) -> Seq<char> {
    match c {
        Compression::TarGz => "tar.gz"@,
    }
}

impl Compression {
    /// The file extension, without the leading dot.
    pub fn extension(&self) -> (r: &'static str)
        ensures
            r@ == extension_of(*self),
    {
        match self {
            Compression::TarGz => "tar.gz",
        }
    }
}

/// The tool that compiles the binaries.
#[derive(Clone, Copy, Debug, PartialEq, Eq, Structural)]
pub enum Tool {
    Cargo,
    Cross,
}

/// The program name of a build tool.
pub open spec fn tool_program(t: Tool) -> Seq<char> {
    match t {
        Tool::Cargo => "cargo"@,
        Tool::Cross => "cross"@,
    }
}

/// What to build and how to package it.
#[derive(Clone, Debug)]
pub struct Build {
    pub arch: Option<Vec<Arch>>,
    pub os: Option<Vec<Os>>,
    pub binary: String,
    pub compression: Compression,
    pub tool: Tool,
}

/// The number of configured values on an axis (none configured counts as zero).
pub open spec fn axis_len<T>(axis: Option<Vec<T>>) -> nat {
    match axis {
        Some(v) => v@.len(),
        None => 0,
    }
}

/// The configured values on an axis, empty when none are configured.
pub open spec fn axis_values<T>(axis: Option<Vec<T>>) -> Seq<T> {
    match axis {
        Some(v) => v@,
        None => Seq::empty(),
    }
}

impl Build {
    /// Whether at least one architecture or operating system is configured.
    pub fn is_multi_target(&self) -> (r: bool)
        ensures
            r == (axis_len(self.arch) > 0 || axis_len(self.os) > 0),
    {
        self.is_multi_arch() || self.is_multi_os()
    }

    /// Whether at least one architecture is configured.
    pub fn is_multi_arch(&self) -> (r: bool)
        ensures
            r == (axis_len(self.arch) > 0),
    {
        match &self.arch {
            Some(archs) => archs.len() > 0,
            None => false,
        }
    }

    /// Whether at least one operating system is configured.
    pub fn is_multi_os(&self) -> (r: bool)
        ensures
            r == (axis_len(self.os) > 0),
    {
        match &self.os {
            Some(oss) => oss.len() > 0,
            None => false,
        }
    }
}

/// The toolchain triple of a target: `{arch}-{os}`.
pub open spec fn toolchain_of(os: Os, arch: Arch) -> Seq<char> {
    arch_token(arch) + seq!['-'] + os_token(os)
}

/// The toolchain triple of a target, such as `x86_64-unknown-linux-gnu`.
pub fn os_arch_to_toolchain(os: &Os, arch: &Arch) -> (r: String)
    ensures
        r@ == toolchain_of(*os, *arch),
{
    let mut r = arch.to_string();
    r.append("-");
    proof { reveal_strlit("-"); }
    let o = os.to_string();
    r.append(o.as_str());
    r
}

/// A command line: the program and its arguments.
#[derive(Clone, Debug)]
pub struct BuildCommand {
    pub program: String,
    pub args: Vec<String>,
}

/// The command that compiles a release binary for one target:
/// `{tool} build --release --target {triple}`.
pub fn build_command(build: &Build, arch: &Arch, os: &Os) -> (r: BuildCommand)
    ensures
        r.program@ == tool_program(build.tool),
        r.args@.len() == 4,
        r.args@[0]@ == "build"@,
        r.args@[1]@ == "--release"@,
        r.args@[2]@ == "--target"@,
        r.args@[3]@ == toolchain_of(*os, *arch),
{
    let program = match build.tool {
        Tool::Cargo => String::from_str("cargo"),
        Tool::Cross => String::from_str("cross"),
    };
    let mut args: Vec<String> = Vec::new();
    args.push(String::from_str("build"));
    args.push(String::from_str("--release"));
    args.push(String::from_str("--target"));
    args.push(os_arch_to_toolchain(os, arch));
    BuildCommand { program, args }
}

/// Who commits generated files.
#[derive(Clone, Debug)]
pub struct Committer {
    pub author: String,
    pub email: String,
}

impl Default for Committer {
    fn default() -> (r: Committer)
        ensures
            r.author@ == "rust-releaser"@,
            r.email@ == "rust-releaser@github.com"@,
    {
        Committer {
            author: String::from_str("rust-releaser"),
            email: String::from_str("rust-releaser@github.com"),
        }
    }
}

} // verus!
