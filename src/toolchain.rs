use vstd::prelude::*;
use crate::error::{ErrorKind, PipelineError};
use crate::layout::view_strings;
use crate::platform::Platform;
use crate::text::{cat, owned, same};

verus! {

/// What `str::trim` leaves of a string.
pub uninterp spec fn trimmed(s: Seq<char>) -> Seq<char>;

/// Relies on `str::trim`: the answer of the SDK locator without its
/// surrounding whitespace; the result depends on the characters alone.
#[verifier::external_body]
fn trim(s: &str) -> (r: String)
    ensures
        r@ == trimmed(s@),
{
    s.trim().to_string()
}

/// An external program and its arguments.
pub struct Invocation {
    pub program: String,
    pub args: Vec<String>,
}

impl View for Invocation {
    type V = (Seq<char>, Seq<Seq<char>>);

    open spec fn view(&self) -> (Seq<char>, Seq<Seq<char>>) {
        (self.program@, view_strings(self.args@))
    }
}

/// A resolved compiler and the flags it needs beyond the common ones.
pub struct Toolchain {
    pub program: String,
    pub flags: Vec<String>,
}

impl View for Toolchain {
    type V = (Seq<char>, Seq<Seq<char>>);

    open spec fn view(&self) -> (Seq<char>, Seq<Seq<char>>) {
        (self.program@, view_strings(self.flags@))
    }
}

/// The state of the host that toolchain resolution reads.
pub struct HostConfig {
    /// The value of `ANDROID_NDK_HOME`, when it is set.
    pub ndk_home: Option<String>,
    /// The prebuilt-toolchain directory of the host, such as `linux-x86_64`.
    pub host_arch: String,
    /// The Android ABI to build for, before remapping.
    pub android_abi: String,
}

/// The environment variable that holds the NDK root.
pub open spec fn ndk_variable() -> Seq<char> {
    "ANDROID_NDK_HOME"@
}

/// The Android API level appended to the compiler's target triple.
pub open spec fn android_api_level() -> Seq<char> {
    "30"@
}

/// The two legacy 32-bit ARM spellings name one toolchain target; every other
/// ABI is its own target.
pub open spec fn android_target_spec(abi: Seq<char>) -> Seq<char> {
    if abi == "armv7-linux-androideabi"@ || abi == "arm-linux-androideabi"@ {
        "armv7a-linux-androideabi"@
    } else {
        abi
    }
}

pub fn android_target(abi: &str) -> (r: String)
    ensures
        r@ == android_target_spec(abi@),
{
    if same(abi, "armv7-linux-androideabi") || same(abi, "arm-linux-androideabi") {
        owned("armv7a-linux-androideabi")
    } else {
        owned(abi)
    }
}

/// `<ndk>/toolchains/llvm/prebuilt/<arch>/bin/<target><api>-clang`
pub open spec fn android_compiler_spec(ndk: Seq<char>, arch: Seq<char>, abi: Seq<char>) -> Seq<char> {
    ndk + "/toolchains/llvm/prebuilt/"@ + arch + "/bin/"@ + android_target_spec(abi)
        + android_api_level() + "-clang"@
}

/// `-I<ndk>/sources/android/native_app_glue`
pub open spec fn android_glue_flag_spec(ndk: Seq<char>) -> Seq<char> {
    "-I"@ + ndk + "/sources/android/native_app_glue"@
}

/// The SDK the Apple device or simulator build compiles against.
pub open spec fn ios_sdk_spec(run: bool) -> Seq<char> {
    if run {
        "iphonesimulator"@
    } else {
        "iphoneos"@
    }
}

pub open spec fn ios_target_spec(run: bool) -> Seq<char> {
    if run {
        "--target=x86_64-apple-ios13.0-simulator"@
    } else {
        "--target=arm64-apple-ios-ios"@
    }
}

/// The SDK locator call a platform needs before its toolchain resolves.
pub open spec fn sdk_query_spec(p: Platform, run: bool) -> Option<(Seq<char>, Seq<Seq<char>>)> {
    if p == Platform::Ios {
        Some(("xcrun"@, seq!["--show-sdk-path"@, "--sdk"@, ios_sdk_spec(run)]))
    } else {
        None
    }
}

fn ios_sdk(run: bool) -> (r: String)
    ensures
        r@ == ios_sdk_spec(run),
{
    if run {
        owned("iphonesimulator")
    } else {
        owned("iphoneos")
    }
}

pub fn sdk_query(p: Platform, run: bool) -> (r: Option<Invocation>)
    ensures
        match r {
            Some(i) => sdk_query_spec(p, run) == Some(i@),
            None => sdk_query_spec(p, run).is_none(),
        },
{
    if p == Platform::Ios {
        let mut args: Vec<String> = Vec::new();
        args.push(owned("--show-sdk-path"));
        args.push(owned("--sdk"));
        args.push(ios_sdk(run));
        let r = Invocation { program: owned("xcrun"), args };
        proof {
            assert(view_strings(r.args@) =~= seq!["--show-sdk-path"@, "--sdk"@, ios_sdk_spec(run)]);
        }
        Some(r)
    } else {
        None
    }
}

/// The toolchain of a platform, or the stage error and its detail.
/// `sdk` is the raw answer of the SDK locator, absent when it was not asked
/// or when it failed.
pub open spec fn toolchain_spec(
    p: Platform,
    run: bool,
    ndk: Option<Seq<char>>,
    arch: Seq<char>,
    abi: Seq<char>,
    sdk: Option<Seq<char>>,
) -> Result<(Seq<char>, Seq<Seq<char>>), (ErrorKind, Seq<char>)> {
    match p {
        Platform::Android => match ndk {
            None => Err((ErrorKind::ToolchainUnresolved, ndk_variable())),
            Some(n) => Ok((android_compiler_spec(n, arch, abi), seq!["-c"@, android_glue_flag_spec(n)])),
        },
        Platform::Ios => match sdk {
            None => Err((ErrorKind::ToolchainQueryFailed, ios_sdk_spec(run))),
            Some(s) => Ok(("clang"@, seq!["-isysroot"@, trimmed(s), ios_target_spec(run)])),
        },
        Platform::LinuxX11 => Ok(("cc"@, seq!["-lX11"@, "-lEGL"@, "-lGL"@, "-lasound"@])),
        Platform::Web => Ok((Seq::empty(), Seq::empty())),
        _ => Ok(("clang"@, Seq::empty())),
    }
}

pub open spec fn opt_view(o: Option<String>) -> Option<Seq<char>> {
    match o {
        Some(s) => Some(s@),
        None => None,
    }
}

pub open spec fn result_view<T: View>(r: Result<T, PipelineError>) -> Result<T::V, (ErrorKind, Seq<char>)> {
    match r {
        Ok(t) => Ok(t@),
        Err(e) => Err(e@),
    }
}

fn android_toolchain(ndk: &str, host: &HostConfig) -> (r: Toolchain)
    ensures
        r@ == (android_compiler_spec(ndk@, host.host_arch@, host.android_abi@),
            seq!["-c"@, android_glue_flag_spec(ndk@)]),
{
    let target = android_target(host.android_abi.as_str());
    let program = cat(ndk, "/toolchains/llvm/prebuilt/");
    let program = program.concat(host.host_arch.as_str());
    let program = program.concat("/bin/");
    let program = program.concat(target.as_str());
    let program = program.concat("30");
    let program = program.concat("-clang");
    let glue = cat("-I", ndk);
    let glue = glue.concat("/sources/android/native_app_glue");
    let mut flags: Vec<String> = Vec::new();
    flags.push(owned("-c"));
    flags.push(glue);
    let r = Toolchain { program, flags };
    proof {
        assert(view_strings(r.flags@) =~= seq!["-c"@, android_glue_flag_spec(ndk@)]);
    }
    r
}

/// Resolves the compiler of a platform. Fails before any file is touched when
/// the NDK root is unknown (Android) or the SDK locator gave no answer (iOS).
pub fn resolve_toolchain(p: Platform, run: bool, host: &HostConfig, sdk: Option<String>) -> (r: Result<Toolchain, PipelineError>)
    ensures
        result_view(r) == toolchain_spec(p, run, opt_view(host.ndk_home), host.host_arch@,
            host.android_abi@, opt_view(sdk)),
{
    match p {
        Platform::Android => match &host.ndk_home {
            None => Err(PipelineError::new(ErrorKind::ToolchainUnresolved, owned("ANDROID_NDK_HOME"))),
            Some(n) => Ok(android_toolchain(n.as_str(), host)),
        },
        Platform::Ios => match sdk {
            None => Err(PipelineError::new(ErrorKind::ToolchainQueryFailed, ios_sdk(run))),
            Some(s) => {
                let mut flags: Vec<String> = Vec::new();
                flags.push(owned("-isysroot"));
                flags.push(trim(s.as_str()));
                if run {
                    flags.push(owned("--target=x86_64-apple-ios13.0-simulator"));
                } else {
                    flags.push(owned("--target=arm64-apple-ios-ios"));
                }
                let r = Toolchain { program: owned("clang"), flags };
                proof {
                    assert(view_strings(r.flags@) =~= seq!["-isysroot"@, trimmed(s@), ios_target_spec(run)]);
                }
                Ok(r)
            },
        },
        Platform::LinuxX11 => {
            let mut flags: Vec<String> = Vec::new();
            flags.push(owned("-lX11"));
            flags.push(owned("-lEGL"));
            flags.push(owned("-lGL"));
            flags.push(owned("-lasound"));
            let r = Toolchain { program: owned("cc"), flags };
            proof {
                assert(view_strings(r.flags@) =~= seq!["-lX11"@, "-lEGL"@, "-lGL"@, "-lasound"@]);
            }
            Ok(r)
        },
        Platform::Web => {
            let r = Toolchain { program: String::new(), flags: Vec::new() };
            proof {
                assert(view_strings(r.flags@) =~= Seq::empty());
            }
            Ok(r)
        },
        _ => {
            let r = Toolchain { program: owned("clang"), flags: Vec::new() };
            proof {
                assert(view_strings(r.flags@) =~= Seq::empty());
            }
            Ok(r)
        },
    }
}

/// The platform a selector names, or `ToolchainAmbiguous` with the selector.
pub fn resolve_platform(name: &str) -> (r: Result<Platform, PipelineError>)
    ensures
        match r {
            Ok(p) => Platform::spec_from_name(name@) == Some(p),
            Err(e) => Platform::spec_from_name(name@).is_none() && e@ == (ErrorKind::ToolchainAmbiguous, name@),
        },
{
    match Platform::from_name(name) {
        Some(p) => Ok(p),
        None => Err(PipelineError::new(ErrorKind::ToolchainAmbiguous, owned(name))),
    }
}

} // verus!
