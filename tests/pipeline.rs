use bundler::cli::{parse_args, CliRequest};
use bundler::driver::{judge, Outcome, Pipeline};
use bundler::error::{DeployStep, ErrorKind, PipelineError};
use bundler::layout::bundle_layout;
use bundler::manifest::{manifest_entries, Descriptor, ManifestEntry};
use bundler::plan::{prepare, Action, BuildRequest, Stage, Step};
use bundler::platform::{BuildMode, Platform};
use bundler::toolchain::{android_target, resolve_platform, resolve_toolchain, sdk_query, HostConfig};

const ALL: [Platform; 6] = [
    Platform::MacOs,
    Platform::Windows,
    Platform::LinuxX11,
    Platform::Ios,
    Platform::Android,
    Platform::Web,
];

fn host(ndk: Option<&str>) -> HostConfig {
    HostConfig {
        ndk_home: ndk.map(|s| s.to_string()),
        host_arch: "linux-x86_64".to_string(),
        android_abi: "armv7-linux-androideabi".to_string(),
    }
}

fn request(platform: Platform, mode: BuildMode, run: bool) -> BuildRequest {
    BuildRequest {
        platform,
        mode,
        run,
        signature: "SHF".to_string(),
        simulator: "iPhone SE (2nd generation)".to_string(),
    }
}

fn plan_for(platform: Platform, mode: BuildMode, run: bool) -> Vec<Step> {
    let sdk = if platform == Platform::Ios { Some("/sdk/iphone\n".to_string()) } else { None };
    prepare(&request(platform, mode, run), "/w", &host(Some("/ndk")), sdk).expect("plan")
}

fn strings(v: &[&str]) -> Vec<String> {
    v.iter().map(|s| s.to_string()).collect()
}

fn drive(steps: Vec<Step>, outcome: impl Fn(&Step) -> Outcome) -> Pipeline {
    let mut p = Pipeline::new(steps);
    while let Some(step) = p.current() {
        let o = outcome(step);
        p.record(o);
    }
    p
}

fn failed(m: &str) -> Outcome {
    Outcome::Failed { message: m.to_string() }
}

#[test]
fn debug_without_run_never_signs_or_deploys() {
    for p in ALL {
        for step in plan_for(p, BuildMode::Debug, false) {
            assert_ne!(step.stage, Stage::Sign);
            assert!(!matches!(step.stage, Stage::Deploy { .. }));
        }
    }
}

#[test]
fn release_signs_once_between_build_and_deploy() {
    for p in [Platform::MacOs, Platform::Ios] {
        let steps = plan_for(p, BuildMode::Release, true);
        let signs: Vec<usize> = (0..steps.len()).filter(|&i| steps[i].stage == Stage::Sign).collect();
        assert_eq!(signs.len(), 1);
        let k = signs[0];
        assert_eq!(steps[k].target, "codesign");
        let bundle = format!("/w/target/{}/App.app", p.name());
        assert_eq!(steps[k].args, strings(&["-s", "SHF", bundle.as_str()]));
        for (i, s) in steps.iter().enumerate() {
            if matches!(s.stage, Stage::Deploy { .. }) {
                assert!(i > k);
            } else if i != k {
                assert!(i < k);
            }
        }
    }
    for p in [Platform::Windows, Platform::LinuxX11, Platform::Android, Platform::Web] {
        assert!(plan_for(p, BuildMode::Release, true).iter().all(|s| s.stage != Stage::Sign));
    }
}

#[test]
fn release_signing_failure_is_fatal() {
    let steps = plan_for(Platform::MacOs, BuildMode::Release, true);
    let p = drive(steps, |s| if s.stage == Stage::Sign { failed("no identity") } else { Outcome::Success });
    assert_eq!(
        p.failure,
        Some(PipelineError { kind: ErrorKind::SigningFailed, detail: "no identity".to_string() })
    );
    assert!(!p.build_succeeded());
    assert_eq!(p.exit_code(), 1);
}

#[test]
fn descriptor_last_write_wins() {
    let entry = |k: &str, v: &str| ManifestEntry {
        key: k.to_string(),
        kind: "string".to_string(),
        value: v.to_string(),
        quoted: true,
    };
    let entries = vec![entry("A", "1"), entry("B", "2"), entry("A", "3")];
    let d = Descriptor::from_entries(&entries);
    assert_eq!(d.get("A"), Some("3".to_string()));
    assert_eq!(d.get("B"), Some("2".to_string()));
    assert_eq!(d.get("C"), None);
    let mut d = Descriptor::new();
    d.set("K", "x");
    d.set("K", "y");
    assert_eq!(d.get("K"), Some("y".to_string()));
}

#[test]
fn assertions_are_applied_in_declared_order() {
    let steps = plan_for(Platform::Ios, BuildMode::Debug, false);
    let entries = manifest_entries(Platform::Ios);
    assert_eq!(entries.len(), 13);
    let applied: Vec<&Step> = steps.iter().filter(|s| matches!(s.stage, Stage::Manifest { .. })).collect();
    assert_eq!(applied.len(), 13);
    for (i, s) in applied.iter().enumerate() {
        assert_eq!(s.stage, Stage::Manifest { index: i });
        assert_eq!(s.target, "/usr/libexec/PlistBuddy");
        assert_eq!(s.args[0], "/w/target/ios/App.app/Info.plist");
        assert_eq!(s.args[1], "-c");
        assert_eq!(s.args[2], entries[i].command());
    }
    assert_eq!(applied[0].args[2], "Add :CFBundleDevelopmentRegion string \"en\"");
    assert_eq!(applied[3].args[2], "Add :CFBundleIdentifier string \"io.github.shff.ge.App\"");
    assert_eq!(applied[10].args[2], "Add :LSRequiresIPhoneOS bool \"true\"");
    assert_eq!(
        applied[12].args[2],
        "Add :UISupportedInterfaceOrientations.1 string UIInterfaceOrientationLandscapeRight"
    );
    let d = Descriptor::from_entries(&entries);
    assert_eq!(d.get("CFBundleExecutable"), Some("App".to_string()));
}

#[test]
fn macos_descriptor_names_the_bundle() {
    let e = manifest_entries(Platform::MacOs);
    assert_eq!(e.len(), 2);
    assert_eq!(e[0].command(), "Add :CFBundleDisplayName string \"App\"");
    assert_eq!(e[1].command(), "Add :CFBundleIdentifier string \"io.github.shff.ge.App\"");
    assert!(manifest_entries(Platform::LinuxX11).is_empty());
}

#[test]
fn rerun_tolerates_existing_directories_and_regenerates_descriptor() {
    for p in ALL {
        let steps = plan_for(p, BuildMode::Debug, false);
        let clear = steps.iter().position(|s| s.stage == Stage::ClearManifest);
        if p == Platform::MacOs || p == Platform::Ios {
            let c = clear.expect("descriptor is removed");
            assert_eq!(steps[c].action, Action::RemoveFile);
            for (i, s) in steps.iter().enumerate() {
                if matches!(s.stage, Stage::Manifest { .. }) {
                    assert!(i > c);
                }
            }
        } else {
            assert!(clear.is_none());
        }
        let run = drive(steps, |s| match s.stage {
            Stage::Assemble => Outcome::AlreadyExists,
            Stage::ClearManifest => Outcome::Success,
            _ => Outcome::Success,
        });
        assert_eq!(run.failure, None);
        assert_eq!(run.exit_code(), 0);
    }
    let steps = plan_for(Platform::MacOs, BuildMode::Debug, false);
    let first = drive(steps, |s| if s.stage == Stage::ClearManifest { Outcome::NotFound } else { Outcome::Success });
    assert_eq!(first.exit_code(), 0);
}

#[test]
fn descriptor_removal_failure_is_a_write_error() {
    let steps = plan_for(Platform::Ios, BuildMode::Debug, false);
    let p = drive(steps, |s| if s.stage == Stage::ClearManifest { failed("denied") } else { Outcome::Success });
    assert_eq!(p.failure, Some(PipelineError { kind: ErrorKind::WriteError, detail: "denied".to_string() }));
}

#[test]
fn android_abi_remapping() {
    assert_eq!(android_target("armv7-linux-androideabi"), "armv7a-linux-androideabi");
    assert_eq!(android_target("arm-linux-androideabi"), "armv7a-linux-androideabi");
    assert_eq!(android_target("aarch64-linux-android"), "aarch64-linux-android");
    assert_eq!(android_target("x86_64-linux-android"), "x86_64-linux-android");
    assert_eq!(android_target(""), "");
}

#[test]
fn android_toolchain_joins_ndk_arch_and_target() {
    let tc = resolve_toolchain(Platform::Android, false, &host(Some("/ndk")), None).expect("toolchain");
    assert_eq!(tc.program, "/ndk/toolchains/llvm/prebuilt/linux-x86_64/bin/armv7a-linux-androideabi30-clang");
    assert_eq!(tc.flags, strings(&["-c", "-I/ndk/sources/android/native_app_glue"]));
    let mut h = host(Some("/ndk"));
    h.android_abi = "aarch64-linux-android".to_string();
    let tc = resolve_toolchain(Platform::Android, false, &h, None).expect("toolchain");
    assert_eq!(tc.program, "/ndk/toolchains/llvm/prebuilt/linux-x86_64/bin/aarch64-linux-android30-clang");
}

#[test]
fn x11_debug_run_scenario() {
    let steps = plan_for(Platform::LinuxX11, BuildMode::Debug, true);
    assert_eq!(steps.len(), 5);
    assert_eq!((steps[0].action, steps[0].target.as_str()), (Action::MakeDir, "/w/target"));
    assert_eq!((steps[1].action, steps[1].target.as_str()), (Action::MakeDir, "/w/target/x11"));
    assert_eq!(steps[2].action, Action::WriteFile { payload: Platform::LinuxX11 });
    assert_eq!(steps[2].target, "/w/target/x11/wrapper.c");
    assert_eq!(steps[3].stage, Stage::Compile);
    assert_eq!(steps[3].target, "cc");
    assert_eq!(
        steps[3].args,
        strings(&["-Wall", "/w/target/x11/wrapper.c", "-o", "/w/target/x11/App", "-lX11", "-lEGL", "-lGL", "-lasound"])
    );
    assert_eq!(steps[4].stage, Stage::Deploy { step: DeployStep::Execute });
    assert_eq!(steps[4].target, "/w/target/x11/App");
    assert!(steps[4].args.is_empty());
    let p = drive(steps, |_| Outcome::Success);
    assert!(p.build_succeeded());
    assert_eq!(p.exit_code(), 0);
}

#[test]
fn ios_install_failure_scenario() {
    let steps = plan_for(Platform::Ios, BuildMode::Debug, true);
    let n = steps.len();
    let boot = &steps[n - 3];
    assert_eq!(boot.stage, Stage::Deploy { step: DeployStep::Boot });
    assert_eq!(boot.args, strings(&["simctl", "boot", "iPhone SE (2nd generation)"]));
    assert_eq!(
        steps[n - 2].args,
        strings(&["simctl", "install", "iPhone SE (2nd generation)", "/w/target/ios/App.app"])
    );
    assert_eq!(
        steps[n - 1].args,
        strings(&["simctl", "launch", "iPhone SE (2nd generation)", "io.github.shff.ge.App"])
    );
    let p = drive(steps, |s| match s.stage {
        Stage::Deploy { step: DeployStep::Boot } => failed("Unable to boot device in current state: Booted"),
        Stage::Deploy { step: DeployStep::Install } => failed("install failed"),
        _ => Outcome::Success,
    });
    assert_eq!(
        p.failure,
        Some(PipelineError {
            kind: ErrorKind::DeployFailed { step: DeployStep::Install },
            detail: "install failed".to_string(),
        })
    );
    assert_eq!(p.next, n - 2);
    assert!(p.build_succeeded());
    assert_eq!(p.exit_code(), 1);
}

#[test]
fn android_without_ndk_fails_before_any_step() {
    let r = prepare(&request(Platform::Android, BuildMode::Debug, false), "/w", &host(None), None);
    assert_eq!(
        r.err(),
        Some(PipelineError { kind: ErrorKind::ToolchainUnresolved, detail: "ANDROID_NDK_HOME".to_string() })
    );
}

#[test]
fn unknown_selector_is_ambiguous() {
    assert_eq!(
        resolve_platform("win32"),
        Err(PipelineError { kind: ErrorKind::ToolchainAmbiguous, detail: "win32".to_string() })
    );
    for p in ALL {
        assert_eq!(resolve_platform(p.name()), Ok(p));
    }
}

#[test]
fn ios_sdk_query_and_trimmed_answer() {
    assert!(sdk_query(Platform::MacOs, true).is_none());
    let q = sdk_query(Platform::Ios, true).expect("query");
    assert_eq!(q.program, "xcrun");
    assert_eq!(q.args, strings(&["--show-sdk-path", "--sdk", "iphonesimulator"]));
    assert_eq!(sdk_query(Platform::Ios, false).expect("query").args[2], "iphoneos");
    let tc = resolve_toolchain(Platform::Ios, true, &host(None), Some("  /sdk/sim \n".to_string())).expect("tc");
    assert_eq!(tc.program, "clang");
    assert_eq!(tc.flags, strings(&["-isysroot", "/sdk/sim", "--target=x86_64-apple-ios13.0-simulator"]));
    let tc = resolve_toolchain(Platform::Ios, false, &host(None), Some("/sdk/dev".to_string())).expect("tc");
    assert_eq!(tc.flags[2], "--target=arm64-apple-ios-ios");
    assert_eq!(
        resolve_toolchain(Platform::Ios, false, &host(None), None).err(),
        Some(PipelineError { kind: ErrorKind::ToolchainQueryFailed, detail: "iphoneos".to_string() })
    );
}

#[test]
fn ios_compile_arguments() {
    let steps = plan_for(Platform::Ios, BuildMode::Debug, false);
    let c = steps.iter().find(|s| s.stage == Stage::Compile).expect("compile");
    assert_eq!(
        c.args,
        strings(&[
            "-Wall",
            "/w/target/ios/wrapper.m",
            "-o",
            "/w/target/ios/App.app/App",
            "-fmodules",
            "-Wno-deprecated-declarations",
            "-fsanitize=undefined",
            "-fembed-bitcode",
            "-isysroot",
            "/sdk/iphone",
            "--target=arm64-apple-ios-ios",
        ])
    );
}

#[test]
fn macos_release_plan() {
    let steps = plan_for(Platform::MacOs, BuildMode::Release, true);
    let dirs: Vec<&str> = steps.iter().filter(|s| s.stage == Stage::Assemble).map(|s| s.target.as_str()).collect();
    assert_eq!(
        dirs,
        vec![
            "/w/target",
            "/w/target/macos",
            "/w/target/macos/App.app",
            "/w/target/macos/App.app/Contents",
            "/w/target/macos/App.app/Contents/MacOS",
        ]
    );
    let c = steps.iter().find(|s| s.stage == Stage::Compile).expect("compile");
    assert_eq!(c.target, "clang");
    assert_eq!(
        c.args,
        strings(&[
            "-Wall",
            "-fmodules",
            "-Wno-deprecated-declarations",
            "/w/target/macos/wrapper.m",
            "-o",
            "/w/target/macos/App.app/Contents/MacOS/App",
        ])
    );
    let sign = steps.iter().find(|s| s.stage == Stage::Sign).expect("sign");
    assert_eq!(sign.args, strings(&["-s", "SHF", "/w/target/macos/App.app"]));
    let last = steps.last().expect("open");
    assert_eq!(last.stage, Stage::Deploy { step: DeployStep::Open });
    assert_eq!(last.target, "open");
    assert_eq!(last.args, strings(&["/w/target/macos/App.app"]));
}

#[test]
fn windows_and_web_plans() {
    let steps = plan_for(Platform::Windows, BuildMode::Debug, true);
    let c = steps.iter().find(|s| s.stage == Stage::Compile).expect("compile");
    assert_eq!(c.target, "clang");
    assert_eq!(c.args, strings(&["/w/target/win/wrapper.c", "-o", "/w/target/win/App.exe"]));
    assert_eq!(steps.last().expect("run").target, "/w/target/win/App.exe");

    let steps = plan_for(Platform::Web, BuildMode::Release, true);
    assert_eq!(steps.len(), 3);
    assert_eq!(steps[2].action, Action::WriteFile { payload: Platform::Web });
    assert_eq!(steps[2].target, "/w/target/web/App.html");

    let steps = plan_for(Platform::Android, BuildMode::Debug, true);
    assert!(steps.iter().all(|s| !matches!(s.stage, Stage::Deploy { .. })));
    let c = steps.iter().find(|s| s.stage == Stage::Compile).expect("compile");
    assert_eq!(
        c.args,
        strings(&[
            "-Wall",
            "/w/target/android/wrapper.c",
            "-o",
            "/w/target/android/App",
            "-c",
            "-I/ndk/sources/android/native_app_glue",
        ])
    );
}

#[test]
fn layouts_per_platform() {
    let l = bundle_layout("/b", Platform::MacOs);
    assert_eq!(l.out_dir, "/b/target/macos");
    assert_eq!(l.executable, "/b/target/macos/App.app/Contents/MacOS/App");
    assert_eq!(l.manifest.as_deref(), Some("/b/target/macos/App.app/Contents/Info.plist"));
    let l = bundle_layout("/b", Platform::Ios);
    assert_eq!(l.executable, "/b/target/ios/App.app/App");
    assert_eq!(l.manifest.as_deref(), Some("/b/target/ios/App.app/Info.plist"));
    assert_eq!(l.dirs.len(), 3);
    let l = bundle_layout("/b", Platform::Windows);
    assert_eq!(l.executable, "/b/target/win/App.exe");
    assert_eq!(l.manifest, None);
    let l = bundle_layout("/b", Platform::LinuxX11);
    assert_eq!(l.executable, "/b/target/x11/App");
    let l = bundle_layout("/b", Platform::Android);
    assert_eq!(l.executable, "/b/target/android/App");
    assert_eq!(l.source, "/b/target/android/wrapper.c");
    let l = bundle_layout("/b", Platform::Web);
    assert_eq!(l.executable, "/b/target/web/App.html");
}

#[test]
fn each_stage_reports_its_error() {
    let cases = [
        (Platform::LinuxX11, Stage::Assemble, ErrorKind::AssemblyFailed),
        (Platform::LinuxX11, Stage::Materialize, ErrorKind::WriteError),
        (Platform::LinuxX11, Stage::Compile, ErrorKind::CompileFailed),
        (Platform::Ios, Stage::Manifest { index: 4 }, ErrorKind::ManifestWriteFailed { index: 4 }),
        (Platform::MacOs, Stage::Deploy { step: DeployStep::Open }, ErrorKind::DeployFailed { step: DeployStep::Open }),
        (Platform::LinuxX11, Stage::Deploy { step: DeployStep::Execute }, ErrorKind::DeployFailed { step: DeployStep::Execute }),
        (Platform::Ios, Stage::Deploy { step: DeployStep::Launch }, ErrorKind::DeployFailed { step: DeployStep::Launch }),
    ];
    for (platform, stage, kind) in cases {
        let steps = plan_for(platform, BuildMode::Debug, true);
        let p = drive(steps, |s| if s.stage == stage { failed("boom") } else { Outcome::Success });
        assert_eq!(p.failure, Some(PipelineError { kind, detail: "boom".to_string() }));
        assert_eq!(p.exit_code(), 1);
        assert_eq!(p.build_succeeded(), matches!(stage, Stage::Deploy { .. }));
    }
}

#[test]
fn unexpected_existing_file_is_reported_with_its_path() {
    let steps = plan_for(Platform::LinuxX11, BuildMode::Debug, false);
    let e = judge(&steps[2], &Outcome::AlreadyExists).expect("error");
    assert_eq!(e, PipelineError { kind: ErrorKind::WriteError, detail: "/w/target/x11/wrapper.c".to_string() });
    assert_eq!(judge(&steps[0], &Outcome::AlreadyExists), None);
    assert_eq!(judge(&steps[0], &Outcome::NotFound).map(|e| e.kind), Some(ErrorKind::AssemblyFailed));
}

#[test]
fn no_step_runs_after_an_abort() {
    let steps = plan_for(Platform::LinuxX11, BuildMode::Debug, true);
    let mut p = Pipeline::new(steps);
    p.record(Outcome::Success);
    p.record(failed("denied"));
    assert!(p.finished());
    assert!(p.current().is_none());
    assert_eq!(p.next, 1);
    assert_eq!(p.failure.as_ref().map(|e| e.kind), Some(ErrorKind::AssemblyFailed));
}

fn args(v: &[&str]) -> Vec<String> {
    strings(v)
}

#[test]
fn parse_defaults_and_flags() {
    match parse_args(&args(&[]), "x11") {
        CliRequest::Build(o) => {
            assert!(!o.run);
            assert_eq!(o.mode, BuildMode::Debug);
            assert_eq!(o.platform, "x11");
            assert_eq!(o.signature, "SHF");
            assert_eq!(o.simulator, "iPhone SE (2nd generation)");
            assert!(o.unknown.is_empty());
        }
        _ => panic!("expected a build"),
    }
    match parse_args(&args(&["ios", "run", "--release", "--simulator", "iPad", "--signature", "Me", "bogus"]), "x11") {
        CliRequest::Build(o) => {
            assert!(o.run);
            assert_eq!(o.mode, BuildMode::Release);
            assert_eq!(o.platform, "ios");
            assert_eq!(o.simulator, "iPad");
            assert_eq!(o.signature, "Me");
            assert_eq!(o.unknown, args(&["bogus"]));
        }
        _ => panic!("expected a build"),
    }
}

#[test]
fn parse_info_and_missing_values() {
    assert!(matches!(parse_args(&args(&["run", "--help"]), "x11"), CliRequest::Info));
    assert!(matches!(parse_args(&args(&["-v"]), "x11"), CliRequest::Info));
    match parse_args(&args(&["--simulator"]), "x11") {
        CliRequest::MissingValue(f) => assert_eq!(f, "--simulator"),
        _ => panic!("expected a missing value"),
    }
    match parse_args(&args(&["--signature"]), "x11") {
        CliRequest::MissingValue(f) => assert_eq!(f, "--signature"),
        _ => panic!("expected a missing value"),
    }
}
