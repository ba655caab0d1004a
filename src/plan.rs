use vstd::prelude::*;
use crate::error::{DeployStep, ErrorKind, PipelineError};
use crate::layout::{bundle_layout, layout_spec, view_strings, BundleLayout, LayoutView};
use crate::manifest::{bundle_id, bundle_id_spec, command_spec, entries_view, manifest_entries,
    manifest_spec, EntryView, ManifestEntry};
use crate::platform::{BuildMode, Platform};
use crate::text::owned;
use crate::toolchain::{opt_view, resolve_toolchain, toolchain_spec, HostConfig, Toolchain};

verus! {

/// The pipeline stage a step belongs to.
#[derive(Clone, Copy, PartialEq, Eq, Structural, Debug)]
pub enum Stage {
    Assemble,
    Materialize,
    Compile,
    ClearManifest,
    Manifest { index: usize },
    Sign,
    Deploy { step: DeployStep },
}

/// What the host does for a step.
#[derive(Clone, Copy, PartialEq, Eq, Structural, Debug)]
pub enum Action {
    /// Create the directory `target`.
    MakeDir,
    /// Delete the file `target`.
    RemoveFile,
    /// Write the wrapper source of `payload` to `target`, replacing any file there.
    WriteFile { payload: Platform },
    /// Run the program `target` with `args` and wait for it to exit.
    Spawn,
}

/// One unit of outside work, guarded by the success of the steps before it.
pub struct Step {
    pub stage: Stage,
    pub action: Action,
    pub target: String,
    pub args: Vec<String>,
}

pub struct StepView {
    pub stage: Stage,
    pub action: Action,
    pub target: Seq<char>,
    pub args: Seq<Seq<char>>,
}

impl View for Step {
    type V = StepView;

    open spec fn view(&self) -> StepView {
        StepView { stage: self.stage, action: self.action, target: self.target@, args: view_strings(self.args@) }
    }
}

pub open spec fn steps_view(v: Seq<Step>) -> Seq<StepView> {
    v.map_values(|s: Step| s@)
}

pub open spec fn sv(stage: Stage, action: Action, target: Seq<char>, args: Seq<Seq<char>>) -> StepView {
    StepView { stage, action, target, args }
}

/// What the caller asked one run to do.
pub struct BuildRequest {
    pub platform: Platform,
    pub mode: BuildMode,
    /// Whether to launch the result once it is built.
    pub run: bool,
    /// The signing identity of release builds.
    pub signature: String,
    /// The simulator that iOS runs deploy to.
    pub simulator: String,
}

pub open spec fn sanitize_spec(mode: BuildMode) -> Seq<Seq<char>> {
    if mode == BuildMode::Debug {
        seq!["-fsanitize=undefined"@]
    } else {
        Seq::empty()
    }
}

/// The compiler arguments common to a platform, before its toolchain's own flags.
pub open spec fn compile_args_spec(p: Platform, mode: BuildMode, l: LayoutView) -> Seq<Seq<char>> {
    match p {
        Platform::MacOs => seq!["-Wall"@, "-fmodules"@, "-Wno-deprecated-declarations"@]
            + sanitize_spec(mode) + seq![l.source, "-o"@, l.executable],
        Platform::Ios => seq!["-Wall"@, l.source, "-o"@, l.executable, "-fmodules"@,
            "-Wno-deprecated-declarations"@] + sanitize_spec(mode) + seq!["-fembed-bitcode"@],
        Platform::Windows => seq![l.source, "-o"@, l.executable],
        Platform::Web => Seq::empty(),
        _ => seq!["-Wall"@, l.source, "-o"@, l.executable],
    }
}

pub open spec fn dir_steps_spec(dirs: Seq<Seq<char>>) -> Seq<StepView> {
    dirs.map_values(|d: Seq<char>| sv(Stage::Assemble, Action::MakeDir, d, Seq::empty()))
}

pub open spec fn materialize_spec(p: Platform, l: LayoutView) -> Seq<StepView> {
    seq![sv(Stage::Materialize, Action::WriteFile { payload: p }, l.source, Seq::empty())]
}

pub open spec fn compile_steps_spec(p: Platform, mode: BuildMode, l: LayoutView, tc: (Seq<char>, Seq<Seq<char>>)) -> Seq<StepView> {
    if p.spec_compiles() {
        seq![sv(Stage::Compile, Action::Spawn, tc.0, compile_args_spec(p, mode, l) + tc.1)]
    } else {
        Seq::empty()
    }
}

pub open spec fn plist_editor() -> Seq<char> {
    "/usr/libexec/PlistBuddy"@
}

pub open spec fn assertion_steps_spec(m: Seq<char>, es: Seq<EntryView>) -> Seq<StepView> {
    es.map(|i: int, e: EntryView| sv(Stage::Manifest { index: i as usize }, Action::Spawn, plist_editor(),
        seq![m, "-c"@, command_spec(e)]))
}

/// The stale descriptor is removed, then each assertion is applied in order.
pub open spec fn manifest_steps_spec(p: Platform, l: LayoutView) -> Seq<StepView> {
    match l.manifest {
        Some(m) => seq![sv(Stage::ClearManifest, Action::RemoveFile, m, Seq::empty())]
            + assertion_steps_spec(m, manifest_spec(p)),
        None => Seq::empty(),
    }
}

pub open spec fn sign_steps_spec(p: Platform, mode: BuildMode, sig: Seq<char>, l: LayoutView) -> Seq<StepView> {
    if mode == BuildMode::Release && p.spec_signs() {
        seq![sv(Stage::Sign, Action::Spawn, "codesign"@, seq!["-s"@, sig, l.bundle])]
    } else {
        Seq::empty()
    }
}

pub open spec fn deploy_steps_spec(p: Platform, run: bool, sim: Seq<char>, l: LayoutView) -> Seq<StepView> {
    if !run {
        Seq::empty()
    } else {
        match p {
            Platform::MacOs => seq![sv(Stage::Deploy { step: DeployStep::Open }, Action::Spawn, "open"@, seq![l.bundle])],
            Platform::Windows | Platform::LinuxX11 => seq![sv(Stage::Deploy { step: DeployStep::Execute },
                Action::Spawn, l.executable, Seq::empty())],
            Platform::Ios => seq![
                sv(Stage::Deploy { step: DeployStep::Boot }, Action::Spawn, "xcrun"@, seq!["simctl"@, "boot"@, sim]),
                sv(Stage::Deploy { step: DeployStep::Install }, Action::Spawn, "xcrun"@,
                    seq!["simctl"@, "install"@, sim, l.bundle]),
                sv(Stage::Deploy { step: DeployStep::Launch }, Action::Spawn, "xcrun"@,
                    seq!["simctl"@, "launch"@, sim, bundle_id_spec()]),
            ],
            _ => Seq::empty(),
        }
    }
}

/// Every step of one run, in the order they are performed.
pub open spec fn plan_spec(
    p: Platform,
    mode: BuildMode,
    run: bool,
    sig: Seq<char>,
    sim: Seq<char>,
    l: LayoutView,
    tc: (Seq<char>, Seq<Seq<char>>),
) -> Seq<StepView> {
    dir_steps_spec(l.dirs) + materialize_spec(p, l) + compile_steps_spec(p, mode, l, tc)
        + manifest_steps_spec(p, l) + sign_steps_spec(p, mode, sig, l) + deploy_steps_spec(p, run, sim, l)
}

fn push_str(v: &mut Vec<String>, s: &str)
    ensures
        view_strings(final(v)@) == view_strings(old(v)@).push(s@),
{
    v.push(owned(s));
    proof {
        assert(view_strings(final(v)@) =~= view_strings(old(v)@).push(s@));
    }
}

fn push_string(v: &mut Vec<String>, s: String)
    ensures
        view_strings(final(v)@) == view_strings(old(v)@).push(s@),
{
    v.push(s);
    proof {
        assert(view_strings(final(v)@) =~= view_strings(old(v)@).push(s@));
    }
}

fn push_step(v: &mut Vec<Step>, stage: Stage, action: Action, target: String, args: Vec<String>)
    ensures
        steps_view(final(v)@) == steps_view(old(v)@).push(sv(stage, action, target@, view_strings(args@))),
{
    let ghost a = view_strings(args@);
    v.push(Step { stage, action, target, args });
    proof {
        assert(steps_view(final(v)@) =~= steps_view(old(v)@).push(sv(stage, action, target@, a)));
    }
}

fn compile_args(p: Platform, mode: BuildMode, l: &BundleLayout, tc: &Toolchain) -> (r: Vec<String>)
    ensures
        view_strings(r@) == compile_args_spec(p, mode, l@) + tc@.1,
{
    let mut a: Vec<String> = Vec::new();
    let ghost start = view_strings(a@);
    proof {
        assert(start =~= Seq::empty());
    }
    match p {
        Platform::MacOs => {
            push_str(&mut a, "-Wall");
            push_str(&mut a, "-fmodules");
            push_str(&mut a, "-Wno-deprecated-declarations");
            if mode == BuildMode::Debug {
                push_str(&mut a, "-fsanitize=undefined");
            }
            push_string(&mut a, l.source.clone());
            push_str(&mut a, "-o");
            push_string(&mut a, l.executable.clone());
        },
        Platform::Ios => {
            push_str(&mut a, "-Wall");
            push_string(&mut a, l.source.clone());
            push_str(&mut a, "-o");
            push_string(&mut a, l.executable.clone());
            push_str(&mut a, "-fmodules");
            push_str(&mut a, "-Wno-deprecated-declarations");
            if mode == BuildMode::Debug {
                push_str(&mut a, "-fsanitize=undefined");
            }
            push_str(&mut a, "-fembed-bitcode");
        },
        Platform::Windows => {
            push_string(&mut a, l.source.clone());
            push_str(&mut a, "-o");
            push_string(&mut a, l.executable.clone());
        },
        Platform::Web => {},
        _ => {
            push_str(&mut a, "-Wall");
            push_string(&mut a, l.source.clone());
            push_str(&mut a, "-o");
            push_string(&mut a, l.executable.clone());
        },
    }
    let ghost common = view_strings(a@);
    proof {
        assert(common =~= compile_args_spec(p, mode, l@));
    }
    let mut i: usize = 0;
    while i < tc.flags.len()
        invariant
            i <= tc.flags@.len(),
            view_strings(a@) == common + view_strings(tc.flags@).take(i as int),
        decreases tc.flags@.len() - i,
    {
        push_string(&mut a, tc.flags[i].clone());
        proof {
            assert(view_strings(tc.flags@).take(i + 1) =~= view_strings(tc.flags@).take(i as int).push(tc.flags@[i as int]@));
        }
        i = i + 1;
    }
    proof {
        assert(view_strings(tc.flags@).take(i as int) =~= view_strings(tc.flags@));
    }
    a
}

fn push_dir_steps(v: &mut Vec<Step>, dirs: &Vec<String>)
    ensures
        steps_view(final(v)@) == steps_view(old(v)@) + dir_steps_spec(view_strings(dirs@)),
{
    let ghost start = steps_view(v@);
    let ghost ds = view_strings(dirs@);
    let mut i: usize = 0;
    proof {
        assert(dir_steps_spec(ds.take(0)) =~= Seq::empty());
        assert(start + Seq::empty() =~= start);
    }
    while i < dirs.len()
        invariant
            i <= dirs@.len(),
            ds == view_strings(dirs@),
            steps_view(v@) == start + dir_steps_spec(ds.take(i as int)),
        decreases dirs@.len() - i,
    {
        push_step(v, Stage::Assemble, Action::MakeDir, dirs[i].clone(), Vec::new());
        proof {
            assert(view_strings(Seq::<String>::empty()) =~= Seq::empty());
            assert(dir_steps_spec(ds.take(i + 1)) =~= dir_steps_spec(ds.take(i as int)).push(
                sv(Stage::Assemble, Action::MakeDir, dirs@[i as int]@, Seq::empty())));
        }
        i = i + 1;
    }
    proof {
        assert(ds.take(i as int) =~= ds);
    }
}

fn push_manifest_steps(v: &mut Vec<Step>, p: Platform, l: &BundleLayout)
    ensures
        steps_view(final(v)@) == steps_view(old(v)@) + manifest_steps_spec(p, l@),
{
    let ghost start = steps_view(v@);
    match &l.manifest {
        None => {
            proof {
                assert(start + Seq::empty() =~= start);
            }
        },
        Some(m) => {
            push_step(v, Stage::ClearManifest, Action::RemoveFile, m.clone(), Vec::new());
            proof {
                assert(view_strings(Seq::<String>::empty()) =~= Seq::empty());
            }
            let ghost mid = steps_view(v@);
            let es: Vec<ManifestEntry> = manifest_entries(p);
            let ghost ev = entries_view(es@);
            let mut i: usize = 0;
            proof {
                assert(assertion_steps_spec(m@, ev.take(0)) =~= Seq::empty());
                assert(mid + Seq::empty() =~= mid);
            }
            while i < es.len()
                invariant
                    i <= es@.len(),
                    ev == entries_view(es@),
                    steps_view(v@) == mid + assertion_steps_spec(m@, ev.take(i as int)),
                decreases es@.len() - i,
            {
                let mut args: Vec<String> = Vec::new();
                push_string(&mut args, m.clone());
                proof {
                    assert(view_strings(Seq::<String>::empty()) =~= Seq::empty());
                }
                push_str(&mut args, "-c");
                push_string(&mut args, es[i].command());
                push_step(v, Stage::Manifest { index: i }, Action::Spawn, owned("/usr/libexec/PlistBuddy"), args);
                proof {
                    assert(view_strings(args@) =~= seq![m@, "-c"@, command_spec(ev[i as int])]);
                    assert(assertion_steps_spec(m@, ev.take(i + 1)) =~= assertion_steps_spec(m@, ev.take(i as int)).push(
                        sv(Stage::Manifest { index: i }, Action::Spawn, plist_editor(), seq![m@, "-c"@, command_spec(ev[i as int])])));
                }
                i = i + 1;
            }
            proof {
                assert(ev.take(i as int) =~= manifest_spec(p));
                assert(steps_view(v@) =~= start + manifest_steps_spec(p, l@));
            }
        },
    }
}

fn push_deploy_steps(v: &mut Vec<Step>, req: &BuildRequest, l: &BundleLayout)
    ensures
        steps_view(final(v)@) == steps_view(old(v)@) + deploy_steps_spec(req.platform, req.run, req.simulator@, l@),
{
    let ghost start = steps_view(v@);
    let ghost e = view_strings(Seq::<String>::empty());
    proof {
        assert(e =~= Seq::empty());
    }
    if !req.run {
        proof {
            assert(start + Seq::empty() =~= start);
        }
        return;
    }
    match req.platform {
        Platform::MacOs => {
            let mut a: Vec<String> = Vec::new();
            push_string(&mut a, l.bundle.clone());
            proof {
                assert(view_strings(a@) =~= seq![l.bundle@]);
            }
            push_step(v, Stage::Deploy { step: DeployStep::Open }, Action::Spawn, owned("open"), a);
        },
        Platform::Windows | Platform::LinuxX11 => {
            push_step(v, Stage::Deploy { step: DeployStep::Execute }, Action::Spawn, l.executable.clone(), Vec::new());
        },
        Platform::Ios => {
            let mut a: Vec<String> = Vec::new();
            push_str(&mut a, "simctl");
            push_str(&mut a, "boot");
            push_string(&mut a, req.simulator.clone());
            proof {
                assert(view_strings(a@) =~= seq!["simctl"@, "boot"@, req.simulator@]);
            }
            push_step(v, Stage::Deploy { step: DeployStep::Boot }, Action::Spawn, owned("xcrun"), a);
            let mut a: Vec<String> = Vec::new();
            push_str(&mut a, "simctl");
            push_str(&mut a, "install");
            push_string(&mut a, req.simulator.clone());
            push_string(&mut a, l.bundle.clone());
            proof {
                assert(view_strings(a@) =~= seq!["simctl"@, "install"@, req.simulator@, l.bundle@]);
            }
            push_step(v, Stage::Deploy { step: DeployStep::Install }, Action::Spawn, owned("xcrun"), a);
            let mut a: Vec<String> = Vec::new();
            push_str(&mut a, "simctl");
            push_str(&mut a, "launch");
            push_string(&mut a, req.simulator.clone());
            push_string(&mut a, bundle_id());
            proof {
                assert(view_strings(a@) =~= seq!["simctl"@, "launch"@, req.simulator@, bundle_id_spec()]);
            }
            push_step(v, Stage::Deploy { step: DeployStep::Launch }, Action::Spawn, owned("xcrun"), a);
        },
        _ => {},
    }
    proof {
        assert(steps_view(v@) =~= start + deploy_steps_spec(req.platform, req.run, req.simulator@, l@));
    }
}

/// The steps of one run, given where its files go and which compiler it uses.
pub fn plan_steps(req: &BuildRequest, l: &BundleLayout, tc: &Toolchain) -> (r: Vec<Step>)
    ensures
        steps_view(r@) == plan_spec(req.platform, req.mode, req.run, req.signature@, req.simulator@, l@, tc@),
{
    let p = req.platform;
    let mut v: Vec<Step> = Vec::new();
    proof {
        assert(steps_view(v@) =~= Seq::empty());
        assert(view_strings(Seq::<String>::empty()) =~= Seq::empty());
    }
    push_dir_steps(&mut v, &l.dirs);
    let ghost s1 = steps_view(v@);
    push_step(&mut v, Stage::Materialize, Action::WriteFile { payload: p }, l.source.clone(), Vec::new());
    let ghost s2 = steps_view(v@);
    if p != Platform::Web {
        push_step(&mut v, Stage::Compile, Action::Spawn, tc.program.clone(), compile_args(p, req.mode, l, tc));
    }
    let ghost s3 = steps_view(v@);
    push_manifest_steps(&mut v, p, l);
    let ghost s4 = steps_view(v@);
    if req.mode == BuildMode::Release && p.signs() {
        let mut a: Vec<String> = Vec::new();
        push_str(&mut a, "-s");
        push_string(&mut a, req.signature.clone());
        push_string(&mut a, l.bundle.clone());
        proof {
            assert(view_strings(a@) =~= seq!["-s"@, req.signature@, l.bundle@]);
        }
        push_step(&mut v, Stage::Sign, Action::Spawn, owned("codesign"), a);
    }
    let ghost s5 = steps_view(v@);
    push_deploy_steps(&mut v, req, l);
    proof {
        let lv = l@;
        assert(s1 =~= dir_steps_spec(lv.dirs));
        assert(s2 =~= s1 + materialize_spec(p, lv));
        assert(s3 =~= s2 + compile_steps_spec(p, req.mode, lv, tc@));
        assert(s5 =~= s4 + sign_steps_spec(p, req.mode, req.signature@, lv));
        assert(steps_view(v@) =~= plan_spec(req.platform, req.mode, req.run, req.signature@, req.simulator@, lv, tc@));
    }
    v
}

/// The plan of one run rooted at the working directory `base`, or the
/// toolchain error that stops it before anything is written.
pub open spec fn prepare_spec(
    req: BuildRequest,
    base: Seq<char>,
    ndk: Option<Seq<char>>,
    arch: Seq<char>,
    abi: Seq<char>,
    sdk: Option<Seq<char>>,
) -> Result<Seq<StepView>, (ErrorKind, Seq<char>)> {
    match toolchain_spec(req.platform, req.run, ndk, arch, abi, sdk) {
        Err(e) => Err(e),
        Ok(tc) => Ok(plan_spec(req.platform, req.mode, req.run, req.signature@, req.simulator@,
            layout_spec(base, req.platform), tc)),
    }
}

/// Resolves the toolchain, then lays out the run. `sdk` is the answer of the
/// SDK locator where `sdk_query` asked for one.
pub fn prepare(req: &BuildRequest, base: &str, host: &HostConfig, sdk: Option<String>) -> (r: Result<Vec<Step>, PipelineError>)
    ensures
        match r {
            Ok(v) => prepare_spec(*req, base@, opt_view(host.ndk_home), host.host_arch@, host.android_abi@,
                opt_view(sdk)) == Ok::<Seq<StepView>, (ErrorKind, Seq<char>)>(steps_view(v@)),
            Err(e) => prepare_spec(*req, base@, opt_view(host.ndk_home), host.host_arch@, host.android_abi@,
                opt_view(sdk)) == Err::<Seq<StepView>, (ErrorKind, Seq<char>)>(e@),
        },
{
    let tc = resolve_toolchain(req.platform, req.run, host, sdk);
    match tc {
        Err(e) => Err(e),
        Ok(tc) => {
            let l = bundle_layout(base, req.platform);
            Ok(plan_steps(req, &l, &tc))
        },
    }
}

} // verus!
