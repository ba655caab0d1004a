use vstd::prelude::*;
use crate::platform::Platform;
use crate::text::{join, join_spec};

verus! {

/// The file name of the packaged application, fixed for every run.
pub open spec fn app_name() -> Seq<char> {
    "App"@
}

/// Where every file of one run is placed.
pub struct BundleLayout {
    /// The per-platform output root, `<base>/target/<platform>`.
    pub out_dir: String,
    /// Directories to create, parents first.
    pub dirs: Vec<String>,
    /// What is signed, opened or installed: the bundle root, or the executable itself.
    pub bundle: String,
    /// The file the compiler produces (for the web, the viewer document).
    pub executable: String,
    /// The descriptor file, on platforms that have one.
    pub manifest: Option<String>,
    /// The working file the wrapper source is written to.
    pub source: String,
}

pub struct LayoutView {
    pub out_dir: Seq<char>,
    pub dirs: Seq<Seq<char>>,
    pub bundle: Seq<char>,
    pub executable: Seq<char>,
    pub manifest: Option<Seq<char>>,
    pub source: Seq<char>,
}

pub open spec fn view_strings(v: Seq<String>) -> Seq<Seq<char>> {
    v.map_values(|s: String| s@)
}

impl View for BundleLayout {
    type V = LayoutView;

    open spec fn view(&self) -> LayoutView {
        LayoutView {
            out_dir: self.out_dir@,
            dirs: view_strings(self.dirs@),
            bundle: self.bundle@,
            executable: self.executable@,
            manifest: match self.manifest {
                Some(m) => Some(m@),
                None => None,
            },
            source: self.source@,
        }
    }
}

pub open spec fn out_dir_spec(base: Seq<char>, p: Platform) -> Seq<char> {
    join_spec(join_spec(base, "target"@), p.spec_name())
}

/// `<out>/App.app`, the structured bundle of the Apple platforms.
pub open spec fn app_bundle_spec(out: Seq<char>) -> Seq<char> {
    join_spec(out, app_name() + ".app"@)
}

pub open spec fn contents_spec(out: Seq<char>) -> Seq<char> {
    join_spec(app_bundle_spec(out), "Contents"@)
}

pub open spec fn layout_spec(base: Seq<char>, p: Platform) -> LayoutView {
    let target = join_spec(base, "target"@);
    let out = out_dir_spec(base, p);
    match p {
        Platform::MacOs => LayoutView {
            out_dir: out,
            dirs: seq![target, out, app_bundle_spec(out), contents_spec(out),
                join_spec(contents_spec(out), "MacOS"@)],
            bundle: app_bundle_spec(out),
            executable: join_spec(join_spec(contents_spec(out), "MacOS"@), app_name()),
            manifest: Some(join_spec(contents_spec(out), "Info.plist"@)),
            source: join_spec(out, "wrapper.m"@),
        },
        Platform::Ios => LayoutView {
            out_dir: out,
            dirs: seq![target, out, app_bundle_spec(out)],
            bundle: app_bundle_spec(out),
            executable: join_spec(app_bundle_spec(out), app_name()),
            manifest: Some(join_spec(app_bundle_spec(out), "Info.plist"@)),
            source: join_spec(out, "wrapper.m"@),
        },
        Platform::Windows => LayoutView {
            out_dir: out,
            dirs: seq![target, out],
            bundle: join_spec(out, app_name() + ".exe"@),
            executable: join_spec(out, app_name() + ".exe"@),
            manifest: None,
            source: join_spec(out, "wrapper.c"@),
        },
        Platform::Web => LayoutView {
            out_dir: out,
            dirs: seq![target, out],
            bundle: join_spec(out, app_name() + ".html"@),
            executable: join_spec(out, app_name() + ".html"@),
            manifest: None,
            source: join_spec(out, app_name() + ".html"@),
        },
        _ => LayoutView {
            out_dir: out,
            dirs: seq![target, out],
            bundle: join_spec(out, app_name()),
            executable: join_spec(out, app_name()),
            manifest: None,
            source: join_spec(out, "wrapper.c"@),
        },
    }
}

/// The on-disk hierarchy of one run, rooted at the working directory `base`.
pub fn bundle_layout(base: &str, p: Platform) -> (r: BundleLayout)
    ensures
        r@ == layout_spec(base@, p),
{
    let target = join(base, "target");
    let out = join(target.as_str(), p.name());
    let mut dirs: Vec<String> = Vec::new();
    dirs.push(target.clone());
    dirs.push(out.clone());
    let r = match p {
        Platform::MacOs | Platform::Ios => {
            let bundle = join(out.as_str(), "App.app");
            proof {
                reveal_strlit("App.app");
                reveal_strlit("App");
                reveal_strlit(".app");
                assert("App.app"@ =~= app_name() + ".app"@);
            }
            dirs.push(bundle.clone());
            let source = join(out.as_str(), "wrapper.m");
            if p == Platform::MacOs {
                let contents = join(bundle.as_str(), "Contents");
                let mac_os = join(contents.as_str(), "MacOS");
                dirs.push(contents.clone());
                dirs.push(mac_os.clone());
                BundleLayout {
                    out_dir: out,
                    dirs,
                    bundle,
                    executable: join(mac_os.as_str(), "App"),
                    manifest: Some(join(contents.as_str(), "Info.plist")),
                    source,
                }
            } else {
                BundleLayout {
                    out_dir: out,
                    dirs,
                    executable: join(bundle.as_str(), "App"),
                    manifest: Some(join(bundle.as_str(), "Info.plist")),
                    bundle,
                    source,
                }
            }
        },
        Platform::Windows => {
            proof {
                reveal_strlit("App.exe");
                reveal_strlit("App");
                reveal_strlit(".exe");
                assert("App.exe"@ =~= app_name() + ".exe"@);
            }
            let exe = join(out.as_str(), "App.exe");
            BundleLayout {
                dirs,
                bundle: exe.clone(),
                executable: exe,
                manifest: None,
                source: join(out.as_str(), "wrapper.c"),
                out_dir: out,
            }
        },
        Platform::Web => {
            proof {
                reveal_strlit("App.html");
                reveal_strlit("App");
                reveal_strlit(".html");
                assert("App.html"@ =~= app_name() + ".html"@);
            }
            let page = join(out.as_str(), "App.html");
            BundleLayout {
                dirs,
                bundle: page.clone(),
                executable: page.clone(),
                manifest: None,
                source: page,
                out_dir: out,
            }
        },
        _ => {
            let exe = join(out.as_str(), "App");
            BundleLayout {
                dirs,
                bundle: exe.clone(),
                executable: exe,
                manifest: None,
                source: join(out.as_str(), "wrapper.c"),
                out_dir: out,
            }
        },
    };
    proof {
        assert(view_strings(r.dirs@) =~= layout_spec(base@, p).dirs);
    }
    r
}

} // verus!
