use vstd::prelude::*;
use crate::layout::view_strings;
use crate::platform::{BuildMode, Platform};
use crate::text::{owned, same};

verus! {

/// The settings a command line selects.
pub struct CliOptions {
    pub run: bool,
    pub mode: BuildMode,
    /// The platform selector, still to be resolved.
    pub platform: String,
    pub signature: String,
    pub simulator: String,
    /// Arguments that were not understood, in order; they are reported and skipped.
    pub unknown: Vec<String>,
}

pub struct OptionsView {
    pub run: bool,
    pub mode: BuildMode,
    pub platform: Seq<char>,
    pub signature: Seq<char>,
    pub simulator: Seq<char>,
    pub unknown: Seq<Seq<char>>,
}

impl View for CliOptions {
    type V = OptionsView;

    open spec fn view(&self) -> OptionsView {
        OptionsView {
            run: self.run,
            mode: self.mode,
            platform: self.platform@,
            signature: self.signature@,
            simulator: self.simulator@,
            unknown: view_strings(self.unknown@),
        }
    }
}

/// What a command line asks for.
pub enum CliRequest {
    Build(CliOptions),
    /// Print the name and version, and do nothing else.
    Info,
    /// The named flag came last, without the value it needs.
    MissingValue(String),
}

pub enum CliRequestView {
    Build(OptionsView),
    Info,
    MissingValue(Seq<char>),
}

impl View for CliRequest {
    type V = CliRequestView;

    open spec fn view(&self) -> CliRequestView {
        match self {
            CliRequest::Build(o) => CliRequestView::Build(o@),
            CliRequest::Info => CliRequestView::Info,
            CliRequest::MissingValue(f) => CliRequestView::MissingValue(f@),
        }
    }
}

pub open spec fn defaults_spec(platform: Seq<char>) -> OptionsView {
    OptionsView {
        run: false,
        mode: BuildMode::Debug,
        platform,
        signature: "SHF"@,
        simulator: "iPhone SE (2nd generation)"@,
        unknown: Seq::empty(),
    }
}

pub open spec fn is_info_flag(a: Seq<char>) -> bool {
    a == "-h"@ || a == "--help"@ || a == "-v"@ || a == "--version"@
}

/// Reads the arguments from position `i` on, over the settings read so far.
pub open spec fn scan_spec(args: Seq<Seq<char>>, i: int, st: OptionsView) -> CliRequestView
    decreases args.len() - i,
{
    if i < 0 || i >= args.len() {
        CliRequestView::Build(st)
    } else {
        let a = args[i];
        if a == "run"@ {
            scan_spec(args, i + 1, OptionsView { run: true, ..st })
        } else if Platform::spec_from_name(a).is_some() {
            scan_spec(args, i + 1, OptionsView { platform: a, ..st })
        } else if a == "--release"@ {
            scan_spec(args, i + 1, OptionsView { mode: BuildMode::Release, ..st })
        } else if a == "--simulator"@ {
            if i + 1 < args.len() {
                scan_spec(args, i + 2, OptionsView { simulator: args[i + 1], ..st })
            } else {
                CliRequestView::MissingValue(a)
            }
        } else if a == "--signature"@ {
            if i + 1 < args.len() {
                scan_spec(args, i + 2, OptionsView { signature: args[i + 1], ..st })
            } else {
                CliRequestView::MissingValue(a)
            }
        } else if is_info_flag(a) {
            CliRequestView::Info
        } else {
            scan_spec(args, i + 1, OptionsView { unknown: st.unknown.push(a), ..st })
        }
    }
}

/// Reads a command line (without the program name). `default_platform` is
/// the selector used when none is given.
pub fn parse_args(args: &Vec<String>, default_platform: &str) -> (r: CliRequest)
    ensures
        r@ == scan_spec(view_strings(args@), 0, defaults_spec(default_platform@)),
{
    let ghost all = view_strings(args@);
    let mut o = CliOptions {
        run: false,
        mode: BuildMode::Debug,
        platform: owned(default_platform),
        signature: owned("SHF"),
        simulator: owned("iPhone SE (2nd generation)"),
        unknown: Vec::new(),
    };
    proof {
        assert(o@ =~= defaults_spec(default_platform@)) by {
            assert(view_strings(o.unknown@) =~= Seq::empty());
        }
    }
    let mut i: usize = 0;
    while i < args.len()
        invariant
            i <= args@.len(),
            all == view_strings(args@),
            scan_spec(all, 0, defaults_spec(default_platform@)) == scan_spec(all, i as int, o@),
        decreases args@.len() - i,
    {
        let a = args[i].as_str();
        let ghost st = o@;
        if same(a, "run") {
            o.run = true;
            i = i + 1;
        } else if Platform::from_name(a).is_some() {
            o.platform = owned(a);
            i = i + 1;
        } else if same(a, "--release") {
            o.mode = BuildMode::Release;
            i = i + 1;
        } else if same(a, "--simulator") {
            if i + 1 < args.len() {
                o.simulator = args[i + 1].clone();
                i = i + 2;
            } else {
                return CliRequest::MissingValue(owned(a));
            }
        } else if same(a, "--signature") {
            if i + 1 < args.len() {
                o.signature = args[i + 1].clone();
                i = i + 2;
            } else {
                return CliRequest::MissingValue(owned(a));
            }
        } else if same(a, "-h") || same(a, "--help") || same(a, "-v") || same(a, "--version") {
            return CliRequest::Info;
        } else {
            o.unknown.push(owned(a));
            proof {
                assert(view_strings(o.unknown@) =~= st.unknown.push(a@));
                assert(o@ =~= OptionsView { unknown: st.unknown.push(a@), ..st });
            }
            i = i + 1;
        }
        proof {
            assert(o@.unknown =~= view_strings(o.unknown@));
        }
    }
    CliRequest::Build(o)
}

} // verus!
