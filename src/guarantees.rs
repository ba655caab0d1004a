use vstd::prelude::*;
use crate::driver::{judge_spec, OutcomeView};
use crate::layout::LayoutView;
use crate::plan::{
    assertion_steps_spec, compile_steps_spec, deploy_steps_spec, dir_steps_spec, manifest_steps_spec,
    materialize_spec, plan_spec, sign_steps_spec, sv, Action, Stage,
};
use crate::platform::{BuildMode, Platform};
use crate::manifest::manifest_spec;

verus! {

/// A debug build that is not asked to run never reaches the signer or the
/// deployer, on any platform.
pub proof fn lemma_debug_build_neither_signs_nor_deploys(
    p: Platform,
    sig: Seq<char>,
    sim: Seq<char>,
    l: LayoutView,
    tc: (Seq<char>, Seq<Seq<char>>),
)
    ensures
        forall|i: int| 0 <= i < plan_spec(p, BuildMode::Debug, false, sig, sim, l, tc).len() ==> {
            let s = #[trigger] plan_spec(p, BuildMode::Debug, false, sig, sim, l, tc)[i].stage;
            s != Stage::Sign && !(s is Deploy)
        },
{
    let plan = plan_spec(p, BuildMode::Debug, false, sig, sim, l, tc);
    let a = dir_steps_spec(l.dirs) + materialize_spec(p, l) + compile_steps_spec(p, BuildMode::Debug, l, tc);
    let m = manifest_steps_spec(p, l);
    assert(sign_steps_spec(p, BuildMode::Debug, sig, l) =~= Seq::empty());
    assert(deploy_steps_spec(p, false, sim, l) =~= Seq::empty());
    assert(plan =~= a + m);
    assert forall|i: int| 0 <= i < plan.len() implies {
        let s = #[trigger] plan[i].stage;
        s != Stage::Sign && !(s is Deploy)
    } by {
        if i < a.len() {
            assert(plan[i] == a[i]);
        } else {
            assert(plan[i] == m[i - a.len()]);
            if let Some(f) = l.manifest {
                let es = manifest_spec(p);
                let tail = assertion_steps_spec(f, es);
                if i - a.len() >= 1 {
                    assert(m[i - a.len()] == tail[i - a.len() - 1]);
                }
            }
        }
    }
}

/// A release build of a signing platform invokes the signer exactly once, at
/// the returned position: after every step that builds the bundle and before
/// every deployment step.
pub proof fn lemma_release_signs_once(
    p: Platform,
    run: bool,
    sig: Seq<char>,
    sim: Seq<char>,
    l: LayoutView,
    tc: (Seq<char>, Seq<Seq<char>>),
) -> (k: int)
    requires
        p.spec_signs(),
    ensures
        0 <= k < plan_spec(p, BuildMode::Release, run, sig, sim, l, tc).len(),
        plan_spec(p, BuildMode::Release, run, sig, sim, l, tc)[k].stage == Stage::Sign,
        forall|i: int| 0 <= i < plan_spec(p, BuildMode::Release, run, sig, sim, l, tc).len() && i != k ==> {
            let s = #[trigger] plan_spec(p, BuildMode::Release, run, sig, sim, l, tc)[i].stage;
            &&& s != Stage::Sign
            &&& (s is Deploy) ==> k < i
            &&& !(s is Deploy) ==> i < k
        },
{
    let plan = plan_spec(p, BuildMode::Release, run, sig, sim, l, tc);
    let a = dir_steps_spec(l.dirs) + materialize_spec(p, l) + compile_steps_spec(p, BuildMode::Release, l, tc);
    let m = manifest_steps_spec(p, l);
    let g = sign_steps_spec(p, BuildMode::Release, sig, l);
    let d = deploy_steps_spec(p, run, sim, l);
    assert(plan =~= (a + m) + g + d);
    assert(g.len() == 1);
    let k: int = (a.len() + m.len()) as int;
    assert(plan[k] == g[0]);
    assert forall|i: int| 0 <= i < plan.len() && i != k implies {
        let s = #[trigger] plan[i].stage;
        &&& s != Stage::Sign
        &&& (s is Deploy) ==> k < i
        &&& !(s is Deploy) ==> i < k
    } by {
        if i < a.len() {
            assert(plan[i] == a[i]);
        } else if i < k {
            assert(plan[i] == m[i - a.len()]);
            if let Some(f) = l.manifest {
                let tail = assertion_steps_spec(f, manifest_spec(p));
                if i - a.len() >= 1 {
                    assert(m[i - a.len()] == tail[i - a.len() - 1]);
                }
            }
        } else {
            assert(plan[i] == d[i - k - 1]);
        }
    }
    k
}

/// A run over the output of an earlier one is not stopped by directories that
/// already exist, and always removes the old descriptor (returned position),
/// tolerating its absence, before any assertion is written.
pub proof fn lemma_rerun_regenerates_descriptor(
    p: Platform,
    mode: BuildMode,
    run: bool,
    sig: Seq<char>,
    sim: Seq<char>,
    l: LayoutView,
    tc: (Seq<char>, Seq<Seq<char>>),
) -> (c: int)
    ensures
        forall|i: int| 0 <= i < plan_spec(p, mode, run, sig, sim, l, tc).len()
            && #[trigger] plan_spec(p, mode, run, sig, sim, l, tc)[i].stage == Stage::Assemble
            ==> judge_spec(plan_spec(p, mode, run, sig, sim, l, tc)[i], OutcomeView::AlreadyExists).is_none(),
        l.manifest is Some ==> {
            &&& 0 <= c < plan_spec(p, mode, run, sig, sim, l, tc).len()
            &&& plan_spec(p, mode, run, sig, sim, l, tc)[c] == sv(Stage::ClearManifest, Action::RemoveFile,
                l.manifest.unwrap(), Seq::empty())
            &&& judge_spec(plan_spec(p, mode, run, sig, sim, l, tc)[c], OutcomeView::NotFound).is_none()
            &&& forall|i: int| 0 <= i < plan_spec(p, mode, run, sig, sim, l, tc).len()
                && (#[trigger] plan_spec(p, mode, run, sig, sim, l, tc)[i].stage is Manifest) ==> c < i
        },
{
    let plan = plan_spec(p, mode, run, sig, sim, l, tc);
    let a = dir_steps_spec(l.dirs) + materialize_spec(p, l) + compile_steps_spec(p, mode, l, tc);
    let m = manifest_steps_spec(p, l);
    let rest = sign_steps_spec(p, mode, sig, l) + deploy_steps_spec(p, run, sim, l);
    assert(plan =~= a + m + rest);
    let c: int = a.len() as int;
    if let Some(f) = l.manifest {
        assert(plan[c] == m[0]);
        assert forall|i: int| 0 <= i < plan.len() && (#[trigger] plan[i].stage is Manifest) implies c < i by {
            if i < a.len() {
                assert(plan[i] == a[i]);
            } else if i >= a.len() + m.len() {
                assert(plan[i] == rest[i - a.len() - m.len()]);
            }
        }
    }
    c
}

} // verus!
