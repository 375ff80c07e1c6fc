use vstd::prelude::*;

use crate::activate::{
    activate_of, activation_script, deactivate_of, deactivation_script, effect, externally_active,
    OutcomeModel,
};
use crate::env::{is_set, EnvModel, Var};
use crate::error::ErrorKind;
use crate::prefix::{candidate_of, ProbeModel};
use crate::script::{
    agrees_at, apply_mutation, apply_script, lemma_apply_concat, lemma_apply_frame,
    lemma_apply_restore_frame, touches, MutationModel,
};

verus! {

/// Where a script ends with an export of `v` followed by statements that do
/// not touch `v`, `v` ends up with the exported value.
proof fn lemma_last_export(
    env: EnvModel,
    pre: Seq<MutationModel>,
    v: Var,
    x: Seq<char>,
    post: Seq<MutationModel>,
)
    requires
        forall|i: int| 0 <= i < post.len() ==> !touches(#[trigger] post[i], v),
    ensures
        apply_script(env, pre + seq![MutationModel::Export(v, x)] + post).contains_key(v),
        apply_script(env, pre + seq![MutationModel::Export(v, x)] + post)[v] == x,
{
    let mid = apply_script(env, pre);
    lemma_apply_concat(env, pre, seq![MutationModel::Export(v, x)]);
    lemma_apply_concat(env, pre + seq![MutationModel::Export(v, x)], post);
    let one = seq![MutationModel::Export(v, x)];
    assert(one.drop_first() =~= Seq::<MutationModel>::empty());
    assert(one[0] == MutationModel::Export(v, x));
    reveal_with_fuel(apply_script, 2);
    assert(apply_script(mid, one) == mid.insert(v, x));
    lemma_apply_frame(mid.insert(v, x), post, v);
}

/// Where a script ends with an unset of `v` followed by statements that do
/// not touch `v`, `v` ends up unset.
proof fn lemma_last_unset(env: EnvModel, pre: Seq<MutationModel>, v: Var, post: Seq<MutationModel>)
    requires
        forall|i: int| 0 <= i < post.len() ==> !touches(#[trigger] post[i], v),
    ensures
        !apply_script(env, pre + seq![MutationModel::Unset(v)] + post).contains_key(v),
{
    let mid = apply_script(env, pre);
    lemma_apply_concat(env, pre, seq![MutationModel::Unset(v)]);
    lemma_apply_concat(env, pre + seq![MutationModel::Unset(v)], post);
    let one = seq![MutationModel::Unset(v)];
    assert(one.drop_first() =~= Seq::<MutationModel>::empty());
    assert(one[0] == MutationModel::Unset(v));
    reveal_with_fuel(apply_script, 2);
    assert(apply_script(mid, one) == mid.remove(v));
    lemma_apply_frame(mid.remove(v), post, v);
}

/// After a successful activation that changes the shell, the four variables
/// of an activation all hold their values: the version, the marker `1`, and
/// the prefix twice; the installation root is as it was.
proof fn lemma_activated_state(
    version: Seq<char>,
    force: bool,
    env: EnvModel,
    probe: ProbeModel,
    s: Seq<MutationModel>,
)
    requires
        activate_of(version, force, env, probe) == Ok::<OutcomeModel, (ErrorKind, Seq<char>)>(
            OutcomeModel::Apply(s),
        ),
    ensures
        ({
            let p = probe.canonical->Ok_0;
            let after = apply_script(env, s);
            &&& candidate_of(version, env, probe) == Ok::<Seq<char>, (ErrorKind, Seq<char>)>(p)
            &&& p.len() > 0
            &&& after.contains_key(Var::PyenvVersion) && after[Var::PyenvVersion] == version
            &&& after.contains_key(Var::PyenvActivateShell) && after[Var::PyenvActivateShell]
                == "1"@
            &&& after.contains_key(Var::PyenvVirtualEnv) && after[Var::PyenvVirtualEnv] == p
            &&& after.contains_key(Var::VirtualEnv) && after[Var::VirtualEnv] == p
            &&& after.contains_key(Var::PyenvRoot) == env.contains_key(Var::PyenvRoot)
            &&& env.contains_key(Var::PyenvRoot) ==> after[Var::PyenvRoot] == env[Var::PyenvRoot]
        }),
{
    let p = probe.canonical->Ok_0;
    let d = deactivation_script(is_set(env, Var::PyenvActivateShell));
    let h: Seq<MutationModel> = if is_set(env, Var::PythonHome) {
        seq![
            MutationModel::Export(Var::OldVirtualPythonHome, env[Var::PythonHome]),
            MutationModel::Unset(Var::PythonHome),
        ]
    } else {
        Seq::empty()
    };
    let e0 = MutationModel::Export(Var::PyenvVersion, version);
    let e1 = MutationModel::Export(Var::PyenvActivateShell, "1"@);
    let e2 = MutationModel::Export(Var::PyenvVirtualEnv, p);
    let e3 = MutationModel::Export(Var::VirtualEnv, p);
    assert(s =~= d + activation_script(version, p, env));
    assert(s =~= d + seq![e0] + (seq![e1, e2, e3] + h));
    assert(s =~= (d + seq![e0, e1]) + seq![e2] + (seq![e3] + h));
    assert(s =~= (d + seq![e0]) + seq![e1] + (seq![e2, e3] + h));
    assert(s =~= (d + seq![e0, e1, e2]) + seq![e3] + h);
    lemma_last_export(env, d, Var::PyenvVersion, version, seq![e1, e2, e3] + h);
    lemma_last_export(env, d + seq![e0], Var::PyenvActivateShell, "1"@, seq![e2, e3] + h);
    lemma_last_export(env, d + seq![e0, e1], Var::PyenvVirtualEnv, p, seq![e3] + h);
    lemma_last_export(env, d + seq![e0, e1, e2], Var::VirtualEnv, p, h);
    lemma_apply_frame(env, s, Var::PyenvRoot);
}

/// Activating the same version twice in a row, without force, changes the
/// shell at most once: the second call finds the work done and hands back
/// nothing to do.
pub proof fn lemma_activate_idempotent(version: Seq<char>, env: EnvModel, probe: ProbeModel)
    ensures
        activate_of(version, false, env, probe) is Ok ==> ({
            let second = activate_of(
                version,
                false,
                apply_script(env, effect(activate_of(version, false, env, probe)->Ok_0)),
                probe,
            );
            second is Ok && !(second->Ok_0 is Apply)
        }),
{
    let first = activate_of(version, false, env, probe);
    if first is Ok {
        match first->Ok_0 {
            OutcomeModel::Apply(s) => {
                lemma_activated_state(version, false, env, probe, s);
                let after = apply_script(env, s);
                assert(is_set(after, Var::PyenvRoot) == is_set(env, Var::PyenvRoot));
                assert(candidate_of(version, after, probe) == candidate_of(version, env, probe));
            },
            _ => {
                assert(apply_script(env, Seq::empty()) == env);
            },
        }
    }
}

/// Deactivation undoes activation: after a successful activation that
/// changes the shell, all four variables of an activation are set, and a
/// deactivation that follows, even without force, succeeds and leaves none
/// of them set.
pub proof fn lemma_deactivate_undoes_activate(
    version: Seq<char>,
    force: bool,
    env: EnvModel,
    probe: ProbeModel,
)
    ensures
        activate_of(version, force, env, probe) matches Ok(OutcomeModel::Apply(s)) ==> ({
            let active = apply_script(env, s);
            let back = deactivate_of(false, active);
            &&& is_set(active, Var::VirtualEnv) && is_set(active, Var::PyenvVirtualEnv)
            &&& is_set(active, Var::PyenvActivateShell)
            &&& active.contains_key(Var::PyenvVersion) && active[Var::PyenvVersion] == version
            &&& back is Ok
            &&& {
                let done = apply_script(active, effect(back->Ok_0));
                &&& !done.contains_key(Var::PyenvVersion)
                &&& !done.contains_key(Var::PyenvActivateShell)
                &&& !done.contains_key(Var::PyenvVirtualEnv)
                &&& !done.contains_key(Var::VirtualEnv)
            }
        }),
{
    if let Ok(OutcomeModel::Apply(s)) = activate_of(version, force, env, probe) {
        lemma_activated_state(version, force, env, probe, s);
        let active = apply_script(env, s);
        reveal_strlit("1");
        assert(is_set(active, Var::PyenvActivateShell));
        let d = deactivation_script(true);
        let u0 = MutationModel::Unset(Var::PyenvVersion);
        let u1 = MutationModel::Unset(Var::PyenvActivateShell);
        let u2 = MutationModel::Unset(Var::PyenvVirtualEnv);
        let u3 = MutationModel::Unset(Var::VirtualEnv);
        let tail = seq![
            MutationModel::Restore(Var::Path, Var::OldVirtualPath),
            MutationModel::Restore(Var::PythonHome, Var::OldVirtualPythonHome),
            MutationModel::UnsetDeactivate,
        ];
        assert(d =~= seq![u0] + seq![u1] + (seq![u2, u3] + tail));
        assert(d =~= Seq::<MutationModel>::empty() + seq![u0] + (seq![u1, u2, u3] + tail));
        assert(d =~= seq![u0, u1] + seq![u2] + (seq![u3] + tail));
        assert(d =~= seq![u0, u1, u2] + seq![u3] + tail);
        lemma_last_unset(active, Seq::empty(), Var::PyenvVersion, seq![u1, u2, u3] + tail);
        lemma_last_unset(active, seq![u0], Var::PyenvActivateShell, seq![u2, u3] + tail);
        lemma_last_unset(active, seq![u0, u1], Var::PyenvVirtualEnv, seq![u3] + tail);
        lemma_last_unset(active, seq![u0, u1, u2], Var::VirtualEnv, tail);
    }
}

/// The system interpreter is never activated: unless an environment that
/// another tool activated is left alone, asking for `system` fails as not a
/// virtual environment.
pub proof fn lemma_system_never_activated(force: bool, env: EnvModel, probe: ProbeModel)
    requires
        !(externally_active(env) && !force),
    ensures
        activate_of("system"@, force, env, probe) == Err::<OutcomeModel, (ErrorKind, Seq<char>)>(
            (ErrorKind::NotAVirtualEnvironment, "system"@),
        ),
{
}

/// A version without a directory under the installation root is not
/// installed: unless an environment that another tool activated is left
/// alone, activating it fails so.
pub proof fn lemma_missing_version_not_installed(
    version: Seq<char>,
    force: bool,
    env: EnvModel,
    probe: ProbeModel,
)
    requires
        version != "system"@,
        is_set(env, Var::PyenvRoot),
        !probe.is_dir,
        !(externally_active(env) && !force),
    ensures
        activate_of(version, force, env, probe) == Err::<OutcomeModel, (ErrorKind, Seq<char>)>(
            (ErrorKind::VersionNotInstalled, version),
        ),
{
}

/// Forced deactivation with nothing active still succeeds, and unsets the
/// active path and the tool's record of it.
pub proof fn lemma_forced_deactivate(env: EnvModel)
    requires
        !is_set(env, Var::VirtualEnv),
    ensures
        deactivate_of(true, env) is Ok,
        effect(deactivate_of(true, env)->Ok_0).contains(MutationModel::Unset(Var::PyenvVirtualEnv)),
        effect(deactivate_of(true, env)->Ok_0).contains(MutationModel::Unset(Var::VirtualEnv)),
{
    let s = effect(deactivate_of(true, env)->Ok_0);
    let k: int = if is_set(env, Var::PyenvActivateShell) { 2 } else { 0 };
    assert(s[k] == MutationModel::Unset(Var::PyenvVirtualEnv));
    assert(s[k + 1] == MutationModel::Unset(Var::VirtualEnv));
}


/// Running `pre`, then `m`, then `post` is running `post` on what `m` made of
/// what `pre` made.
proof fn lemma_split(env: EnvModel, pre: Seq<MutationModel>, m: MutationModel, post: Seq<MutationModel>)
    ensures
        apply_script(env, pre + seq![m] + post) == apply_script(
            apply_mutation(apply_script(env, pre), m),
            post,
        ),
{
    let one = seq![m];
    lemma_apply_concat(env, pre, one);
    lemma_apply_concat(env, pre + one, post);
    assert(one.drop_first() =~= Seq::<MutationModel>::empty());
    assert(one[0] == m);
    reveal_with_fuel(apply_script, 2);
}

/// Activation followed by deactivation gives `PATH` and `PYTHONHOME` back
/// as they were, and leaves no backup of `PYTHONHOME` set, where the shell
/// held no backups beforehand.
pub proof fn lemma_round_trip_restores(version: Seq<char>, force: bool, env: EnvModel, probe: ProbeModel)
    requires
        !is_set(env, Var::OldVirtualPath),
        !is_set(env, Var::OldVirtualPythonHome),
    ensures
        activate_of(version, force, env, probe) matches Ok(OutcomeModel::Apply(s)) ==> ({
            let active = apply_script(env, s);
            let back = deactivate_of(false, active);
            &&& back is Ok
            &&& {
                let done = apply_script(active, effect(back->Ok_0));
                &&& agrees_at(done, env, Var::Path)
                &&& agrees_at(done, env, Var::PythonHome)
                &&& !is_set(done, Var::OldVirtualPythonHome)
            }
        }),
{
    if let Ok(OutcomeModel::Apply(s)) = activate_of(version, force, env, probe) {
        lemma_deactivate_undoes_activate(version, force, env, probe);
        lemma_activated_state(version, force, env, probe, s);
        let p = probe.canonical->Ok_0;
        let active = apply_script(env, s);
        let d = deactivation_script(is_set(env, Var::PyenvActivateShell));
        let a4 = seq![
            MutationModel::Export(Var::PyenvVersion, version),
            MutationModel::Export(Var::PyenvActivateShell, "1"@),
            MutationModel::Export(Var::PyenvVirtualEnv, p),
            MutationModel::Export(Var::VirtualEnv, p),
        ];
        let back = deactivation_script(true);
        assert(deactivate_of(false, active) == Ok::<OutcomeModel, (ErrorKind, Seq<char>)>(
            OutcomeModel::Apply(back),
        ));
        let done = apply_script(active, back);
        // PATH: only its restore touches it, on both ways.
        assert(s =~= d + activation_script(version, p, env));
        lemma_apply_restore_frame(env, s, Var::Path, Var::OldVirtualPath);
        lemma_apply_restore_frame(active, back, Var::Path, Var::OldVirtualPath);
        let rph = MutationModel::Restore(Var::PythonHome, Var::OldVirtualPythonHome);
        if is_set(env, Var::PythonHome) {
            let h = env[Var::PythonHome];
            let x = MutationModel::Export(Var::OldVirtualPythonHome, h);
            let y = MutationModel::Unset(Var::PythonHome);
            assert(s =~= (d + a4) + seq![x] + seq![y]);
            lemma_apply_restore_frame(env, d + a4, Var::PythonHome, Var::OldVirtualPythonHome);
            lemma_split(env, d + a4, x, seq![y]);
            let mid = apply_mutation(apply_script(env, d + a4), x);
            assert(seq![y].drop_first() =~= Seq::<MutationModel>::empty());
            assert(seq![y][0] == y);
            reveal_with_fuel(apply_script, 2);
            assert(active == mid.remove(Var::PythonHome));
            assert(active.contains_key(Var::OldVirtualPythonHome) && active[Var::OldVirtualPythonHome] == h);
            assert(!active.contains_key(Var::PythonHome));
            let pre = seq![
                MutationModel::Unset(Var::PyenvVersion),
                MutationModel::Unset(Var::PyenvActivateShell),
                MutationModel::Unset(Var::PyenvVirtualEnv),
                MutationModel::Unset(Var::VirtualEnv),
                MutationModel::Restore(Var::Path, Var::OldVirtualPath),
            ];
            let post = seq![MutationModel::UnsetDeactivate];
            assert(back =~= pre + seq![rph] + post);
            lemma_split(active, pre, rph, post);
            lemma_apply_frame(active, pre, Var::PythonHome);
            lemma_apply_frame(active, pre, Var::OldVirtualPythonHome);
            let before = apply_script(active, pre);
            let after = apply_mutation(before, rph);
            assert(after == before.insert(Var::PythonHome, h).remove(Var::OldVirtualPythonHome));
            lemma_apply_frame(after, post, Var::PythonHome);
            lemma_apply_frame(after, post, Var::OldVirtualPythonHome);
        } else {
            assert(activation_script(version, p, env) =~= a4);
            lemma_apply_restore_frame(env, s, Var::PythonHome, Var::OldVirtualPythonHome);
            lemma_apply_restore_frame(active, back, Var::PythonHome, Var::OldVirtualPythonHome);
        }
    }
}

/// An environment already active at the installed prefix of the version
/// asked for is left as it is, without force: the result is that nothing is
/// to change, whether or not the installation still holds an interpreter and
/// an activation script.
pub proof fn lemma_already_current(version: Seq<char>, env: EnvModel, probe: ProbeModel)
    requires
        candidate_of(version, env, probe) is Ok,
        is_set(env, Var::PyenvVirtualEnv),
        is_set(env, Var::VirtualEnv),
        env[Var::VirtualEnv] == candidate_of(version, env, probe)->Ok_0,
    ensures
        activate_of(version, false, env, probe) == Ok::<OutcomeModel, (ErrorKind, Seq<char>)>(
            OutcomeModel::AlreadyCurrent(version),
        ),
{
}

} // verus!
