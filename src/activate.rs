use vstd::prelude::*;

use crate::env::{is_set, EnvModel, EnvSnapshot, Var};
use crate::error::{Error, ErrorKind};
use crate::prefix::{candidate_of, check_usable, prefix_candidate, unusable_of, PrefixProbe, ProbeModel};
use crate::script::{render_script, script_text, script_view, Mutation, MutationModel};

verus! {

/// What an invocation asks the shell to do when it succeeds.
#[derive(Clone, Debug, PartialEq, Eq)]
pub enum Outcome {
    /// An environment that this tool did not activate is active at this path:
    /// it is left alone.
    AlreadyActive(String),
    /// This version is already the active environment.
    AlreadyCurrent(String),
    /// The shell is to run these statements, in order.
    Apply(Vec<Mutation>),
}

pub enum OutcomeModel {
    AlreadyActive(Seq<char>),
    AlreadyCurrent(Seq<char>),
    Apply(Seq<MutationModel>),
}

impl View for Outcome {
    type V = OutcomeModel;

    open spec fn view(&self) -> OutcomeModel {
        match self {
            Outcome::AlreadyActive(p) => OutcomeModel::AlreadyActive(p@),
            Outcome::AlreadyCurrent(v) => OutcomeModel::AlreadyCurrent(v@),
            Outcome::Apply(s) => OutcomeModel::Apply(script_view(s@)),
        }
    }
}

pub open spec fn result_view(r: Result<Outcome, Error>) -> Result<OutcomeModel, (ErrorKind, Seq<char>)> {
    match r {
        Ok(o) => Ok(o@),
        Err(e) => Err((e.kind, e.detail@)),
    }
}

/// The statements a successful invocation hands the shell: none where nothing
/// is to change.
pub open spec fn effect(o: OutcomeModel) -> Seq<MutationModel> {
    match o {
        OutcomeModel::Apply(s) => s,
        _ => Seq::empty(),
    }
}

/// Deactivation: the markers of the tool go where the tool set them, the
/// active path goes, and what activation put aside is restored.
pub open spec fn deactivation_script(managed: bool) -> Seq<MutationModel> {
    (if managed {
        seq![
            MutationModel::Unset(Var::PyenvVersion),
            MutationModel::Unset(Var::PyenvActivateShell),
        ]
    } else {
        Seq::empty()
    }) + seq![
        MutationModel::Unset(Var::PyenvVirtualEnv),
        MutationModel::Unset(Var::VirtualEnv),
        MutationModel::Restore(Var::Path, Var::OldVirtualPath),
        MutationModel::Restore(Var::PythonHome, Var::OldVirtualPythonHome),
        MutationModel::UnsetDeactivate,
    ]
}

pub open spec fn deactivate_of(force: bool, env: EnvModel) -> Result<
    OutcomeModel,
    (ErrorKind, Seq<char>),
> {
    if !is_set(env, Var::VirtualEnv) && !force {
        Err((ErrorKind::NothingActivated, Seq::empty()))
    } else {
        Ok(OutcomeModel::Apply(deactivation_script(is_set(env, Var::PyenvActivateShell))))
    }
}

/// Activation of `version` at `prefix`, after deactivation.
pub open spec fn activation_script(version: Seq<char>, prefix: Seq<char>, env: EnvModel) -> Seq<
    MutationModel,
> {
    seq![
        MutationModel::Export(Var::PyenvVersion, version),
        MutationModel::Export(Var::PyenvActivateShell, "1"@),
        MutationModel::Export(Var::PyenvVirtualEnv, prefix),
        MutationModel::Export(Var::VirtualEnv, prefix),
    ] + (if is_set(env, Var::PythonHome) {
        seq![
            MutationModel::Export(Var::OldVirtualPythonHome, env[Var::PythonHome]),
            MutationModel::Unset(Var::PythonHome),
        ]
    } else {
        Seq::empty()
    })
}

/// An environment is active that this tool did not activate.
pub open spec fn externally_active(env: EnvModel) -> bool {
    is_set(env, Var::VirtualEnv) && !is_set(env, Var::PyenvVirtualEnv)
}

pub open spec fn activate_of(version: Seq<char>, force: bool, env: EnvModel, probe: ProbeModel) -> Result<
    OutcomeModel,
    (ErrorKind, Seq<char>),
> {
    if externally_active(env) && !force {
        Ok(OutcomeModel::AlreadyActive(env[Var::VirtualEnv]))
    } else if version == "system"@ {
        Err((ErrorKind::NotAVirtualEnvironment, version))
    } else {
        match candidate_of(version, env, probe) {
            Err(e) => Err(e),
            Ok(p) => if is_set(env, Var::VirtualEnv) && env[Var::VirtualEnv] == p && !force {
                Ok(OutcomeModel::AlreadyCurrent(version))
            } else {
                match unusable_of(version, probe) {
                    Some(e) => Err(e),
                    None => Ok(
                        OutcomeModel::Apply(
                            deactivation_script(is_set(env, Var::PyenvActivateShell))
                                + activation_script(version, p, env),
                        ),
                    ),
                }
            },
        }
    }
}

fn push_deactivation(out: &mut Vec<Mutation>, managed: bool)
    ensures
        script_view(final(out)@) == script_view(old(out)@) + deactivation_script(managed),
{
    let ghost start = script_view(out@);
    if managed {
        out.push(Mutation::Unset(Var::PyenvVersion));
        out.push(Mutation::Unset(Var::PyenvActivateShell));
    }
    out.push(Mutation::Unset(Var::PyenvVirtualEnv));
    out.push(Mutation::Unset(Var::VirtualEnv));
    out.push(Mutation::Restore(Var::Path, Var::OldVirtualPath));
    out.push(Mutation::Restore(Var::PythonHome, Var::OldVirtualPythonHome));
    out.push(Mutation::UnsetDeactivate);
    assert(script_view(out@) =~= start + deactivation_script(managed));
}

/// Deactivation. Fails where no environment is active and `force` is off;
/// otherwise hands back the statements that deactivate.
pub fn pyenv_sh_deactivate(force: bool, env: &EnvSnapshot) -> (r: Result<Outcome, Error>)
    ensures
        result_view(r) == deactivate_of(force, env.model()),
{
    if env.get(Var::VirtualEnv).is_none() && !force {
        return Err(Error { kind: ErrorKind::NothingActivated, detail: String::new() });
    }
    let mut out: Vec<Mutation> = Vec::new();
    push_deactivation(&mut out, env.get(Var::PyenvActivateShell).is_some());
    assert(script_view(out@) =~= deactivation_script(is_set(env.model(), Var::PyenvActivateShell)));
    Ok(Outcome::Apply(out))
}

/// Activation of `version`, the version already resolved. `probe` describes
/// `<PYENV_ROOT>/versions/<version>`. Leaves an environment that another tool
/// activated alone unless `force` is on; fails where `version` is not
/// installed; hands back nothing to do where it is already the active one,
/// without checking it again; fails where it is no usable virtual
/// environment; else hands back the statements that deactivate what is
/// active and then activate `version`.
pub fn pyenv_sh_activate(version: &String, force: bool, env: &EnvSnapshot, probe: &PrefixProbe) -> (r:
    Result<Outcome, Error>)
    ensures
        result_view(r) == activate_of(version@, force, env.model(), probe@),
{
    let virtual_env = env.get(Var::VirtualEnv);
    if let Some(active) = &virtual_env {
        if env.get(Var::PyenvVirtualEnv).is_none() && !force {
            return Ok(Outcome::AlreadyActive(active.clone()));
        }
    }
    if version.eq(&"system".to_owned()) {
        return Err(Error::new(ErrorKind::NotAVirtualEnvironment, version.as_str()));
    }
    let prefix = match prefix_candidate(version, env, probe) {
        Ok(p) => p,
        Err(e) => {
            return Err(e);
        },
    };
    if let Some(active) = &virtual_env {
        if active.eq(&prefix) && !force {
            return Ok(Outcome::AlreadyCurrent(version.clone()));
        }
    }
    if let Some(e) = check_usable(version, probe) {
        return Err(e);
    }
    let mut out: Vec<Mutation> = Vec::new();
    push_deactivation(&mut out, env.get(Var::PyenvActivateShell).is_some());
    let ghost deact = script_view(out@);
    out.push(Mutation::Export(Var::PyenvVersion, version.clone()));
    out.push(Mutation::Export(Var::PyenvActivateShell, "1".to_owned()));
    out.push(Mutation::Export(Var::PyenvVirtualEnv, prefix.clone()));
    out.push(Mutation::Export(Var::VirtualEnv, prefix.clone()));
    if let Some(home) = env.get(Var::PythonHome) {
        out.push(Mutation::Export(Var::OldVirtualPythonHome, home));
        out.push(Mutation::Unset(Var::PythonHome));
    }
    assert(script_view(out@) =~= deact + activation_script(version@, prefix@, env.model()));
    Ok(Outcome::Apply(out))
}


/// What standard output receives: the statements to run, `true` where
/// nothing is to change, `false` on failure.
pub open spec fn output_of(r: Result<OutcomeModel, (ErrorKind, Seq<char>)>) -> Seq<char> {
    match r {
        Ok(OutcomeModel::Apply(s)) => script_text(s),
        Ok(_) => "true\n"@,
        Err(_) => "false\n"@,
    }
}

/// The text that the calling shell evaluates.
pub fn shell_output(r: &Result<Outcome, Error>) -> (out: String)
    ensures
        out@ == output_of(result_view(*r)),
{
    match r {
        Ok(Outcome::Apply(s)) => render_script(s),
        Ok(_) => "true\n".to_owned(),
        Err(_) => "false\n".to_owned(),
    }
}

pub open spec fn notice_of(o: OutcomeModel) -> Option<Seq<char>> {
    match o {
        OutcomeModel::AlreadyActive(p) => Some("virtualenv `"@ + p + "` is already activated"@),
        OutcomeModel::AlreadyCurrent(v) => Some("version `"@ + v + "` is already activated"@),
        OutcomeModel::Apply(_) => None,
    }
}

impl Outcome {
    /// The diagnostic that says why nothing is to change, if that is so.
    pub fn notice(&self) -> (r: Option<String>)
        ensures
            crate::env::opt_view(r) == notice_of(self@),
    {
        match self {
            Outcome::AlreadyActive(p) => {
                let mut m = "virtualenv `".to_owned();
                m.append(p.as_str());
                m.append("` is already activated");
                Some(m)
            },
            Outcome::AlreadyCurrent(v) => {
                let mut m = "version `".to_owned();
                m.append(v.as_str());
                m.append("` is already activated");
                Some(m)
            },
            Outcome::Apply(_) => None,
        }
    }
}

} // verus!
