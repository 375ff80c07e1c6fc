use vstd::prelude::*;

verus! {

/// The shell variables that activation reads or changes.
#[derive(Clone, Copy, Debug, PartialEq, Eq, Structural)]
pub enum Var {
    PyenvVersion,
    PyenvRoot,
    PyenvActivateShell,
    PyenvVirtualEnv,
    VirtualEnv,
    Path,
    OldVirtualPath,
    PythonHome,
    OldVirtualPythonHome,
}

pub open spec fn var_name(v: Var) -> Seq<char> {
    match v {
        Var::PyenvVersion => "PYENV_VERSION"@,
        Var::PyenvRoot => "PYENV_ROOT"@,
        Var::PyenvActivateShell => "PYENV_ACTIVATE_SHELL"@,
        Var::PyenvVirtualEnv => "PYENV_VIRTUAL_ENV"@,
        Var::VirtualEnv => "VIRTUAL_ENV"@,
        Var::Path => "PATH"@,
        Var::OldVirtualPath => "_OLD_VIRTUAL_PATH"@,
        Var::PythonHome => "PYTHONHOME"@,
        Var::OldVirtualPythonHome => "_OLD_VIRTUAL_PYTHONHOME"@,
    }
}

impl Var {
    /// The variable's name in the shell.
    pub fn name(&self) -> (r: &'static str)
        ensures
            r@ == var_name(*self),
    {
        match self {
            Var::PyenvVersion => "PYENV_VERSION",
            Var::PyenvRoot => "PYENV_ROOT",
            Var::PyenvActivateShell => "PYENV_ACTIVATE_SHELL",
            Var::PyenvVirtualEnv => "PYENV_VIRTUAL_ENV",
            Var::VirtualEnv => "VIRTUAL_ENV",
            Var::Path => "PATH",
            Var::OldVirtualPath => "_OLD_VIRTUAL_PATH",
            Var::PythonHome => "PYTHONHOME",
            Var::OldVirtualPythonHome => "_OLD_VIRTUAL_PYTHONHOME",
        }
    }
}

/// A shell environment as a map from the variables that are set to their values.
pub type EnvModel = Map<Var, Seq<char>>;

/// A variable is in effect when it is set to a non-empty value.
pub open spec fn is_set(env: EnvModel, v: Var) -> bool {
    env.contains_key(v) && env[v].len() > 0
}

/// What the shell held when the tool was invoked: each field is the value of
/// the variable of the same name, `None` where it is unset.
#[derive(Clone, Debug, Default, PartialEq, Eq)]
pub struct EnvSnapshot {
    pub pyenv_version: Option<String>,
    pub pyenv_root: Option<String>,
    pub pyenv_activate_shell: Option<String>,
    pub pyenv_virtual_env: Option<String>,
    pub virtual_env: Option<String>,
    pub path: Option<String>,
    pub old_virtual_path: Option<String>,
    pub pythonhome: Option<String>,
    pub old_virtual_pythonhome: Option<String>,
}

pub open spec fn opt_view(o: Option<String>) -> Option<Seq<char>> {
    match o {
        Some(s) => Some(s@),
        None => None,
    }
}

impl EnvSnapshot {
    pub open spec fn field(&self, v: Var) -> Option<String> {
        match v {
            Var::PyenvVersion => self.pyenv_version,
            Var::PyenvRoot => self.pyenv_root,
            Var::PyenvActivateShell => self.pyenv_activate_shell,
            Var::PyenvVirtualEnv => self.pyenv_virtual_env,
            Var::VirtualEnv => self.virtual_env,
            Var::Path => self.path,
            Var::OldVirtualPath => self.old_virtual_path,
            Var::PythonHome => self.pythonhome,
            Var::OldVirtualPythonHome => self.old_virtual_pythonhome,
        }
    }

    /// The snapshot as a map of the variables that are set.
    pub open spec fn model(&self) -> EnvModel {
        Map::new(|v: Var| self.field(v) is Some, |v: Var| self.field(v)->Some_0@)
    }

    /// The value of a variable, or `None` where it is unset or empty.
    pub fn get(&self, v: Var) -> (r: Option<String>)
        ensures
            opt_view(r) == (if is_set(self.model(), v) { Some(self.model()[v]) } else { None }),
    {
        let raw = match v {
            Var::PyenvVersion => &self.pyenv_version,
            Var::PyenvRoot => &self.pyenv_root,
            Var::PyenvActivateShell => &self.pyenv_activate_shell,
            Var::PyenvVirtualEnv => &self.pyenv_virtual_env,
            Var::VirtualEnv => &self.virtual_env,
            Var::Path => &self.path,
            Var::OldVirtualPath => &self.old_virtual_path,
            Var::PythonHome => &self.pythonhome,
            Var::OldVirtualPythonHome => &self.old_virtual_pythonhome,
        };
        let copy = match raw {
            Some(s) => Some(s.clone()),
            None => None,
        };
        nonempty(copy)
    }
}

/// Keeps a value only when it is present and non-empty: an empty variable
/// counts as unset.
pub fn nonempty(s: Option<String>) -> (r: Option<String>)
    ensures
        r == (match s {
            Some(v) => if v@.len() == 0 { None::<String> } else { Some(v) },
            None => None::<String>,
        }),
{
    match s {
        Some(v) => {
            if v.as_str().is_empty() {
                None
            } else {
                Some(v)
            }
        },
        None => None,
    }
}

} // verus!
