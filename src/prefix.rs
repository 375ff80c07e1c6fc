use vstd::prelude::*;

use crate::env::{is_set, EnvSnapshot, Var};
use crate::error::{Error, ErrorKind};
use crate::resolve::pyenv_root;

verus! {

/// What the filesystem says of `<root>/versions/<version>`.
#[derive(Debug, PartialEq, Eq)]
pub struct PrefixProbe {
    /// The path is a directory.
    pub is_dir: bool,
    /// The path with symbolic links and relative parts resolved, or the
    /// system's message where that failed.
    pub canonical: Result<String, String>,
    /// `bin/python` under the resolved path is a file.
    pub has_python: bool,
    /// `bin/activate` under the resolved path is a file.
    pub has_activate: bool,
}

pub struct ProbeModel {
    pub is_dir: bool,
    pub canonical: Result<Seq<char>, Seq<char>>,
    pub has_python: bool,
    pub has_activate: bool,
}

impl View for PrefixProbe {
    type V = ProbeModel;

    open spec fn view(&self) -> ProbeModel {
        ProbeModel {
            is_dir: self.is_dir,
            canonical: match self.canonical {
                Ok(p) => Ok(p@),
                Err(m) => Err(m@),
            },
            has_python: self.has_python,
            has_activate: self.has_activate,
        }
    }
}

/// Where `version` is installed: the canonical path of its directory, or why
/// there is none. The canonical path of a directory is never empty.
pub open spec fn candidate_of(version: Seq<char>, env: crate::env::EnvModel, probe: ProbeModel) -> Result<
    Seq<char>,
    (ErrorKind, Seq<char>),
> {
    if version == "system"@ {
        Err((ErrorKind::NotAVirtualEnvironment, version))
    } else if !is_set(env, Var::PyenvRoot) {
        Err((ErrorKind::NoInstallationRoot, Seq::empty()))
    } else if !probe.is_dir {
        Err((ErrorKind::VersionNotInstalled, version))
    } else if probe.canonical is Err {
        Err((ErrorKind::Io, probe.canonical->Err_0))
    } else if probe.canonical->Ok_0.len() == 0 {
        Err((ErrorKind::Io, "canonical path is empty"@))
    } else {
        Ok(probe.canonical->Ok_0)
    }
}

/// Why an installed version is no usable virtual environment, if it is not.
pub open spec fn unusable_of(version: Seq<char>, probe: ProbeModel) -> Option<(ErrorKind, Seq<char>)> {
    if !probe.has_python {
        Some((ErrorKind::InterpreterNotFound, version))
    } else if !probe.has_activate {
        Some((ErrorKind::NotAVirtualEnvironment, version))
    } else {
        None
    }
}

/// The installation prefix of a version, or why it cannot be activated.
pub open spec fn prefix_of(version: Seq<char>, env: crate::env::EnvModel, probe: ProbeModel) -> Result<
    Seq<char>,
    (ErrorKind, Seq<char>),
> {
    match candidate_of(version, env, probe) {
        Err(e) => Err(e),
        Ok(p) => match unusable_of(version, probe) {
            Some(e) => Err(e),
            None => Ok(p),
        },
    }
}

pub open spec fn prefix_view(r: Result<String, Error>) -> Result<Seq<char>, (ErrorKind, Seq<char>)> {
    match r {
        Ok(p) => Ok(p@),
        Err(e) => Err((e.kind, e.detail@)),
    }
}

/// The canonical path of the directory where `version` is installed.
pub(crate) fn prefix_candidate(version: &String, env: &EnvSnapshot, probe: &PrefixProbe) -> (r: Result<
    String,
    Error,
>)
    ensures
        prefix_view(r) == candidate_of(version@, env.model(), probe@),
{
    if version.eq(&"system".to_owned()) {
        return Err(Error::new(ErrorKind::NotAVirtualEnvironment, version.as_str()));
    }
    if let Err(e) = pyenv_root(env) {
        return Err(e);
    }
    if !probe.is_dir {
        return Err(Error::new(ErrorKind::VersionNotInstalled, version.as_str()));
    }
    match &probe.canonical {
        Ok(p) => {
            if p.as_str().is_empty() {
                Err(Error::new(ErrorKind::Io, "canonical path is empty"))
            } else {
                Ok(p.clone())
            }
        },
        Err(m) => Err(Error::new(ErrorKind::Io, m.as_str())),
    }
}

/// Why an installed version is no usable virtual environment, if it is not.
pub(crate) fn check_usable(version: &String, probe: &PrefixProbe) -> (r: Option<Error>)
    ensures
        match r {
            Some(e) => unusable_of(version@, probe@) == Some((e.kind, e.detail@)),
            None => unusable_of(version@, probe@) is None,
        },
{
    if !probe.has_python {
        Some(Error::new(ErrorKind::InterpreterNotFound, version.as_str()))
    } else if !probe.has_activate {
        Some(Error::new(ErrorKind::NotAVirtualEnvironment, version.as_str()))
    } else {
        None
    }
}

/// The canonical installation prefix of `version`, checked to be a usable
/// virtual environment. `probe` describes `<PYENV_ROOT>/versions/<version>`.
pub fn pyenv_prefix(version: &String, env: &EnvSnapshot, probe: &PrefixProbe) -> (r: Result<
    String,
    Error,
>)
    ensures
        prefix_view(r) == prefix_of(version@, env.model(), probe@),
{
    let prefix = match prefix_candidate(version, env, probe) {
        Ok(p) => p,
        Err(e) => {
            return Err(e);
        },
    };
    match check_usable(version, probe) {
        Some(e) => Err(e),
        None => Ok(prefix),
    }
}

} // verus!
