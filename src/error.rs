use vstd::prelude::*;

verus! {

/// What went wrong.
#[derive(Clone, Copy, Debug, PartialEq, Eq, Structural)]
pub enum ErrorKind {
    /// `PYENV_ROOT` is unset or empty.
    NoInstallationRoot,
    /// Deactivation was asked for while no environment is active.
    NothingActivated,
    /// The target is the system interpreter, or has no activation script.
    NotAVirtualEnvironment,
    /// The target has no directory under the installation root.
    VersionNotInstalled,
    /// The target has no interpreter.
    InterpreterNotFound,
    /// Reading a file or resolving a path failed.
    Io,
}

/// A failure: its kind, and the version or the system's message it concerns
/// (empty for the kinds that concern neither).
#[derive(Clone, Debug, PartialEq, Eq)]
pub struct Error {
    pub kind: ErrorKind,
    pub detail: String,
}

pub open spec fn error_view(e: Error) -> (ErrorKind, Seq<char>) {
    (e.kind, e.detail@)
}

pub open spec fn message_of(kind: ErrorKind, detail: Seq<char>) -> Seq<char> {
    match kind {
        ErrorKind::NoInstallationRoot => "env `PYENV_ROOT` not found"@,
        ErrorKind::NothingActivated => "no virtualenv has been activated."@,
        ErrorKind::NotAVirtualEnvironment => "version `"@ + detail + "` is not a virtualenv"@,
        ErrorKind::VersionNotInstalled => "version `"@ + detail + "` not installed"@,
        ErrorKind::InterpreterNotFound => "`python` not found in version `"@ + detail + "`"@,
        ErrorKind::Io => detail,
    }
}

impl Error {
    pub fn new(kind: ErrorKind, detail: &str) -> (r: Error)
        ensures
            r.kind == kind,
            r.detail@ == detail@,
    {
        Error { kind, detail: detail.to_owned() }
    }

    /// The diagnostic shown to the user.
    pub fn message(&self) -> (r: String)
        ensures
            r@ == message_of(self.kind, self.detail@),
    {
        match self.kind {
            ErrorKind::NoInstallationRoot => "env `PYENV_ROOT` not found".to_owned(),
            ErrorKind::NothingActivated => "no virtualenv has been activated.".to_owned(),
            ErrorKind::NotAVirtualEnvironment => {
                let mut m = "version `".to_owned();
                m.append(self.detail.as_str());
                m.append("` is not a virtualenv");
                m
            },
            ErrorKind::VersionNotInstalled => {
                let mut m = "version `".to_owned();
                m.append(self.detail.as_str());
                m.append("` not installed");
                m
            },
            ErrorKind::InterpreterNotFound => {
                let mut m = "`python` not found in version `".to_owned();
                m.append(self.detail.as_str());
                m.append("`");
                m
            },
            ErrorKind::Io => self.detail.clone(),
        }
    }
}

} // verus!
