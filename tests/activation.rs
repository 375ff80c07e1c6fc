use pyenv_virtualenv_activate::{
    needs_version_file,
    nonempty, pyenv_prefix, pyenv_root, pyenv_sh_activate, pyenv_sh_deactivate,
    pyenv_version_file_read, pyenv_version_name, render_script, resolve_version, shell_output,
    CommonOpt, EnvSnapshot, ErrorKind, Mutation, Outcome, PrefixProbe, Var,
};

const PREFIX: &str = "/home/u/.pyenv/versions/3.11";

const DEACTIVATE_TAIL: &str = "unset PYENV_VIRTUAL_ENV;\n\
unset VIRTUAL_ENV;\n\
if [ -n \"$_OLD_VIRTUAL_PATH\" ]; then export PATH=\"$_OLD_VIRTUAL_PATH\"; unset _OLD_VIRTUAL_PATH; fi;\n\
if [ -n \"$_OLD_VIRTUAL_PYTHONHOME\" ]; then export PYTHONHOME=\"$_OLD_VIRTUAL_PYTHONHOME\"; unset _OLD_VIRTUAL_PYTHONHOME; fi;\n\
if declare -f deactivate >/dev/null 2>&1; then unset -f deactivate; fi;\n";

fn root_env() -> EnvSnapshot {
    EnvSnapshot {
        pyenv_root: Some("/home/u/.pyenv".to_string()),
        ..EnvSnapshot::default()
    }
}

fn good_probe() -> PrefixProbe {
    PrefixProbe {
        is_dir: true,
        canonical: Ok(PREFIX.to_string()),
        has_python: true,
        has_activate: true,
    }
}

fn s(x: &str) -> String {
    x.to_string()
}

fn slot(e: &mut EnvSnapshot, v: Var) -> &mut Option<String> {
    match v {
        Var::PyenvVersion => &mut e.pyenv_version,
        Var::PyenvRoot => &mut e.pyenv_root,
        Var::PyenvActivateShell => &mut e.pyenv_activate_shell,
        Var::PyenvVirtualEnv => &mut e.pyenv_virtual_env,
        Var::VirtualEnv => &mut e.virtual_env,
        Var::Path => &mut e.path,
        Var::OldVirtualPath => &mut e.old_virtual_path,
        Var::PythonHome => &mut e.pythonhome,
        Var::OldVirtualPythonHome => &mut e.old_virtual_pythonhome,
    }
}

/// The environment after the shell has run the statements.
fn apply(env: &EnvSnapshot, script: &[Mutation]) -> EnvSnapshot {
    let mut e = env.clone();
    for m in script {
        match m {
            Mutation::Export(v, x) => *slot(&mut e, *v) = Some(x.clone()),
            Mutation::Unset(v) => *slot(&mut e, *v) = None,
            Mutation::Restore(t, from) => {
                let saved = slot(&mut e, *from).clone();
                if let Some(val) = saved.filter(|x| !x.is_empty()) {
                    *slot(&mut e, *t) = Some(val);
                    *slot(&mut e, *from) = None;
                }
            }
            Mutation::UnsetDeactivate => {}
        }
    }
    e
}

fn script_of(r: &Result<Outcome, pyenv_virtualenv_activate::Error>) -> Vec<Mutation> {
    match r {
        Ok(Outcome::Apply(m)) => m.clone(),
        other => panic!("expected statements, got {:?}", other),
    }
}

#[test]
fn nonempty_drops_empty_and_missing() {
    assert_eq!(nonempty(None), None);
    assert_eq!(nonempty(Some(s(""))), None);
    assert_eq!(nonempty(Some(s("x"))), Some(s("x")));
}

#[test]
fn version_file_is_trimmed() {
    assert_eq!(pyenv_version_file_read(b"  2.7  \n").unwrap(), "2.7");
    assert_eq!(pyenv_version_file_read(b"3.8\tother\n").unwrap(), "3.8");
    assert_eq!(pyenv_version_file_read(b"").unwrap_err().kind, ErrorKind::Io);
    assert_eq!(pyenv_version_file_read(b"\n\r\x0c ").unwrap_err().kind, ErrorKind::Io);
}

#[test]
fn version_file_reads_only_its_head() {
    let mut content = vec![b' '; 1024];
    content.extend_from_slice(b"3.9");
    assert_eq!(pyenv_version_file_read(&content).unwrap_err().kind, ErrorKind::Io);
    let mut long = vec![b'a'; 1030];
    long.push(b'\n');
    assert_eq!(pyenv_version_file_read(&long).unwrap().len(), 1024);
}

#[test]
fn version_file_must_be_utf8() {
    let e = pyenv_version_file_read(&[b' ', 0xff, 0xfe]).unwrap_err();
    assert_eq!(e.kind, ErrorKind::Io);
    assert_eq!(pyenv_version_file_read("  pyé \n".as_bytes()).unwrap(), "pyé");
}

#[test]
fn version_falls_through_to_root_file() {
    let env = EnvSnapshot {
        pyenv_version: Some(s("")),
        ..root_env()
    };
    assert_eq!(pyenv_version_name(&env, Some(b"  2.7  \n".to_vec())), "2.7");
}

#[test]
fn version_override_wins_over_file() {
    let env = EnvSnapshot {
        pyenv_version: Some(s("3.11")),
        ..root_env()
    };
    assert_eq!(pyenv_version_name(&env, Some(b"2.7".to_vec())), "3.11");
}

#[test]
fn version_defaults_to_system() {
    assert_eq!(pyenv_version_name(&root_env(), None), "system");
    assert_eq!(pyenv_version_name(&root_env(), Some(vec![0xff])), "system");
}

#[test]
fn explicit_version_wins() {
    let env = EnvSnapshot {
        pyenv_version: Some(s("3.11")),
        ..root_env()
    };
    assert_eq!(resolve_version(Some(s("3.9")), &env, None), "3.9");
    assert_eq!(resolve_version(Some(s("")), &env, None), "3.11");
    assert_eq!(resolve_version(None, &env, None), "3.11");
}

#[test]
fn root_must_be_set() {
    assert_eq!(pyenv_root(&EnvSnapshot::default()).unwrap_err().kind, ErrorKind::NoInstallationRoot);
    let empty = EnvSnapshot {
        pyenv_root: Some(s("")),
        ..EnvSnapshot::default()
    };
    let e = pyenv_root(&empty).unwrap_err();
    assert_eq!(e.message(), "env `PYENV_ROOT` not found");
    assert_eq!(pyenv_root(&root_env()).unwrap(), "/home/u/.pyenv");
}

#[test]
fn prefix_checks_in_order() {
    let env = root_env();
    let v = s("3.11");
    assert_eq!(pyenv_prefix(&v, &env, &good_probe()).unwrap(), PREFIX);
    let e = pyenv_prefix(&s("system"), &env, &good_probe()).unwrap_err();
    assert_eq!(e.kind, ErrorKind::NotAVirtualEnvironment);
    let e = pyenv_prefix(&v, &EnvSnapshot::default(), &good_probe()).unwrap_err();
    assert_eq!(e.kind, ErrorKind::NoInstallationRoot);
    let e = pyenv_prefix(&v, &env, &PrefixProbe { is_dir: false, ..good_probe() }).unwrap_err();
    assert_eq!(e.kind, ErrorKind::VersionNotInstalled);
    assert_eq!(e.message(), "version `3.11` not installed");
    let probe = PrefixProbe { canonical: Err(s("permission denied")), ..good_probe() };
    let e = pyenv_prefix(&v, &env, &probe).unwrap_err();
    assert_eq!(e.kind, ErrorKind::Io);
    assert_eq!(e.message(), "permission denied");
    let e = pyenv_prefix(&v, &env, &PrefixProbe { has_python: false, ..good_probe() }).unwrap_err();
    assert_eq!(e.kind, ErrorKind::InterpreterNotFound);
    assert_eq!(e.message(), "`python` not found in version `3.11`");
    let e = pyenv_prefix(&v, &env, &PrefixProbe { has_activate: false, ..good_probe() }).unwrap_err();
    assert_eq!(e.kind, ErrorKind::NotAVirtualEnvironment);
    assert_eq!(e.message(), "version `3.11` is not a virtualenv");
}

#[test]
fn activate_from_clean_shell() {
    let env = EnvSnapshot {
        pyenv_version: Some(s("3.11")),
        ..root_env()
    };
    let version = resolve_version(None, &env, None);
    assert_eq!(version, "3.11");
    let r = pyenv_sh_activate(&version, false, &env, &good_probe());
    let expected = format!(
        "{}export PYENV_VERSION=\"3.11\";\n\
export PYENV_ACTIVATE_SHELL=\"1\";\n\
export PYENV_VIRTUAL_ENV=\"{p}\";\n\
export VIRTUAL_ENV=\"{p}\";\n",
        DEACTIVATE_TAIL,
        p = PREFIX
    );
    assert_eq!(shell_output(&r), expected);
    assert!(!shell_output(&r).contains("_OLD_VIRTUAL_PYTHONHOME=\""));
}

#[test]
fn activate_backs_up_pythonhome() {
    let env = EnvSnapshot {
        pythonhome: Some(s("/opt/py")),
        ..root_env()
    };
    let script = script_of(&pyenv_sh_activate(&s("3.11"), false, &env, &good_probe()));
    let n = script.len();
    assert_eq!(script[n - 2], Mutation::Export(Var::OldVirtualPythonHome, s("/opt/py")));
    assert_eq!(script[n - 1], Mutation::Unset(Var::PythonHome));
    assert!(render_script(&script).ends_with(
        "export _OLD_VIRTUAL_PYTHONHOME=\"/opt/py\";\nunset PYTHONHOME;\n"
    ));
}

#[test]
fn activate_twice_is_noop() {
    let env = root_env();
    let v = s("3.11");
    let first = pyenv_sh_activate(&v, false, &env, &good_probe());
    let after = apply(&env, &script_of(&first));
    let second = pyenv_sh_activate(&v, false, &after, &good_probe());
    assert_eq!(second, Ok(Outcome::AlreadyCurrent(s("3.11"))));
    assert_eq!(shell_output(&second), "true\n");
}

#[test]
fn already_active_at_prefix_is_true() {
    let env = EnvSnapshot {
        virtual_env: Some(s(PREFIX)),
        pyenv_virtual_env: Some(s(PREFIX)),
        pyenv_activate_shell: Some(s("1")),
        ..root_env()
    };
    let r = pyenv_sh_activate(&s("3.11"), false, &env, &good_probe());
    assert_eq!(shell_output(&r), "true\n");
    assert_eq!(
        r.unwrap().notice(),
        Some(s("version `3.11` is already activated"))
    );
}

#[test]
fn already_active_with_force_reactivates() {
    let env = EnvSnapshot {
        virtual_env: Some(s(PREFIX)),
        pyenv_virtual_env: Some(s(PREFIX)),
        pyenv_activate_shell: Some(s("1")),
        ..root_env()
    };
    let script = script_of(&pyenv_sh_activate(&s("3.11"), true, &env, &good_probe()));
    assert_eq!(script[0], Mutation::Unset(Var::PyenvVersion));
    assert_eq!(script[1], Mutation::Unset(Var::PyenvActivateShell));
    assert_eq!(script.len(), 11);
}

#[test]
fn externally_activated_is_left_alone() {
    let env = EnvSnapshot {
        virtual_env: Some(s("/work/venv")),
        ..root_env()
    };
    let r = pyenv_sh_activate(&s("3.11"), false, &env, &good_probe());
    assert_eq!(shell_output(&r), "true\n");
    assert_eq!(
        r.unwrap().notice(),
        Some(s("virtualenv `/work/venv` is already activated"))
    );
}

#[test]
fn system_is_not_a_virtualenv() {
    let r = pyenv_sh_activate(&s("system"), false, &root_env(), &good_probe());
    let e = r.clone().unwrap_err();
    assert_eq!(e.kind, ErrorKind::NotAVirtualEnvironment);
    assert_eq!(e.message(), "version `system` is not a virtualenv");
    assert_eq!(shell_output(&r), "false\n");
    let forced = pyenv_sh_activate(&s("system"), true, &root_env(), &good_probe());
    assert_eq!(forced.unwrap_err().kind, ErrorKind::NotAVirtualEnvironment);
}

#[test]
fn missing_version_not_installed() {
    let probe = PrefixProbe { is_dir: false, ..good_probe() };
    let r = pyenv_sh_activate(&s("3.0"), false, &root_env(), &probe);
    assert_eq!(r.unwrap_err().kind, ErrorKind::VersionNotInstalled);
}

#[test]
fn activate_without_root_fails() {
    let r = pyenv_sh_activate(&s("3.11"), false, &EnvSnapshot::default(), &good_probe());
    assert_eq!(r.unwrap_err().kind, ErrorKind::NoInstallationRoot);
}

#[test]
fn deactivate_nothing_active_fails() {
    let r = pyenv_sh_deactivate(false, &root_env());
    let e = r.clone().unwrap_err();
    assert_eq!(e.kind, ErrorKind::NothingActivated);
    assert_eq!(e.message(), "no virtualenv has been activated.");
    assert_eq!(shell_output(&r), "false\n");
}

#[test]
fn forced_deactivate_with_nothing_active() {
    let r = pyenv_sh_deactivate(true, &root_env());
    assert_eq!(shell_output(&r), DEACTIVATE_TAIL);
    let script = script_of(&r);
    assert!(script.contains(&Mutation::Unset(Var::PyenvVirtualEnv)));
    assert!(script.contains(&Mutation::Unset(Var::VirtualEnv)));
}

#[test]
fn deactivate_managed_clears_markers() {
    let env = EnvSnapshot {
        virtual_env: Some(s(PREFIX)),
        pyenv_virtual_env: Some(s(PREFIX)),
        pyenv_activate_shell: Some(s("1")),
        pyenv_version: Some(s("3.11")),
        ..root_env()
    };
    let r = pyenv_sh_deactivate(false, &env);
    let expected = format!("unset PYENV_VERSION;\nunset PYENV_ACTIVATE_SHELL;\n{}", DEACTIVATE_TAIL);
    assert_eq!(shell_output(&r), expected);
}

#[test]
fn deactivate_undoes_activate() {
    let env = EnvSnapshot {
        pythonhome: Some(s("/opt/py")),
        path: Some(s("/usr/bin")),
        ..root_env()
    };
    let active = apply(&env, &script_of(&pyenv_sh_activate(&s("3.11"), false, &env, &good_probe())));
    assert_eq!(active.virtual_env, Some(s(PREFIX)));
    assert_eq!(active.pyenv_virtual_env, Some(s(PREFIX)));
    assert_eq!(active.pyenv_version, Some(s("3.11")));
    assert_eq!(active.pyenv_activate_shell, Some(s("1")));
    assert_eq!(active.pythonhome, None);
    let done = apply(&active, &script_of(&pyenv_sh_deactivate(false, &active)));
    assert_eq!(done.virtual_env, None);
    assert_eq!(done.pyenv_virtual_env, None);
    assert_eq!(done.pyenv_version, None);
    assert_eq!(done.pyenv_activate_shell, None);
    assert_eq!(done.pythonhome, Some(s("/opt/py")));
    assert_eq!(done.old_virtual_pythonhome, None);
    assert_eq!(done.path, Some(s("/usr/bin")));
}

#[test]
fn restore_statement_text() {
    let script = vec![
        Mutation::Restore(Var::Path, Var::OldVirtualPath),
        Mutation::Export(Var::VirtualEnv, s("/x")),
        Mutation::Unset(Var::PythonHome),
        Mutation::UnsetDeactivate,
    ];
    assert_eq!(
        render_script(&script),
        "if [ -n \"$_OLD_VIRTUAL_PATH\" ]; then export PATH=\"$_OLD_VIRTUAL_PATH\"; unset _OLD_VIRTUAL_PATH; fi;\n\
export VIRTUAL_ENV=\"/x\";\n\
unset PYTHONHOME;\n\
if declare -f deactivate >/dev/null 2>&1; then unset -f deactivate; fi;\n"
    );
    assert_eq!(render_script(&Vec::new()), "");
}

#[test]
fn common_options_default() {
    let o = CommonOpt::default();
    assert!(!o.quiet && !o.force && o.version.is_none());
}

#[test]
fn whitespace_version_file_means_system() {
    assert_eq!(pyenv_version_name(&root_env(), Some(b" ".to_vec())), "system");
    assert_eq!(resolve_version(None, &root_env(), Some(b"\n\t\n".to_vec())), "system");
}

#[test]
fn version_file_needed_only_without_version() {
    let env = root_env();
    assert!(needs_version_file(&None, &env));
    assert!(needs_version_file(&Some(s("")), &env));
    assert!(!needs_version_file(&Some(s("3.9")), &env));
    let with_override = EnvSnapshot {
        pyenv_version: Some(s("3.11")),
        ..root_env()
    };
    assert!(!needs_version_file(&None, &with_override));
}

#[test]
fn already_active_is_not_checked_again() {
    let env = EnvSnapshot {
        virtual_env: Some(s(PREFIX)),
        pyenv_virtual_env: Some(s(PREFIX)),
        pyenv_activate_shell: Some(s("1")),
        ..root_env()
    };
    let no_python = PrefixProbe { has_python: false, ..good_probe() };
    let r = pyenv_sh_activate(&s("3.11"), false, &env, &no_python);
    assert_eq!(r, Ok(Outcome::AlreadyCurrent(s("3.11"))));
    assert_eq!(shell_output(&r), "true\n");
    let no_activate = PrefixProbe { has_activate: false, ..good_probe() };
    let r = pyenv_sh_activate(&s("3.11"), false, &env, &no_activate);
    assert_eq!(shell_output(&r), "true\n");
    let forced = pyenv_sh_activate(&s("3.11"), true, &env, &no_python);
    assert_eq!(forced.unwrap_err().kind, ErrorKind::InterpreterNotFound);
}

#[test]
fn empty_canonical_path_is_an_error() {
    let probe = PrefixProbe { canonical: Ok(s("")), ..good_probe() };
    let e = pyenv_prefix(&s("3.11"), &root_env(), &probe).unwrap_err();
    assert_eq!(e.kind, ErrorKind::Io);
    let r = pyenv_sh_activate(&s("3.11"), false, &root_env(), &probe);
    assert_eq!(r.unwrap_err().kind, ErrorKind::Io);
}
