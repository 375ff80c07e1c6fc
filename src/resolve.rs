use vstd::prelude::*;
use vstd::utf8::{decode_utf8, valid_utf8};

use crate::env::{is_set, EnvSnapshot, Var};
use crate::error::{Error, ErrorKind};

verus! {

/// How much of a version file is read.
pub const VERSION_FILE_LIMIT: usize = 1024;

/// ASCII whitespace as `u8::is_ascii_whitespace` has it: space, tab, line
/// feed, form feed and carriage return.
pub open spec fn ascii_whitespace(b: u8) -> bool {
    b == 0x20u8 || b == 0x09u8 || b == 0x0Au8 || b == 0x0Cu8 || b == 0x0Du8
}

pub fn is_ascii_whitespace(b: u8) -> (r: bool)
    ensures
        r == ascii_whitespace(b),
{
    b == 0x20u8 || b == 0x09u8 || b == 0x0Au8 || b == 0x0Cu8 || b == 0x0Du8
}

/// The bytes with their leading whitespace removed.
pub open spec fn skip_whitespace(s: Seq<u8>) -> Seq<u8>
    decreases s.len(),
{
    if s.len() > 0 && ascii_whitespace(s[0]) {
        skip_whitespace(s.drop_first())
    } else {
        s
    }
}

/// The bytes before the first whitespace.
pub open spec fn first_word(s: Seq<u8>) -> Seq<u8>
    decreases s.len(),
{
    if s.len() == 0 || ascii_whitespace(s[0]) {
        Seq::empty()
    } else {
        seq![s[0]] + first_word(s.drop_first())
    }
}

/// The version token of a version file's content: the first word of its
/// first `VERSION_FILE_LIMIT` bytes.
pub open spec fn version_token(content: Seq<u8>) -> Seq<u8> {
    let head = if content.len() > VERSION_FILE_LIMIT {
        content.subrange(0, VERSION_FILE_LIMIT as int)
    } else {
        content
    };
    first_word(skip_whitespace(head))
}

proof fn lemma_skip_whitespace(s: Seq<u8>, i: int)
    requires
        0 <= i <= s.len(),
        forall|k: int| 0 <= k < i ==> ascii_whitespace(#[trigger] s[k]),
    ensures
        skip_whitespace(s) == skip_whitespace(s.subrange(i, s.len() as int)),
    decreases i,
{
    if i > 0 {
        assert(s.drop_first() =~= s.subrange(1, s.len() as int));
        let t = s.drop_first();
        assert forall|k: int| 0 <= k < i - 1 implies ascii_whitespace(#[trigger] t[k]) by {
            assert(t[k] == s[k + 1]);
        }
        lemma_skip_whitespace(t, i - 1);
        assert(t.subrange(i - 1, t.len() as int) =~= s.subrange(i, s.len() as int));
    } else {
        assert(s.subrange(0, s.len() as int) =~= s);
    }
}

proof fn lemma_first_word(s: Seq<u8>, i: int)
    requires
        0 <= i <= s.len(),
        forall|k: int| 0 <= k < i ==> !ascii_whitespace(#[trigger] s[k]),
    ensures
        first_word(s) == s.subrange(0, i) + first_word(s.subrange(i, s.len() as int)),
    decreases i,
{
    if i > 0 {
        let t = s.drop_first();
        assert forall|k: int| 0 <= k < i - 1 implies !ascii_whitespace(#[trigger] t[k]) by {
            assert(t[k] == s[k + 1]);
        }
        lemma_first_word(t, i - 1);
        assert(t.subrange(i - 1, t.len() as int) =~= s.subrange(i, s.len() as int));
        assert(seq![s[0]] + t.subrange(0, i - 1) =~= s.subrange(0, i));
        assert(seq![s[0]] + (t.subrange(0, i - 1) + first_word(s.subrange(i, s.len() as int)))
            =~= s.subrange(0, i) + first_word(s.subrange(i, s.len() as int)));
    } else {
        assert(s.subrange(0, s.len() as int) =~= s);
        assert(s.subrange(0, 0) + first_word(s) =~= first_word(s));
    }
}

/// The version token of a version file's content, as bytes.
pub fn version_token_bytes(content: &[u8]) -> (r: Vec<u8>)
    ensures
        r@ == version_token(content@),
{
    let n: usize = if content.len() > VERSION_FILE_LIMIT {
        VERSION_FILE_LIMIT
    } else {
        content.len()
    };
    let ghost head = content@.subrange(0, n as int);
    assert(head == if content@.len() > VERSION_FILE_LIMIT {
        content@.subrange(0, VERSION_FILE_LIMIT as int)
    } else {
        content@
    }) by {
        if content@.len() <= VERSION_FILE_LIMIT {
            assert(content@.subrange(0, n as int) =~= content@);
        }
    }
    let mut start: usize = 0;
    while start < n && is_ascii_whitespace(content[start])
        invariant
            start <= n <= content@.len(),
            head == content@.subrange(0, n as int),
            forall|k: int| 0 <= k < start ==> ascii_whitespace(#[trigger] head[k]),
        decreases n - start,
    {
        start = start + 1;
    }
    proof {
        lemma_skip_whitespace(head, start as int);
        let rest = head.subrange(start as int, n as int);
        if rest.len() > 0 {
            assert(rest[0] == head[start as int]);
        }
    }
    let ghost rest = head.subrange(start as int, n as int);
    assert(skip_whitespace(head) == rest);
    let mut word: Vec<u8> = Vec::new();
    let mut end: usize = start;
    while end < n && !is_ascii_whitespace(content[end])
        invariant
            start <= end <= n <= content@.len(),
            head == content@.subrange(0, n as int),
            rest == head.subrange(start as int, n as int),
            word@ == head.subrange(start as int, end as int),
            forall|k: int| 0 <= k < end - start ==> !ascii_whitespace(#[trigger] rest[k]),
        decreases n - end,
    {
        word.push(content[end]);
        end = end + 1;
        assert(word@ =~= head.subrange(start as int, end as int));
    }
    proof {
        let j = end - start;
        lemma_first_word(rest, j);
        let tail = rest.subrange(j, rest.len() as int);
        if tail.len() > 0 {
            assert(tail[0] == content@[end as int]);
        }
        assert(rest.subrange(0, j) =~= word@);
        assert(word@ + Seq::<u8>::empty() =~= word@);
    }
    word
}

/// Relies on `String::from_utf8`: it succeeds exactly on valid UTF-8, and the
/// string holds the characters that the bytes encode.
#[verifier::external_body]
fn string_from_utf8(bytes: Vec<u8>) -> (r: Option<String>)
    ensures
        r is Some <==> valid_utf8(bytes@),
        r is Some ==> r->Some_0@ == decode_utf8(bytes@),
{
    String::from_utf8(bytes).ok()
}

/// The version that a version file names: the first whitespace-delimited
/// word of its first `VERSION_FILE_LIMIT` bytes, which must be UTF-8. A file
/// of whitespace alone names no version.
pub fn pyenv_version_file_read(content: &[u8]) -> (r: Result<String, Error>)
    ensures
        r is Ok <==> version_token(content@).len() > 0 && valid_utf8(version_token(content@)),
        r is Ok ==> r->Ok_0@ == decode_utf8(version_token(content@)),
        r is Err ==> r->Err_0.kind == ErrorKind::Io,
{
    let word = version_token_bytes(content);
    if word.len() == 0 {
        return Err(Error::new(ErrorKind::Io, "version file names no version"));
    }
    match string_from_utf8(word) {
        Some(s) => Ok(s),
        None => Err(Error::new(ErrorKind::Io, "version file is not valid UTF-8")),
    }
}

/// The installation root, from `PYENV_ROOT`.
pub fn pyenv_root(env: &EnvSnapshot) -> (r: Result<String, Error>)
    ensures
        r is Ok <==> is_set(env.model(), Var::PyenvRoot),
        r is Ok ==> r->Ok_0@ == env.model()[Var::PyenvRoot],
        r is Err ==> r->Err_0.kind == ErrorKind::NoInstallationRoot && r->Err_0.detail@
            == Seq::<char>::empty(),
{
    match env.get(Var::PyenvRoot) {
        Some(root) => Ok(root),
        None => Err(Error { kind: ErrorKind::NoInstallationRoot, detail: String::new() }),
    }
}

/// The version that a version file's content names, or nothing where the
/// file is missing, unreadable, not UTF-8 or names no version.
pub open spec fn file_version(file: Option<Seq<u8>>) -> Option<Seq<char>> {
    match file {
        Some(c) => if version_token(c).len() > 0 && valid_utf8(version_token(c)) {
            Some(decode_utf8(version_token(c)))
        } else {
            None
        },
        None => None,
    }
}

/// The version in use where none is given: `PYENV_VERSION`, else what the
/// version file names, else `system`.
pub open spec fn default_version(env: EnvSnapshot, file: Option<Seq<u8>>) -> Seq<char> {
    if is_set(env.model(), Var::PyenvVersion) {
        env.model()[Var::PyenvVersion]
    } else if file_version(file) is Some {
        file_version(file)->Some_0
    } else {
        "system"@
    }
}

pub open spec fn bytes_view(file: Option<Vec<u8>>) -> Option<Seq<u8>> {
    match file {
        Some(v) => Some(v@),
        None => None,
    }
}

/// The version in use where none is given. `file` is the content of the
/// version file that applies (the nearest `.python-version` up from the
/// working directory, else `version` under the installation root), `None`
/// where there is none or it cannot be read.
pub fn pyenv_version_name(env: &EnvSnapshot, file: Option<Vec<u8>>) -> (r: String)
    ensures
        r@ == default_version(*env, bytes_view(file)),
        r@.len() > 0,
{
    proof {
        reveal_strlit("system");
        if let Some(c) = bytes_view(file) {
            if version_token(c).len() > 0 && valid_utf8(version_token(c)) {
                assert(decode_utf8(version_token(c)).len() > 0);
            }
        }
    }
    match env.get(Var::PyenvVersion) {
        Some(v) => v,
        None => {
            let from_file = match file {
                Some(content) => pyenv_version_file_read(content.as_slice()),
                None => Err(Error::new(ErrorKind::Io, "no version file")),
            };
            match from_file {
                Ok(v) => v,
                Err(_) => "system".to_owned(),
            }
        },
    }
}

/// The version to activate: the one given, where it is non-empty, else the
/// version in use.
pub fn resolve_version(explicit: Option<String>, env: &EnvSnapshot, file: Option<Vec<u8>>) -> (r:
    String)
    ensures
        r@ == (match explicit {
            Some(v) => if v@.len() > 0 { v@ } else { default_version(*env, bytes_view(file)) },
            None => default_version(*env, bytes_view(file)),
        }),
        r@.len() > 0,
{
    match crate::env::nonempty(explicit) {
        Some(v) => v,
        None => pyenv_version_name(env, file),
    }
}


/// Whether resolving needs the version file: only where neither a non-empty
/// version is given nor `PYENV_VERSION` names one.
pub fn needs_version_file(explicit: &Option<String>, env: &EnvSnapshot) -> (r: bool)
    ensures
        r == (!(explicit matches Some(v) && v@.len() > 0) && !is_set(env.model(), Var::PyenvVersion)),
{
    let given = match explicit {
        Some(v) => !v.as_str().is_empty(),
        None => false,
    };
    !given && env.get(Var::PyenvVersion).is_none()
}

} // verus!
