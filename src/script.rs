use vstd::prelude::*;

use crate::env::{is_set, var_name, EnvModel, Var};

verus! {

/// One statement of the script that the calling shell evaluates.
#[derive(Clone, Debug, PartialEq, Eq)]
pub enum Mutation {
    /// `export NAME="value";`
    Export(Var, String),
    /// `unset NAME;`
    Unset(Var),
    /// Where the slot holds a non-empty value when the shell runs the script,
    /// the target takes that value and the slot is unset.
    Restore(Var, Var),
    /// Where the shell defines a function `deactivate`, it is removed.
    UnsetDeactivate,
}

/// A mutation with its value as a sequence of characters.
pub enum MutationModel {
    Export(Var, Seq<char>),
    Unset(Var),
    Restore(Var, Var),
    UnsetDeactivate,
}

impl View for Mutation {
    type V = MutationModel;

    open spec fn view(&self) -> MutationModel {
        match self {
            Mutation::Export(v, s) => MutationModel::Export(*v, s@),
            Mutation::Unset(v) => MutationModel::Unset(*v),
            Mutation::Restore(t, s) => MutationModel::Restore(*t, *s),
            Mutation::UnsetDeactivate => MutationModel::UnsetDeactivate,
        }
    }
}

pub open spec fn script_view(s: Seq<Mutation>) -> Seq<MutationModel> {
    s.map_values(|m: Mutation| m@)
}

/// The environment after the shell has run one statement.
pub open spec fn apply_mutation(env: EnvModel, m: MutationModel) -> EnvModel {
    match m {
        MutationModel::Export(v, s) => env.insert(v, s),
        MutationModel::Unset(v) => env.remove(v),
        MutationModel::Restore(target, slot) => if is_set(env, slot) {
            env.insert(target, env[slot]).remove(slot)
        } else {
            env
        },
        MutationModel::UnsetDeactivate => env,
    }
}

/// The environment after the shell has run a whole script, in order.
pub open spec fn apply_script(env: EnvModel, s: Seq<MutationModel>) -> EnvModel
    decreases s.len(),
{
    if s.len() == 0 {
        env
    } else {
        apply_script(apply_mutation(env, s[0]), s.drop_first())
    }
}

/// The text of one statement, without its line end.
pub open spec fn mutation_text(m: MutationModel) -> Seq<char> {
    match m {
        MutationModel::Export(v, s) => "export "@ + var_name(v) + "=\""@ + s + "\";"@,
        MutationModel::Unset(v) => "unset "@ + var_name(v) + ";"@,
        MutationModel::Restore(t, s) => "if [ -n \"$"@ + var_name(s) + "\" ]; then export "@
            + var_name(t) + "=\"$"@ + var_name(s) + "\"; unset "@ + var_name(s)
            + "; fi;"@,
        MutationModel::UnsetDeactivate =>
            "if declare -f deactivate >/dev/null 2>&1; then unset -f deactivate; fi;"@,
    }
}

/// The text of a script: each statement on a line of its own.
pub open spec fn script_text(s: Seq<MutationModel>) -> Seq<char>
    decreases s.len(),
{
    if s.len() == 0 {
        Seq::empty()
    } else {
        script_text(s.drop_last()) + mutation_text(s.last()) + "\n"@
    }
}

impl Mutation {
    /// Appends this statement's text to `out`.
    pub fn write_to(&self, out: &mut String)
        ensures
            final(out)@ == old(out)@ + mutation_text(self@),
    {
        match self {
            Mutation::Export(v, s) => {
                out.append("export ");
                out.append(v.name());
                out.append("=\"");
                out.append(s.as_str());
                out.append("\";");
            },
            Mutation::Unset(v) => {
                out.append("unset ");
                out.append(v.name());
                out.append(";");
            },
            Mutation::Restore(t, s) => {
                out.append("if [ -n \"$");
                out.append(s.name());
                out.append("\" ]; then export ");
                out.append(t.name());
                out.append("=\"$");
                out.append(s.name());
                out.append("\"; unset ");
                out.append(s.name());
                out.append("; fi;");
            },
            Mutation::UnsetDeactivate => {
                out.append("if declare -f deactivate >/dev/null 2>&1; then unset -f deactivate; fi;");
            },
        }
    }
}

/// The text of a script, in order, one statement per line.
pub fn render_script(s: &Vec<Mutation>) -> (r: String)
    ensures
        r@ == script_text(script_view(s@)),
{
    let mut out = String::new();
    let mut i: usize = 0;
    while i < s.len()
        invariant
            i <= s@.len(),
            out@ == script_text(script_view(s@.subrange(0, i as int))),
        decreases s@.len() - i,
    {
        s[i].write_to(&mut out);
        out.append("\n");
        proof {
            let next = script_view(s@.subrange(0, i + 1));
            assert(next.drop_last() =~= script_view(s@.subrange(0, i as int)));
            assert(next.last() == s@[i as int]@);
        }
        i = i + 1;
    }
    assert(s@.subrange(0, s@.len() as int) =~= s@);
    out
}


/// Whether running the statement can change the variable.
pub open spec fn touches(m: MutationModel, v: Var) -> bool {
    match m {
        MutationModel::Export(w, _) => w == v,
        MutationModel::Unset(w) => w == v,
        MutationModel::Restore(t, s) => t == v || s == v,
        MutationModel::UnsetDeactivate => false,
    }
}

/// Running two scripts one after the other is running their concatenation.
pub proof fn lemma_apply_concat(env: EnvModel, a: Seq<MutationModel>, b: Seq<MutationModel>)
    ensures
        apply_script(env, a + b) == apply_script(apply_script(env, a), b),
    decreases a.len(),
{
    if a.len() == 0 {
        assert(a + b =~= b);
    } else {
        assert((a + b).drop_first() =~= a.drop_first() + b);
        lemma_apply_concat(apply_mutation(env, a[0]), a.drop_first(), b);
    }
}

/// A script whose statements do not touch a variable leaves it as it was.
pub proof fn lemma_apply_frame(env: EnvModel, s: Seq<MutationModel>, v: Var)
    requires
        forall|i: int| 0 <= i < s.len() ==> !touches(#[trigger] s[i], v),
    ensures
        apply_script(env, s).contains_key(v) == env.contains_key(v),
        env.contains_key(v) ==> apply_script(env, s)[v] == env[v],
    decreases s.len(),
{
    if s.len() > 0 {
        let t = s.drop_first();
        assert forall|i: int| 0 <= i < t.len() implies !touches(#[trigger] t[i], v) by {
            assert(t[i] == s[i + 1]);
        }
        assert(!touches(s[0], v));
        lemma_apply_frame(apply_mutation(env, s[0]), t, v);
    }
}


/// Two environments give a variable the same standing: both leave it unset,
/// or both set it to the same value.
pub open spec fn agrees_at(a: EnvModel, b: EnvModel, v: Var) -> bool {
    a.contains_key(v) == b.contains_key(v) && (a.contains_key(v) ==> a[v] == b[v])
}

/// A script that touches a variable and its backup slot only by restoring
/// the one from the other leaves both as they were, where the slot is not set.
pub proof fn lemma_apply_restore_frame(env: EnvModel, s: Seq<MutationModel>, t: Var, slot: Var)
    requires
        t != slot,
        !is_set(env, slot),
        forall|i: int|
            0 <= i < s.len() ==> #[trigger] s[i] == MutationModel::Restore(t, slot) || (!touches(
                s[i],
                t,
            ) && !touches(s[i], slot)),
    ensures
        agrees_at(apply_script(env, s), env, t),
        agrees_at(apply_script(env, s), env, slot),
    decreases s.len(),
{
    if s.len() > 0 {
        let t2 = s.drop_first();
        assert forall|i: int| 0 <= i < t2.len() implies #[trigger] t2[i] == MutationModel::Restore(
            t,
            slot,
        ) || (!touches(t2[i], t) && !touches(t2[i], slot)) by {
            assert(t2[i] == s[i + 1]);
        }
        let next = apply_mutation(env, s[0]);
        assert(s[0] == MutationModel::Restore(t, slot) || (!touches(s[0], t) && !touches(s[0], slot)));
        assert(agrees_at(next, env, t) && agrees_at(next, env, slot));
        assert(!is_set(next, slot));
        lemma_apply_restore_frame(next, t2, t, slot);
    }
}

} // verus!
