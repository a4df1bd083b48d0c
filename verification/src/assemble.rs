//! Invocation-time command construction.
//!
//! Given a validated declaration and one instance's field values, the
//! assembler resolves the program name and walks the fields in
//! declaration order, appending each field's tokens.  Construction is a
//! pure function of the instance: it cannot fail, mutates nothing, and
//! performs no I/O.  Handing the result to a process spawner is the
//! caller's business.

use vstd::prelude::*;

verus! {

use crate::decl::Executable;
use crate::decl::FieldDecl;
use crate::decl::RecordDecl;
use crate::decl::Role;
use crate::tokens::lemma_token_views_push;
use crate::tokens::token_views;
use crate::value::Value;

/// A spawnable command: a program name and its argument tokens, in
/// order.  Each token is an opaque string, passed through without shell
/// interpretation.
pub struct Cmd {
    pub program: String,
    pub args: Vec<String>,
}

/// Whether a value fits a role: flags take exactly a boolean, emitting
/// roles take any renderable value, plain data takes anything.
pub open spec fn role_accepts(role: Role, v: Value) -> bool {
    match role {
        Role::Positional => v.renderable(),
        Role::Opt(_) => v.renderable(),
        Role::Flag(_) => v is Truth,
        Role::Plain => true,
    }
}

/// The tokens one field contributes: its value's own tokens for a
/// positional, the name ahead of them for an option, the bare name for
/// a true flag, and nothing for a false flag or plain data.
pub open spec fn field_tokens(role: Role, v: Value) -> Seq<Seq<char>> {
    match role {
        Role::Positional => v.positional_tokens(),
        Role::Opt(name) => v.named_tokens(name@),
        Role::Flag(name) => if v matches Value::Truth(true) {
            seq![name@]
        } else {
            Seq::empty()
        },
        Role::Plain => Seq::empty(),
    }
}

/// The full token sequence of an instance: every field's tokens, in
/// declaration order.
pub open spec fn args_tokens(fields: Seq<FieldDecl>, vals: Seq<Value>) -> Seq<Seq<char>>
    decreases fields.len(),
{
    if fields.len() == 0 {
        Seq::empty()
    } else {
        args_tokens(fields.drop_last(), vals.drop_last()) + field_tokens(
            fields.last().role,
            vals.last(),
        )
    }
}

/// Resolve the program name: a fixed name is used verbatim; a computed
/// one comes from running the resolver against the instance, fresh on
/// every call.
pub fn resolve_program<F: Fn(&Vec<Value>) -> String>(
    executable: &Executable,
    vals: &Vec<Value>,
    resolver: F,
) -> (r: String)
    requires
        executable is Computed ==> call_requires(resolver, (vals,)),
    ensures
        executable matches Executable::Fixed(s) ==> r@ == s@,
        executable is Computed ==> call_ensures(resolver, (vals,), r),
{
    match executable {
        Executable::Fixed(s) => s.clone(),
        Executable::Computed(_) => resolver(vals),
    }
}

impl RecordDecl {
    /// Whether an instance's values line up with the declaration: one
    /// value per field, each fitting its role.
    pub open spec fn accepts(&self, vals: Seq<Value>) -> bool {
        &&& vals.len() == self.fields@.len()
        &&& forall|i: int|
            0 <= i < vals.len() ==> role_accepts(self.fields@[i].role, #[trigger] vals[i])
    }

    /// Check an instance against the declaration, for callers that
    /// cannot establish it otherwise.
    pub fn check_instance(&self, vals: &Vec<Value>) -> (r: bool)
        ensures
            r == self.accepts(vals@),
    {
        if vals.len() != self.fields.len() {
            return false;
        }
        let mut i: usize = 0;
        while i < self.fields.len()
            invariant
                i <= self.fields.len(),
                vals@.len() == self.fields@.len(),
                forall|k: int| 0 <= k < i ==> role_accepts(self.fields@[k].role, #[trigger] vals@[k]),
            decreases self.fields.len() - i,
        {
            let fits = match (&self.fields[i].role, &vals[i]) {
                (Role::Flag(_), Value::Truth(_)) => true,
                (Role::Flag(_), _) => false,
                (Role::Positional, v) => !matches!(v, Value::Truth(_)),
                (Role::Opt(_), v) => !matches!(v, Value::Truth(_)),
                (Role::Plain, _) => true,
            };
            if !fits {
                return false;
            }
            i += 1;
        }
        true
    }

    /// Produce the argument tokens of one instance, in declaration
    /// order.  Total: every failure mode was ruled out at declaration
    /// time, and `accepts` says the instance lines up.
    #[verifier::loop_isolation(false)]
    pub fn arguments(&self, vals: &Vec<Value>) -> (r: Vec<String>)
        requires
            self.accepts(vals@),
        ensures
            token_views(r@) == args_tokens(self.fields@, vals@),
    {
        let mut out: Vec<String> = Vec::new();
        let mut i: usize = 0;
        while i < self.fields.len()
            invariant
                i <= self.fields.len(),
                token_views(out@) == args_tokens(self.fields@.take(i as int), vals@.take(i as int)),
            decreases self.fields.len() - i,
        {
            match &self.fields[i].role {
                Role::Positional => {
                    vals[i].append_positional(&mut out);
                },
                Role::Opt(name) => {
                    vals[i].append_named(name.as_str(), &mut out);
                },
                Role::Flag(name) => {
                    match &vals[i] {
                        Value::Truth(true) => {
                            proof {
                                lemma_token_views_push(out@, *name);
                            }
                            out.push(name.clone());
                        },
                        _ => {},
                    }
                },
                Role::Plain => {},
            }
            proof {
                assert(self.fields@.take(i + 1).drop_last() =~= self.fields@.take(i as int));
                assert(vals@.take(i + 1).drop_last() =~= vals@.take(i as int));
                assert(self.fields@.take(i + 1).last() == self.fields@[i as int]);
                assert(vals@.take(i + 1).last() == vals@[i as int]);
                assert(token_views(out@) =~= args_tokens(
                    self.fields@.take(i + 1),
                    vals@.take(i + 1),
                ));
            }
            i += 1;
        }
        proof {
            assert(self.fields@.take(self.fields@.len() as int) =~= self.fields@);
            assert(vals@.take(vals@.len() as int) =~= vals@);
        }
        out
    }

    /// Build the full command for one instance: resolve the program,
    /// then assemble the arguments.  For a computed executable the
    /// caller supplies, as `resolver`, the function the declaration's
    /// `executable_fn` path names; it is run afresh on every build.
    pub fn build<F: Fn(&Vec<Value>) -> String>(&self, vals: &Vec<Value>, resolver: F) -> (c: Cmd)
        requires
            self.accepts(vals@),
            self.executable is Computed ==> call_requires(resolver, (vals,)),
        ensures
            token_views(c.args@) == args_tokens(self.fields@, vals@),
            self.executable matches Executable::Fixed(s) ==> c.program@ == s@,
            self.executable is Computed ==> call_ensures(resolver, (vals,), c.program),
    {
        let program = resolve_program(&self.executable, vals, resolver);
        let args = self.arguments(vals);
        Cmd { program, args }
    }
}

/// A type whose instances describe a runnable command.
pub trait Command {
    /// When an instance is fit to build from.
    spec fn wf(&self) -> bool;

    /// The program the instance resolves to.
    spec fn spec_program(&self) -> Seq<char>;

    /// The argument tokens the instance emits.
    spec fn spec_args(&self) -> Seq<Seq<char>>;

    /// Generate a spawnable command.
    fn command(&self) -> (c: Cmd)
        requires
            self.wf(),
        ensures
            c.program@ == self.spec_program(),
            token_views(c.args@) == self.spec_args(),
    ;
}

/// A record instance bound to its validated declaration, with a fixed
/// program name.  Computed programs carry a resolver and go through
/// `RecordDecl::build` instead.
pub struct Invocation {
    pub decl: RecordDecl,
    pub values: Vec<Value>,
}

impl Command for Invocation {
    open spec fn wf(&self) -> bool {
        &&& self.decl.accepts(self.values@)
        &&& self.decl.executable is Fixed
    }

    open spec fn spec_program(&self) -> Seq<char> {
        self.decl.executable->Fixed_0@
    }

    open spec fn spec_args(&self) -> Seq<Seq<char>> {
        args_tokens(self.decl.fields@, self.values@)
    }

    fn command(&self) -> (c: Cmd) {
        let program = match &self.decl.executable {
            Executable::Fixed(s) => s.clone(),
            Executable::Computed(_) => {
                proof {
                    assert(false);
                }
                String::new()
            },
        };
        let args = self.decl.arguments(&self.values);
        Cmd { program, args }
    }
}

} // verus!
