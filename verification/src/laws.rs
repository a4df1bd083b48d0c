//! Laws of command construction and validation, stated for all inputs.
//!
//! Each proof function here records one guarantee of the library as a
//! fact a caller may rely on, over the same spec functions the
//! executable contracts use.

use vstd::prelude::*;

verus! {

use crate::arg::Arg;
use crate::assemble::args_tokens;
use crate::assemble::field_tokens;
use crate::decl::Attr;
use crate::decl::DefError;
use crate::decl::Executable;
use crate::decl::FieldDecl;
use crate::decl::MetaEntry;
use crate::decl::RecordSource;
use crate::decl::Role;
use crate::decl::attr_command_entries;
use crate::decl::attr_role;
use crate::decl::entry_role;
use crate::decl::field_roles;
use crate::decl::scan_attrs_executable;
use crate::decl::scan_list_role;
use crate::decl::spec_field_role;
use crate::decl::spec_parse_record;
use crate::value::Scalar;
use crate::value::Value;

/// A record of one field emits exactly that field's tokens.
pub proof fn lemma_single_field(fields: Seq<FieldDecl>, vals: Seq<Value>)
    requires
        fields.len() == 1,
        vals.len() == 1,
    ensures
        args_tokens(fields, vals) == field_tokens(fields[0].role, vals[0]),
{
    assert(args_tokens(fields.drop_last(), vals.drop_last()) =~= Seq::<Seq<char>>::empty());
    assert(args_tokens(fields, vals) =~= field_tokens(fields[0].role, vals[0]));
}

/// A single positional text field emits the text itself as the one
/// token of the command line.
pub proof fn lemma_single_positional_text(fields: Seq<FieldDecl>, vals: Seq<Value>, v: String)
    requires
        fields.len() == 1,
        vals.len() == 1,
        fields[0].role == Role::Positional,
        vals[0] == Value::One(Scalar::Text(v)),
    ensures
        args_tokens(fields, vals) =~= seq![v@],
{
    lemma_single_field(fields, vals);
}

/// A single scalar field under an option role emits the option name
/// followed by the value's own token.
pub proof fn lemma_single_option_value(
    fields: Seq<FieldDecl>,
    vals: Seq<Value>,
    name: String,
    s: Scalar,
)
    requires
        fields.len() == 1,
        vals.len() == 1,
        fields[0].role == Role::Opt(name),
        vals[0] == Value::One(s),
    ensures
        args_tokens(fields, vals) =~= seq![name@] + s.arg_tokens(),
{
    lemma_single_field(fields, vals);
}

/// A single present optional under an option role emits the option name
/// followed by the value's own token.
pub proof fn lemma_single_option_present(
    fields: Seq<FieldDecl>,
    vals: Seq<Value>,
    name: String,
    s: Scalar,
)
    requires
        fields.len() == 1,
        vals.len() == 1,
        fields[0].role == Role::Opt(name),
        vals[0] == Value::Maybe(Some(s)),
    ensures
        args_tokens(fields, vals) =~= seq![name@] + s.arg_tokens(),
{
    lemma_single_field(fields, vals);
}

/// A single absent optional under an option role emits nothing at all:
/// the name token is withheld along with the value.
pub proof fn lemma_single_option_absent(fields: Seq<FieldDecl>, vals: Seq<Value>, name: String)
    requires
        fields.len() == 1,
        vals.len() == 1,
        fields[0].role == Role::Opt(name),
        vals[0] == Value::Maybe(None),
    ensures
        args_tokens(fields, vals) =~= Seq::<Seq<char>>::empty(),
{
    lemma_single_field(fields, vals);
}

/// A single flag field emits the bare name when true and nothing when
/// false.
pub proof fn lemma_single_flag(fields: Seq<FieldDecl>, vals: Seq<Value>, name: String, b: bool)
    requires
        fields.len() == 1,
        vals.len() == 1,
        fields[0].role == Role::Flag(name),
        vals[0] == Value::Truth(b),
    ensures
        args_tokens(fields, vals) =~= if b {
            seq![name@]
        } else {
            Seq::<Seq<char>>::empty()
        },
{
    lemma_single_field(fields, vals);
}

/// A two-element sequence under an option role repeats the option name
/// once per element, not once overall.
pub proof fn lemma_option_sequence_pair(
    fields: Seq<FieldDecl>,
    vals: Seq<Value>,
    name: String,
    items: Vec<Scalar>,
    s1: Scalar,
    s2: Scalar,
)
    requires
        fields.len() == 1,
        vals.len() == 1,
        fields[0].role == Role::Opt(name),
        vals[0] == Value::Many(items),
        items@ =~= seq![s1, s2],
    ensures
        args_tokens(fields, vals) =~= seq![name@] + s1.arg_tokens() + seq![name@]
            + s2.arg_tokens(),
{
    lemma_single_field(fields, vals);
    assert(items@.drop_last() =~= seq![s1]);
    assert(items@.last() == s2);
    assert(crate::arg::seq_option_tokens(items@, name@) == crate::arg::seq_option_tokens(
        seq![s1],
        name@,
    ) + s2.option_tokens(name@));
    assert(seq![s1].drop_last() =~= Seq::<Scalar>::empty());
    assert(seq![s1].last() == s1);
    assert(crate::arg::seq_option_tokens(Seq::<Scalar>::empty(), name@)
        == Seq::<Seq<char>>::empty());
    assert(Seq::<Seq<char>>::empty() + s1.option_tokens(name@) =~= s1.option_tokens(name@));
    assert(crate::arg::seq_option_tokens(seq![s1], name@) =~= s1.option_tokens(name@));
    assert(args_tokens(fields, vals) =~= seq![name@] + s1.arg_tokens() + seq![name@]
        + s2.arg_tokens());
}

/// Emission order follows declaration order: the tokens of a record
/// split as the tokens of its leading fields followed by the tokens of
/// the rest, whatever the mix of roles.
pub proof fn lemma_emission_order(
    f1: Seq<FieldDecl>,
    f2: Seq<FieldDecl>,
    v1: Seq<Value>,
    v2: Seq<Value>,
)
    requires
        f1.len() == v1.len(),
        f2.len() == v2.len(),
    ensures
        args_tokens(f1 + f2, v1 + v2) == args_tokens(f1, v1) + args_tokens(f2, v2),
    decreases f2.len(),
{
    if f2.len() == 0 {
        assert(f1 + f2 =~= f1);
        assert(v1 + v2 =~= v1);
        assert(args_tokens(f1, v1) + args_tokens(f2, v2) =~= args_tokens(f1, v1));
    } else {
        lemma_emission_order(f1, f2.drop_last(), v1, v2.drop_last());
        assert((f1 + f2).drop_last() =~= f1 + f2.drop_last());
        assert((v1 + v2).drop_last() =~= v1 + v2.drop_last());
        assert((f1 + f2).last() == f2.last());
        assert((v1 + v2).last() == v2.last());
        assert(args_tokens(f1, v1) + args_tokens(f2.drop_last(), v2.drop_last()) + field_tokens(
            f2.last().role,
            v2.last(),
        ) =~= args_tokens(f1, v1) + (args_tokens(f2.drop_last(), v2.drop_last()) + field_tokens(
            f2.last().role,
            v2.last(),
        )));
    }
}

/// A field whose one `arg` list carries two role-defining entries —
/// option and flag, in any combination — fails at declaration time with
/// a conflict naming the field.  Construction is never reached: it is
/// only defined for validated declarations.
pub proof fn lemma_conflicting_roles(f: crate::decl::FieldSource)
    requires
        f.attrs@.len() == 1,
        f.attrs@[0] matches Attr::List { outer: true, ident, entries } && ident@ == "arg"@
            && entries@.len() >= 2 && entry_role(entries@[0]) is Ok && entry_role(
            entries@[1],
        ) is Ok,
    ensures
        spec_field_role(f) == Err::<Role, DefError>(DefError::ConflictingRoles { field: f.name }),
{
    let entries = f.attrs@[0]->List_entries;
    let r0 = entry_role(entries@[0])->Ok_0;
    assert(entries@.first() == entries@[0]);
    assert(scan_list_role(entries@, None, f.name) == scan_list_role(
        entries@.drop_first(),
        Some(r0),
        f.name,
    ));
    assert(entries@.drop_first().len() >= 1);
    assert(entries@.drop_first().first() == entries@[1]);
    assert(scan_list_role(entries@, None, f.name) == Err::<Option<Role>, DefError>(
        DefError::ConflictingRoles { field: f.name },
    ));
    assert(f.attrs@.first() == f.attrs@[0]);
    assert(attr_role(f.attrs@[0], f.name) == Err::<Option<Role>, DefError>(
        DefError::ConflictingRoles { field: f.name },
    ));
    assert(field_roles(f.attrs@, f.name) == Err::<Seq<Role>, DefError>(
        DefError::ConflictingRoles { field: f.name },
    ));
}

proof fn lemma_scan_attrs_no_command(attrs: Seq<Attr>, acc: Option<Executable>)
    requires
        forall|i: int|
            0 <= i < attrs.len() ==> attr_command_entries(#[trigger] attrs[i])
                == Seq::<MetaEntry>::empty(),
    ensures
        scan_attrs_executable(attrs, acc) == Ok::<Option<Executable>, DefError>(acc),
    decreases attrs.len(),
{
    if attrs.len() > 0 {
        assert(attr_command_entries(attrs[0]) == Seq::<MetaEntry>::empty());
        assert(forall|i: int|
            0 <= i < attrs.drop_first().len() ==> attr_command_entries(
                #[trigger] attrs.drop_first()[i],
            ) == Seq::<MetaEntry>::empty()) by {
            assert(forall|i: int|
                0 <= i < attrs.drop_first().len() ==> #[trigger] attrs.drop_first()[i] == attrs[i
                    + 1]);
        }
        lemma_scan_attrs_no_command(attrs.drop_first(), acc);
    }
}

/// A record whose attributes contribute no `command` entry at all fails
/// at declaration time with a missing executable, whatever its fields
/// hold.
pub proof fn lemma_missing_executable(src: RecordSource)
    requires
        forall|i: int|
            0 <= i < src.attrs@.len() ==> attr_command_entries(#[trigger] src.attrs@[i])
                == Seq::<MetaEntry>::empty(),
    ensures
        spec_parse_record(src) == Err::<(Executable, Seq<FieldDecl>), DefError>(
            DefError::MissingExecutable,
        ),
{
    lemma_scan_attrs_no_command(src.attrs@, None);
}

} // verus!
