//! Declaration-time annotation grammar and its validator.
//!
//! A record registers itself by describing its annotation surface: the
//! attributes on the record type and on each named field.  Validation
//! walks that surface once and yields a `RecordDecl` — the executable to
//! run and one role per field, in declaration order — or a definition
//! error.  Construction never re-validates: every failure mode lives
//! here.
//!
//! The accepted grammar is closed:
//! - on the record: `command(executable = "...")` for a fixed program, or
//!   `command(executable_fn = path)` for a resolver run per instance;
//! - on a field: a bare `arg` marker (positional), `arg(option = "...")`,
//!   or `arg(flag = "...")`; a field with none of these carries no
//!   command-line representation.

use vstd::prelude::*;

verus! {


/// The argument role of one field.
#[derive(Debug, PartialEq, Eq)]
pub enum Role {
    /// Emitted as the value's own tokens, in place.
    Positional,
    /// Emitted as the option name ahead of the value's tokens.
    Opt(String),
    /// Emitted as the name alone when the boolean value is true.
    Flag(String),
    /// Not emitted at all: ordinary data on the record.
    Plain,
}

/// How the program name of a command is found.
#[derive(Debug, PartialEq, Eq)]
pub enum Executable {
    /// A fixed program name, used verbatim.
    Fixed(String),
    /// A resolver, named by its path, run against each instance.
    Computed(String),
}

/// One validated field: its name and its role.
#[derive(Debug, PartialEq, Eq)]
pub struct FieldDecl {
    pub name: String,
    pub role: Role,
}

/// A validated record declaration.
#[derive(Debug)]
pub struct RecordDecl {
    pub executable: Executable,
    pub fields: Vec<FieldDecl>,
}

/// A definition error, found once at declaration time.
#[derive(Debug, PartialEq, Eq)]
pub enum DefError {
    /// No executable annotation stands on the record.
    MissingExecutable,
    /// More than one executable annotation stands on the record.
    ConflictingExecutable,
    /// A field carries more than one role-defining annotation.
    ConflictingRoles { field: String },
    /// An annotation or sub-key outside the closed grammar.
    UnsupportedAttribute,
    /// The record is not a plain named-field record.
    UnsupportedFieldShape,
}

/// One `key = value` item inside an annotation list.
pub enum MetaEntry {
    /// `key = "literal"`.
    StrPair { key: String, value: String },
    /// `key = path`: a reference to a function.
    FnRef { key: String, path: String },
    /// A bare key with no value.
    Lone { key: String },
}

/// One attribute as it stands on the record or on a field.
pub enum Attr {
    /// `ident(entries...)`; `outer` is false for inner-style attributes.
    List { outer: bool, ident: String, entries: Vec<MetaEntry> },
    /// A bare `ident` marker.
    Marker { outer: bool, ident: String },
    /// Any attribute of another shape; always passed through.
    Other,
}

/// One field of the record source: its name and its attributes.
pub struct FieldSource {
    pub name: String,
    pub attrs: Vec<Attr>,
}

/// The shape of the record type itself.
pub enum RecordShape {
    /// A plain record with named fields, in declaration order.
    Named(Vec<FieldSource>),
    /// Anything else: tuple-style, unit, or an enum.
    Unsupported,
}

/// The annotation surface of one record type.
pub struct RecordSource {
    pub attrs: Vec<Attr>,
    pub shape: RecordShape,
}

// ---------------------------------------------------------------------
// The grammar, as spec functions.

/// What one entry of a `command(...)` list declares.
pub open spec fn entry_executable(e: MetaEntry) -> Result<Executable, DefError> {
    match e {
        MetaEntry::StrPair { key, value } => if key@ == "executable"@ {
            Ok(Executable::Fixed(value))
        } else {
            Err(DefError::UnsupportedAttribute)
        },
        MetaEntry::FnRef { key, path } => if key@ == "executable_fn"@ {
            Ok(Executable::Computed(path))
        } else {
            Err(DefError::UnsupportedAttribute)
        },
        MetaEntry::Lone { .. } => Err(DefError::UnsupportedAttribute),
    }
}

/// Scan the entries of one `command(...)` list, left to right, on top of
/// what earlier lists declared.  A second declaration conflicts.
pub open spec fn scan_executable(entries: Seq<MetaEntry>, acc: Option<Executable>) -> Result<
    Option<Executable>,
    DefError,
>
    decreases entries.len(),
{
    if entries.len() == 0 {
        Ok(acc)
    } else {
        match entry_executable(entries.first()) {
            Err(e) => Err(e),
            Ok(ex) => if acc is Some {
                Err(DefError::ConflictingExecutable)
            } else {
                scan_executable(entries.drop_first(), Some(ex))
            },
        }
    }
}

/// The entries an attribute contributes to the executable scan: those of
/// a `command(...)` list, of either style; nothing otherwise.
pub open spec fn attr_command_entries(a: Attr) -> Seq<MetaEntry> {
    match a {
        Attr::List { ident, entries, .. } => if ident@ == "command"@ {
            entries@
        } else {
            Seq::empty()
        },
        _ => Seq::empty(),
    }
}

/// Scan all record attributes, left to right.
pub open spec fn scan_attrs_executable(attrs: Seq<Attr>, acc: Option<Executable>) -> Result<
    Option<Executable>,
    DefError,
>
    decreases attrs.len(),
{
    if attrs.len() == 0 {
        Ok(acc)
    } else {
        match scan_executable(attr_command_entries(attrs.first()), acc) {
            Err(e) => Err(e),
            Ok(acc2) => scan_attrs_executable(attrs.drop_first(), acc2),
        }
    }
}

/// The executable a record's attributes declare: exactly one must stand.
pub open spec fn spec_parse_executable(attrs: Seq<Attr>) -> Result<Executable, DefError> {
    match scan_attrs_executable(attrs, None) {
        Err(e) => Err(e),
        Ok(None) => Err(DefError::MissingExecutable),
        Ok(Some(ex)) => Ok(ex),
    }
}

/// What one entry of an `arg(...)` list declares.
pub open spec fn entry_role(e: MetaEntry) -> Result<Role, DefError> {
    match e {
        MetaEntry::StrPair { key, value } => if key@ == "option"@ {
            Ok(Role::Opt(value))
        } else if key@ == "flag"@ {
            Ok(Role::Flag(value))
        } else {
            Err(DefError::UnsupportedAttribute)
        },
        _ => Err(DefError::UnsupportedAttribute),
    }
}

/// Scan the entries of one `arg(...)` list, left to right.  A second
/// role inside one list conflicts at once.
pub open spec fn scan_list_role(entries: Seq<MetaEntry>, acc: Option<Role>, fname: String) -> Result<
    Option<Role>,
    DefError,
>
    decreases entries.len(),
{
    if entries.len() == 0 {
        Ok(acc)
    } else {
        match entry_role(entries.first()) {
            Err(e) => Err(e),
            Ok(role) => if acc is Some {
                Err(DefError::ConflictingRoles { field: fname })
            } else {
                scan_list_role(entries.drop_first(), Some(role), fname)
            },
        }
    }
}

/// The role one attribute assigns to its field, if any.  Only outer
/// `arg` attributes take part; every other attribute is passed through.
pub open spec fn attr_role(a: Attr, fname: String) -> Result<Option<Role>, DefError> {
    match a {
        Attr::Marker { outer, ident } => if outer && ident@ == "arg"@ {
            Ok(Some(Role::Positional))
        } else {
            Ok(None)
        },
        Attr::List { outer, ident, entries } => if outer && ident@ == "arg"@ {
            scan_list_role(entries@, None, fname)
        } else {
            Ok(None)
        },
        Attr::Other => Ok(None),
    }
}

/// All roles a field's attributes assign, in order, stopping at the
/// first ill-formed attribute.
pub open spec fn field_roles(attrs: Seq<Attr>, fname: String) -> Result<Seq<Role>, DefError>
    decreases attrs.len(),
{
    if attrs.len() == 0 {
        Ok(Seq::empty())
    } else {
        match attr_role(attrs.first(), fname) {
            Err(e) => Err(e),
            Ok(head) => match field_roles(attrs.drop_first(), fname) {
                Err(e) => Err(e),
                Ok(rest) => Ok(
                    match head {
                        Some(r) => seq![r] + rest,
                        None => rest,
                    },
                ),
            },
        }
    }
}

/// The role of one field: none of the role-defining tags means plain
/// data; more than one, wherever they stand, conflicts.
pub open spec fn spec_field_role(f: FieldSource) -> Result<Role, DefError> {
    match field_roles(f.attrs@, f.name) {
        Err(e) => Err(e),
        Ok(roles) => if roles.len() == 0 {
            Ok(Role::Plain)
        } else if roles.len() == 1 {
            Ok(roles[0])
        } else {
            Err(DefError::ConflictingRoles { field: f.name })
        },
    }
}

/// The declarations of all fields, in declaration order, stopping at the
/// first field in error.
pub open spec fn spec_parse_fields(fields: Seq<FieldSource>) -> Result<Seq<FieldDecl>, DefError>
    decreases fields.len(),
{
    if fields.len() == 0 {
        Ok(Seq::empty())
    } else {
        match spec_field_role(fields.first()) {
            Err(e) => Err(e),
            Ok(role) => match spec_parse_fields(fields.drop_first()) {
                Err(e) => Err(e),
                Ok(rest) => Ok(seq![FieldDecl { name: fields.first().name, role }] + rest),
            },
        }
    }
}

/// The full validation: the executable first, then the shape, then every
/// field in order.
pub open spec fn spec_parse_record(src: RecordSource) -> Result<
    (Executable, Seq<FieldDecl>),
    DefError,
> {
    match spec_parse_executable(src.attrs@) {
        Err(e) => Err(e),
        Ok(ex) => match src.shape {
            RecordShape::Named(fs) => match spec_parse_fields(fs@) {
                Err(e) => Err(e),
                Ok(fields) => Ok((ex, fields)),
            },
            RecordShape::Unsupported => Err(DefError::UnsupportedFieldShape),
        },
    }
}

// ---------------------------------------------------------------------
// The validator.

/// Whether `key` reads as the literal `lit`.
fn key_is(key: &String, lit: &str) -> (r: bool)
    ensures
        r == (key@ == lit@),
{
    key.eq(&lit.to_owned())
}

/// Scan one `command(...)` list on top of what earlier lists declared.
fn scan_command_list(entries: &Vec<MetaEntry>, acc: Option<Executable>) -> (r: Result<
    Option<Executable>,
    DefError,
>)
    ensures
        r == scan_executable(entries@, acc),
{
    let mut cur = acc;
    let mut j: usize = 0;
    assert(entries@.skip(0) =~= entries@);
    while j < entries.len()
        invariant
            j <= entries.len(),
            scan_executable(entries@, acc) == scan_executable(entries@.skip(j as int), cur),
        decreases entries.len() - j,
    {
        proof {
            assert(entries@.skip(j as int).first() == entries@[j as int]);
            assert(entries@.skip(j as int).drop_first() =~= entries@.skip(j + 1));
        }
        let step: Executable = match &entries[j] {
            MetaEntry::StrPair { key, value } => {
                if key_is(key, "executable") {
                    Executable::Fixed(value.clone())
                } else {
                    return Err(DefError::UnsupportedAttribute);
                }
            },
            MetaEntry::FnRef { key, path } => {
                if key_is(key, "executable_fn") {
                    Executable::Computed(path.clone())
                } else {
                    return Err(DefError::UnsupportedAttribute);
                }
            },
            MetaEntry::Lone { .. } => {
                return Err(DefError::UnsupportedAttribute);
            },
        };
        if cur.is_some() {
            return Err(DefError::ConflictingExecutable);
        }
        cur = Some(step);
        j += 1;
    }
    assert(entries@.skip(entries@.len() as int) =~= Seq::<MetaEntry>::empty());
    Ok(cur)
}

/// Read the executable the record attributes declare.  This is the
/// record-level half of validation: exactly one `command` executable
/// entry must stand, of either form.
pub fn parse_executable(attrs: &Vec<Attr>) -> (r: Result<Executable, DefError>)
    ensures
        r == spec_parse_executable(attrs@),
{
    let mut cur: Option<Executable> = None;
    let mut i: usize = 0;
    assert(attrs@.skip(0) =~= attrs@);
    while i < attrs.len()
        invariant
            i <= attrs.len(),
            scan_attrs_executable(attrs@, None) == scan_attrs_executable(
                attrs@.skip(i as int),
                cur,
            ),
        decreases attrs.len() - i,
    {
        proof {
            assert(attrs@.skip(i as int).first() == attrs@[i as int]);
            assert(attrs@.skip(i as int).drop_first() =~= attrs@.skip(i + 1));
        }
        match &attrs[i] {
            Attr::List { ident, entries, .. } => {
                if key_is(ident, "command") {
                    match scan_command_list(entries, cur) {
                        Ok(acc2) => {
                            cur = acc2;
                        },
                        Err(e) => {
                            return Err(e);
                        },
                    }
                }
            },
            _ => {},
        }
        i += 1;
    }
    assert(attrs@.skip(attrs@.len() as int) =~= Seq::<Attr>::empty());
    match cur {
        Some(ex) => Ok(ex),
        None => Err(DefError::MissingExecutable),
    }
}

/// Scan one `arg(...)` list for the role it assigns.
fn scan_arg_list(entries: &Vec<MetaEntry>, fname: &String) -> (r: Result<Option<Role>, DefError>)
    ensures
        r == scan_list_role(entries@, None, *fname),
{
    let mut cur: Option<Role> = None;
    let mut j: usize = 0;
    assert(entries@.skip(0) =~= entries@);
    while j < entries.len()
        invariant
            j <= entries.len(),
            scan_list_role(entries@, None, *fname) == scan_list_role(
                entries@.skip(j as int),
                cur,
                *fname,
            ),
        decreases entries.len() - j,
    {
        proof {
            assert(entries@.skip(j as int).first() == entries@[j as int]);
            assert(entries@.skip(j as int).drop_first() =~= entries@.skip(j + 1));
        }
        let step: Role = match &entries[j] {
            MetaEntry::StrPair { key, value } => {
                if key_is(key, "option") {
                    Role::Opt(value.clone())
                } else if key_is(key, "flag") {
                    Role::Flag(value.clone())
                } else {
                    return Err(DefError::UnsupportedAttribute);
                }
            },
            _ => {
                return Err(DefError::UnsupportedAttribute);
            },
        };
        if cur.is_some() {
            return Err(DefError::ConflictingRoles { field: fname.clone() });
        }
        cur = Some(step);
        j += 1;
    }
    assert(entries@.skip(entries@.len() as int) =~= Seq::<MetaEntry>::empty());
    Ok(cur)
}

/// The role one attribute assigns to the field named `fname`, if any.
fn attr_role_step(a: &Attr, fname: &String) -> (r: Result<Option<Role>, DefError>)
    ensures
        r == attr_role(*a, *fname),
{
    match a {
        Attr::Marker { outer, ident } => {
            if *outer && key_is(ident, "arg") {
                Ok(Some(Role::Positional))
            } else {
                Ok(None)
            }
        },
        Attr::List { outer, ident, entries } => {
            if *outer && key_is(ident, "arg") {
                scan_arg_list(entries, fname)
            } else {
                Ok(None)
            }
        },
        Attr::Other => Ok(None),
    }
}

/// Read the role of one field from its attributes.  This is the
/// field-level half of validation: at most one role-defining tag may
/// stand on a field, and every tag must come from the closed grammar.
pub fn field_role(f: &FieldSource) -> (r: Result<Role, DefError>)
    ensures
        r == spec_field_role(*f),
{
    let mut roles: Vec<Role> = Vec::new();
    let mut i: usize = 0;
    proof {
        assert(f.attrs@.skip(0) =~= f.attrs@);
        match field_roles(f.attrs@, f.name) {
            Ok(rest) => {
                assert(Seq::<Role>::empty() + rest =~= rest);
            },
            Err(_) => {},
        }
    }
    while i < f.attrs.len()
        invariant
            i <= f.attrs.len(),
            field_roles(f.attrs@, f.name) == (match field_roles(f.attrs@.skip(i as int), f.name) {
                Err(e) => Err(e),
                Ok(rest) => Ok(roles@ + rest),
            }),
        decreases f.attrs.len() - i,
    {
        proof {
            assert(f.attrs@.skip(i as int).first() == f.attrs@[i as int]);
            assert(f.attrs@.skip(i as int).drop_first() =~= f.attrs@.skip(i + 1));
        }
        match attr_role_step(&f.attrs[i], &f.name) {
            Err(e) => {
                return Err(e);
            },
            Ok(None) => {},
            Ok(Some(role)) => {
                proof {
                    match field_roles(f.attrs@.skip(i + 1), f.name) {
                        Ok(rest) => {
                            assert((roles@.push(role)) + rest =~= roles@ + (seq![role] + rest));
                        },
                        Err(_) => {},
                    }
                }
                roles.push(role);
            },
        }
        i += 1;
    }
    proof {
        assert(f.attrs@.skip(f.attrs@.len() as int) =~= Seq::<Attr>::empty());
        assert(roles@ + Seq::<Role>::empty() =~= roles@);
    }
    if roles.len() == 0 {
        Ok(Role::Plain)
    } else if roles.len() == 1 {
        Ok(roles.remove(0))
    } else {
        Err(DefError::ConflictingRoles { field: f.name.clone() })
    }
}

/// Validate a whole record source: the executable, the shape, then each
/// field in declaration order.  Every definition error of the taxonomy
/// comes from here; building a command from a validated declaration
/// cannot fail.
#[verifier::loop_isolation(false)]
pub fn parse_record(src: &RecordSource) -> (r: Result<RecordDecl, DefError>)
    ensures
        match r {
            Ok(d) => spec_parse_record(*src) matches Ok(p) && d.executable == p.0 && d.fields@
                == p.1,
            Err(e) => spec_parse_record(*src) matches Err(pe) && e == pe,
        },
{
    let executable = match parse_executable(&src.attrs) {
        Ok(ex) => ex,
        Err(e) => {
            return Err(e);
        },
    };
    let fsources: &Vec<FieldSource> = match &src.shape {
        RecordShape::Named(fs) => fs,
        RecordShape::Unsupported => {
            return Err(DefError::UnsupportedFieldShape);
        },
    };
    let mut fields: Vec<FieldDecl> = Vec::new();
    let mut i: usize = 0;
    proof {
        assert(fsources@.skip(0) =~= fsources@);
        match spec_parse_fields(fsources@) {
            Ok(rest) => {
                assert(Seq::<FieldDecl>::empty() + rest =~= rest);
            },
            Err(_) => {},
        }
    }
    while i < fsources.len()
        invariant
            i <= fsources.len(),
            spec_parse_fields(fsources@) == (match spec_parse_fields(fsources@.skip(i as int)) {
                Err(e) => Err::<Seq<FieldDecl>, DefError>(e),
                Ok(rest) => Ok(fields@ + rest),
            }),
        decreases fsources.len() - i,
    {
        proof {
            assert(fsources@.skip(i as int).first() == fsources@[i as int]);
            assert(fsources@.skip(i as int).drop_first() =~= fsources@.skip(i + 1));
        }
        match field_role(&fsources[i]) {
            Err(e) => {
                return Err(e);
            },
            Ok(role) => {
                let fd = FieldDecl { name: fsources[i].name.clone(), role };
                proof {
                    match spec_parse_fields(fsources@.skip(i + 1)) {
                        Ok(rest) => {
                            assert((fields@.push(fd)) + rest =~= fields@ + (seq![fd] + rest));
                        },
                        Err(_) => {},
                    }
                }
                fields.push(fd);
            },
        }
        i += 1;
    }
    proof {
        assert(fsources@.skip(fsources@.len() as int) =~= Seq::<FieldSource>::empty());
        assert(fields@ + Seq::<FieldDecl>::empty() =~= fields@);
    }
    Ok(RecordDecl { executable, fields })
}

} // verus!
