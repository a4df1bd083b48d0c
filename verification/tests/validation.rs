use cmdstruct::decl::Attr;
use cmdstruct::decl::DefError;
use cmdstruct::decl::Executable;
use cmdstruct::decl::FieldSource;
use cmdstruct::decl::MetaEntry;
use cmdstruct::decl::RecordShape;
use cmdstruct::decl::RecordSource;
use cmdstruct::decl::Role;
use cmdstruct::decl::field_role;
use cmdstruct::decl::parse_executable;
use cmdstruct::decl::parse_record;

fn str_entry(key: &str, value: &str) -> MetaEntry {
    MetaEntry::StrPair {
        key: key.to_string(),
        value: value.to_string(),
    }
}

fn arg_list(entries: Vec<MetaEntry>) -> Attr {
    Attr::List {
        outer: true,
        ident: "arg".to_string(),
        entries,
    }
}

fn command_list(entries: Vec<MetaEntry>) -> Attr {
    Attr::List {
        outer: true,
        ident: "command".to_string(),
        entries,
    }
}

fn named_record(attrs: Vec<Attr>, fields: Vec<FieldSource>) -> RecordSource {
    RecordSource {
        attrs,
        shape: RecordShape::Named(fields),
    }
}

fn field(name: &str, attrs: Vec<Attr>) -> FieldSource {
    FieldSource {
        name: name.to_string(),
        attrs,
    }
}

#[test]
fn missing_executable_is_rejected() {
    let src = named_record(vec![], vec![field("a", vec![Attr::Marker {
        outer: true,
        ident: "arg".to_string(),
    }])]);
    assert_eq!(parse_record(&src).unwrap_err(), DefError::MissingExecutable);
}

#[test]
fn missing_executable_wins_over_field_errors() {
    let conflicted = field(
        "a",
        vec![arg_list(vec![
            str_entry("option", "--a"),
            str_entry("flag", "-a"),
        ])],
    );
    let src = named_record(vec![], vec![conflicted]);
    assert_eq!(parse_record(&src).unwrap_err(), DefError::MissingExecutable);
}

#[test]
fn bare_command_marker_declares_nothing() {
    let src = named_record(
        vec![Attr::Marker {
            outer: true,
            ident: "command".to_string(),
        }],
        vec![],
    );
    assert_eq!(parse_record(&src).unwrap_err(), DefError::MissingExecutable);
}

#[test]
fn empty_command_list_declares_nothing() {
    let src = named_record(vec![command_list(vec![])], vec![]);
    assert_eq!(parse_record(&src).unwrap_err(), DefError::MissingExecutable);
}

#[test]
fn bare_key_in_command_list_is_rejected() {
    let src = named_record(
        vec![command_list(vec![MetaEntry::Lone {
            key: "executable".to_string(),
        }])],
        vec![],
    );
    assert_eq!(
        parse_record(&src).unwrap_err(),
        DefError::UnsupportedAttribute
    );
}

#[test]
fn conflicting_executables_are_rejected() {
    let src = named_record(
        vec![command_list(vec![
            str_entry("executable", "one"),
            str_entry("executable", "two"),
        ])],
        vec![],
    );
    assert_eq!(
        parse_record(&src).unwrap_err(),
        DefError::ConflictingExecutable
    );
    let src = named_record(
        vec![
            command_list(vec![str_entry("executable", "one")]),
            command_list(vec![MetaEntry::FnRef {
                key: "executable_fn".to_string(),
                path: "resolve".to_string(),
            }]),
        ],
        vec![],
    );
    assert_eq!(
        parse_record(&src).unwrap_err(),
        DefError::ConflictingExecutable
    );
}

#[test]
fn unknown_command_key_is_rejected() {
    let src = named_record(vec![command_list(vec![str_entry("executible", "t")])], vec![]);
    assert_eq!(
        parse_record(&src).unwrap_err(),
        DefError::UnsupportedAttribute
    );
}

#[test]
fn conflicting_roles_name_the_field() {
    let src = named_record(
        vec![command_list(vec![str_entry("executable", "t")])],
        vec![field(
            "mixed",
            vec![arg_list(vec![
                str_entry("option", "--a"),
                str_entry("flag", "-a"),
            ])],
        )],
    );
    assert_eq!(
        parse_record(&src).unwrap_err(),
        DefError::ConflictingRoles {
            field: "mixed".to_string()
        }
    );
}

#[test]
fn roles_split_over_two_attributes_conflict_too() {
    let f = field(
        "twice",
        vec![
            arg_list(vec![str_entry("option", "--a")]),
            Attr::Marker {
                outer: true,
                ident: "arg".to_string(),
            },
        ],
    );
    assert_eq!(
        field_role(&f).unwrap_err(),
        DefError::ConflictingRoles {
            field: "twice".to_string()
        }
    );
}

#[test]
fn unknown_arg_key_is_rejected() {
    let f = field("a", vec![arg_list(vec![str_entry("opton", "--a")])]);
    assert_eq!(field_role(&f).unwrap_err(), DefError::UnsupportedAttribute);
}

#[test]
fn bare_key_in_arg_list_is_rejected() {
    let f = field(
        "a",
        vec![arg_list(vec![MetaEntry::Lone {
            key: "option".to_string(),
        }])],
    );
    assert_eq!(field_role(&f).unwrap_err(), DefError::UnsupportedAttribute);
}

#[test]
fn tuple_shaped_records_are_rejected() {
    let src = RecordSource {
        attrs: vec![command_list(vec![str_entry("executable", "t")])],
        shape: RecordShape::Unsupported,
    };
    assert_eq!(
        parse_record(&src).unwrap_err(),
        DefError::UnsupportedFieldShape
    );
}

#[test]
fn unannotated_field_is_plain_data() {
    let f = field("note", vec![]);
    assert_eq!(field_role(&f).unwrap(), Role::Plain);
}

#[test]
fn inner_style_arg_attribute_is_ignored() {
    let f = field(
        "a",
        vec![Attr::Marker {
            outer: false,
            ident: "arg".to_string(),
        }],
    );
    assert_eq!(field_role(&f).unwrap(), Role::Plain);
}

#[test]
fn unrelated_attributes_are_passed_through() {
    let f = field(
        "a",
        vec![
            Attr::Other,
            Attr::Marker {
                outer: true,
                ident: "serde".to_string(),
            },
            arg_list(vec![str_entry("option", "--a")]),
        ],
    );
    assert_eq!(field_role(&f).unwrap(), Role::Opt("--a".to_string()));
}

#[test]
fn executable_forms_parse() {
    let attrs = vec![command_list(vec![str_entry("executable", "prog")])];
    assert_eq!(
        parse_executable(&attrs).unwrap(),
        Executable::Fixed("prog".to_string())
    );
    let attrs = vec![command_list(vec![MetaEntry::FnRef {
        key: "executable_fn".to_string(),
        path: "resolve".to_string(),
    }])];
    assert_eq!(
        parse_executable(&attrs).unwrap(),
        Executable::Computed("resolve".to_string())
    );
}
