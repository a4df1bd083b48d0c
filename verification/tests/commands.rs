use cmdstruct::assemble::Command;
use cmdstruct::assemble::Invocation;
use cmdstruct::decl::Attr;
use cmdstruct::decl::FieldSource;
use cmdstruct::decl::MetaEntry;
use cmdstruct::decl::RecordShape;
use cmdstruct::decl::RecordSource;
use cmdstruct::decl::parse_record;
use cmdstruct::value::Scalar;
use cmdstruct::value::Value;

fn command_attr(executable: &str) -> Attr {
    Attr::List {
        outer: true,
        ident: "command".to_string(),
        entries: vec![MetaEntry::StrPair {
            key: "executable".to_string(),
            value: executable.to_string(),
        }],
    }
}

fn option_attr(name: &str) -> Attr {
    Attr::List {
        outer: true,
        ident: "arg".to_string(),
        entries: vec![MetaEntry::StrPair {
            key: "option".to_string(),
            value: name.to_string(),
        }],
    }
}

fn flag_attr(name: &str) -> Attr {
    Attr::List {
        outer: true,
        ident: "arg".to_string(),
        entries: vec![MetaEntry::StrPair {
            key: "flag".to_string(),
            value: name.to_string(),
        }],
    }
}

fn positional_attr() -> Attr {
    Attr::Marker {
        outer: true,
        ident: "arg".to_string(),
    }
}

fn field(name: &str, attrs: Vec<Attr>) -> FieldSource {
    FieldSource {
        name: name.to_string(),
        attrs,
    }
}

fn record(executable: &str, fields: Vec<FieldSource>) -> RecordSource {
    RecordSource {
        attrs: vec![command_attr(executable)],
        shape: RecordShape::Named(fields),
    }
}

fn run_fixed(src: &RecordSource, values: Vec<Value>) -> cmdstruct::assemble::Cmd {
    let decl = parse_record(src).unwrap();
    assert!(decl.check_instance(&values));
    Invocation { decl, values }.command()
}

#[test]
fn option() {
    let src = record("test", vec![field("a", vec![option_attr("--input")])]);
    let command = run_fixed(&src, vec![Value::One(Scalar::Text("a".to_string()))]);
    assert_eq!(command.args, vec!["--input", "a"]);
    assert_eq!(command.program, "test");
}

#[test]
fn option_optional() {
    let src = record("test", vec![field("a", vec![option_attr("--input")])]);
    let command = run_fixed(&src, vec![Value::Maybe(Some(Scalar::Unsigned(0)))]);
    assert_eq!(command.args, vec!["--input", "0"]);
    assert_eq!(command.program, "test");
    let command = run_fixed(&src, vec![Value::Maybe(None)]);
    assert_eq!(command.args, Vec::<String>::new());
    assert_eq!(command.program, "test");
}

#[test]
fn option_int() {
    let src = record("test", vec![field("a", vec![option_attr("--input")])]);
    let command = run_fixed(&src, vec![Value::One(Scalar::Unsigned(3))]);
    assert_eq!(command.args, vec!["--input", "3"]);
    assert_eq!(command.program, "test");
}

#[test]
fn positional() {
    let src = record("test", vec![field("a", vec![positional_attr()])]);
    let command = run_fixed(&src, vec![Value::One(Scalar::Text("a".to_string()))]);
    assert_eq!(command.args, vec!["a"]);
    assert_eq!(command.program, "test");
}

#[test]
fn positional_usize() {
    let src = record("test", vec![field("a", vec![positional_attr()])]);
    let command = run_fixed(&src, vec![Value::One(Scalar::Unsigned(0))]);
    assert_eq!(command.args, vec!["0"]);
    assert_eq!(command.program, "test");
}

#[test]
fn flag() {
    let src = record("test", vec![field("a", vec![flag_attr("-a")])]);
    let command = run_fixed(&src, vec![Value::Truth(true)]);
    assert_eq!(command.args, vec!["-a"]);
    assert_eq!(command.program, "test");
}

#[test]
fn executable_fn() {
    let src = RecordSource {
        attrs: vec![Attr::List {
            outer: true,
            ident: "command".to_string(),
            entries: vec![MetaEntry::FnRef {
                key: "executable_fn".to_string(),
                path: "exe".to_string(),
            }],
        }],
        shape: RecordShape::Named(vec![field("suffix", vec![])]),
    };
    let decl = parse_record(&src).unwrap();
    let values = vec![Value::One(Scalar::Text("abc".to_string()))];
    let command = decl.build(&values, |vals: &Vec<Value>| match &vals[0] {
        Value::One(Scalar::Text(s)) => format!("test-{}", s),
        _ => String::new(),
    });
    assert_eq!(command.program, "test-abc");
}

#[test]
fn positional_int_value() {
    let src = record("test", vec![field("a", vec![positional_attr()])]);
    let command = run_fixed(&src, vec![Value::One(Scalar::Unsigned(3))]);
    assert_eq!(command.args, vec!["3"]);
}

#[test]
fn build_with_fixed_executable() {
    let src = record("test", vec![field("a", vec![option_attr("--input")])]);
    let decl = parse_record(&src).unwrap();
    let values = vec![Value::One(Scalar::Text("value".to_string()))];
    let command = decl.build(&values, |_: &Vec<Value>| String::new());
    assert_eq!(command.program, "test");
    assert_eq!(command.args, vec!["--input", "value"]);
}

#[test]
fn flag_false_emits_nothing() {
    let src = record("test", vec![field("a", vec![flag_attr("-a")])]);
    let command = run_fixed(&src, vec![Value::Truth(false)]);
    assert_eq!(command.args, Vec::<String>::new());
}

#[test]
fn option_sequence_repeats_name() {
    let src = record("test", vec![field("a", vec![option_attr("--item")])]);
    let command = run_fixed(
        &src,
        vec![Value::Many(vec![
            Scalar::Text("v1".to_string()),
            Scalar::Text("v2".to_string()),
        ])],
    );
    assert_eq!(command.args, vec!["--item", "v1", "--item", "v2"]);
}

#[test]
fn emission_follows_declaration_order() {
    let src = record(
        "test",
        vec![
            field("verbose", vec![flag_attr("-v")]),
            field("input", vec![option_attr("--input")]),
            field("target", vec![positional_attr()]),
            field("note", vec![]),
            field("count", vec![option_attr("--count")]),
        ],
    );
    let command = run_fixed(
        &src,
        vec![
            Value::Truth(true),
            Value::One(Scalar::Text("in.txt".to_string())),
            Value::One(Scalar::Text("out.txt".to_string())),
            Value::One(Scalar::Text("ignored".to_string())),
            Value::One(Scalar::Signed(-2)),
        ],
    );
    assert_eq!(
        command.args,
        vec!["-v", "--input", "in.txt", "out.txt", "--count", "-2"]
    );
    assert_eq!(command.program, "test");
}

#[test]
fn empty_record_emits_nothing() {
    let src = record("noop", vec![]);
    let command = run_fixed(&src, vec![]);
    assert_eq!(command.args, Vec::<String>::new());
    assert_eq!(command.program, "noop");
}

#[test]
fn check_instance_rejects_misfits() {
    let src = record("test", vec![field("a", vec![flag_attr("-a")])]);
    let decl = parse_record(&src).unwrap();
    assert!(decl.check_instance(&vec![Value::Truth(true)]));
    assert!(!decl.check_instance(&vec![Value::One(Scalar::Unsigned(1))]));
    assert!(!decl.check_instance(&vec![]));
    let src = record("test", vec![field("a", vec![positional_attr()])]);
    let decl = parse_record(&src).unwrap();
    assert!(!decl.check_instance(&vec![Value::Truth(true)]));
}
