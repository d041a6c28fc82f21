use makegen::compile::{construct_steps, construct_variable_checks, generate};
use makegen::error::GenError;
use makegen::parse::parse_config;
use makegen::text::{comment_header, makefile_header};
use makegen::value::Value;

fn s(x: &str) -> String {
    x.to_owned()
}

fn ok_step(log: &str, cmd: &str) -> Value {
    Value::Table(vec![
        (s("log"), Value::Str(s(log))),
        (s("command"), Value::Str(s(cmd))),
    ])
}

#[test]
fn missing_steps_key() {
    let def = Value::Table(vec![]);
    assert_eq!(construct_steps(&def, None), Err(GenError::MissingField(s("steps"))));
}

#[test]
fn steps_of_the_wrong_shape() {
    let def = Value::Table(vec![(s("steps"), Value::Str(s("not a list")))]);
    assert_eq!(construct_steps(&def, None), Err(GenError::TypeMismatch(s("steps"))));
}

#[test]
fn step_without_log() {
    let step = Value::Table(vec![(s("command"), Value::Str(s("true")))]);
    let def = Value::Table(vec![(s("steps"), Value::Arr(vec![step]))]);
    assert_eq!(construct_steps(&def, None), Err(GenError::MissingField(s("log"))));
}

#[test]
fn step_without_command() {
    let step = Value::Table(vec![(s("log"), Value::Str(s("hi")))]);
    let def = Value::Table(vec![(s("steps"), Value::Arr(vec![step]))]);
    assert_eq!(construct_steps(&def, None), Err(GenError::MissingField(s("command"))));
}

#[test]
fn command_of_the_wrong_shape() {
    let step = Value::Table(vec![
        (s("log"), Value::Str(s("hi"))),
        (s("command"), Value::Bool(true)),
    ]);
    let def = Value::Table(vec![(s("steps"), Value::Arr(vec![step]))]);
    assert_eq!(construct_steps(&def, None), Err(GenError::TypeMismatch(s("command"))));
}

#[test]
fn log_of_the_wrong_shape() {
    let step = Value::Table(vec![
        (s("log"), Value::Other),
        (s("command"), Value::Str(s("true"))),
    ]);
    let def = Value::Table(vec![(s("steps"), Value::Arr(vec![step]))]);
    assert_eq!(construct_steps(&def, None), Err(GenError::TypeMismatch(s("log"))));
}

#[test]
fn later_steps_follow_an_earlier_failure() {
    let broken = Value::Table(vec![(s("command"), Value::Str(s("true")))]);
    let def = Value::Table(vec![(
        s("steps"),
        Value::Arr(vec![ok_step("fine", "true"), broken]),
    )]);
    assert_eq!(construct_steps(&def, None), Err(GenError::MissingField(s("log"))));
}

#[test]
fn variables_of_the_wrong_shape() {
    let vars = Value::Str(s("not a list"));
    assert_eq!(construct_variable_checks(&vars), Err(GenError::TypeMismatch(s("variables"))));
}

#[test]
fn variable_entry_of_the_wrong_shape() {
    let vars = Value::Arr(vec![Value::Bool(true)]);
    assert_eq!(construct_variable_checks(&vars), Err(GenError::TypeMismatch(s("variables"))));
}

#[test]
fn variable_without_required_flag() {
    let vars = Value::Arr(vec![Value::Table(vec![(
        s("OUT"),
        Value::Table(vec![(s("description"), Value::Str(s("output path")))]),
    )])]);
    assert_eq!(construct_variable_checks(&vars), Err(GenError::MissingField(s("required"))));
}

#[test]
fn required_flag_of_the_wrong_shape() {
    let vars = Value::Arr(vec![Value::Table(vec![(
        s("OUT"),
        Value::Table(vec![
            (s("required"), Value::Str(s("yes"))),
            (s("description"), Value::Str(s("output path"))),
        ]),
    )])]);
    assert_eq!(construct_variable_checks(&vars), Err(GenError::MissingField(s("required"))));
}

#[test]
fn required_variable_without_description() {
    let vars = Value::Arr(vec![Value::Table(vec![(
        s("OUT"),
        Value::Table(vec![(s("required"), Value::Bool(true))]),
    )])]);
    assert_eq!(construct_variable_checks(&vars), Err(GenError::MissingField(s("description"))));
}

#[test]
fn non_required_variable_without_description() {
    let vars = Value::Arr(vec![Value::Table(vec![(
        s("OUT"),
        Value::Table(vec![(s("required"), Value::Bool(false))]),
    )])]);
    assert_eq!(construct_variable_checks(&vars), Err(GenError::MissingField(s("description"))));
}

#[test]
fn non_required_description_text_is_not_read() {
    let vars = Value::Arr(vec![Value::Table(vec![(
        s("OUT"),
        Value::Table(vec![
            (s("required"), Value::Bool(false)),
            (s("description"), Value::Bool(true)),
        ]),
    )])]);
    assert_eq!(construct_variable_checks(&vars), Ok(String::new()));
}

#[test]
fn description_of_the_wrong_shape() {
    let vars = Value::Arr(vec![Value::Table(vec![(
        s("OUT"),
        Value::Table(vec![
            (s("required"), Value::Bool(true)),
            (s("description"), Value::Bool(false)),
        ]),
    )])]);
    assert_eq!(construct_variable_checks(&vars), Err(GenError::TypeMismatch(s("description"))));
}

#[test]
fn document_without_platform_sections() {
    let doc = Value::Table(vec![(s("build"), Value::Table(vec![]))]);
    assert_eq!(generate(&doc, "linux"), Err(GenError::ConfigParseError));
}

#[test]
fn platform_section_of_the_wrong_shape() {
    let doc = Value::Table(vec![
        (s("windows"), Value::Str(s("nope"))),
        (s("linux"), Value::Table(vec![])),
    ]);
    assert_eq!(generate(&doc, "linux"), Err(GenError::ConfigParseError));
}

#[test]
fn error_messages_name_the_subject() {
    assert_eq!(
        GenError::MissingField(s("steps")).message(),
        "expected required value `steps`"
    );
    assert_eq!(
        GenError::TypeMismatch(s("command")).message(),
        "unexpected type for value `command`"
    );
    assert_eq!(
        GenError::UndeclaredVariable(s("OUT")).message(),
        "variable OUT used before definition!"
    );
    assert_eq!(
        GenError::ConfigNotFound.message(),
        "No config found in current working directory, aborting."
    );
    assert_eq!(
        GenError::ConfigParseError.message(),
        "Failed to parse config. Does it follow proper syntax?"
    );
    assert_eq!(
        GenError::WriteFailure.message(),
        "failed to write Makefile contents. Aborting."
    );
}

#[test]
fn parse_reads_plain_values() {
    let doc = parse_config("a = \"x\"\nb = true\nc = 3\n").unwrap();
    assert_eq!(
        doc,
        Value::Table(vec![
            (s("a"), Value::Str(s("x"))),
            (s("b"), Value::Bool(true)),
            (s("c"), Value::Other),
        ])
    );
}

#[test]
fn parse_reads_nested_tables_and_arrays() {
    let doc = parse_config("[t]\nx = [1, \"two\"]\n[u.v]\n").unwrap();
    assert_eq!(
        doc,
        Value::Table(vec![
            (
                s("t"),
                Value::Table(vec![(s("x"), Value::Arr(vec![Value::Other, Value::Str(s("two"))]))])
            ),
            (s("u"), Value::Table(vec![(s("v"), Value::Table(vec![]))])),
        ])
    );
}

#[test]
fn parse_rejects_malformed_text() {
    assert_eq!(parse_config("not == toml"), Err(GenError::ConfigParseError));
}

#[test]
fn own_output_is_not_a_valid_configuration() {
    let own_text = format!("{}{}", comment_header(), makefile_header());
    assert_eq!(parse_config(&own_text), Err(GenError::ConfigParseError));
}

#[test]
fn parsed_configuration_generates_end_to_end() {
    let text = "[linux.build]\nsteps = [ { log = \"Building\", command = \"go build -o $(OUT)\" } ]\nvariables = [ { OUT = { required = true, description = \"output path\" } } ]\n[windows]\n";
    let doc = parse_config(text).unwrap();
    let out = generate(&doc, "linux").unwrap();
    let expected = format!(
        "{}{}\rbuild:\n\t@:$(call check_defined, OUT, output path)\n\n\t@echo -e \"${{log_prefix}} Building\"\n\t@echo -e \"${{command_prefix}} go build -o $(OUT)\"\n\t@go build -o $(OUT)\n",
        comment_header(),
        makefile_header()
    );
    assert_eq!(out, expected);
}
