use makegen::compile::{construct_steps, construct_variable_checks, generate};
use makegen::error::GenError;
use makegen::text::{comment_header, makefile_header};
use makegen::value::Value;

fn s(x: &str) -> String {
    x.to_owned()
}

fn step(log: &str, cmd: &str) -> Value {
    Value::Table(vec![
        (s("log"), Value::Str(s(log))),
        (s("command"), Value::Str(s(cmd))),
    ])
}

fn var(name: &str, required: bool, desc: &str) -> Value {
    Value::Table(vec![(
        s(name),
        Value::Table(vec![
            (s("required"), Value::Bool(required)),
            (s("description"), Value::Str(s(desc))),
        ]),
    )])
}

fn target(steps: Vec<Value>, vars: Option<Vec<Value>>) -> Value {
    let mut entries = vec![(s("steps"), Value::Arr(steps))];
    if let Some(v) = vars {
        entries.push((s("variables"), Value::Arr(v)));
    }
    Value::Table(entries)
}

fn doc_with_linux(section: Vec<(String, Value)>) -> Value {
    Value::Table(vec![
        (s("windows"), Value::Table(vec![])),
        (s("linux"), Value::Table(section)),
    ])
}

fn step_block(log: &str, cmd: &str) -> String {
    format!(
        "\t@echo -e \"${{log_prefix}} {}\"\n\t@echo -e \"${{command_prefix}} {}\"\n\t@{}\n",
        log, cmd, cmd
    )
}

#[test]
fn end_to_end_build_target() {
    let doc = doc_with_linux(vec![(
        s("build"),
        target(
            vec![step("Building", "go build -o $(OUT)")],
            Some(vec![var("OUT", true, "output path")]),
        ),
    )]);
    let out = generate(&doc, "linux").unwrap();
    let expected = format!(
        "{}{}\rbuild:\n\t@:$(call check_defined, OUT, output path)\n\n{}",
        comment_header(),
        makefile_header(),
        step_block("Building", "go build -o $(OUT)")
    );
    assert_eq!(out, expected);
}

#[test]
fn banner_and_preamble_open_the_output() {
    let doc = doc_with_linux(vec![]);
    let out = generate(&doc, "linux").unwrap();
    assert_eq!(out, format!("{}{}", comment_header(), makefile_header()));
    assert!(out.starts_with("# WARNING:\n# This file is automatically generated by makegen.\n"));
    assert!(out.contains("check_defined = \\\n"));
    assert!(out.contains("log_prefix := \\x1b[34m[\\u001b[0m\\x1b[31m*\\x1b[34m\\x1b[34m]\\u001b[0m\n"));
}

#[test]
fn targets_appear_in_declared_order() {
    let doc = doc_with_linux(vec![
        (s("zeta"), target(vec![step("z", "true")], None)),
        (s("alpha"), target(vec![step("a", "false")], None)),
    ]);
    let out = generate(&doc, "linux").unwrap();
    let zeta = out.find("\rzeta:\n").unwrap();
    let alpha = out.find("\ralpha:\n").unwrap();
    assert!(zeta < alpha);
    let expected = format!(
        "{}{}\rzeta:\n\n{}\ralpha:\n\n{}",
        comment_header(),
        makefile_header(),
        step_block("z", "true"),
        step_block("a", "false")
    );
    assert_eq!(out, expected);
}

#[test]
fn one_block_per_step_in_declared_order() {
    let def = target(vec![step("first", "echo one"), step("second", "echo two")], None);
    let out = construct_steps(&def, None).unwrap();
    assert_eq!(
        out,
        format!("{}{}", step_block("first", "echo one"), step_block("second", "echo two"))
    );
}

#[test]
fn required_variable_yields_one_check_line() {
    let vars = Value::Arr(vec![var("OUT", true, "output path")]);
    let out = construct_variable_checks(&vars).unwrap();
    assert_eq!(out, "\t@:$(call check_defined, OUT, output path)\n");
}

#[test]
fn non_required_variable_yields_no_line() {
    let vars = Value::Arr(vec![var("OUT", false, "output path")]);
    let out = construct_variable_checks(&vars).unwrap();
    assert_eq!(out, "");
}

#[test]
fn mixed_variable_table_yields_only_required_lines() {
    let vars = Value::Arr(vec![Value::Table(vec![
        (
            s("A"),
            Value::Table(vec![
                (s("required"), Value::Bool(false)),
                (s("description"), Value::Str(s("first"))),
            ]),
        ),
        (
            s("B"),
            Value::Table(vec![
                (s("required"), Value::Bool(true)),
                (s("description"), Value::Str(s("second"))),
            ]),
        ),
    ])]);
    let out = construct_variable_checks(&vars).unwrap();
    assert_eq!(out, "\t@:$(call check_defined, B, second)\n");
}

#[test]
fn declared_reference_passes_validation() {
    let def = target(
        vec![step("link", "cc -o $(OUT) main.o")],
        Some(vec![var("OUT", true, "output path")]),
    );
    let vars = Value::Arr(vec![var("OUT", true, "output path")]);
    let out = construct_steps(&def, Some(&vars)).unwrap();
    assert_eq!(out, step_block("link", "cc -o $(OUT) main.o"));
}

#[test]
fn undeclared_reference_fails() {
    let vars = Value::Arr(vec![var("OUT", true, "output path")]);
    let def = target(vec![step("link", "cc -o $(MISSING) main.o")], None);
    let r = construct_steps(&def, Some(&vars));
    assert_eq!(r, Err(GenError::UndeclaredVariable(s("MISSING"))));
}

#[test]
fn first_undeclared_reference_is_reported() {
    let vars = Value::Arr(vec![var("OUT", true, "output path")]);
    let def = target(vec![step("go", "use $(AAA) and $(BBB)")], None);
    let r = construct_steps(&def, Some(&vars));
    assert_eq!(r, Err(GenError::UndeclaredVariable(s("AAA"))));
}

#[test]
fn validation_consults_only_the_first_variable_entry() {
    let vars = Value::Arr(vec![
        var("OUT", true, "output path"),
        var("EXTRA", true, "declared later"),
    ]);
    let def = target(vec![step("go", "touch $(EXTRA)")], None);
    let r = construct_steps(&def, Some(&vars));
    assert_eq!(r, Err(GenError::UndeclaredVariable(s("EXTRA"))));
}

#[test]
fn log_text_is_scanned_for_references_too() {
    let vars = Value::Arr(vec![var("OUT", true, "output path")]);
    let def = target(vec![step("making (BAR) now", "true")], None);
    let r = construct_steps(&def, Some(&vars));
    assert_eq!(r, Err(GenError::UndeclaredVariable(s("BAR"))));
}

#[test]
fn no_variable_list_means_no_validation() {
    let def = target(vec![step("go", "rm $(ANYTHING)")], None);
    let out = construct_steps(&def, None).unwrap();
    assert_eq!(out, step_block("go", "rm $(ANYTHING)"));
}

#[test]
fn empty_variable_list_declares_nothing() {
    let vars = Value::Arr(vec![]);
    let def = target(vec![step("go", "rm $(ANYTHING)")], None);
    let r = construct_steps(&def, Some(&vars));
    assert_eq!(r, Err(GenError::UndeclaredVariable(s("ANYTHING"))));
}

#[test]
fn generation_failure_reports_the_step_error() {
    let doc = doc_with_linux(vec![(
        s("build"),
        target(
            vec![step("Building", "go build -o $(WRONG)")],
            Some(vec![var("OUT", true, "output path")]),
        ),
    )]);
    let r = generate(&doc, "linux");
    assert_eq!(r, Err(GenError::UndeclaredVariable(s("WRONG"))));
}
