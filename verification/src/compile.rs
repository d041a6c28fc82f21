//! The translation itself: from a configuration value to Makefile text.
//!
//! The spec functions define, value by value, exactly what text a
//! configuration yields, or which error aborts the run; the exec functions
//! are proved to return precisely that.

use vstd::prelude::*;
use vstd::string::StringExecFns;
use crate::error::{ErrModel, GenError};
use crate::scan::{check_refs, first_undeclared, has_ref, refs_from};
use crate::text::{
    banner_text, build_step_block, check_line, comment_header, header_line, makefile_header,
    preamble_text, push_header_line, step_block,
};
use crate::value::{lookup, table_get, value_get, Value};

verus! {

/// `Some` contents of an optional borrowed value, for speaking of
/// `Option<&Value>` arguments.
pub open spec fn opt_value(o: Option<&Value>) -> Option<Value> {
    match o {
        Some(v) => Some(*v),
        None => None,
    }
}

/// The assertion line for one declared variable: one line when its
/// `required` flag is true, no text when it is false. Every declaration
/// must carry a boolean `required` flag and a `description`, whether or
/// not it is required; the description's text is read only when it is.
pub open spec fn var_check(name: Seq<char>, details: Value) -> Result<Seq<char>, ErrModel> {
    match details.spec_get("required"@) {
        None => Err(ErrModel::MissingField("required"@)),
        Some(Value::Bool(req)) => match details.spec_get("description"@) {
            None => Err(ErrModel::MissingField("description"@)),
            Some(d) => if !req {
                Ok(Seq::empty())
            } else {
                match d {
                    Value::Str(text) => Ok(check_line(name, text@)),
                    _ => Err(ErrModel::TypeMismatch("description"@)),
                }
            },
        },
        Some(_) => Err(ErrModel::MissingField("required"@)),
    }
}

/// The assertion lines of one declaration table, in declaration order.
pub open spec fn table_checks(kvs: Seq<(String, Value)>) -> Result<Seq<char>, ErrModel>
    decreases kvs.len(),
{
    if kvs.len() == 0 {
        Ok(Seq::empty())
    } else {
        match var_check(kvs[0].0@, kvs[0].1) {
            Ok(head) => match table_checks(kvs.skip(1)) {
                Ok(tail) => Ok(head + tail),
                Err(e) => Err(e),
            },
            Err(e) => Err(e),
        }
    }
}

/// The assertion lines of a whole declaration list: each entry must be a
/// table of declarations.
pub open spec fn var_checks_list(entries: Seq<Value>) -> Result<Seq<char>, ErrModel>
    decreases entries.len(),
{
    if entries.len() == 0 {
        Ok(Seq::empty())
    } else {
        match entries[0] {
            Value::Table(kvs) => match table_checks(kvs@) {
                Ok(head) => match var_checks_list(entries.skip(1)) {
                    Ok(tail) => Ok(head + tail),
                    Err(e) => Err(e),
                },
                Err(e) => Err(e),
            },
            _ => Err(ErrModel::TypeMismatch("variables"@)),
        }
    }
}

/// The variable-check block for a target's `variables` value, which must be
/// an array of declaration tables.
pub open spec fn var_checks(variables: Value) -> Result<Seq<char>, ErrModel> {
    match variables {
        Value::Arr(entries) => var_checks_list(entries@),
        _ => Err(ErrModel::TypeMismatch("variables"@)),
    }
}

/// Validation of one step block against the declared variables: every
/// parenthesized reference must name a variable of the first declaration
/// table, else the first offender aborts the run.
pub open spec fn step_checked(block: Seq<char>, vars: Value) -> Result<Seq<char>, ErrModel> {
    let refs = refs_from(block, 0);
    if refs.len() == 0 {
        Ok(block)
    } else {
        match vars {
            Value::Arr(entries) => if entries@.len() == 0 {
                Err(ErrModel::UndeclaredVariable(refs[0]))
            } else {
                match entries@[0] {
                    Value::Table(kvs) => match first_undeclared(refs, kvs@) {
                        None => Ok(block),
                        Some(n) => Err(ErrModel::UndeclaredVariable(n)),
                    },
                    _ => Err(ErrModel::TypeMismatch("variables"@)),
                }
            },
            _ => Err(ErrModel::TypeMismatch("variables"@)),
        }
    }
}

/// The text of one step: its three-line block, validated against the
/// declared variables when the target declares any.
pub open spec fn step_text(step: Value, vars: Option<Value>) -> Result<Seq<char>, ErrModel> {
    match step.spec_get("log"@) {
        None => Err(ErrModel::MissingField("log"@)),
        Some(Value::Str(log)) => match step.spec_get("command"@) {
            None => Err(ErrModel::MissingField("command"@)),
            Some(Value::Str(cmd)) => match vars {
                None => Ok(step_block(log@, cmd@)),
                Some(v) => step_checked(step_block(log@, cmd@), v),
            },
            Some(_) => Err(ErrModel::TypeMismatch("command"@)),
        },
        Some(_) => Err(ErrModel::TypeMismatch("log"@)),
    }
}

/// The step blocks of a list of steps, in declaration order.
pub open spec fn steps_list(steps: Seq<Value>, vars: Option<Value>) -> Result<Seq<char>, ErrModel>
    decreases steps.len(),
{
    if steps.len() == 0 {
        Ok(Seq::empty())
    } else {
        match step_text(steps[0], vars) {
            Ok(head) => match steps_list(steps.skip(1), vars) {
                Ok(tail) => Ok(head + tail),
                Err(e) => Err(e),
            },
            Err(e) => Err(e),
        }
    }
}

/// The step block of a whole target definition, whose `steps` key must hold
/// an array.
pub open spec fn steps_text(def: Value, vars: Option<Value>) -> Result<Seq<char>, ErrModel> {
    match def.spec_get("steps"@) {
        None => Err(ErrModel::MissingField("steps"@)),
        Some(Value::Arr(steps)) => steps_list(steps@, vars),
        Some(_) => Err(ErrModel::TypeMismatch("steps"@)),
    }
}

/// One target's whole block: header line, variable checks, a blank line,
/// then the step blocks.
pub open spec fn target_entry(name: Seq<char>, def: Value) -> Result<Seq<char>, ErrModel> {
    match def.spec_get("variables"@) {
        None => match steps_text(def, None) {
            Ok(steps) => Ok(header_line(name) + "\n"@ + steps),
            Err(e) => Err(e),
        },
        Some(v) => match var_checks(v) {
            Err(e) => Err(e),
            Ok(checks) => match steps_text(def, Some(v)) {
                Err(e) => Err(e),
                Ok(steps) => Ok(header_line(name) + checks + "\n"@ + steps),
            },
        },
    }
}

/// The blocks of every target of a section, in declaration order.
pub open spec fn targets_text(section: Seq<(String, Value)>) -> Result<Seq<char>, ErrModel>
    decreases section.len(),
{
    if section.len() == 0 {
        Ok(Seq::empty())
    } else {
        match target_entry(section[0].0@, section[0].1) {
            Ok(head) => match targets_text(section.skip(1)) {
                Ok(tail) => Ok(head + tail),
                Err(e) => Err(e),
            },
            Err(e) => Err(e),
        }
    }
}

/// A section's whole Makefile: banner, preamble, then the target blocks.
pub open spec fn makefile_text(section: Seq<(String, Value)>) -> Result<Seq<char>, ErrModel> {
    match targets_text(section) {
        Ok(t) => Ok(banner_text() + preamble_text() + t),
        Err(e) => Err(e),
    }
}

/// The whole run on a parsed document: both platform sections must be
/// tables, and the chosen one is compiled.
pub open spec fn generate_model(doc: Value, platform: Seq<char>) -> Result<Seq<char>, ErrModel> {
    if !(doc.spec_get("windows"@) matches Some(Value::Table(_))) {
        Err(ErrModel::ConfigParseError)
    } else if !(doc.spec_get("linux"@) matches Some(Value::Table(_))) {
        Err(ErrModel::ConfigParseError)
    } else {
        match doc.spec_get(platform) {
            Some(Value::Table(section)) => makefile_text(section@),
            _ => Err(ErrModel::ConfigParseError),
        }
    }
}

/// The assertion line of one declaration, or no text when it is not
/// required.
fn var_check_exec(name: &String, details: &Value) -> (r: Result<String, GenError>)
    ensures
        match r {
            Ok(s) => var_check(name@, *details) == Ok::<Seq<char>, ErrModel>(s@),
            Err(e) => var_check(name@, *details) == Err::<Seq<char>, ErrModel>(e@),
        },
{
    match value_get(details, "required") {
        None => Err(GenError::MissingField("required".to_owned())),
        Some(Value::Bool(req)) => match value_get(details, "description") {
            None => Err(GenError::MissingField("description".to_owned())),
            Some(d) => if !*req {
                Ok(String::new())
            } else {
                match d {
                    Value::Str(text) => {
                        let mut out = String::new();
                        crate::text::push_check_line(&mut out, name.as_str(), text.as_str());
                        Ok(out)
                    },
                    _ => Err(GenError::TypeMismatch("description".to_owned())),
                }
            },
        },
        Some(_) => Err(GenError::MissingField("required".to_owned())),
    }
}

/// The assertion lines of one declaration table, from entry `i` on.
fn table_checks_exec(kvs: &Vec<(String, Value)>, i: usize) -> (r: Result<String, GenError>)
    requires
        i <= kvs@.len(),
    ensures
        match r {
            Ok(s) => table_checks(kvs@.skip(i as int)) == Ok::<Seq<char>, ErrModel>(s@),
            Err(e) => table_checks(kvs@.skip(i as int)) == Err::<Seq<char>, ErrModel>(e@),
        },
    decreases kvs@.len() - i,
{
    if i == kvs.len() {
        assert(kvs@.skip(i as int) =~= Seq::<(String, Value)>::empty());
        return Ok(String::new());
    }
    assert(kvs@.skip(i as int)[0] == kvs@[i as int]);
    assert(kvs@.skip(i as int).skip(1) =~= kvs@.skip(i as int + 1));
    match var_check_exec(&kvs[i].0, &kvs[i].1) {
        Err(e) => Err(e),
        Ok(head) => match table_checks_exec(kvs, i + 1) {
            Err(e) => Err(e),
            Ok(tail) => Ok(head.concat(tail.as_str())),
        },
    }
}

/// The assertion lines of a declaration list, from entry `i` on.
fn var_checks_list_exec(entries: &Vec<Value>, i: usize) -> (r: Result<String, GenError>)
    requires
        i <= entries@.len(),
    ensures
        match r {
            Ok(s) => var_checks_list(entries@.skip(i as int)) == Ok::<Seq<char>, ErrModel>(s@),
            Err(e) => var_checks_list(entries@.skip(i as int)) == Err::<Seq<char>, ErrModel>(e@),
        },
    decreases entries@.len() - i,
{
    if i == entries.len() {
        assert(entries@.skip(i as int) =~= Seq::<Value>::empty());
        return Ok(String::new());
    }
    assert(entries@.skip(i as int)[0] == entries@[i as int]);
    assert(entries@.skip(i as int).skip(1) =~= entries@.skip(i as int + 1));
    match &entries[i] {
        Value::Table(kvs) => {
            assert(kvs@.skip(0) =~= kvs@);
            match table_checks_exec(kvs, 0) {
                Err(e) => Err(e),
                Ok(head) => match var_checks_list_exec(entries, i + 1) {
                    Err(e) => Err(e),
                    Ok(tail) => Ok(head.concat(tail.as_str())),
                },
            }
        },
        _ => Err(GenError::TypeMismatch("variables".to_owned())),
    }
}

/// The variable-check block for a target's `variables` value.
pub fn construct_variable_checks(variables: &Value) -> (r: Result<String, GenError>)
    ensures
        match r {
            Ok(s) => var_checks(*variables) == Ok::<Seq<char>, ErrModel>(s@),
            Err(e) => var_checks(*variables) == Err::<Seq<char>, ErrModel>(e@),
        },
{
    match variables {
        Value::Arr(entries) => {
            assert(entries@.skip(0) =~= entries@);
            var_checks_list_exec(entries, 0)
        },
        _ => Err(GenError::TypeMismatch("variables".to_owned())),
    }
}

/// One step block, validated against the declared variables.
fn step_checked_exec(block: String, vars: &Value) -> (r: Result<String, GenError>)
    ensures
        match r {
            Ok(s) => step_checked(block@, *vars) == Ok::<Seq<char>, ErrModel>(s@),
            Err(e) => step_checked(block@, *vars) == Err::<Seq<char>, ErrModel>(e@),
        },
{
    if !has_ref(block.as_str()) {
        return Ok(block);
    }
    match vars {
        Value::Arr(entries) => {
            if entries.len() == 0 {
                // nothing is declared, so the first reference is the offender
                let empty: Vec<(String, Value)> = Vec::new();
                proof {
                    let refs = refs_from(block@, 0);
                    assert(first_undeclared(refs, empty@) == Some(refs[0]));
                }
                match check_refs(block.as_str(), &empty) {
                    Some(name) => Err(GenError::UndeclaredVariable(name)),
                    None => vstd::pervasive::unreached(),
                }
            } else {
                match &entries[0] {
                    Value::Table(kvs) => match check_refs(block.as_str(), kvs) {
                        None => Ok(block),
                        Some(name) => Err(GenError::UndeclaredVariable(name)),
                    },
                    _ => Err(GenError::TypeMismatch("variables".to_owned())),
                }
            }
        },
        _ => Err(GenError::TypeMismatch("variables".to_owned())),
    }
}

/// The text of one step.
fn step_exec(step: &Value, variables: Option<&Value>) -> (r: Result<String, GenError>)
    ensures
        match r {
            Ok(s) => step_text(*step, opt_value(variables)) == Ok::<Seq<char>, ErrModel>(s@),
            Err(e) => step_text(*step, opt_value(variables)) == Err::<Seq<char>, ErrModel>(e@),
        },
{
    match value_get(step, "log") {
        None => Err(GenError::MissingField("log".to_owned())),
        Some(Value::Str(log)) => match value_get(step, "command") {
            None => Err(GenError::MissingField("command".to_owned())),
            Some(Value::Str(cmd)) => {
                let block = build_step_block(log.as_str(), cmd.as_str());
                match variables {
                    None => Ok(block),
                    Some(v) => step_checked_exec(block, v),
                }
            },
            Some(_) => Err(GenError::TypeMismatch("command".to_owned())),
        },
        Some(_) => Err(GenError::TypeMismatch("log".to_owned())),
    }
}

/// The step blocks of a step list, from step `i` on.
fn steps_list_exec(steps: &Vec<Value>, i: usize, variables: Option<&Value>) -> (r: Result<
    String,
    GenError,
>)
    requires
        i <= steps@.len(),
    ensures
        match r {
            Ok(s) => steps_list(steps@.skip(i as int), opt_value(variables)) == Ok::<
                Seq<char>,
                ErrModel,
            >(s@),
            Err(e) => steps_list(steps@.skip(i as int), opt_value(variables)) == Err::<
                Seq<char>,
                ErrModel,
            >(e@),
        },
    decreases steps@.len() - i,
{
    if i == steps.len() {
        assert(steps@.skip(i as int) =~= Seq::<Value>::empty());
        return Ok(String::new());
    }
    assert(steps@.skip(i as int)[0] == steps@[i as int]);
    assert(steps@.skip(i as int).skip(1) =~= steps@.skip(i as int + 1));
    match step_exec(&steps[i], variables) {
        Err(e) => Err(e),
        Ok(head) => match steps_list_exec(steps, i + 1, variables) {
            Err(e) => Err(e),
            Ok(tail) => Ok(head.concat(tail.as_str())),
        },
    }
}

/// The step block of a whole target definition.
pub fn construct_steps(def: &Value, variables: Option<&Value>) -> (r: Result<String, GenError>)
    ensures
        match r {
            Ok(s) => steps_text(*def, opt_value(variables)) == Ok::<Seq<char>, ErrModel>(s@),
            Err(e) => steps_text(*def, opt_value(variables)) == Err::<Seq<char>, ErrModel>(e@),
        },
{
    match value_get(def, "steps") {
        None => Err(GenError::MissingField("steps".to_owned())),
        Some(Value::Arr(steps)) => {
            assert(steps@.skip(0) =~= steps@);
            steps_list_exec(steps, 0, variables)
        },
        Some(_) => Err(GenError::TypeMismatch("steps".to_owned())),
    }
}

/// One target's whole block.
fn target_entry_exec(name: &String, def: &Value) -> (r: Result<String, GenError>)
    ensures
        match r {
            Ok(s) => target_entry(name@, *def) == Ok::<Seq<char>, ErrModel>(s@),
            Err(e) => target_entry(name@, *def) == Err::<Seq<char>, ErrModel>(e@),
        },
{
    let mut out = String::new();
    push_header_line(&mut out, name.as_str());
    match value_get(def, "variables") {
        None => match construct_steps(def, None) {
            Err(e) => Err(e),
            Ok(steps) => {
                out.append("\n");
                out.append(steps.as_str());
                assert(out@ =~= header_line(name@) + "\n"@ + steps@);
                Ok(out)
            },
        },
        Some(v) => match construct_variable_checks(v) {
            Err(e) => Err(e),
            Ok(checks) => match construct_steps(def, Some(v)) {
                Err(e) => Err(e),
                Ok(steps) => {
                    out.append(checks.as_str());
                    out.append("\n");
                    out.append(steps.as_str());
                    assert(out@ =~= header_line(name@) + checks@ + "\n"@ + steps@);
                    Ok(out)
                },
            },
        },
    }
}

/// The blocks of a section's targets, from target `i` on.
fn targets_exec(section: &Vec<(String, Value)>, i: usize) -> (r: Result<String, GenError>)
    requires
        i <= section@.len(),
    ensures
        match r {
            Ok(s) => targets_text(section@.skip(i as int)) == Ok::<Seq<char>, ErrModel>(s@),
            Err(e) => targets_text(section@.skip(i as int)) == Err::<Seq<char>, ErrModel>(e@),
        },
    decreases section@.len() - i,
{
    if i == section.len() {
        assert(section@.skip(i as int) =~= Seq::<(String, Value)>::empty());
        return Ok(String::new());
    }
    assert(section@.skip(i as int)[0] == section@[i as int]);
    assert(section@.skip(i as int).skip(1) =~= section@.skip(i as int + 1));
    match target_entry_exec(&section[i].0, &section[i].1) {
        Err(e) => Err(e),
        Ok(head) => match targets_exec(section, i + 1) {
            Err(e) => Err(e),
            Ok(tail) => Ok(head.concat(tail.as_str())),
        },
    }
}

/// The whole run on a parsed document: picks the platform's section and
/// compiles it under the fixed banner and preamble.
pub fn generate(doc: &Value, platform: &str) -> (r: Result<String, GenError>)
    ensures
        match r {
            Ok(s) => generate_model(*doc, platform@) == Ok::<Seq<char>, ErrModel>(s@),
            Err(e) => generate_model(*doc, platform@) == Err::<Seq<char>, ErrModel>(e@),
        },
{
    let windows_ok = match value_get(doc, "windows") {
        Some(Value::Table(_)) => true,
        _ => false,
    };
    if !windows_ok {
        return Err(GenError::ConfigParseError);
    }
    let linux_ok = match value_get(doc, "linux") {
        Some(Value::Table(_)) => true,
        _ => false,
    };
    if !linux_ok {
        return Err(GenError::ConfigParseError);
    }
    match value_get(doc, platform) {
        Some(Value::Table(section)) => {
            assert(section@.skip(0) =~= section@);
            match targets_exec(section, 0) {
                Err(e) => Err(e),
                Ok(body) => {
                    let mut out = comment_header();
                    let pre = makefile_header();
                    out.append(pre.as_str());
                    out.append(body.as_str());
                    assert(out@ =~= banner_text() + preamble_text() + body@);
                    Ok(out)
                },
            }
        },
        _ => Err(GenError::ConfigParseError),
    }
}

} // verus!
