//! Shape laws of the generated text, proved from the compile model: one
//! block per target in declaration order, one three-line block per step,
//! one assertion line per required variable, and the failure owed to an
//! undeclared reference.

use vstd::prelude::*;
use vstd::seq_lib::*;
use crate::compile::{
    makefile_text, step_checked, step_text, steps_list, table_checks, target_entry, targets_text,
    var_check, var_checks, var_checks_list,
};
use crate::error::ErrModel;
use crate::scan::{first_undeclared, refs_from};
use crate::text::{banner_text, check_line, header_line, preamble_text, step_block};
use crate::value::{has_key, Value};

verus! {

/// The `Ok` text of a compile result, empty on an error.
pub open spec fn ok_text(r: Result<Seq<char>, ErrModel>) -> Seq<char> {
    if r is Ok {
        r->Ok_0
    } else {
        Seq::empty()
    }
}

/// A step's declared log text.
pub open spec fn step_log(step: Value) -> Seq<char> {
    match step.spec_get("log"@) {
        Some(Value::Str(s)) => s@,
        _ => Seq::empty(),
    }
}

/// A step's declared command text.
pub open spec fn step_cmd(step: Value) -> Seq<char> {
    match step.spec_get("command"@) {
        Some(Value::Str(s)) => s@,
        _ => Seq::empty(),
    }
}

/// Whether a step record declares both of its required string fields.
pub open spec fn step_fields_ok(step: Value) -> bool {
    &&& step.spec_get("log"@) matches Some(Value::Str(_))
    &&& step.spec_get("command"@) matches Some(Value::Str(_))
}

/// Whether a declaration's `required` flag is set.
pub open spec fn var_required(details: Value) -> bool {
    details.spec_get("required"@) == Some(Value::Bool(true))
}

/// A declaration's description text.
pub open spec fn var_desc(details: Value) -> Seq<char> {
    match details.spec_get("description"@) {
        Some(Value::Str(d)) => d@,
        _ => Seq::empty(),
    }
}

/// A variable list whose first entry is a declaration table: the set that
/// reference validation consults.
pub open spec fn vars_shape_ok(vars: Value) -> bool {
    match vars {
        Value::Arr(entries) => entries@.len() > 0 && (entries@[0] matches Value::Table(_)),
        _ => false,
    }
}

/// The first declaration table of a variable list.
pub open spec fn first_var_table(vars: Value) -> Seq<(String, Value)> {
    match vars {
        Value::Arr(entries) => if entries@.len() > 0 {
            match entries@[0] {
                Value::Table(kvs) => kvs@,
                _ => Seq::empty(),
            }
        } else {
            Seq::empty()
        },
        _ => Seq::empty(),
    }
}

/// The assertion line each declaration of a table contributes: one line
/// when it is required, no text otherwise.
pub open spec fn check_lines_of(kvs: Seq<(String, Value)>) -> Seq<Seq<char>> {
    Seq::new(
        kvs.len(),
        |i: int|
            if var_required(kvs[i].1) {
                check_line(kvs[i].0@, var_desc(kvs[i].1))
            } else {
                Seq::empty()
            },
    )
}

/// Law: a well-formed declaration table yields, in declaration order,
/// exactly one assertion line per declaration whose `required` flag is
/// true, carrying that variable's name and description, and no line for
/// the others.
pub proof fn lemma_check_lines(kvs: Seq<(String, Value)>)
    requires
        table_checks(kvs) is Ok,
    ensures
        table_checks(kvs)->Ok_0 == check_lines_of(kvs).flatten(),
    decreases kvs.len(),
{
    let lines = check_lines_of(kvs);
    if kvs.len() == 0 {
        assert(lines =~= Seq::<Seq<char>>::empty());
        assert(table_checks(kvs)->Ok_0 =~= lines.flatten());
    } else {
        lemma_check_lines(kvs.skip(1));
        assert(lines.drop_first() =~= check_lines_of(kvs.skip(1)));
        assert(var_check(kvs[0].0@, kvs[0].1)->Ok_0 == lines[0]);
        assert(table_checks(kvs)->Ok_0 =~= lines.flatten());
    }
}

/// The assertion lines each entry of a declaration list contributes.
pub open spec fn entry_check_texts(entries: Seq<Value>) -> Seq<Seq<char>> {
    Seq::new(
        entries.len(),
        |i: int|
            match entries[i] {
                Value::Table(kvs) => ok_text(table_checks(kvs@)),
                _ => Seq::empty(),
            },
    )
}

/// Law: a well-formed declaration list's check block is, entry by entry in
/// declaration order, each entry's assertion lines.
pub proof fn lemma_check_lines_list(entries: Seq<Value>)
    requires
        var_checks_list(entries) is Ok,
    ensures
        forall|i: int| 0 <= i < entries.len() ==> (#[trigger] entries[i]) matches Value::Table(_),
        var_checks_list(entries)->Ok_0 == entry_check_texts(entries).flatten(),
    decreases entries.len(),
{
    let texts = entry_check_texts(entries);
    if entries.len() == 0 {
        assert(texts =~= Seq::<Seq<char>>::empty());
        assert(var_checks_list(entries)->Ok_0 =~= texts.flatten());
    } else {
        lemma_check_lines_list(entries.skip(1));
        assert(texts.drop_first() =~= entry_check_texts(entries.skip(1)));
        assert(var_checks_list(entries)->Ok_0 =~= texts.flatten());
        assert forall|i: int|
            0 <= i < entries.len() implies (#[trigger] entries[i]) matches Value::Table(_) by {
            if i > 0 {
                assert(entries[i] == entries.skip(1)[i - 1]);
            }
        }
    }
}

/// The three-line block each step of a list contributes.
pub open spec fn step_blocks_of(steps: Seq<Value>) -> Seq<Seq<char>> {
    Seq::new(steps.len(), |i: int| step_block(step_log(steps[i]), step_cmd(steps[i])))
}

/// Law: a well-formed step list yields, in declaration order, exactly one
/// three-line block per step, with that step's log and command text
/// substituted verbatim, whatever variable validation ran beside it.
pub proof fn lemma_step_blocks(steps: Seq<Value>, vars: Option<Value>)
    requires
        steps_list(steps, vars) is Ok,
    ensures
        forall|i: int| 0 <= i < steps.len() ==> step_fields_ok(#[trigger] steps[i]),
        steps_list(steps, vars)->Ok_0 == step_blocks_of(steps).flatten(),
    decreases steps.len(),
{
    let blocks = step_blocks_of(steps);
    if steps.len() == 0 {
        assert(blocks =~= Seq::<Seq<char>>::empty());
        assert(steps_list(steps, vars)->Ok_0 =~= blocks.flatten());
    } else {
        lemma_step_blocks(steps.skip(1), vars);
        assert(blocks.drop_first() =~= step_blocks_of(steps.skip(1)));
        assert(step_text(steps[0], vars)->Ok_0 == blocks[0]);
        assert(steps_list(steps, vars)->Ok_0 =~= blocks.flatten());
        assert forall|i: int| 0 <= i < steps.len() implies step_fields_ok(#[trigger] steps[i]) by {
            if i > 0 {
                assert(steps[i] == steps.skip(1)[i - 1]);
            }
        }
    }
}

/// The block each target of a section contributes.
pub open spec fn target_blocks(section: Seq<(String, Value)>) -> Seq<Seq<char>> {
    Seq::new(section.len(), |i: int| ok_text(target_entry(section[i].0@, section[i].1)))
}

/// Law: a well-formed section yields, in declaration order, exactly one
/// block per target, and each block opens with that target's header line.
pub proof fn lemma_targets_in_order(section: Seq<(String, Value)>)
    requires
        targets_text(section) is Ok,
    ensures
        forall|i: int|
            0 <= i < section.len() ==> target_entry(section[i].0@, #[trigger] section[i].1) is Ok,
        targets_text(section)->Ok_0 == target_blocks(section).flatten(),
        forall|i: int|
            0 <= i < section.len() ==> (#[trigger] target_blocks(section)[i]).take(
                header_line(section[i].0@).len() as int,
            ) == header_line(section[i].0@),
    decreases section.len(),
{
    let blocks = target_blocks(section);
    if section.len() == 0 {
        assert(blocks =~= Seq::<Seq<char>>::empty());
        assert(targets_text(section)->Ok_0 =~= blocks.flatten());
    } else {
        lemma_targets_in_order(section.skip(1));
        assert(blocks.drop_first() =~= target_blocks(section.skip(1)));
        assert(target_entry(section[0].0@, section[0].1)->Ok_0 == blocks[0]);
        assert(targets_text(section)->Ok_0 =~= blocks.flatten());
        assert forall|i: int|
            0 <= i < section.len() implies target_entry(
            section[i].0@,
            #[trigger] section[i].1,
        ) is Ok by {
            if i > 0 {
                assert(section[i] == section.skip(1)[i - 1]);
            }
        }
        assert forall|i: int|
            0 <= i < section.len() implies (#[trigger] target_blocks(section)[i]).take(
            header_line(section[i].0@).len() as int,
        ) == header_line(section[i].0@) by {
            if i == 0 {
                let h = header_line(section[0].0@);
                assert(blocks[0].take(h.len() as int) =~= h);
            } else {
                assert(section[i] == section.skip(1)[i - 1]);
                assert(target_blocks(section.skip(1))[i - 1] == blocks[i]);
            }
        }
    }
}

/// Law: a well-formed section's Makefile is the banner, then the preamble,
/// then the target blocks in declaration order.
pub proof fn lemma_makefile_structure(section: Seq<(String, Value)>)
    requires
        makefile_text(section) is Ok,
    ensures
        makefile_text(section)->Ok_0 == banner_text() + preamble_text() + target_blocks(
            section,
        ).flatten(),
{
    lemma_targets_in_order(section);
}

/// Whether a step's block text carries a parenthesized reference to a
/// name that the first declared-variable entry does not bind.
pub open spec fn step_has_undeclared_ref(step: Value, vars: Value) -> bool {
    let refs = refs_from(step_block(step_log(step), step_cmd(step)), 0);
    exists|k: int| 0 <= k < refs.len() && !has_key(first_var_table(vars), #[trigger] refs[k])
}

/// When some reference is unbound, the scan reports one, and what it
/// reports is unbound.
pub proof fn lemma_exists_undeclared(refs: Seq<Seq<char>>, declared: Seq<(String, Value)>)
    requires
        exists|k: int| 0 <= k < refs.len() && !has_key(declared, #[trigger] refs[k]),
    ensures
        first_undeclared(refs, declared) is Some,
        !has_key(declared, first_undeclared(refs, declared)->Some_0),
    decreases refs.len(),
{
    let k = choose|k: int| 0 <= k < refs.len() && !has_key(declared, #[trigger] refs[k]);
    if has_key(declared, refs[0]) {
        assert(k > 0);
        assert(refs.skip(1)[k - 1] == refs[k]);
        lemma_exists_undeclared(refs.skip(1), declared);
    }
}

/// Law: when a step's block text carries a parenthesized reference to a
/// name that the first declared-variable entry does not bind, the step
/// fails with `UndeclaredVariable`, naming the first such reference —
/// itself unbound.
pub proof fn lemma_undeclared_reference(step: Value, vars: Value)
    requires
        step_fields_ok(step),
        vars_shape_ok(vars),
        step_has_undeclared_ref(step, vars),
    ensures
        step_text(step, Some(vars)) == Err::<Seq<char>, ErrModel>(
            ErrModel::UndeclaredVariable(
                first_undeclared(
                    refs_from(step_block(step_log(step), step_cmd(step)), 0),
                    first_var_table(vars),
                )->Some_0,
            ),
        ),
        !has_key(
            first_var_table(vars),
            first_undeclared(
                refs_from(step_block(step_log(step), step_cmd(step)), 0),
                first_var_table(vars),
            )->Some_0,
        ),
{
    let block = step_block(step_log(step), step_cmd(step));
    let refs = refs_from(block, 0);
    lemma_exists_undeclared(refs, first_var_table(vars));
    assert(refs.len() != 0);
    assert(step_text(step, Some(vars)) == step_checked(block, vars));
}

/// Law: one step with an undeclared reference dooms its whole step list,
/// whatever the other steps hold.
pub proof fn lemma_undeclared_reference_fails(steps: Seq<Value>, vars: Value)
    requires
        vars_shape_ok(vars),
        exists|i: int|
            0 <= i < steps.len() && step_fields_ok(#[trigger] steps[i]) && step_has_undeclared_ref(
                steps[i],
                vars,
            ),
    ensures
        steps_list(steps, Some(vars)) is Err,
    decreases steps.len(),
{
    let i = choose|i: int|
        0 <= i < steps.len() && step_fields_ok(#[trigger] steps[i]) && step_has_undeclared_ref(
            steps[i],
            vars,
        );
    if i == 0 {
        lemma_undeclared_reference(steps[0], vars);
    } else {
        if step_text(steps[0], Some(vars)) is Ok {
            assert(steps.skip(1)[i - 1] == steps[i]);
            assert(step_fields_ok(steps.skip(1)[i - 1]) && step_has_undeclared_ref(
                steps.skip(1)[i - 1],
                vars,
            ));
            lemma_undeclared_reference_fails(steps.skip(1), vars);
        }
    }
}

/// Whether a target declares variables and has some well-formed step whose
/// block text references a name its first declared-variable entry does not
/// bind.
pub open spec fn target_has_undeclared_ref(def: Value) -> bool {
    match def.spec_get("variables"@) {
        Some(vars) => vars_shape_ok(vars) && (match def.spec_get("steps"@) {
            Some(Value::Arr(steps)) => exists|i: int|
                0 <= i < steps@.len() && step_fields_ok(#[trigger] steps@[i])
                    && step_has_undeclared_ref(steps@[i], vars),
            _ => false,
        }),
        None => false,
    }
}

/// Law: a target with an undeclared reference never compiles.
pub proof fn lemma_undeclared_reference_fails_target(name: Seq<char>, def: Value)
    requires
        target_has_undeclared_ref(def),
    ensures
        target_entry(name, def) is Err,
{
    match def.spec_get("variables"@) {
        Some(vars) => {
            if var_checks(vars) is Ok {
                match def.spec_get("steps"@) {
                    Some(Value::Arr(steps)) => {
                        lemma_undeclared_reference_fails(steps@, vars);
                    },
                    _ => {},
                }
            }
        },
        None => {},
    }
}

/// Law: a section in which any target carries an undeclared reference
/// yields no target text at all.
pub proof fn lemma_undeclared_reference_fails_section(section: Seq<(String, Value)>)
    requires
        exists|j: int| 0 <= j < section.len() && target_has_undeclared_ref(#[trigger] section[j].1),
    ensures
        targets_text(section) is Err,
    decreases section.len(),
{
    let j = choose|j: int|
        0 <= j < section.len() && target_has_undeclared_ref(#[trigger] section[j].1);
    if j == 0 {
        lemma_undeclared_reference_fails_target(section[0].0@, section[0].1);
    } else {
        if target_entry(section[0].0@, section[0].1) is Ok {
            assert(section.skip(1)[j - 1] == section[j]);
            assert(target_has_undeclared_ref(section.skip(1)[j - 1].1));
            lemma_undeclared_reference_fails_section(section.skip(1));
        }
    }
}

/// Law: a section in which any target carries an undeclared reference
/// yields no Makefile: generation fails, so nothing is written.
pub proof fn lemma_undeclared_reference_no_makefile(section: Seq<(String, Value)>)
    requires
        exists|j: int| 0 <= j < section.len() && target_has_undeclared_ref(#[trigger] section[j].1),
    ensures
        makefile_text(section) is Err,
{
    lemma_undeclared_reference_fails_section(section);
}

} // verus!
