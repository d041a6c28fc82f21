//! The fixed text the generator emits, and verified builders for each piece:
//! the warning banner, the helper-macro preamble, target header lines,
//! variable assertion lines and step blocks.

use vstd::prelude::*;
use vstd::string::StringExecFns;

verus! {

/// The warning banner that opens every generated Makefile.
pub open spec fn banner_text() -> Seq<char> {
    "# WARNING:\n# This file is automatically generated by makegen.\n# It is not intended for manual editing.\n\n"@
}

/// The helper-macro preamble: `check_defined` for asserting a variable is
/// set, and the two styled console prefixes.
pub open spec fn preamble_text() -> Seq<char> {
    "check_defined = \\\n$(strip $(foreach 1,$1, \\\n    $(call __check_defined,$1,$(strip $(value 2)))))\n__check_defined = \\\n$(if $(value $1),, \\\n    $(error Mandatory argument $1$(if $2, ($2))$(if $(value @), \\\n            not provided. Required by target `$@`)))\n\nlog_prefix := \\x1b[34m[\\u001b[0m\\x1b[31m*\\x1b[34m\\x1b[34m]\\u001b[0m\ncommand_prefix := \\x1b[34m[\\u001b[0m\\x1b[31m\\#\\x1b[34m\\x1b[34m]\\u001b[0m\n\n"@
}

/// The header line that opens a target's block.
pub open spec fn header_line(name: Seq<char>) -> Seq<char> {
    "\r"@ + name + ":\n"@
}

/// The runtime assertion emitted for one required variable.
pub open spec fn check_line(name: Seq<char>, desc: Seq<char>) -> Seq<char> {
    "\t@:$(call check_defined, "@ + name + ", "@ + desc + ")\n"@
}

/// The three recipe lines emitted for one step: an echo of the log text, an
/// echo of the command text, and the command itself.
pub open spec fn step_block(log: Seq<char>, cmd: Seq<char>) -> Seq<char> {
    "\t@echo -e \"${log_prefix} "@ + log + "\"\n\t@echo -e \"${command_prefix} "@ + cmd + "\"\n\t@"@
        + cmd + "\n"@
}

/// The banner, as text.
pub fn comment_header() -> (r: String)
    ensures
        r@ == banner_text(),
{
    "# WARNING:\n# This file is automatically generated by makegen.\n# It is not intended for manual editing.\n\n".to_owned()
}

/// The helper-macro preamble, as text.
pub fn makefile_header() -> (r: String)
    ensures
        r@ == preamble_text(),
{
    "check_defined = \\\n$(strip $(foreach 1,$1, \\\n    $(call __check_defined,$1,$(strip $(value 2)))))\n__check_defined = \\\n$(if $(value $1),, \\\n    $(error Mandatory argument $1$(if $2, ($2))$(if $(value @), \\\n            not provided. Required by target `$@`)))\n\nlog_prefix := \\x1b[34m[\\u001b[0m\\x1b[31m*\\x1b[34m\\x1b[34m]\\u001b[0m\ncommand_prefix := \\x1b[34m[\\u001b[0m\\x1b[31m\\#\\x1b[34m\\x1b[34m]\\u001b[0m\n\n".to_owned()
}

/// Appends one target header line to `out`.
pub fn push_header_line(out: &mut String, name: &str)
    ensures
        final(out)@ == old(out)@ + header_line(name@),
{
    let ghost init = out@;
    out.append("\r");
    out.append(name);
    out.append(":\n");
    assert(out@ =~= init + header_line(name@));
}

/// Appends one variable assertion line to `out`.
pub fn push_check_line(out: &mut String, name: &str, desc: &str)
    ensures
        final(out)@ == old(out)@ + check_line(name@, desc@),
{
    let ghost init = out@;
    out.append("\t@:$(call check_defined, ");
    out.append(name);
    out.append(", ");
    out.append(desc);
    out.append(")\n");
    assert(out@ =~= init + check_line(name@, desc@));
}

/// One step's three-line block, as text.
pub fn build_step_block(log: &str, cmd: &str) -> (r: String)
    ensures
        r@ == step_block(log@, cmd@),
{
    let mut out = String::new();
    out.append("\t@echo -e \"${log_prefix} ");
    out.append(log);
    out.append("\"\n\t@echo -e \"${command_prefix} ");
    out.append(cmd);
    out.append("\"\n\t@");
    out.append(cmd);
    out.append("\n");
    assert(out@ =~= step_block(log@, cmd@));
    out
}

} // verus!
