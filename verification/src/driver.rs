//! The decisions of a whole invocation: when to stop, what to launch for
//! `run`, and the exit status.
use vstd::prelude::*;
use vstd::string::StringSliceAdditionalSpecFns;
use crate::bytes::{byte_strings, concat, to_vec};
use crate::cli::Action;
use crate::launch::ToolCommand;
use crate::packaging::push_arg;
use crate::paths::{join_spec, Toolchain};

verus! {

/// A preflight stops once the checks passed; `build` and `run` go on.
pub fn continues_after_preflight(action: Action) -> (r: bool)
    ensures
        r == (action != Action::Preflight),
{
    action != Action::Preflight
}

/// Only `run` starts the built program.
pub fn launches_after_build(action: Action) -> (r: bool)
    ensures
        r == (action == Action::Run),
{
    action == Action::Run
}

/// Why `run` could not start the program.
#[derive(Clone, Copy, Debug, PartialEq, Eq, Structural)]
pub enum RunError {
    /// The build produced more or fewer than one executable.
    NeedsOneExecutable,
}

impl RunError {
    /// The message for this failure.
    pub fn message(&self) -> (r: Vec<u8>)
        ensures
            r@ == "run requires exactly one executable; use --bin or --example".spec_bytes(),
    {
        to_vec("run requires exactly one executable; use --bin or --example".as_bytes())
    }
}

/// `run` needs exactly one executable.
pub fn single_executable(artifacts: &Vec<Vec<u8>>) -> (r: Result<(), RunError>)
    ensures
        r is Ok <==> artifacts@.len() == 1,
{
    if artifacts.len() != 1 {
        Err(RunError::NeedsOneExecutable)
    } else {
        Ok(())
    }
}

/// On Linux the program runs through Cosmopolitan's native APE loader for
/// the host architecture (so that WSL does not launch the Windows half).
pub fn loader_command(tc: &Toolchain, host_arch: &str, artifact: &[u8]) -> (r: ToolCommand)
    ensures
        r.program@ == join_spec(tc.bin@, "ape-".spec_bytes() + host_arch.spec_bytes() + ".elf".spec_bytes()),
        byte_strings(r.args@) == seq![artifact@],
{
    let mut name = concat("ape-".as_bytes(), host_arch.as_bytes());
    crate::bytes::push_bytes(&mut name, ".elf".as_bytes());
    let mut args: Vec<Vec<u8>> = Vec::new();
    push_arg(&mut args, artifact);
    assert(byte_strings(args@) =~= seq![artifact@]);
    ToolCommand { program: tc.path_bytes(name.as_slice()), args }
}

/// The command with the program's own arguments appended.
pub fn with_program_args(command: ToolCommand, program: &Vec<Vec<u8>>) -> (r: ToolCommand)
    ensures
        r.program@ == command.program@,
        byte_strings(r.args@) == byte_strings(command.args@) + byte_strings(program@),
{
    let mut c = command;
    let ghost start = byte_strings(c.args@);
    let mut i: usize = 0;
    while i < program.len()
        invariant
            i <= program@.len(),
            c.program@ == command.program@,
            byte_strings(c.args@) == start + byte_strings(program@).take(i as int),
        decreases program@.len() - i,
    {
        push_arg(&mut c.args, program[i].as_slice());
        assert(byte_strings(program@).take(i + 1) =~= byte_strings(program@).take(i as int).push(program@[i as int]@));
        i += 1;
    }
    assert(byte_strings(program@).take(program@.len() as int) =~= byte_strings(program@));
    c
}

/// The tool's exit status: the program's own, or 1 when it has none (it was
/// ended by a signal).
pub fn exit_code(code: Option<i32>) -> (r: i32)
    ensures
        r == match code {
            Some(c) => c,
            None => 1,
        },
{
    match code {
        Some(c) => c,
        None => 1,
    }
}

} // verus!
