//! The spawn procedure's inputs: the agent command line and the terminal grid size.
//!
//! Allocating the pseudo-terminal and spawning into it are the caller's work.
//! What is decided here is what they are given: the command that starts the
//! agent for a persona, the grid the terminal starts with, and the size that a
//! layout change reports to it.

use vstd::prelude::*;
use portable_pty::CommandBuilder;
use portable_pty::PtySize;

verus! {

/// Columns of a terminal before its first layout.
pub const DEFAULT_COLS: u16 = 80;

/// Rows of a terminal before its first layout.
pub const DEFAULT_ROWS: u16 = 24;

/// `portable_pty::PtySize`, taken as it is declared: four public fields of
/// sixteen bits each, the rows, the columns and the pixel size of a cell.
/// Nothing is hidden, so a value is built and read field by field.
#[verifier::external_type_specification]
pub struct ExPtySize(PtySize);

/// `portable_pty::CommandBuilder`, carried as an opaque value: what it holds
/// is spoken of through `command_argv` and `command_cwd`.
#[verifier::external_type_specification]
#[verifier::external_body]
pub struct ExCommandBuilder(CommandBuilder);

/// The argument vector that a command builder holds, program first.
pub uninterp spec fn command_argv(cmd: CommandBuilder) -> Seq<Seq<char>>;

/// The working directory that a command builder holds, if one was set.
pub uninterp spec fn command_cwd(cmd: CommandBuilder) -> Option<Seq<char>>;

/// `CommandBuilder::new`: a builder whose argument vector is the program
/// alone and which has no working directory. Its environment is the
/// process's own, of which nothing is claimed.
#[verifier::external_body]
fn command_new(program: &str) -> (cmd: CommandBuilder)
    ensures
        command_argv(cmd) == seq![program@],
        command_cwd(cmd) == None::<Seq<char>>,
{
    CommandBuilder::new(program)
}

/// `CommandBuilder::arg`: appends one argument and leaves the working
/// directory as it was. The method panics on a builder without a program,
/// which the precondition leaves out.
#[verifier::external_body]
fn command_arg(cmd: &mut CommandBuilder, arg: &str)
    requires
        command_argv(*old(cmd)).len() > 0,
    ensures
        command_argv(*final(cmd)) == command_argv(*old(cmd)).push(arg@),
        command_cwd(*final(cmd)) == command_cwd(*old(cmd)),
{
    cmd.arg(arg)
}

/// `CommandBuilder::cwd`: sets the working directory and leaves the argument
/// vector as it was.
#[verifier::external_body]
fn command_set_cwd(cmd: &mut CommandBuilder, dir: &str)
    ensures
        command_cwd(*final(cmd)) == Some(dir@),
        command_argv(*final(cmd)) == command_argv(*old(cmd)),
{
    cmd.cwd(dir)
}

/// The agent's command line for a persona: the executable, the persona by its
/// identifier, and the continuation flag where prior context is resumed.
pub open spec fn agent_argv(persona_id: Seq<char>, continuation: bool) -> Seq<Seq<char>> {
    let fresh = seq!["opencode"@, "--agent"@, persona_id];
    if continuation {
        fresh.push("--continue"@)
    } else {
        fresh
    }
}

/// Builds the command that starts the agent for `persona_id` in `working_dir`.
pub fn agent_command(persona_id: &str, continuation: bool, working_dir: &str) -> (cmd:
    CommandBuilder)
    ensures
        command_argv(cmd) == agent_argv(persona_id@, continuation),
        command_cwd(cmd) == Some(working_dir@),
{
    let mut cmd = command_new("opencode");
    command_arg(&mut cmd, "--agent");
    command_arg(&mut cmd, persona_id);
    if continuation {
        command_arg(&mut cmd, "--continue");
    }
    command_set_cwd(&mut cmd, working_dir);
    cmd
}

/// A grid of `cols` by `rows` cells whose pixel size is left unreported.
pub open spec fn grid(cols: int, rows: int) -> PtySize {
    PtySize { rows: rows as u16, cols: cols as u16, pixel_width: 0, pixel_height: 0 }
}

/// The grid a terminal is allocated with.
pub fn initial_size() -> (size: PtySize)
    ensures
        size == grid(80, 24),
{
    PtySize { rows: DEFAULT_ROWS, cols: DEFAULT_COLS, pixel_width: 0, pixel_height: 0 }
}

/// The size reported to the terminal for a layout of `cols` by `rows` cells.
/// Each dimension is reduced to sixteen bits, as the terminal's size record
/// holds no more.
pub fn resize_size(cols: usize, rows: usize) -> (size: PtySize)
    ensures
        size == grid(cols as int % 0x10000, rows as int % 0x10000),
{
    let c: u16 = (cols % 0x10000) as u16;
    let r: u16 = (rows % 0x10000) as u16;
    PtySize { rows: r, cols: c, pixel_width: 0, pixel_height: 0 }
}

} // verus!
