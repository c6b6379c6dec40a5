use vstd::prelude::*;

use vstd::string::{StrSliceExecFns, StringExecFns};

use crate::cpu::step_spec;
use crate::instruction::wrap16;
use crate::memory::{Memory, MemoryView};
use crate::nes::{ppu_ticks_taken, NESError, NES};
use crate::parser::{
    hex_to_u16, input_to_arguments, number_u16, parse_u16, split_arguments, strip_hex_prefix,
    views,
};
use crate::ppu::{dma_fault, ppu_run};
use crate::text::{hex2_lower, hex4_lower, printable, printable_char, push_hex2_lower, push_hex4_lower};

verus! {

pub const HELP_TEXT: &'static str = "
Welcome to the nes-rs debugger!

This subshell provides access to a few different commands that allow you to
modify and observe the state of the virtual machine. At the moment there is a
very limited set of commands and more may be added in the future.

Supported commands: help | exit | stop | continue | dump | objdump

";

/// First line of the dump command's usage text.
pub const DUMP_BRIEF: &'static str = "Usage: dump [OPTION]... [ADDRESS]";

/// First line of the objdump command's usage text.
pub const OBJDUMP_BRIEF: &'static str = "Usage: objdump [OPTION]... [ADDRESS]";

pub const UNKNOWN_COMMAND: &'static str = "nes-rs: unknown command specified\n";

/// Lines of a hex dump when no `--peek` is given.
pub const DEFAULT_PEEK: u16 = 10;

/// Name for what `str::to_lowercase` returns.
pub uninterp spec fn lower_of(s: Seq<char>) -> Seq<char>;

/// Relies on `str::to_lowercase`: the result depends on the characters
/// alone.
#[verifier::external_body]
fn lowercase(s: &str) -> (r: String)
    ensures
        r@ == lower_of(s@),
{
    s.to_lowercase()
}

/// Name for what getopts makes of arguments with `-p`/`--peek NUMBER` as
/// the only option: the peek value and the free arguments, or the text of
/// the failure.
pub uninterp spec fn peek_options(args: Seq<Seq<char>>) -> Result<
    (Option<Seq<char>>, Seq<Seq<char>>),
    Seq<char>,
>;

pub open spec fn view_option(o: Option<String>) -> Option<Seq<char>> {
    match o {
        Some(s) => Some(s@),
        None => None,
    }
}

pub open spec fn view_parsed(r: Result<(Option<String>, Vec<String>), String>) -> Result<
    (Option<Seq<char>>, Seq<Seq<char>>),
    Seq<char>,
> {
    match r {
        Ok(p) => Ok((view_option(p.0), views(p.1@))),
        Err(e) => Err(e@),
    }
}

/// Relies on getopts' `Options::parse` with the one option `-p`/`--peek
/// NUMBER`, `Matches::opt_str` and `Matches::free`; the result depends on
/// the arguments alone.
#[verifier::external_body]
fn parse_peek_options(args: &[String]) -> (r: Result<(Option<String>, Vec<String>), String>)
    ensures
        view_parsed(r) == peek_options(views(args@)),
{
    let mut opts = getopts::Options::new();
    opts.optopt("p", "peek", "how far forward should memory be dumped", "NUMBER");
    match opts.parse(args) {
        Ok(m) => Ok((m.opt_str("peek"), m.free)),
        Err(f) => Err(f.to_string()),
    }
}

/// Name for the usage text getopts writes for the `-p`/`--peek NUMBER`
/// option under a first line `brief`.
pub uninterp spec fn peek_usage_of(brief: Seq<char>) -> Seq<char>;

/// Relies on getopts' `Options::usage` with the one option `-p`/`--peek
/// NUMBER`; the text depends on `brief` alone.
#[verifier::external_body]
fn peek_usage(brief: &str) -> (r: String)
    ensures
        r@ == peek_usage_of(brief@),
{
    let mut opts = getopts::Options::new();
    opts.optopt("p", "peek", "how far forward should memory be dumped", "NUMBER");
    opts.usage(brief)
}

/// Debugger commands.
#[derive(Clone, Copy, Debug, PartialEq, Eq, Structural)]
pub enum Command {
    Help,
    Exit,
    Stop,
    Continue,
    Dump,
    ObjDump,
}

/// A command with all the arguments of its line, its own name first.
pub struct CommandWithArguments {
    pub command: Command,
    pub args: Vec<String>,
}

/// The command a (lower-case) name stands for, aliases included.
pub open spec fn command_named(name: Seq<char>) -> Option<Command> {
    if name == "help"@ {
        Some(Command::Help)
    } else if name == "exit"@ {
        Some(Command::Exit)
    } else if name == "stop"@ || name == "s"@ {
        Some(Command::Stop)
    } else if name == "continue"@ || name == "c"@ {
        Some(Command::Continue)
    } else if name == "dump"@ || name == "d"@ {
        Some(Command::Dump)
    } else if name == "objdump"@ || name == "od"@ {
        Some(Command::ObjDump)
    } else {
        None
    }
}

/// The command of an input line: its first argument, in any case.
pub open spec fn command_of(input: Seq<char>) -> Option<Command> {
    let args = split_arguments(input);
    if args.len() == 0 {
        None
    } else {
        command_named(lower_of(args[0]))
    }
}

/// What a command prints.
pub struct DebuggerOutput {
    pub stdout: String,
    pub stderr: String,
}

/// The byte at `off + j` of a dump, wrapping in the address space.
pub open spec fn dump_byte(m: MemoryView, off: u16, j: int) -> u8 {
    m.raw(wrap16(off + j) as int)
}

/// Bytes `from..to` of a dump line in hex, each followed by a space.
pub open spec fn dump_hex(m: MemoryView, off: u16, from: int, to: int) -> Seq<char>
    decreases to - from,
{
    if to <= from {
        Seq::empty()
    } else {
        dump_hex(m, off, from, to - 1) + hex2_lower(dump_byte(m, off, to - 1)) + " "@
    }
}

/// The first `n` bytes of a dump line as characters.
pub open spec fn dump_ascii(m: MemoryView, off: u16, n: int) -> Seq<char>
    decreases n,
{
    if n <= 0 {
        Seq::empty()
    } else {
        dump_ascii(m, off, n - 1) + printable(dump_byte(m, off, n - 1))@
    }
}

/// One hex dump line: address, two groups of eight bytes, the characters.
pub open spec fn dump_line(m: MemoryView, off: u16) -> Seq<char> {
    hex4_lower(off) + "  "@ + dump_hex(m, off, 0, 8) + " "@ + dump_hex(m, off, 8, 16) + " "@
        + dump_ascii(m, off, 16) + "\n"@
}

/// `count` dump lines of sixteen bytes from `addr` on.
pub open spec fn dump_lines(m: MemoryView, addr: u16, count: int) -> Seq<char>
    decreases count,
{
    if count <= 0 {
        Seq::empty()
    } else {
        dump_lines(m, addr, count - 1) + dump_line(m, wrap16(addr + 16 * (count - 1)))
    }
}

/// Address and line count a dump or objdump command asks for, given what
/// the option parser made of its arguments, or the error text it prints.
/// `brief` heads the usage text shown with option errors.
pub open spec fn dump_request_parsed(
    parsed: Result<(Option<Seq<char>>, Seq<Seq<char>>), Seq<char>>,
    pc: u16,
    brief: Seq<char>,
) -> Result<(u16, u16), Seq<char>> {
    match parsed {
        Err(msg) => Err("dump: "@ + msg + "\n"@ + peek_usage_of(brief) + "\n"@),
        Ok((peek_arg, free)) => {
            let peek = match peek_arg {
                None => Some(DEFAULT_PEEK),
                Some(p) => number_u16(p, 10),
            };
            match peek {
                None => Err(
                    "dump: invalid peek count: "@ + peek_arg.unwrap() + "\n"@ + peek_usage_of(brief)
                        + "\n"@,
                ),
                Some(n) => if free.len() == 0 {
                    Ok((pc, n))
                } else {
                    match number_u16(strip_hex_prefix(free[0]), 16) {
                        Some(addr) => Ok((addr, n)),
                        None => Err("dump: cannot parse address: "@ + free[0] + "\n"@),
                    }
                },
            }
        },
    }
}

/// Address and line count a dump or objdump command asks for, or the error
/// text it prints. `args` are the arguments after the command name.
pub open spec fn dump_request(args: Seq<Seq<char>>, pc: u16, brief: Seq<char>) -> Result<
    (u16, u16),
    Seq<char>,
> {
    dump_request_parsed(peek_options(args), pc, brief)
}

/// What a command prints, as (stdout, stderr): `args` is its whole line,
/// `was_stepping` whether the CPU ran before it, `pc` and `m` the machine.
pub open spec fn command_output(
    c: Command,
    args: Seq<Seq<char>>,
    was_stepping: bool,
    pc: u16,
    m: MemoryView,
) -> (Seq<char>, Seq<char>) {
    match c {
        Command::Help => (Seq::empty(), HELP_TEXT@),
        Command::Exit => (Seq::empty(), Seq::empty()),
        Command::Stop => (
            if was_stepping {
                "Stopping execution now...\n"@
            } else {
                "Execution is already stopped.\n"@
            },
            Seq::empty(),
        ),
        Command::Continue => (
            if was_stepping {
                "Execution is already happening.\n"@
            } else {
                "Starting execution now...\n"@
            },
            Seq::empty(),
        ),
        Command::Dump => match dump_request(args.skip(1), pc, DUMP_BRIEF@) {
            Ok((addr, peek)) => (dump_lines(m, addr, peek as int), Seq::empty()),
            Err(e) => (Seq::empty(), e),
        },
        Command::ObjDump => match dump_request(args.skip(1), pc, OBJDUMP_BRIEF@) {
            Ok(_) => ("Unimplemented... for now.\n"@, Seq::empty()),
            Err(e) => (Seq::empty(), e),
        },
    }
}

/// The interactive debugger's state: whether the CPU runs, and whether the
/// user asked to leave.
pub struct Debugger {
    stepping: bool,
    shutdown: bool,
}

/// What one debugger step did.
pub struct DebuggerStep {
    /// Output of the command that came in, if one did.
    pub output: Option<DebuggerOutput>,
    /// Result of the console step, if the CPU is running.
    pub step: Option<Result<u16, NESError>>,
    /// Whether the user asked to leave.
    pub shutdown: bool,
}

fn same_text(a: &str, b: &str) -> (r: bool)
    ensures
        r == (a@ == b@),
{
    let len = a.unicode_len();
    if len != b.unicode_len() {
        return false;
    }
    let mut i: usize = 0;
    while i < len
        invariant
            len == a@.len(),
            len == b@.len(),
            i <= len,
            forall|j: int| 0 <= j < i ==> a@[j] == b@[j],
        decreases len - i,
    {
        if a.get_char(i) != b.get_char(i) {
            return false;
        }
        i = i + 1;
    }
    assert(a@ =~= b@);
    true
}

fn empty_output() -> (r: DebuggerOutput)
    ensures
        r.stdout@ == Seq::<char>::empty(),
        r.stderr@ == Seq::<char>::empty(),
{
    DebuggerOutput { stdout: String::new(), stderr: String::new() }
}

impl Debugger {
    pub closed spec fn is_stepping(&self) -> bool {
        self.stepping
    }

    pub closed spec fn is_shutdown(&self) -> bool {
        self.shutdown
    }

    /// A debugger that lets the CPU run.
    pub fn new() -> (r: Debugger)
        ensures
            r.is_stepping(),
            !r.is_shutdown(),
    {
        Debugger { stepping: true, shutdown: false }
    }

    /// Whether the CPU runs.
    pub fn stepping(&self) -> (r: bool)
        ensures
            r == self.is_stepping(),
    {
        self.stepping
    }

    /// Whether the user asked to leave.
    pub fn shutdown(&self) -> (r: bool)
        ensures
            r == self.is_shutdown(),
    {
        self.shutdown
    }

    /// Reads a command line: `None` when it is empty or names no command.
    pub fn interpret(&self, input: String) -> (r: Option<CommandWithArguments>)
        ensures
            match command_of(input@) {
                None => r.is_none(),
                Some(c) => r.is_some() && r.unwrap().command == c && views(r.unwrap().args@)
                    == split_arguments(input@),
            },
    {
        let args = match input_to_arguments(input) {
            Ok(args) => args,
            Err(_) => {
                return None;
            },
        };
        if args.len() == 0 {
            return None;
        }
        assert(views(args@)[0] == args@[0]@);
        let name = lowercase(args[0].as_str());
        let command = match command_from_name(name.as_str()) {
            Some(c) => c,
            None => {
                return None;
            },
        };
        Some(CommandWithArguments { command: command, args: args })
    }

    /// Friendly help on stderr.
    fn execute_help(&self) -> (r: DebuggerOutput)
        ensures
            r.stdout@ == Seq::<char>::empty(),
            r.stderr@ == HELP_TEXT@,
    {
        DebuggerOutput { stdout: String::new(), stderr: String::from_str(HELP_TEXT) }
    }

    /// Asks the emulator to stop.
    fn execute_exit(&mut self)
        ensures
            final(self).shutdown,
            final(self).stepping == old(self).stepping,
    {
        self.shutdown = true;
    }

    /// Pauses the CPU.
    fn execute_stop(&mut self) -> (r: DebuggerOutput)
        ensures
            !final(self).stepping,
            final(self).shutdown == old(self).shutdown,
            r.stdout@ == (if old(self).stepping {
                "Stopping execution now...\n"@
            } else {
                "Execution is already stopped.\n"@
            }),
            r.stderr@ == Seq::<char>::empty(),
    {
        if self.stepping {
            self.stepping = false;
            DebuggerOutput {
                stdout: String::from_str("Stopping execution now...\n"),
                stderr: String::new(),
            }
        } else {
            DebuggerOutput {
                stdout: String::from_str("Execution is already stopped.\n"),
                stderr: String::new(),
            }
        }
    }

    /// Lets the CPU run again.
    fn execute_continue(&mut self) -> (r: DebuggerOutput)
        ensures
            final(self).stepping,
            final(self).shutdown == old(self).shutdown,
            r.stdout@ == (if old(self).stepping {
                "Execution is already happening.\n"@
            } else {
                "Starting execution now...\n"@
            }),
            r.stderr@ == Seq::<char>::empty(),
    {
        if self.stepping {
            DebuggerOutput {
                stdout: String::from_str("Execution is already happening.\n"),
                stderr: String::new(),
            }
        } else {
            self.stepping = true;
            DebuggerOutput {
                stdout: String::from_str("Starting execution now...\n"),
                stderr: String::new(),
            }
        }
    }

    /// Reads the peek count and the address of a dump or objdump command.
    fn dump_arguments(args: &Vec<String>, pc: u16, brief: &str) -> (r: Result<(u16, u16), String>)
        requires
            args@.len() >= 1,
        ensures
            match dump_request(views(args@).skip(1), pc, brief@) {
                Ok(p) => r == Ok::<(u16, u16), String>(p),
                Err(e) => r.is_err() && r->Err_0@ == e,
            },
    {
        let rest = vstd::slice::slice_subrange(args.as_slice(), 1, args.len());
        assert(views(rest@) =~= views(args@).skip(1));
        dump_request_from(parse_peek_options(rest), pc, brief)
    }

    /// Dumps `peek` lines of sixteen bytes from an address, default PC, in
    /// hexdump style. The bus is read without touching register state.
    fn execute_dump(&mut self, nes: &mut NES, args: &Vec<String>) -> (r: DebuggerOutput)
        requires
            old(nes).memory.wf(),
            args@.len() >= 1,
        ensures
            final(nes).memory@ == old(nes).memory@,
            final(nes).memory.wf(),
            final(nes).cpu == old(nes).cpu,
            final(nes).ppu == old(nes).ppu,
            *final(self) == *old(self),
            match dump_request(views(args@).skip(1), old(nes).cpu.pc, DUMP_BRIEF@) {
                Ok((addr, peek)) => r.stdout@ == dump_lines(old(nes).memory@, addr, peek as int)
                    && r.stderr@ == Seq::<char>::empty(),
                Err(e) => r.stderr@ == e && r.stdout@ == Seq::<char>::empty(),
            },
    {
        let (addr, peek) = match Debugger::dump_arguments(args, nes.cpu.pc, DUMP_BRIEF) {
            Ok(p) => p,
            Err(e) => {
                return DebuggerOutput { stdout: String::new(), stderr: e };
            },
        };
        let mut out = String::new();
        let mut idx: u16 = 0;
        while idx < peek
            invariant
                nes.memory.wf(),
                nes.memory@ == old(nes).memory@,
                nes.cpu == old(nes).cpu,
                nes.ppu == old(nes).ppu,
                idx <= peek,
                out@ == dump_lines(old(nes).memory@, addr, idx as int),
            decreases peek - idx,
        {
            let offset = ((addr as u32 + idx as u32 * 16) % 0x10000) as u16;
            dump_line_into(&mut out, offset, &mut nes.memory);
            idx = idx + 1;
        }
        DebuggerOutput { stdout: out, stderr: String::new() }
    }

    /// Reads the arguments of an instruction dump; the dump itself is not
    /// written yet.
    fn execute_objdump(&mut self, nes: &mut NES, args: &Vec<String>) -> (r: DebuggerOutput)
        requires
            args@.len() >= 1,
        ensures
            *final(nes) == *old(nes),
            *final(self) == *old(self),
            match dump_request(views(args@).skip(1), old(nes).cpu.pc, OBJDUMP_BRIEF@) {
                Ok(_) => r.stdout@ == "Unimplemented... for now.\n"@ && r.stderr@
                    == Seq::<char>::empty(),
                Err(e) => r.stderr@ == e && r.stdout@ == Seq::<char>::empty(),
            },
    {
        match Debugger::dump_arguments(args, nes.cpu.pc, OBJDUMP_BRIEF) {
            Ok(_) => DebuggerOutput {
                stdout: String::from_str("Unimplemented... for now.\n"),
                stderr: String::new(),
            },
            Err(e) => DebuggerOutput { stdout: String::new(), stderr: e },
        }
    }

    /// Runs a command.
    pub fn execute_command(&mut self, command: CommandWithArguments, nes: &mut NES) -> (r: DebuggerOutput)
        requires
            old(nes).memory.wf(),
            command.args@.len() >= 1,
        ensures
            final(nes).memory@ == old(nes).memory@,
            final(nes).memory.wf(),
            final(nes).cpu == old(nes).cpu,
            final(nes).ppu == old(nes).ppu,
            final(self).is_shutdown() == (old(self).is_shutdown() || command.command
                == Command::Exit),
            final(self).is_stepping() == (match command.command {
                Command::Stop => false,
                Command::Continue => true,
                _ => old(self).is_stepping(),
            }),
            (r.stdout@, r.stderr@) == command_output(
                command.command,
                views(command.args@),
                old(self).is_stepping(),
                old(nes).cpu.pc,
                old(nes).memory@,
            ),
    {
        match command.command {
            Command::Help => self.execute_help(),
            Command::Exit => {
                self.execute_exit();
                empty_output()
            },
            Command::Stop => self.execute_stop(),
            Command::Continue => self.execute_continue(),
            Command::Dump => self.execute_dump(nes, &command.args),
            Command::ObjDump => self.execute_objdump(nes, &command.args),
        }
    }

    /// Handles a line of input: runs its command, or reports an unknown
    /// command unless the line is empty.
    pub fn handle_input(&mut self, input: String, nes: &mut NES) -> (r: DebuggerOutput)
        requires
            old(nes).memory.wf(),
        ensures
            final(nes).memory@ == old(nes).memory@,
            final(nes).memory.wf(),
            final(nes).cpu == old(nes).cpu,
            final(nes).ppu == old(nes).ppu,
            final(self).is_shutdown() == (old(self).is_shutdown() || command_of(input@) == Some(
                Command::Exit,
            )),
            final(self).is_stepping() == (match command_of(input@) {
                Some(Command::Stop) => false,
                Some(Command::Continue) => true,
                _ => old(self).is_stepping(),
            }),
            match command_of(input@) {
                Some(c) => (r.stdout@, r.stderr@) == command_output(
                    c,
                    split_arguments(input@),
                    old(self).is_stepping(),
                    old(nes).cpu.pc,
                    old(nes).memory@,
                ),
                None => r.stdout@ == Seq::<char>::empty() && r.stderr@ == (if input@.len() > 0 {
                    UNKNOWN_COMMAND@
                } else {
                    Seq::<char>::empty()
                }),
            },
    {
        let nonempty = input.as_str().unicode_len() > 0;
        match self.interpret(input) {
            Some(command) => {
                assert(views(command.args@).len() == command.args@.len());
                self.execute_command(command, nes)
            },
            None => {
                if nonempty {
                    DebuggerOutput { stdout: String::new(), stderr: String::from_str(UNKNOWN_COMMAND) }
                } else {
                    empty_output()
                }
            },
        }
    }

    /// One turn of the debugger loop: the line that came in, if any, is
    /// handled, then the console steps if the CPU is running.
    pub fn step(&mut self, input: Option<String>, nes: &mut NES) -> (r: DebuggerStep)
        requires
            old(nes).memory.wf(),
            old(nes).cpu.cycles <= 0xFF00,
        ensures
            final(nes).memory.wf(),
            r.output.is_some() == input.is_some(),
            r.shutdown == final(self).is_shutdown(),
            r.step.is_some() == final(self).is_stepping(),
            final(self).is_shutdown() == (old(self).is_shutdown() || match input {
                Some(line) => command_of(line@) == Some(Command::Exit),
                None => false,
            }),
            final(self).is_stepping() == (match input {
                Some(line) => match command_of(line@) {
                    Some(Command::Stop) => false,
                    Some(Command::Continue) => true,
                    _ => old(self).is_stepping(),
                },
                None => old(self).is_stepping(),
            }),
            !final(self).is_stepping() ==> final(nes).cpu == old(nes).cpu && final(nes).memory@
                == old(nes).memory@,
            final(self).is_stepping() ==> match step_spec(old(nes).cpu.regs(), old(nes).memory@) {
                None => r.step matches Some(Err(_)),
                Some((regs, m, c)) => {
                    let n = (old(nes).cpu.cycles + c) as u16;
                    &&& final(nes).cpu.regs() == regs
                    &&& (final(nes).ppu, final(nes).memory@) == ppu_run(
                        old(nes).ppu,
                        m,
                        ppu_ticks_taken(m, 3 * n as nat),
                    )
                    &&& r.step == Some(
                        match dma_fault(m) {
                            Some(e) => Err::<u16, NESError>(NESError::Ppu(e)),
                            None => Ok::<u16, NESError>(n),
                        },
                    )
                },
            },
    {
        let output = match input {
            Some(line) => Some(self.handle_input(line, nes)),
            None => None,
        };
        let step = if self.stepping {
            Some(nes.step())
        } else {
            None
        };
        DebuggerStep { output: output, step: step, shutdown: self.shutdown }
    }
}

/// The command a (lower-case) name stands for, aliases included.
pub fn command_from_name(name: &str) -> (r: Option<Command>)
    ensures
        r == command_named(name@),
{
    if same_text(name, "help") {
        Some(Command::Help)
    } else if same_text(name, "exit") {
        Some(Command::Exit)
    } else if same_text(name, "stop") || same_text(name, "s") {
        Some(Command::Stop)
    } else if same_text(name, "continue") || same_text(name, "c") {
        Some(Command::Continue)
    } else if same_text(name, "dump") || same_text(name, "d") {
        Some(Command::Dump)
    } else if same_text(name, "objdump") || same_text(name, "od") {
        Some(Command::ObjDump)
    } else {
        None
    }
}

/// Address and line count of a dump or objdump command from what the
/// option parser made of its arguments, or the error text to print.
pub fn dump_request_from(
    parsed: Result<(Option<String>, Vec<String>), String>,
    pc: u16,
    brief: &str,
) -> (r: Result<(u16, u16), String>)
    ensures
        match dump_request_parsed(view_parsed(parsed), pc, brief@) {
            Ok(p) => r == Ok::<(u16, u16), String>(p),
            Err(e) => r.is_err() && r->Err_0@ == e,
        },
{
    let (peek_arg, free) = match parsed {
        Err(msg) => {
            let mut e = String::from_str("dump: ");
            e.append(msg.as_str());
            e.append("\n");
            let usage = peek_usage(brief);
            e.append(usage.as_str());
            e.append("\n");
            return Err(e);
        },
        Ok(p) => p,
    };
    let peek = match &peek_arg {
        None => DEFAULT_PEEK,
        Some(p) => match parse_u16(p.as_str(), 10) {
            Some(n) => n,
            None => {
                let mut e = String::from_str("dump: invalid peek count: ");
                e.append(p.as_str());
                e.append("\n");
                let usage = peek_usage(brief);
                e.append(usage.as_str());
                e.append("\n");
                return Err(e);
            },
        },
    };
    if free.len() == 0 {
        return Ok((pc, peek));
    }
    assert(views(free@)[0] == free@[0]@);
    match hex_to_u16(free[0].as_str()) {
        Some(addr) => Ok((addr, peek)),
        None => {
            let mut e = String::from_str("dump: cannot parse address: ");
            e.append(free[0].as_str());
            e.append("\n");
            Err(e)
        },
    }
}

/// Appends one hex dump line for the sixteen bytes at `offset`.
fn dump_line_into(out: &mut String, offset: u16, memory: &mut Memory)
    requires
        old(memory).wf(),
    ensures
        final(out)@ == old(out)@ + dump_line(old(memory)@, offset),
        final(memory)@ == old(memory)@,
        final(memory).wf(),
{
    let ghost m = memory@;
    let mut line = String::new();
    push_hex4_lower(&mut line, offset);
    line.append("  ");
    let mut j: u32 = 0;
    while j < 16
        invariant
            memory.wf(),
            memory@ == m,
            j <= 16,
            j <= 8 ==> line@ == hex4_lower(offset) + "  "@ + dump_hex(m, offset, 0, j as int),
            j > 8 ==> line@ == hex4_lower(offset) + "  "@ + dump_hex(m, offset, 0, 8) + " "@
                + dump_hex(m, offset, 8, j as int),
        decreases 16 - j,
    {
        let ghost before = line@;
        if j == 8 {
            line.append(" ");
        }
        let b = memory.read_u8_unrestricted(((offset as u32 + j) % 0x10000) as usize);
        push_hex2_lower(&mut line, b);
        line.append(" ");
        proof {
            let head = hex4_lower(offset) + "  "@;
            if j < 8 {
                assert(line@ =~= head + dump_hex(m, offset, 0, j + 1));
            } else if j == 8 {
                assert(dump_hex(m, offset, 8, 8) == Seq::<char>::empty());
                assert(line@ =~= head + dump_hex(m, offset, 0, 8) + " "@ + dump_hex(m, offset, 8, 9));
            } else {
                assert(line@ =~= head + dump_hex(m, offset, 0, 8) + " "@ + dump_hex(
                    m,
                    offset,
                    8,
                    j + 1,
                ));
            }
        }
        j = j + 1;
    }
    line.append(" ");
    let mut k: u32 = 0;
    let ghost prefix = line@;
    while k < 16
        invariant
            memory.wf(),
            memory@ == m,
            k <= 16,
            line@ == prefix + dump_ascii(m, offset, k as int),
        decreases 16 - k,
    {
        let b = memory.read_u8_unrestricted(((offset as u32 + k) % 0x10000) as usize);
        line.append(printable_char(b));
        k = k + 1;
    }
    line.append("\n");
    out.append(line.as_str());
    assert(final(out)@ =~= old(out)@ + dump_line(m, offset));
}

} // verus!
