//! The debugger's commands.  Parsing the command line is the host REPL's
//! concern; the decided command is what the driver acts on.

use vstd::prelude::*;

verus! {

/// One debugger command.
#[derive(Debug, Clone, PartialEq, Eq)]
pub enum Command {
    ShowRegs,
    ShowIORegs,
    Step(usize),
    Continue,
    Goto(u16),
    ShowMem(Option<u16>),
    Disassemble(usize),

    Breakpoint,
    AddBreakpoint(u16),
    AddSymBreakpoint(String),
    AddTempBreakpoint(u16),
    AddTempSymBreakpoint(String),
    RemoveBreakpoint(u16),
    RemoveTempBreakpoint(u16),

    Watchpoint,
    AddWatchpoint(u16),
    RemoveWatchpoint(u16),
    AddSymbol(u16, String),
    RemoveSymbol(u16),
    Exit,
    Repeat,
}

} // verus!
