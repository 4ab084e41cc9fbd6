//! The command-line surface: which piece of work an invocation selects.
//!
//! The program is invoked by the host document tool, or by hand with a
//! subcommand: checking whether a renderer is supported, processing a
//! document from the transport (the default when no subcommand is given),
//! or installing project support. The selection logic is here; argument
//! lexing and I/O stay with the embedding binary.

use vstd::prelude::*;

verus! {

/// Check if the renderer is supported.
#[derive(Debug, PartialEq, Eq)]
pub struct SupportsCommand {
    /// The renderer the host tool asks about.
    pub renderer: String,
}

/// Install support for the plugin into the current project.
#[derive(Debug, PartialEq, Eq)]
pub struct InstallCommand {
    /// Where the project's assets live.
    pub assets: Option<String>,
}

/// The available subcommands.
#[derive(Debug, PartialEq, Eq)]
pub enum Command {
    /// Check if the renderer is supported.
    Supports(SupportsCommand),
    /// Process a parsed document (the default).
    Process,
    /// Install support into the current project.
    Install(InstallCommand),
}

/// The parsed command line.
#[derive(Debug, PartialEq, Eq)]
pub struct Options {
    /// The selected subcommand, if any.
    pub command: Option<Command>,
}

/// The piece of work an invocation selects.
#[derive(Debug, PartialEq, Eq)]
pub enum Directive {
    /// Answer whether this renderer is supported.
    Supports {
        /// The renderer asked about.
        renderer: String,
    },
    /// Read a document from the transport, map it, and write it back.
    Process,
    /// Install project support; nothing to do beyond reporting success.
    Install,
}

/// Whether the plugin supports a renderer: it supports every one, since
/// its output is plain markup inside the document.
pub fn supports_renderer(_renderer: &str) -> (r: bool)
    ensures
        r,
{
    true
}

impl Options {
    /// Which piece of work the command line selects: no subcommand and
    /// `Process` both mean processing a document from the transport.
    pub fn directive(&self) -> (r: Directive)
        ensures
            match self.command {
                None => r == Directive::Process,
                Some(Command::Process) => r == Directive::Process,
                Some(Command::Supports(ref c)) => r matches Directive::Supports { renderer }
                    && renderer@ == c.renderer@,
                Some(Command::Install(_)) => r == Directive::Install,
            },
    {
        match &self.command {
            None => Directive::Process,
            Some(Command::Process) => Directive::Process,
            Some(Command::Supports(c)) => Directive::Supports { renderer: c.renderer.clone() },
            Some(Command::Install(_)) => Directive::Install,
        }
    }
}

} // verus!
