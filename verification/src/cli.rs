use crate::describe;
use crate::global_args::GlobalArgs;
use vstd::prelude::*;

verus! {

/// The subcommands of `gui`.
#[derive(Clone, Copy, Debug, PartialEq, Eq, Structural)]
pub enum GuiSubcommand {
    /// Start the GUI application.
    Start,
}

/// `gui ...`: the graphical application.
pub struct GuiCommand {
    pub command: GuiSubcommand,
}

impl GuiCommand {
    /// Runs the command; the result is the line to log.
    pub fn handle(&self, _global: &GlobalArgs) -> (r: String)
        ensures
            self.command == GuiSubcommand::Start ==> r@ == "Starting GUI application"@,
    {
        match self.command {
            GuiSubcommand::Start => String::from_str("Starting GUI application"),
        }
    }
}

/// `image ...`: describe images using AI.
pub struct ImageCommand {
    pub command: describe::Command,
}

/// The subcommands of the `fc` tool.
pub enum Command {
    /// Start the GUI application.
    Gui(GuiCommand),
    /// Describe images using AI.
    Image(ImageCommand),
}

/// The `fc` command line.
pub struct Args {
    pub global: GlobalArgs,
    pub command: Command,
}

} // verus!
