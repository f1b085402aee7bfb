use vstd::prelude::*;
use crate::log::{info, Level, Notice};
use crate::util::{input_of, invalid_path_message, resolve_path};

verus! {

/// The link commands.
#[derive(Debug)]
pub enum LinkCommands {
    Create { target_path: Option<String> },
}

/// The path string a link command names, if any.
pub open spec fn link_target(c: LinkCommands) -> Option<String> {
    match c {
        LinkCommands::Create { target_path } => target_path,
    }
}

pub open spec fn link_pending_message() -> Seq<char> {
    "todo"@
}

/// Runs a link command and returns the one notice it gives: the resolution
/// error of its path, or word that links cannot be made yet.
pub fn handle_command(link_commands: &LinkCommands) -> (r: Notice)
    ensures
        r@ == (Level::Error, invalid_path_message(input_of(link_target(*link_commands))))
            || r@ == (Level::Info, link_pending_message()),
{
    match link_commands {
        LinkCommands::Create { target_path } => {
            match resolve_path(target_path) {
                Ok(_) => info("todo"),
                Err(m) => Notice::new(Level::Error, m),
            }
        },
    }
}

} // verus!
