//! `gz branch create`, `delete` and `cleanup`.

use vstd::prelude::*;

use crate::cli::BranchCommand;
use crate::error::Error;
use crate::i18n::Messages;

verus! {

/// The spelling of a command.
pub open spec fn spelling(command: BranchCommand) -> Seq<char> {
    match command {
        BranchCommand::Create { .. } => "gz branch create"@,
        BranchCommand::Delete { .. } => "gz branch delete"@,
        BranchCommand::Cleanup { .. } => "gz branch cleanup"@,
    }
}

/// Hands a command on. None of them does anything yet, and each says so.
pub fn run(messages: Messages, command: &BranchCommand) -> (outcome: Result<(), Error>)
    ensures
        outcome matches Err(error) && error.says(
            messages.common().command_not_implemented_text(spelling(*command)),
        ),
{
    match command {
        BranchCommand::Create { .. } => unimplemented_command(messages, "gz branch create"),
        BranchCommand::Delete { .. } => unimplemented_command(messages, "gz branch delete"),
        BranchCommand::Cleanup { .. } => unimplemented_command(messages, "gz branch cleanup"),
    }
}

/// Says that a command does nothing yet.
fn unimplemented_command(messages: Messages, command: &str) -> (outcome: Result<(), Error>)
    ensures
        outcome matches Err(error) && error.says(
            messages.common().command_not_implemented_text(command@),
        ),
{
    Err(Error::Explained(messages.common().command_not_implemented(command)))
}

/// None of the commands does anything yet, and each says so under its own name.
pub proof fn law_each_command_says_that_it_does_nothing(
    messages: Messages,
    command: &BranchCommand,
    outcome: Result<(), Error>,
)
    requires
        call_ensures(run, (messages, command), outcome),
    ensures
        outcome matches Err(error) && {
            &&& command is Create ==> error.says(
                messages.common().command_not_implemented_text("gz branch create"@),
            )
            &&& command is Delete ==> error.says(
                messages.common().command_not_implemented_text("gz branch delete"@),
            )
            &&& command is Cleanup ==> error.says(
                messages.common().command_not_implemented_text("gz branch cleanup"@),
            )
        },
{
}

} // verus!
