//! The prompt component: the line where the player types.

use vstd::prelude::*;

verus! {

/// The events of the prompt component.
#[derive(Debug, Clone, Copy, PartialEq, Eq, Structural)]
pub enum ViewMsg {
    /// The player submitted the prompt.
    Submit,
    /// The text in the prompt changed.
    UserInputChange,
    /// Something was sent to the view's client.
    Something,
}

/// What the player submitted with the prompt's form.
#[derive(Debug, PartialEq, Eq)]
pub struct FormData {
    /// The text of the prompt.
    pub prompt: String,
}

/// A command the page runs in the browser after an update.
#[derive(Debug, PartialEq, Eq)]
pub enum JsCommand {
    /// Empty the value of the inputs that `selector` picks.
    ClearValue(String),
}

/// The commands the prompt component has the page run after the event `msg`:
/// a submitted prompt is emptied, and a change of its text asks for nothing.
///
/// The component has no answer yet to a message sent to its client.
pub fn update_commands(msg: ViewMsg) -> (cmds: Vec<JsCommand>)
    requires
        msg != ViewMsg::Something,
    ensures
        msg == ViewMsg::Submit ==> cmds.len() == 1 && (cmds[0] matches JsCommand::ClearValue(s) && s@ == ".prompt"@),
        msg == ViewMsg::UserInputChange ==> cmds.len() == 0,
{
    let mut js_commands: Vec<JsCommand> = Vec::new();
    match msg {
        ViewMsg::Submit => {
            js_commands.push(JsCommand::ClearValue(".prompt".to_owned()));
        },
        ViewMsg::UserInputChange => {},
        ViewMsg::Something => {},
    }
    js_commands
}

} // verus!
