//! The extended prompt: a function's text wrapped in the instruction to print
//! only what that function would return for a given input.

use vstd::prelude::*;
use crate::message::{Message, MessageView};

verus! {

/// The role under which an extended prompt is sent.
pub open spec fn prompt_role() -> Seq<char> {
    "system"@
}

/// The text of an extended prompt for a function described by `function_text`
/// and applied to `input`: a fixed frame with the two texts set into it.
pub open spec fn extended_content(function_text: Seq<char>, input: Seq<char>) -> Seq<char> {
    "FUNCTION "@ + function_text
        + "\n    INSTRUCTION: You are a function printer. \n    You ONLY print the results of functions. Nothing else. No commentary. \n    Here is the input to the function: "@
        + input + ".\n    Print out what the function will return."@
}

/// The message that carries the extended prompt.
pub open spec fn extended_message(function_text: Seq<char>, input: Seq<char>) -> MessageView {
    MessageView { role: prompt_role(), content: extended_content(function_text, input) }
}

/// Wraps a function's text and its input into the system message that asks for
/// the function's result and nothing else.
pub fn extend_function_text(function_text: &str, func_input: &str) -> (msg: Message)
    ensures
        msg@ == extended_message(function_text@, func_input@),
{
    let mut content = String::from_str("FUNCTION ");
    content.append(function_text);
    content.append(
        "\n    INSTRUCTION: You are a function printer. \n    You ONLY print the results of functions. Nothing else. No commentary. \n    Here is the input to the function: ",
    );
    content.append(func_input);
    content.append(".\n    Print out what the function will return.");
    Message { role: String::from_str("system"), content }
}

/// Asks `ai_func` for the text of the function that belongs to `func_input`, and
/// wraps that text and the input into the extended prompt.
///
/// The text is whatever `ai_func` returns for this input; the message is the
/// extended prompt built from it.
pub fn extend_ai_function<F: Fn(&str) -> &'static str>(ai_func: F, func_input: &str) -> (msg: Message)
    requires
        ai_func.requires((func_input,)),
    ensures
        exists|function_text: &'static str|
            #[trigger] ai_func.ensures((func_input,), function_text)
                && msg@ == extended_message(function_text@, func_input@),
{
    let ai_function_str = ai_func(func_input);
    extend_function_text(ai_function_str, func_input)
}

} // verus!
