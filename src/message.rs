use vstd::prelude::*;
use vstd::string::*;

verus! {

/// One role-tagged entry of a conversation with the completion model.
#[derive(Debug, Clone)]
pub struct Message {
    pub role: String,
    pub content: String,
}

pub const SYSTEM_ROLE: &'static str = "system";

pub const FUNCTION_HEADER: &'static str = "FUNCTION: ";

pub const FUNCTION_INSTRUCTION: &'static str = "
    INSTRUCTION: You are a function printer. You ONLY print the results of functions.
    Nothing else. No commentary. Here is the input to the function: ";

pub const FUNCTION_TRAILER: &'static str = ".
    Print out what the function will return.";

/// The instruction text that asks the model to act as the function described by
/// `function_text`, applied to `input`.
pub open spec fn function_prompt(function_text: Seq<char>, input: Seq<char>) -> Seq<char> {
    FUNCTION_HEADER@ + function_text + FUNCTION_INSTRUCTION@ + input + FUNCTION_TRAILER@
}

/// Builds the system message that asks the model to print what the described
/// function returns on `func_input`.
pub fn function_message(function_text: &str, func_input: &str) -> (msg: Message)
    ensures
        msg.role@ == SYSTEM_ROLE@,
        msg.content@ == function_prompt(function_text@, func_input@),
{
    let mut content = String::from_str(FUNCTION_HEADER);
    content.append(function_text);
    content.append(FUNCTION_INSTRUCTION);
    content.append(func_input);
    content.append(FUNCTION_TRAILER);
    Message { role: String::from_str(SYSTEM_ROLE), content }
}

/// Builds the system message for the model function `ai_func` applied to `func_input`.
pub fn extend_ai_function<F: Fn(&str) -> &'static str>(ai_func: F, func_input: &str) -> (msg:
    Message)
    requires
        call_requires(ai_func, (func_input,)),
    ensures
        msg.role@ == SYSTEM_ROLE@,
        exists|text: &'static str|
            call_ensures(ai_func, (func_input,), text) && msg.content@ == function_prompt(
                text@,
                func_input@,
            ),
{
    let ai_function_str = ai_func(func_input);
    function_message(ai_function_str, func_input)
}

} // verus!
