//! What a prompt of the user asks for, and the system commands that a
//! prompt can hold.

use crate::directive::{directive, intercept, MetaCommand};
use crate::protocol::{
    exit, strings, Event, EventView, Invocation, InvocationView, Mode, Platform,
};
use crate::text::{
    chars_of, is_word, lowercase, split_whitespace, string_of, texts, to_lowercase, tokens, trim,
    trimmed,
};
use crate::toolchain::no_words;
use vstd::prelude::*;
use vstd::slice::slice_subrange;

verus! {

/// What a prompt asks for.
#[derive(Clone, Debug, PartialEq, Eq)]
pub enum Prompt {
    /// A system command to pass through: the prompt after its `!`,
    /// without the whitespace around it.
    SystemCommand(String),
    /// A directive to the engine.
    Directive(MetaCommand),
    /// A question for the assistant.
    Question,
}

/// What a prompt asks for, with a text in place of the string.
pub enum PromptView {
    SystemCommand(Seq<char>),
    Directive(MetaCommand),
    Question,
}

impl View for Prompt {
    type V = PromptView;

    open spec fn view(&self) -> PromptView {
        match self {
            Prompt::SystemCommand(command) => PromptView::SystemCommand(command@),
            Prompt::Directive(command) => PromptView::Directive(*command),
            Prompt::Question => PromptView::Question,
        }
    }
}

/// What a prompt asks for: a prompt that starts with `!` is a system
/// command, one that holds a directive is that directive, and any other
/// is a question.
pub open spec fn prompt_kind(prompt: Seq<char>) -> PromptView {
    if prompt.len() > 0 && prompt[0] == '!' {
        PromptView::SystemCommand(trim(prompt.skip(1)))
    } else {
        match directive(prompt) {
            Some(command) => PromptView::Directive(command),
            None => PromptView::Question,
        }
    }
}

/// Tells what a prompt asks for.
pub fn read_prompt(prompt: &str) -> (out: Prompt)
    ensures
        out@ == prompt_kind(prompt@),
{
    let chars = chars_of(prompt);
    if chars.len() > 0 && chars[0] == '!' {
        let length: usize = chars.len();
        let rest = slice_subrange(chars.as_slice(), 1, length);
        assert(rest@ == prompt@.skip(1));
        Prompt::SystemCommand(string_of(trimmed(rest)))
    } else {
        match intercept(prompt) {
            Some(command) => Prompt::Directive(command),
            None => Prompt::Question,
        }
    }
}

/// Whether a reply says yes: the letter `y`, in either case, with nothing
/// but whitespace around it.
pub open spec fn says_yes(reply: Seq<char>) -> bool {
    lowercase(trim(reply)) == "y"@
}

/// Whether the user agreed.
pub fn confirms(reply: &str) -> (yes: bool)
    ensures
        yes == says_yes(reply@),
{
    let chars = chars_of(reply);
    let lowered = to_lowercase(trimmed(chars.as_slice()));
    is_word(lowered.as_slice(), "y")
}

/// The refusal of a command line without a word.
pub open spec fn empty_command() -> Seq<char> {
    "Empty command"@
}

/// The process that a command line asks for: its first word is the
/// program, the other words are the arguments. `None` for a line
/// without a word.
pub open spec fn command_line(command: Seq<char>) -> Option<InvocationView> {
    let words = tokens(command);
    if words.len() == 0 {
        None
    } else {
        Some(InvocationView::new(words[0], words.drop_first(), Mode::Capture))
    }
}

/// Plans the process of a system command. A line without a word is
/// refused with the text `Empty command`.
pub fn plan_command(command: &str) -> (out: Result<Invocation, String>)
    ensures
        match command_line(command@) {
            Some(invocation) => out is Ok && out->Ok_0@ == invocation,
            None => out is Err && out->Err_0@ == empty_command(),
        },
{
    let chars = chars_of(command);
    let words = split_whitespace(chars.as_slice());
    assert(texts(words@).len() == words@.len());
    if words.len() == 0 {
        return Err(String::from_str("Empty command"));
    }
    let program = string_of(words[0].as_slice());
    assert(program@ == texts(words@)[0]);
    let mut arguments: Vec<String> = no_words();
    let mut i: usize = 1;
    while i < words.len()
        invariant
            1 <= i <= words.len(),
            strings(arguments@) == texts(words@).subrange(1, i as int),
        decreases words.len() - i,
    {
        let word = string_of(words[i].as_slice());
        assert(word@ == texts(words@)[i as int]);
        let ghost before = strings(arguments@);
        arguments.push(word);
        assert(strings(arguments@) == before.push(word@));
        i += 1;
    }
    assert(texts(words@).subrange(1, i as int) == texts(words@).drop_first());
    Ok(Invocation { program, arguments, mode: Mode::Capture, directory: no_words() })
}

/// What a system command came to: its output where it exited with
/// success, its diagnostics where it did not, and the reason where it
/// did not run.
pub open spec fn command_result(event: EventView) -> Result<Seq<char>, Seq<char>> {
    match exit(event) {
        Ok(e) => if e.success {
            Ok(e.stdout)
        } else {
            Err(e.stderr)
        },
        Err(reason) => Err(reason),
    }
}

/// Reads the answer to the process of a system command.
pub fn read_command_result(event: Event) -> (out: Result<String, String>)
    ensures
        match command_result(event@) {
            Ok(text) => out is Ok && out->Ok_0@ == text,
            Err(text) => out is Err && out->Err_0@ == text,
        },
{
    match event.exit() {
        Ok(e) => {
            if e.success {
                Ok(e.stdout)
            } else {
                Err(e.stderr)
            }
        },
        Err(reason) => Err(reason),
    }
}

/// The program to try in place of one that failed.
pub open spec fn fixed_program(
    program: Seq<char>,
    platform: Platform,
    npm_available: bool,
) -> Seq<char> {
    if platform == Platform::Windows && (program == "python"@ || program == "python3"@) {
        "py"@
    } else if platform == Platform::Windows && program == "pip"@ {
        "py -m pip"@
    } else if program == "npm"@ && !npm_available {
        "npx"@
    } else {
        program
    }
}

/// The words put together, a space between each two.
pub open spec fn join_words(words: Seq<Seq<char>>) -> Seq<char>
    decreases words.len(),
{
    if words.len() == 0 {
        Seq::empty()
    } else if words.len() == 1 {
        words[0]
    } else {
        join_words(words.drop_last()) + seq![' '] + words.last()
    }
}

/// The command line to try in place of one that failed. `None` for a
/// line without a word.
pub open spec fn fixed_command(
    command: Seq<char>,
    platform: Platform,
    npm_available: bool,
) -> Option<Seq<char>> {
    let words = tokens(command);
    if words.len() == 0 {
        None
    } else {
        Some(join_words(words.update(0, fixed_program(words[0], platform, npm_available))))
    }
}

/// Whether the program of a command line is `npm`, so that `fix_command`
/// has to be told whether `npm` can be run.
pub fn asks_for_npm(command: &str) -> (out: bool)
    ensures
        out == (tokens(command@).len() > 0 && tokens(command@)[0] == "npm"@),
{
    let chars = chars_of(command);
    let words = split_whitespace(chars.as_slice());
    assert(texts(words@).len() == words@.len());
    if words.len() == 0 {
        false
    } else {
        assert(words@[0]@ == texts(words@)[0]);
        is_word(words[0].as_slice(), "npm")
    }
}

/// Mends a command line that failed: on Windows `python` and `python3`
/// become `py` and `pip` becomes `py -m pip`; `npm` becomes `npx` where
/// `npm` cannot be run. The words are put together with one space
/// between them. A line without a word is refused with the text
/// `Empty command`.
pub fn fix_command(command: &str, platform: Platform, npm_available: bool) -> (out: Result<
    String,
    String,
>)
    ensures
        match fixed_command(command@, platform, npm_available) {
            Some(text) => out is Ok && out->Ok_0@ == text,
            None => out is Err && out->Err_0@ == empty_command(),
        },
{
    let chars = chars_of(command);
    let words = split_whitespace(chars.as_slice());
    assert(texts(words@).len() == words@.len());
    if words.len() == 0 {
        return Err(String::from_str("Empty command"));
    }
    let head = words[0].as_slice();
    assert(head@ == texts(words@)[0]);
    let windows = match platform {
        Platform::Windows => true,
        _ => false,
    };
    let mut out = if windows && (is_word(head, "python") || is_word(head, "python3")) {
        String::from_str("py")
    } else if windows && is_word(head, "pip") {
        String::from_str("py -m pip")
    } else if is_word(head, "npm") && !npm_available {
        String::from_str("npx")
    } else {
        string_of(head)
    };
    let ghost fixed = texts(words@).update(
        0,
        fixed_program(texts(words@)[0], platform, npm_available),
    );
    assert(fixed.take(1) == seq![fixed[0]]);
    assert(join_words(fixed.take(1)) == fixed[0]);
    let mut i: usize = 1;
    while i < words.len()
        invariant
            1 <= i <= words.len(),
            fixed.len() == words.len(),
            forall|k: int| 1 <= k < words.len() ==> fixed[k] == #[trigger] words@[k]@,
            out@ == join_words(fixed.take(i as int)),
        decreases words.len() - i,
    {
        let word = string_of(words[i].as_slice());
        out.push(' ');
        out.append(word.as_str());
        proof {
            let longer = fixed.take(i + 1);
            assert(longer.drop_last() == fixed.take(i as int));
            assert(longer.last() == words@[i as int]@);
        }
        i += 1;
    }
    assert(fixed.take(i as int) == fixed);
    Ok(out)
}

} // verus!
