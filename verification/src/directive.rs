//! The meta-command interceptor: fragments that are directives to the
//! engine and no code to run.

use crate::text::{
    chars_of, is_word, parse_u16, split_whitespace, starts_with, texts, to_u16, tokens, trim,
    trimmed,
};
use vstd::prelude::*;

verus! {

/// A directive that a fragment can hold in place of code.
#[derive(Clone, Copy, Debug, PartialEq, Eq, Structural)]
pub enum MetaCommand {
    /// Create a web app: the app generator scaffolds it, in the
    /// foreground. Written `create-react-app`.
    ScaffoldWebApp,
    /// Start the dev server of the scaffolded app. Written `npm start`.
    StartDevServer,
    /// Start a static file server on `port`. Written `start-server`, with
    /// the port after it.
    StartStaticServer { port: u16 },
}

/// The port of a static server when the directive names none.
pub const DEFAULT_PORT: u16 = 8000;

/// The port that a server directive asks for: its second word, read as a
/// number, and `DEFAULT_PORT` where there is no second word or it is no
/// port number.
pub open spec fn requested_port(text: Seq<char>) -> u16 {
    let words = tokens(text);
    if words.len() > 1 {
        match parse_u16(words[1]) {
            Some(port) => port,
            None => DEFAULT_PORT,
        }
    } else {
        DEFAULT_PORT
    }
}

/// The directive that a fragment holds, if it holds one. The fragment is
/// compared without the whitespace around it: the first two directives
/// are exact texts, the third is a prefix.
pub open spec fn directive(text: Seq<char>) -> Option<MetaCommand> {
    let t = trim(text);
    if t == "create-react-app"@ {
        Some(MetaCommand::ScaffoldWebApp)
    } else if t == "npm start"@ {
        Some(MetaCommand::StartDevServer)
    } else if "start-server"@.is_prefix_of(t) {
        Some(MetaCommand::StartStaticServer { port: requested_port(text) })
    } else {
        None
    }
}

/// The port that a server directive asks for.
pub fn port_of(chars: &[char]) -> (port: u16)
    ensures
        port == requested_port(chars@),
{
    let words = split_whitespace(chars);
    assert(texts(words@).len() == words@.len());
    if words.len() > 1 {
        assert(texts(words@)[1] == words@[1]@);
        match to_u16(words[1].as_slice()) {
            Some(port) => port,
            None => DEFAULT_PORT,
        }
    } else {
        DEFAULT_PORT
    }
}

/// Tests a fragment for a directive, whatever its language tag.
pub fn intercept(fragment: &str) -> (out: Option<MetaCommand>)
    ensures
        out == directive(fragment@),
{
    let chars = chars_of(fragment);
    let t = trimmed(chars.as_slice());
    if is_word(t, "create-react-app") {
        Some(MetaCommand::ScaffoldWebApp)
    } else if is_word(t, "npm start") {
        Some(MetaCommand::StartDevServer)
    } else {
        let prefix = chars_of("start-server");
        if starts_with(t, prefix.as_slice()) {
            Some(MetaCommand::StartStaticServer { port: port_of(chars.as_slice()) })
        } else {
            None
        }
    }
}

} // verus!
