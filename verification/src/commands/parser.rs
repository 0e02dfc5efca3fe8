//! Input parsing: `classify_input` (per keystroke, to colour the input line)
//! and `parse_input` (per Enter, allocates owned strings).

use vstd::prelude::*;
use vstd::string::StringExecFns;

use crate::commands::registry::{is_registered, lookup, Command};
use crate::text::{
    first_word, first_word_of, is_word, join_spaced, lemma_join_spaced_first, lemma_words_of_join,
    rest_words_of, skip_chars, split_words, starts_with_char,
};

verus! {

/// Result of parsing the input buffer at Enter time. Owned strings so the
/// caller can clear the input buffer immediately after dispatch.
#[derive(Debug, Clone, PartialEq, Eq)]
pub enum InputKind {
    /// A plain text message. Send the content as `MessageBody::Text`.
    Text(String),
    /// An escaped text message (input started with `//`). The leading slash
    /// has been stripped — send the content as `MessageBody::Text`.
    EscapedText(String),
    /// A slash command. `name` is the first whitespace-delimited token after
    /// the `/`; may be empty for bare `/`. `args` is the remaining tokens.
    Command { name: String, args: Vec<String> },
}

/// The mathematical value of an [`InputKind`].
pub enum ParsedInput {
    Text(Seq<char>),
    EscapedText(Seq<char>),
    Command { name: Seq<char>, args: Seq<Seq<char>> },
}

impl View for InputKind {
    type V = ParsedInput;

    open spec fn view(&self) -> ParsedInput {
        match self {
            InputKind::Text(s) => ParsedInput::Text(s@),
            InputKind::EscapedText(s) => ParsedInput::EscapedText(s@),
            InputKind::Command { name, args } => ParsedInput::Command {
                name: name@,
                args: args@.map_values(|a: String| a@),
            },
        }
    }
}

/// The input starts with `//`.
pub open spec fn starts_escaped(s: Seq<char>) -> bool {
    s.len() >= 2 && s[0] == '/' && s[1] == '/'
}

/// The input starts with `/`.
pub open spec fn starts_slash(s: Seq<char>) -> bool {
    s.len() >= 1 && s[0] == '/'
}

/// How the input is read at Enter time:
/// - `"//..."` → escaped text with one leading slash stripped;
/// - `"/..."`  → a command: its name is the first word after the slash (empty
///   when there is none) and its args are the remaining words;
/// - else      → the input as text.
pub open spec fn parse_spec(s: Seq<char>) -> ParsedInput {
    if starts_escaped(s) {
        ParsedInput::EscapedText(s.drop_first())
    } else if starts_slash(s) {
        ParsedInput::Command {
            name: first_word_of(s.drop_first()),
            args: rest_words_of(s.drop_first()),
        }
    } else {
        ParsedInput::Text(s)
    }
}

/// Parse the input buffer into an `InputKind` for Enter-time dispatch.
pub fn parse_input(input: &str) -> (r: InputKind)
    ensures
        r@ == parse_spec(input@),
{
    let n = input.unicode_len();
    let escaped = n >= 2 && starts_with_char(input, '/') && input.get_char(1) == '/';
    if escaped {
        // Strip ONE slash. "//me" → "/me" as text. "///x" → "//x" as text.
        return InputKind::EscapedText(String::from_str(skip_chars(input, 1)));
    }
    if starts_with_char(input, '/') {
        let rest = skip_chars(input, 1);
        assert(rest@ =~= input@.drop_first());
        let mut tokens = split_words(rest);
        if tokens.len() == 0 {
            let ghost a = tokens@;
            assert(a.map_values(|w: String| w@) =~= Seq::<Seq<char>>::empty());
            return InputKind::Command { name: String::new(), args: tokens };
        }
        let ghost all = tokens@;
        let name = tokens.remove(0);
        assert(tokens@.map_values(|w: String| w@) =~= all.map_values(|w: String| w@).drop_first());
        return InputKind::Command { name, args: tokens };
    }
    InputKind::Text(String::from_str(input))
}

/// How the input line is classified while typing, to choose its colour.
/// Command names borrow from the input.
#[derive(Debug, Clone, Copy, PartialEq, Eq)]
pub enum InputClass<'a> {
    /// Plain text.
    Text,
    /// Text escaped with a leading `//`.
    EscapedText,
    /// A command whose name resolves in the registry.
    ValidCommand { name: &'a str },
    /// A command whose name does not resolve (possibly empty for a bare `/`).
    InvalidCommand { name: &'a str },
}

/// The mathematical value of an [`InputClass`].
pub enum InputClassView {
    Text,
    EscapedText,
    ValidCommand(Seq<char>),
    InvalidCommand(Seq<char>),
}

impl<'a> View for InputClass<'a> {
    type V = InputClassView;

    open spec fn view(&self) -> InputClassView {
        match self {
            InputClass::Text => InputClassView::Text,
            InputClass::EscapedText => InputClassView::EscapedText,
            InputClass::ValidCommand { name } => InputClassView::ValidCommand(name@),
            InputClass::InvalidCommand { name } => InputClassView::InvalidCommand(name@),
        }
    }
}

/// How the input is classified: escaped text, text, or a command whose name
/// is valid exactly when some registered command answers to it.
pub open spec fn classify_spec(s: Seq<char>, reg: Seq<Command>) -> InputClassView {
    if starts_escaped(s) {
        InputClassView::EscapedText
    } else if starts_slash(s) {
        let name = first_word_of(s.drop_first());
        if is_registered(reg, name) {
            InputClassView::ValidCommand(name)
        } else {
            InputClassView::InvalidCommand(name)
        }
    } else {
        InputClassView::Text
    }
}

/// Classify the input at keystroke time.
pub fn classify_input<'a>(input: &'a str, registry: &[Command]) -> (r: InputClass<'a>)
    ensures
        r@ == classify_spec(input@, registry@),
{
    let n = input.unicode_len();
    if n >= 2 && starts_with_char(input, '/') && input.get_char(1) == '/' {
        return InputClass::EscapedText;
    }
    if starts_with_char(input, '/') {
        let rest = skip_chars(input, 1);
        assert(rest@ =~= input@.drop_first());
        let name = first_word(rest);
        return match lookup(name, registry) {
            Some(_) => InputClass::ValidCommand { name },
            None => InputClass::InvalidCommand { name },
        };
    }
    InputClass::Text
}

/// What is typed is classified as it will be parsed at Enter: text as text,
/// escaped text as escaped text, and a command under the name it will be
/// dispatched by, valid exactly when the registry resolves that name.
pub proof fn lemma_classify_agrees_with_parse(s: Seq<char>, reg: Seq<Command>)
    ensures
        (classify_spec(s, reg) is Text) <==> (parse_spec(s) is Text),
        (classify_spec(s, reg) is EscapedText) <==> (parse_spec(s) is EscapedText),
        parse_spec(s) matches ParsedInput::Command { name, args } ==> classify_spec(s, reg) == (
        if is_registered(reg, name) {
            InputClassView::ValidCommand(name)
        } else {
            InputClassView::InvalidCommand(name)
        }),
{
}

/// A command line written as `/`, the command's name and its arguments,
/// separated by single spaces, parses back to that name and those
/// arguments (provided the name does not itself start with `/`, which would
/// make the line escaped text).
pub proof fn lemma_parse_command_line(name: Seq<char>, args: Seq<Seq<char>>)
    requires
        is_word(name),
        name[0] != '/',
        forall|k: int| 0 <= k < args.len() ==> is_word(#[trigger] args[k]),
    ensures
        parse_spec(seq!['/'] + join_spaced(seq![name] + args)) == (ParsedInput::Command {
            name,
            args,
        }),
{
    let ws = seq![name] + args;
    assert forall|k: int| 0 <= k < ws.len() implies is_word(#[trigger] ws[k]) by {
        if k > 0 {
            assert(ws[k] == args[k - 1]);
        }
    }
    lemma_words_of_join(ws);
    lemma_join_spaced_first(ws);
    let s = seq!['/'] + join_spaced(ws);
    assert(s.drop_first() =~= join_spaced(ws));
    assert(s[1] == name[0]);
    assert(ws.drop_first() =~= args);
}

} // verus!
