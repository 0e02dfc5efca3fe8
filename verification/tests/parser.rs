use spaze::commands::parser::InputClass;
use spaze::commands::{classify_input, lookup, parse_input, registry, Command, Handler, HandlerContext, InputKind};

#[test]
fn empty_input_is_text() {
    assert_eq!(parse_input(""), InputKind::Text(String::new()));
}

#[test]
fn plain_text_is_text() {
    assert_eq!(parse_input("hello world"), InputKind::Text("hello world".into()));
}

#[test]
fn slash_mid_line_is_text() {
    assert_eq!(parse_input("hello /world"), InputKind::Text("hello /world".into()));
}

#[test]
fn double_slash_is_escaped_text_with_one_slash_stripped() {
    assert_eq!(parse_input("//me kicks"), InputKind::EscapedText("/me kicks".into()));
}

#[test]
fn triple_slash_is_escaped_text_with_one_slash_stripped() {
    assert_eq!(parse_input("///me"), InputKind::EscapedText("//me".into()));
}

#[test]
fn single_slash_is_command_with_empty_name() {
    assert_eq!(
        parse_input("/"),
        InputKind::Command { name: String::new(), args: Vec::new() }
    );
}

#[test]
fn command_no_args() {
    assert_eq!(
        parse_input("/quit"),
        InputKind::Command { name: "quit".into(), args: Vec::new() }
    );
}

#[test]
fn command_with_args() {
    assert_eq!(
        parse_input("/me kicks the build"),
        InputKind::Command {
            name: "me".into(),
            args: vec!["kicks".into(), "the".into(), "build".into()],
        }
    );
}

#[test]
fn command_collapses_internal_whitespace() {
    assert_eq!(
        parse_input("/me  hi   there"),
        InputKind::Command { name: "me".into(), args: vec!["hi".into(), "there".into()] }
    );
}

#[test]
fn command_with_utf8_args() {
    assert_eq!(
        parse_input("/me waves at åse 🐧"),
        InputKind::Command {
            name: "me".into(),
            args: vec!["waves".into(), "at".into(), "åse".into(), "🐧".into()],
        }
    );
}

fn fixture() -> [Command; 2] {
    [
        Command {
            name: "quit",
            aliases: &["q"],
            short_help: "exit",
            long_help: "/quit — exit the client",
            handler: Handler::Quit,
        },
        Command {
            name: "help",
            aliases: &["h", "?cmd"],
            short_help: "help",
            long_help: "/help — show help",
            handler: Handler::Help,
        },
    ]
}

#[test]
fn lookup_finds_by_canonical_name() {
    let reg = fixture();
    let cmd = lookup("quit", &reg).expect("quit should be found");
    assert_eq!(cmd.name, "quit");
}

#[test]
fn lookup_finds_by_alias() {
    let reg = fixture();
    let cmd = lookup("q", &reg).expect("q alias should resolve");
    assert_eq!(cmd.name, "quit");
    let cmd = lookup("?cmd", &reg).expect("?cmd alias should resolve");
    assert_eq!(cmd.name, "help");
}

#[test]
fn lookup_returns_none_on_miss() {
    let reg = fixture();
    assert!(lookup("nope", &reg).is_none());
}

#[test]
fn lookup_is_case_sensitive() {
    let reg = fixture();
    assert!(lookup("Quit", &reg).is_none());
}

#[test]
fn handler_context_holds_registry_reference() {
    let reg = fixture();
    let ctx = HandlerContext { registry: &reg };
    assert_eq!(ctx.registry.len(), 2);
}

#[test]
fn classify_input_picks_correct_color_for_each_class() {
    let reg = registry();
    assert_eq!(classify_input("hello", &reg), InputClass::Text);
    assert_eq!(classify_input("//me", &reg), InputClass::EscapedText);
    assert!(matches!(classify_input("/quit", &reg), InputClass::ValidCommand { name: "quit" }));
    assert!(matches!(classify_input("/foo", &reg), InputClass::InvalidCommand { name: "foo" }));
}

// Extra cases.

#[test]
fn whitespace_only_after_slash_is_command_with_empty_name() {
    assert_eq!(
        parse_input("/   "),
        InputKind::Command { name: String::new(), args: Vec::new() }
    );
    assert!(matches!(classify_input("/ ", &registry()), InputClass::InvalidCommand { name: "" }));
}

#[test]
fn command_line_joined_by_spaces_parses_back() {
    let line = format!("/{}", ["me", "waves", "at", "åse"].join(" "));
    assert_eq!(
        parse_input(&line),
        InputKind::Command {
            name: "me".into(),
            args: vec!["waves".into(), "at".into(), "åse".into()],
        }
    );
}

#[test]
fn tabs_and_newlines_separate_words() {
    assert_eq!(
        parse_input("/me\ta\nb"),
        InputKind::Command { name: "me".into(), args: vec!["a".into(), "b".into()] }
    );
}

#[test]
fn lookup_prefers_first_answering_command() {
    let reg = [
        Command { name: "a", aliases: &["x"], short_help: "", long_help: "", handler: Handler::Quit },
        Command { name: "x", aliases: &[], short_help: "", long_help: "", handler: Handler::Help },
    ];
    assert_eq!(lookup("x", &reg).map(|c| c.name), Some("a"));
}
