use spaze::commands::{
    handle_clear, handle_help, handle_me, handle_quit, lookup, registry, Command, Effect, Handler,
    HandlerContext,
};

fn empty_ctx() -> HandlerContext<'static> {
    HandlerContext { registry: &[] }
}

#[test]
fn quit_returns_quit_effect() {
    assert_eq!(handle_quit(&[], &empty_ctx()), vec![Effect::Quit]);
}

#[test]
fn quit_ignores_args() {
    assert_eq!(
        handle_quit(&["with", "ignored", "args"], &empty_ctx()),
        vec![Effect::Quit]
    );
}

#[test]
fn clear_returns_clear_effect() {
    assert_eq!(handle_clear(&[], &empty_ctx()), vec![Effect::ClearActiveBuffer]);
}

#[test]
fn me_with_no_args_returns_usage_systemline() {
    assert_eq!(
        handle_me(&[], &empty_ctx()),
        vec![Effect::SystemLine("usage: /me <action text>".into())]
    );
}

#[test]
fn me_with_one_arg_sends_action_message() {
    assert_eq!(
        handle_me(&["waves"], &empty_ctx()),
        vec![Effect::SendActionMessage("waves".into())]
    );
}

#[test]
fn me_joins_multiple_args_with_single_space() {
    assert_eq!(
        handle_me(&["kicks", "the", "build"], &empty_ctx()),
        vec![Effect::SendActionMessage("kicks the build".into())]
    );
}

#[test]
fn me_preserves_utf8_in_joined_content() {
    assert_eq!(
        handle_me(&["waves", "at", "åse", "🐧"], &empty_ctx()),
        vec![Effect::SendActionMessage("waves at åse 🐧".into())]
    );
}

fn fixture_registry() -> [Command; 2] {
    [
        Command {
            name: "quit",
            aliases: &["q"],
            short_help: "exit the client",
            long_help: "/quit — exit cleanly",
            handler: Handler::Quit,
        },
        Command {
            name: "me",
            aliases: &[],
            short_help: "send an action message",
            long_help: "/me <text> — send action",
            handler: Handler::Me,
        },
    ]
}

#[test]
fn help_no_args_lists_all_commands_with_header() {
    let reg = fixture_registry();
    let ctx = HandlerContext { registry: &reg };
    let effects = handle_help(&[], &ctx);
    assert_eq!(effects.len(), 3);
    assert_eq!(effects[0], Effect::SystemLine("available commands:".into()));
    assert_eq!(effects[1], Effect::SystemLine("  /quit — exit the client".into()));
    assert_eq!(effects[2], Effect::SystemLine("  /me — send an action message".into()));
}

#[test]
fn help_with_known_name_returns_long_help() {
    let reg = fixture_registry();
    let ctx = HandlerContext { registry: &reg };
    let effects = handle_help(&["me"], &ctx);
    assert_eq!(
        effects,
        vec![Effect::SystemLine("/me: /me <text> — send action".into())]
    );
}

#[test]
fn help_strips_leading_slash_from_arg() {
    let reg = fixture_registry();
    let ctx = HandlerContext { registry: &reg };
    let effects = handle_help(&["/me"], &ctx);
    assert_eq!(
        effects,
        vec![Effect::SystemLine("/me: /me <text> — send action".into())]
    );
}

#[test]
fn help_with_unknown_name_returns_unknown_command() {
    let reg = fixture_registry();
    let ctx = HandlerContext { registry: &reg };
    let effects = handle_help(&["nope"], &ctx);
    assert_eq!(effects, vec![Effect::SystemLine("unknown command: /nope".into())]);
}

// Extra cases.

#[test]
fn help_resolves_aliases_and_repeated_slashes() {
    let reg = fixture_registry();
    let ctx = HandlerContext { registry: &reg };
    assert_eq!(
        handle_help(&["q"], &ctx),
        vec![Effect::SystemLine("/quit: /quit — exit cleanly".into())]
    );
    assert_eq!(
        handle_help(&["//quit"], &ctx),
        vec![Effect::SystemLine("/quit: /quit — exit cleanly".into())]
    );
}

#[test]
fn handler_enum_dispatches_to_handlers() {
    let ctx = empty_ctx();
    assert_eq!(Handler::Quit.call(&[], &ctx), vec![Effect::Quit]);
    assert_eq!(Handler::Clear.call(&["x"], &ctx), vec![Effect::ClearActiveBuffer]);
    assert_eq!(
        Handler::Me.call(&["a", "b"], &ctx),
        vec![Effect::SendActionMessage("a b".into())]
    );
}

#[test]
fn builtin_registry_has_quit_help_me_clear() {
    let reg = registry();
    let names: Vec<&str> = reg.iter().map(|c| c.name).collect();
    assert_eq!(names, vec!["quit", "help", "me", "clear"]);
    assert_eq!(lookup("q", &reg).map(|c| c.name), Some("quit"));
    assert_eq!(lookup("h", &reg).map(|c| c.name), Some("help"));
    assert!(lookup("clear", &reg).is_some());
    assert!(lookup("m", &reg).is_none());
}

#[test]
fn help_over_builtin_registry_lists_four_commands() {
    let reg = registry();
    let ctx = HandlerContext { registry: &reg };
    let effects = handle_help(&[], &ctx);
    assert_eq!(
        effects,
        vec![
            Effect::SystemLine("available commands:".into()),
            Effect::SystemLine("  /quit — exit the client".into()),
            Effect::SystemLine("  /help — list commands".into()),
            Effect::SystemLine("  /me — send an action message".into()),
            Effect::SystemLine("  /clear — clear the active buffer".into()),
        ]
    );
}
