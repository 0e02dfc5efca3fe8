//! The command handlers: `/quit`, `/help`, `/me`, `/clear`.
//! Each is a pure function of `(args, ctx) -> Vec<Effect>`.

use vstd::prelude::*;
use vstd::string::StringExecFns;

use crate::commands::effect::{effects_view, Effect, EffectView};
use crate::commands::registry::{first_answering, is_registered, lookup, Command, Handler, HandlerContext};
use crate::text::{join_spaced, join_with_spaces, trim_leading, trim_start_char};

verus! {

/// The views of the arguments.
pub open spec fn args_view(args: Seq<&str>) -> Seq<Seq<char>> {
    args.map_values(|a: &str| a@)
}

/// The line listing one command in `/help`.
pub open spec fn help_line(c: Command) -> Seq<char> {
    "  /"@ + c.name@ + " — "@ + c.short_help@
}

/// What `/help` shows without arguments: a header, then one line per command.
pub open spec fn help_listing(reg: Seq<Command>) -> Seq<EffectView> {
    seq![EffectView::SystemLine("available commands:"@)] + reg.map_values(
        |c: Command| EffectView::SystemLine(help_line(c)),
    )
}

/// What `/help <name>` shows: the long help of the first command answering to
/// `name` with leading slashes trimmed, or an "unknown command" line.
pub open spec fn help_for(reg: Seq<Command>, arg: Seq<char>) -> Seq<EffectView> {
    let target = trim_leading(arg, '/');
    if is_registered(reg, target) {
        let i = choose|i: int| first_answering(reg, target, i);
        seq![EffectView::SystemLine("/"@ + reg[i].name@ + ": "@ + reg[i].long_help@)]
    } else {
        seq![EffectView::SystemLine("unknown command: /"@ + target)]
    }
}

/// The effects of each handler, given the arguments and the registry.
pub open spec fn handler_effects(h: Handler, args: Seq<Seq<char>>, reg: Seq<Command>) -> Seq<EffectView> {
    match h {
        Handler::Quit => seq![EffectView::Quit],
        Handler::Clear => seq![EffectView::ClearActiveBuffer],
        Handler::Me => if args.len() == 0 {
            seq![EffectView::SystemLine("usage: /me <action text>"@)]
        } else {
            seq![EffectView::SendActionMessage(join_spaced(args))]
        },
        Handler::Help => if args.len() == 0 {
            help_listing(reg)
        } else {
            help_for(reg, args[0])
        },
    }
}

/// `/quit` — exit the client.
pub fn handle_quit(_args: &[&str], _ctx: &HandlerContext) -> (r: Vec<Effect>)
    ensures
        effects_view(r@) == seq![EffectView::Quit],
{
    let mut v = Vec::new();
    v.push(Effect::Quit);
    assert(effects_view(v@) =~= seq![EffectView::Quit]);
    v
}

/// `/clear` — empty the active buffer's local timeline.
pub fn handle_clear(_args: &[&str], _ctx: &HandlerContext) -> (r: Vec<Effect>)
    ensures
        effects_view(r@) == seq![EffectView::ClearActiveBuffer],
{
    let mut v = Vec::new();
    v.push(Effect::ClearActiveBuffer);
    assert(effects_view(v@) =~= seq![EffectView::ClearActiveBuffer]);
    v
}

/// `/me <action text>` — send the rest of the line as an action message.
pub fn handle_me(args: &[&str], _ctx: &HandlerContext) -> (r: Vec<Effect>)
    ensures
        effects_view(r@) == handler_effects(Handler::Me, args_view(args@), _ctx.registry@),
{
    let mut v = Vec::new();
    if args.len() == 0 {
        v.push(Effect::SystemLine(String::from_str("usage: /me <action text>")));
        assert(effects_view(v@) =~= seq![EffectView::SystemLine("usage: /me <action text>"@)]);
        return v;
    }
    let joined = join_with_spaces(args);
    v.push(Effect::SendActionMessage(joined));
    assert(effects_view(v@) =~= seq![EffectView::SendActionMessage(join_spaced(args_view(args@)))]);
    v
}

/// `/help` — list commands. `/help <name>` — show the long help for one.
///
/// Output is one `Effect::SystemLine` per visual line.
pub fn handle_help(args: &[&str], ctx: &HandlerContext) -> (r: Vec<Effect>)
    ensures
        effects_view(r@) == handler_effects(Handler::Help, args_view(args@), ctx.registry@),
{
    let reg = ctx.registry;
    let mut effects: Vec<Effect> = Vec::new();
    if args.len() == 0 {
        effects.push(Effect::SystemLine(String::from_str("available commands:")));
        let ghost listed = reg@.map_values(|c: Command| EffectView::SystemLine(help_line(c)));
        let mut k: usize = 0;
        while k < reg.len()
            invariant
                k <= reg@.len(),
                listed == reg@.map_values(|c: Command| EffectView::SystemLine(help_line(c))),
                effects_view(effects@) == seq![EffectView::SystemLine("available commands:"@)]
                    + listed.take(k as int),
            decreases reg@.len() - k,
        {
            let c = &reg[k];
            let mut line = String::from_str("  /");
            line.append(c.name);
            line.append(" — ");
            line.append(c.short_help);
            let ghost before = effects_view(effects@);
            effects.push(Effect::SystemLine(line));
            assert(effects_view(effects@) =~= before.push(EffectView::SystemLine(line@)));
            assert(listed.take((k + 1) as int) =~= listed.take(k as int).push(listed[k as int]));
            k = k + 1;
        }
        assert(listed.take(k as int) =~= listed);
        return effects;
    }
    // Strip leading slashes if the user typed `/help /me`.
    let target = trim_start_char(args[0], '/');
    match lookup(target, reg) {
        Some(cmd) => {
            let mut line = String::from_str("/");
            line.append(cmd.name);
            line.append(": ");
            line.append(cmd.long_help);
            effects.push(Effect::SystemLine(line));
            proof {
                let i = choose|i: int| first_answering(reg@, target@, i) && *cmd == reg@[i];
                let k = choose|k: int| first_answering(reg@, target@, k);
                crate::commands::registry::lemma_first_answering_unique(reg@, target@, i, k);
            }
            assert(effects_view(effects@) =~= help_for(reg@, args_view(args@)[0]));
        },
        None => {
            let mut line = String::from_str("unknown command: /");
            line.append(target);
            effects.push(Effect::SystemLine(line));
            assert(effects_view(effects@) =~= help_for(reg@, args_view(args@)[0]));
        },
    }
    effects
}

impl Handler {
    /// Run the handler on the arguments.
    pub fn call(&self, args: &[&str], ctx: &HandlerContext) -> (r: Vec<Effect>)
        ensures
            effects_view(r@) == handler_effects(*self, args_view(args@), ctx.registry@),
    {
        match self {
            Handler::Quit => handle_quit(args, ctx),
            Handler::Help => handle_help(args, ctx),
            Handler::Me => handle_me(args, ctx),
            Handler::Clear => handle_clear(args, ctx),
        }
    }
}

} // verus!
