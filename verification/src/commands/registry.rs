//! Command registry: the `Command` record, the `Handler` that a command runs,
//! the `HandlerContext` handed to it, the built-in registry, and `lookup` for
//! resolution by name or alias.

use vstd::prelude::*;

use crate::text::str_eq;

verus! {

/// Which handler a command runs. Handlers are pure: no I/O, no mutation;
/// each returns a list of effects the client applies in order.
#[derive(Debug, Clone, Copy, PartialEq, Eq, Structural)]
pub enum Handler {
    Quit,
    Help,
    Me,
    Clear,
}

/// Context passed to every handler. Carries the registry so `/help` can
/// introspect the available commands.
#[derive(Debug, Clone, Copy)]
pub struct HandlerContext<'a> {
    pub registry: &'a [Command],
}

/// One command in the registry.
#[derive(Debug, Clone, Copy)]
pub struct Command {
    pub name: &'static str,
    pub aliases: &'static [&'static str],
    pub short_help: &'static str,
    pub long_help: &'static str,
    pub handler: Handler,
}

/// `c` answers to `name`, by its canonical name or one of its aliases (case-sensitive).
pub open spec fn answers_to(c: Command, name: Seq<char>) -> bool {
    ||| c.name@ == name
    ||| exists|j: int| 0 <= j < c.aliases@.len() && (#[trigger] c.aliases@[j])@ == name
}

/// Some command of `reg` answers to `name`.
pub open spec fn is_registered(reg: Seq<Command>, name: Seq<char>) -> bool {
    exists|i: int| 0 <= i < reg.len() && answers_to(#[trigger] reg[i], name)
}

/// `reg[i]` is the first command of `reg` that answers to `name`.
pub open spec fn first_answering(reg: Seq<Command>, name: Seq<char>, i: int) -> bool {
    &&& 0 <= i < reg.len()
    &&& answers_to(reg[i], name)
    &&& forall|j: int| 0 <= j < i ==> !answers_to(#[trigger] reg[j], name)
}

/// At most one command is the first to answer to a name.
pub proof fn lemma_first_answering_unique(reg: Seq<Command>, name: Seq<char>, i: int, k: int)
    requires
        first_answering(reg, name, i),
        first_answering(reg, name, k),
    ensures
        i == k,
{
    if i < k {
        assert(!answers_to(reg[i], name));
    } else if k < i {
        assert(!answers_to(reg[k], name));
    }
}

fn alias_matches(aliases: &[&str], name: &str) -> (r: bool)
    ensures
        r == exists|j: int| 0 <= j < aliases@.len() && (#[trigger] aliases@[j])@ == name@,
{
    let mut k: usize = 0;
    while k < aliases.len()
        invariant
            k <= aliases@.len(),
            forall|j: int| 0 <= j < k ==> (#[trigger] aliases@[j])@ != name@,
        decreases aliases@.len() - k,
    {
        if str_eq(aliases[k], name) {
            return true;
        }
        k = k + 1;
    }
    false
}

/// Look up a command by canonical name OR alias. Case-sensitive. The first
/// command in registry order that answers to `name` wins.
pub fn lookup<'a>(name: &str, registry: &'a [Command]) -> (r: Option<&'a Command>)
    ensures
        r is None <==> !is_registered(registry@, name@),
        r matches Some(c) ==> exists|i: int|
            first_answering(registry@, name@, i) && *c == #[trigger] registry@[i],
{
    let mut k: usize = 0;
    while k < registry.len()
        invariant
            k <= registry@.len(),
            forall|j: int| 0 <= j < k ==> !answers_to(#[trigger] registry@[j], name@),
        decreases registry@.len() - k,
    {
        let c = &registry[k];
        if str_eq(c.name, name) || alias_matches(c.aliases, name) {
            assert(first_answering(registry@, name@, k as int));
            return Some(c);
        }
        k = k + 1;
    }
    None
}

/// The built-in commands, in registry order: `/quit` (alias `q`), `/help`
/// (alias `h`), `/me` and `/clear`.
pub fn registry() -> (r: Vec<Command>)
    ensures
        r@.len() == 4,
        r@[0].name@ == "quit"@ && r@[0].handler == Handler::Quit,
        r@[0].aliases@.len() == 1 && r@[0].aliases@[0]@ == "q"@,
        r@[1].name@ == "help"@ && r@[1].handler == Handler::Help,
        r@[1].aliases@.len() == 1 && r@[1].aliases@[0]@ == "h"@,
        r@[2].name@ == "me"@ && r@[2].handler == Handler::Me,
        r@[2].aliases@.len() == 0,
        r@[3].name@ == "clear"@ && r@[3].handler == Handler::Clear,
        r@[3].aliases@.len() == 0,
{
    let quit_aliases: &'static [&'static str] = &["q"];
    let help_aliases: &'static [&'static str] = &["h"];
    let none: &'static [&'static str] = &[];
    let mut v: Vec<Command> = Vec::new();
    v.push(
        Command {
            name: "quit",
            aliases: quit_aliases,
            short_help: "exit the client",
            long_help: "/quit — exit the client",
            handler: Handler::Quit,
        },
    );
    v.push(
        Command {
            name: "help",
            aliases: help_aliases,
            short_help: "list commands",
            long_help: "/help [command] — list commands, or show help for one",
            handler: Handler::Help,
        },
    );
    v.push(
        Command {
            name: "me",
            aliases: none,
            short_help: "send an action message",
            long_help: "/me <action text> — send an action message",
            handler: Handler::Me,
        },
    );
    v.push(
        Command {
            name: "clear",
            aliases: none,
            short_help: "clear the active buffer",
            long_help: "/clear — empty the active buffer's local timeline",
            handler: Handler::Clear,
        },
    );
    v
}

} // verus!
