//! `Effect` — what command handlers return. The client interprets each
//! variant in `App::apply_effect`. Effects represent semantic intent, not
//! wire-level commands; the client constructs `ClientCommand`s from app state.

use vstd::prelude::*;

verus! {

#[derive(Debug, PartialEq, Eq)]
pub enum Effect {
    /// Exit the client.
    Quit,
    /// Empty the active buffer's local timeline.
    ClearActiveBuffer,
    /// Show one local system line in the active room.
    SystemLine(String),
    /// Post an action message (`/me ...`) with this content.
    SendActionMessage(String),
}

/// The mathematical value of an [`Effect`].
pub enum EffectView {
    Quit,
    ClearActiveBuffer,
    SystemLine(Seq<char>),
    SendActionMessage(Seq<char>),
}

impl View for Effect {
    type V = EffectView;

    open spec fn view(&self) -> EffectView {
        match self {
            Effect::Quit => EffectView::Quit,
            Effect::ClearActiveBuffer => EffectView::ClearActiveBuffer,
            Effect::SystemLine(s) => EffectView::SystemLine(s@),
            Effect::SendActionMessage(s) => EffectView::SendActionMessage(s@),
        }
    }
}

impl Clone for Effect {
    fn clone(&self) -> (r: Self)
        ensures
            r == *self,
    {
        match self {
            Effect::Quit => Effect::Quit,
            Effect::ClearActiveBuffer => Effect::ClearActiveBuffer,
            Effect::SystemLine(s) => Effect::SystemLine(s.clone()),
            Effect::SendActionMessage(s) => Effect::SendActionMessage(s.clone()),
        }
    }
}

/// The views of a list of effects.
pub open spec fn effects_view(v: Seq<Effect>) -> Seq<EffectView> {
    v.map_values(|e: Effect| e@)
}

} // verus!
