//! Macro actions: one button repeated for a few ticks, per client, stopped
//! early when the screen no longer suits it.

use vstd::prelude::*;
use vstd::hash_map::HashMapWithView;
use crate::types::{GameAction, MacroAction};
use crate::smart_action::GameSituation;

verus! {

broadcast use vstd::std_specs::hash::group_hash_axioms;

/// A running macro and the ticks it may still run.
#[derive(Clone, Copy, Debug, PartialEq, Eq, Structural)]
pub struct ActiveMacroState {
    pub action: MacroAction,
    pub ticks_left: u32,
}

/// The button a macro presses.
pub open spec fn macro_button(m: MacroAction) -> GameAction {
    match m {
        MacroAction::AdvanceDialog => GameAction::A,
        MacroAction::WalkUp => GameAction::Up,
        MacroAction::WalkDown => GameAction::Down,
        MacroAction::WalkLeft => GameAction::Left,
        MacroAction::WalkRight => GameAction::Right,
        MacroAction::MenuSelect => GameAction::A,
        MacroAction::MenuBack => GameAction::B,
        MacroAction::PressStart => GameAction::Start,
    }
}

/// How many ticks a macro runs when started: one for dialog and menu
/// presses, four for Start, six for walking.
pub open spec fn macro_ticks(m: MacroAction) -> u32 {
    match m {
        MacroAction::AdvanceDialog => 1,
        MacroAction::MenuSelect => 1,
        MacroAction::MenuBack => 1,
        MacroAction::PressStart => 4,
        MacroAction::WalkUp | MacroAction::WalkDown | MacroAction::WalkLeft | MacroAction::WalkRight => 6,
    }
}

/// The macro that carries out a suggested action: advancing dialog whenever
/// text or a dialog shows, otherwise walking for the arrows, backing out for
/// B, Start for Start and selecting for every other button.
pub open spec fn macro_for(a: GameAction, s: GameSituation) -> MacroAction {
    if s.in_dialog || s.has_text {
        MacroAction::AdvanceDialog
    } else {
        match a {
            GameAction::Up => MacroAction::WalkUp,
            GameAction::Down => MacroAction::WalkDown,
            GameAction::Left => MacroAction::WalkLeft,
            GameAction::Right => MacroAction::WalkRight,
            GameAction::B => MacroAction::MenuBack,
            GameAction::Start => MacroAction::PressStart,
            _ => MacroAction::MenuSelect,
        }
    }
}

/// Whether a running macro suits the screen: dialog and menu macros while
/// dialog, text or a menu shows; the others while neither a dialog nor a
/// menu shows and the image has not changed much.
pub open spec fn macro_suits(m: MacroAction, s: GameSituation, image_changed: bool) -> bool {
    match m {
        MacroAction::AdvanceDialog | MacroAction::MenuSelect | MacroAction::MenuBack =>
            s.in_dialog || s.has_text || s.has_menu,
        _ => !(s.in_dialog || s.has_menu || image_changed),
    }
}

/// The state a macro starts in: its first tick is the current one.
pub open spec fn started(m: MacroAction) -> ActiveMacroState {
    ActiveMacroState { action: m, ticks_left: (macro_ticks(m) - 1) as u32 }
}

/// One step of the macro of a client: the button to press and the client's
/// macro state afterwards. A suitable macro with ticks left continues with
/// one tick fewer; otherwise a new macro for the suggested action starts.
pub open spec fn macro_step(
    current: Option<ActiveMacroState>,
    s: GameSituation,
    suggested: GameAction,
    image_changed: bool,
) -> (GameAction, ActiveMacroState) {
    match current {
        Some(st) if macro_suits(st.action, s, image_changed) && st.ticks_left > 0 =>
            (macro_button(st.action), ActiveMacroState { action: st.action, ticks_left: (st.ticks_left - 1) as u32 }),
        _ => (macro_button(macro_for(suggested, s)), started(macro_for(suggested, s))),
    }
}

/// The macros a suggested action can start, in a fixed order.
pub fn candidate_macros() -> (r: [MacroAction; 8])
    ensures
        r@ == seq![
            MacroAction::AdvanceDialog, MacroAction::WalkUp, MacroAction::WalkDown, MacroAction::WalkLeft,
            MacroAction::WalkRight, MacroAction::MenuSelect, MacroAction::MenuBack, MacroAction::PressStart,
        ],
{
    let r = [
        MacroAction::AdvanceDialog,
        MacroAction::WalkUp,
        MacroAction::WalkDown,
        MacroAction::WalkLeft,
        MacroAction::WalkRight,
        MacroAction::MenuSelect,
        MacroAction::MenuBack,
        MacroAction::PressStart,
    ];
    proof { assert(r@ =~= seq![
            MacroAction::AdvanceDialog, MacroAction::WalkUp, MacroAction::WalkDown, MacroAction::WalkLeft,
            MacroAction::WalkRight, MacroAction::MenuSelect, MacroAction::MenuBack, MacroAction::PressStart,
        ]); }
    r
}

pub fn macro_to_action(m: MacroAction) -> (r: GameAction)
    ensures r == macro_button(m),
{
    match m {
        MacroAction::AdvanceDialog => GameAction::A,
        MacroAction::WalkUp => GameAction::Up,
        MacroAction::WalkDown => GameAction::Down,
        MacroAction::WalkLeft => GameAction::Left,
        MacroAction::WalkRight => GameAction::Right,
        MacroAction::MenuSelect => GameAction::A,
        MacroAction::MenuBack => GameAction::B,
        MacroAction::PressStart => GameAction::Start,
    }
}

pub fn default_ticks_for_macro(m: MacroAction) -> (r: u32)
    ensures r == macro_ticks(m),
{
    match m {
        MacroAction::AdvanceDialog => 1,
        MacroAction::MenuSelect => 1,
        MacroAction::MenuBack => 1,
        MacroAction::PressStart => 4,
        MacroAction::WalkUp | MacroAction::WalkDown | MacroAction::WalkLeft | MacroAction::WalkRight => 6,
    }
}

pub fn map_action_to_macro(a: GameAction, s: &GameSituation) -> (r: MacroAction)
    ensures r == macro_for(a, *s),
{
    if s.in_dialog || s.has_text {
        return MacroAction::AdvanceDialog;
    }
    match a {
        GameAction::Up => MacroAction::WalkUp,
        GameAction::Down => MacroAction::WalkDown,
        GameAction::Left => MacroAction::WalkLeft,
        GameAction::Right => MacroAction::WalkRight,
        GameAction::B => MacroAction::MenuBack,
        GameAction::Start => MacroAction::PressStart,
        _ => MacroAction::MenuSelect,
    }
}

pub fn should_continue_macro(state: ActiveMacroState, s: &GameSituation, image_changed: bool) -> (r: bool)
    ensures r == macro_suits(state.action, *s, image_changed),
{
    match state.action {
        MacroAction::AdvanceDialog | MacroAction::MenuSelect | MacroAction::MenuBack =>
            s.in_dialog || s.has_text || s.has_menu,
        _ => !(s.in_dialog || s.has_menu || image_changed),
    }
}

/// Every running macro has fewer ticks left than it started with.
pub open spec fn macros_bounded(m: Map<u128, ActiveMacroState>) -> bool {
    forall|c: u128| #[trigger] m.contains_key(c) ==> m[c].ticks_left < macro_ticks(m[c].action)
}

/// The running macro of each client.
pub struct MacroManager {
    active_macros: HashMapWithView<u128, ActiveMacroState>,
}

impl MacroManager {
    #[verifier::type_invariant]
    closed spec fn inv(self) -> bool {
        macros_bounded(self.active_macros@)
    }

    /// The running macro of each client.
    pub closed spec fn macros(&self) -> Map<u128, ActiveMacroState> {
        self.active_macros@
    }

    /// No macro running.
    pub fn new() -> (r: MacroManager)
        ensures r.macros() == Map::<u128, ActiveMacroState>::empty(),
    {
        MacroManager { active_macros: HashMapWithView::new() }
    }

    /// Presses the next button for a client: continues its macro while the
    /// macro suits the screen and has ticks left, else starts the macro for
    /// the suggested action.
    pub fn execute_macro(
        &mut self,
        client_id: u128,
        situation: &GameSituation,
        suggested_action: GameAction,
        image_changed: bool,
    ) -> (r: GameAction)
        ensures
            ({
                let step = macro_step(
                    if old(self).macros().contains_key(client_id) { Some(old(self).macros()[client_id]) } else { None },
                    *situation,
                    suggested_action,
                    image_changed,
                );
                &&& r == step.0
                &&& final(self).macros() == old(self).macros().insert(client_id, step.1)
            }),
            macros_bounded(final(self).macros()),
    {
        proof { use_type_invariant(&*self); }
        let current: Option<ActiveMacroState> = match self.active_macros.get(&client_id) {
            Some(st) => Some(*st),
            None => None,
        };
        if let Some(state) = current {
            if should_continue_macro(state, situation, image_changed) && state.ticks_left > 0 {
                let next = ActiveMacroState { action: state.action, ticks_left: state.ticks_left - 1 };
                self.update(client_id, next);
                return macro_to_action(state.action);
            } else {
                self.stop_macro(client_id);
            }
        }
        self.start_new_macro(client_id, situation, suggested_action)
    }

    fn update(&mut self, client_id: u128, state: ActiveMacroState)
        requires state.ticks_left < macro_ticks(state.action),
        ensures final(self).macros() == old(self).macros().insert(client_id, state),
    {
        proof { use_type_invariant(&*self); }
        let mut m = HashMapWithView::new();
        std::mem::swap(&mut m, &mut self.active_macros);
        m.insert(client_id, state);
        std::mem::swap(&mut m, &mut self.active_macros);
    }

    fn start_new_macro(&mut self, client_id: u128, situation: &GameSituation, suggested_action: GameAction) -> (r: GameAction)
        ensures
            r == macro_button(macro_for(suggested_action, *situation)),
            final(self).macros() == old(self).macros().insert(client_id, started(macro_for(suggested_action, *situation))),
    {
        let m = map_action_to_macro(suggested_action, situation);
        let ticks = default_ticks_for_macro(m);
        self.update(client_id, ActiveMacroState { action: m, ticks_left: ticks - 1 });
        macro_to_action(m)
    }

    fn stop_macro(&mut self, client_id: u128)
        ensures final(self).macros() == old(self).macros().remove(client_id),
    {
        proof { use_type_invariant(&*self); }
        let mut m = HashMapWithView::new();
        std::mem::swap(&mut m, &mut self.active_macros);
        let _ = m.remove(&client_id);
        std::mem::swap(&mut m, &mut self.active_macros);
    }

    /// The running macro of a client.
    pub fn get_macro_state(&self, client_id: u128) -> (r: Option<ActiveMacroState>)
        ensures
            r == (if self.macros().contains_key(client_id) { Some(self.macros()[client_id]) } else { None }),
    {
        match self.active_macros.get(&client_id) {
            Some(st) => Some(*st),
            None => None,
        }
    }

    /// All running macros.
    pub fn get_all_active_macros(&self) -> (r: &HashMapWithView<u128, ActiveMacroState>)
        ensures r@ == self.macros(),
    {
        &self.active_macros
    }

    /// Stops the macro of a client.
    pub fn force_stop_client_macros(&mut self, client_id: u128)
        ensures final(self).macros() == old(self).macros().remove(client_id),
    {
        self.stop_macro(client_id);
    }
}

/// Each macro step keeps every running macro within its default duration:
/// if no macro has as many ticks left as it started with, none has after
/// the step.
pub proof fn lemma_macro_step_bounded(
    m: Map<u128, ActiveMacroState>,
    client_id: u128,
    s: GameSituation,
    suggested: GameAction,
    image_changed: bool,
)
    requires macros_bounded(m),
    ensures
        macros_bounded(m.insert(
            client_id,
            macro_step(
                if m.contains_key(client_id) { Some(m[client_id]) } else { None },
                s,
                suggested,
                image_changed,
            ).1,
        )),
{
}

/// A newly started macro presses what it was asked to: advancing (A)
/// whenever text or a dialog shows; otherwise the suggested arrow, B or
/// Start itself, and A (select) for any other button. Arrows start a walk
/// of several ticks, the rest a single press (Start a few).
pub proof fn lemma_new_macro_presses_suggestion(a: GameAction, s: GameSituation, image_changed: bool)
    ensures
        ({
            let step = macro_step(None, s, a, image_changed);
            &&& (s.in_dialog || s.has_text) ==> step.0 == GameAction::A
            &&& !(s.in_dialog || s.has_text) ==> (
                (a == GameAction::Up || a == GameAction::Down || a == GameAction::Left || a == GameAction::Right
                    || a == GameAction::B || a == GameAction::Start) ==> step.0 == a)
            &&& !(s.in_dialog || s.has_text) ==> (
                !(a == GameAction::Up || a == GameAction::Down || a == GameAction::Left || a == GameAction::Right
                    || a == GameAction::B || a == GameAction::Start) ==> step.0 == GameAction::A)
            &&& step.1.action == macro_for(a, s)
            &&& !(s.in_dialog || s.has_text) && (a == GameAction::Up || a == GameAction::Down
                || a == GameAction::Left || a == GameAction::Right) ==> step.1.ticks_left == 5
            &&& (s.in_dialog || s.has_text) ==> step.1.ticks_left == 0
        }),
{
}

/// Outside text and dialog, the macro chosen for an arrow presses that
/// arrow, so different arrows start different walks.
pub proof fn lemma_arrow_macros_press_their_arrow(a: GameAction, s: GameSituation)
    requires
        !(s.in_dialog || s.has_text),
        a == GameAction::Up || a == GameAction::Down || a == GameAction::Left || a == GameAction::Right,
    ensures
        macro_button(macro_for(a, s)) == a,
{
}

} // verus!
