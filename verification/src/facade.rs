//! The session facade: a closed union over the real and the inert session,
//! so callers hold one type and never branch on which variant is active.
//!
//! Every operation routes to the active variant and adds no behaviour: the
//! real variant yields its terminal action plan and pump configuration, the
//! inert variant yields nothing to do and always succeeds.

use vstd::prelude::*;

use crate::inert::TestTui;
use crate::session::PumpConfig;
use crate::session::TermAction;
use crate::session::Tui;
use crate::session::enter_actions_spec;
use crate::session::entered_state;
use crate::session::exit_actions_spec;
use crate::session::exited_state;
use crate::session::period_micros_spec;
use crate::session::wf;

verus! {

/// A session of either kind.
pub enum TuiEnum {
    Crossterm(Tui),
    Test(TestTui),
}

impl From<Tui> for TuiEnum {
    fn from(tui: Tui) -> (r: Self) {
        TuiEnum::Crossterm(tui)
    }
}

impl vstd::std_specs::convert::FromSpecImpl<Tui> for TuiEnum {
    open spec fn obeys_from_spec() -> bool {
        true
    }

    open spec fn from_spec(tui: Tui) -> Self {
        TuiEnum::Crossterm(tui)
    }
}

impl From<TestTui> for TuiEnum {
    fn from(tui: TestTui) -> (r: Self) {
        TuiEnum::Test(tui)
    }
}

impl vstd::std_specs::convert::FromSpecImpl<TestTui> for TuiEnum {
    open spec fn obeys_from_spec() -> bool {
        true
    }

    open spec fn from_spec(tui: TestTui) -> Self {
        TuiEnum::Test(tui)
    }
}

impl TuiEnum {
    /// Enters the active variant: the real session yields its terminal
    /// action plan and the pump configuration to start; the inert session
    /// has nothing to do.
    pub fn enter(&mut self) -> (r: (Vec<TermAction>, Option<PumpConfig>))
        requires
            (*old(self)) matches TuiEnum::Crossterm(t) ==> wf(t) && t.epoch < u64::MAX,
        ensures
            (*old(self)) matches TuiEnum::Crossterm(t) ==> {
                &&& *final(self) == TuiEnum::Crossterm(entered_state(t))
                &&& r.0@ == enter_actions_spec(t.mouse, t.paste)
                &&& r.1 matches Some(cfg) && cfg.tick_period_micros == period_micros_spec(
                    t.tick_rate,
                ) && cfg.render_period_micros == period_micros_spec(t.frame_rate)
            },
            (*old(self)) is Test ==> *final(self) == *old(self) && r.0@ =~= Seq::<
                TermAction,
            >::empty() && r.1 is None,
    {
        match self {
            TuiEnum::Crossterm(tui) => {
                let (actions, cfg) = tui.enter();
                (actions, Some(cfg))
            },
            TuiEnum::Test(_) => (Vec::new(), None),
        }
    }

    /// Exits the active variant: the real session yields its restoring
    /// terminal action plan; the inert session has nothing to do.
    pub fn exit(&mut self) -> (actions: Vec<TermAction>)
        ensures
            (*old(self)) matches TuiEnum::Crossterm(t) ==> *final(self) == TuiEnum::Crossterm(
                exited_state(t),
            ) && actions@ == exit_actions_spec(t.mouse, t.paste, t.entered),
            (*old(self)) is Test ==> *final(self) == *old(self) && actions@ =~= Seq::<
                TermAction,
            >::empty(),
    {
        match self {
            TuiEnum::Crossterm(tui) => tui.exit(),
            TuiEnum::Test(_) => Vec::new(),
        }
    }
}

} // verus!
