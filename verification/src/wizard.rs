//! The wizard session root: the active-stage index, the shared installation
//! context, and the single reducer through which every stage mutates them.

use vstd::prelude::*;

use crate::context::{initial_context_model, ContextModel, InstallContext};

verus! {

/// Mathematical model of an [`Event`].
pub ghost enum EventModel {
    Advance,
    Reset,
    SetGamePath { path: Seq<char> },
    SetSource { source: Seq<char> },
    SetMods { mods: Seq<Seq<char>> },
}

/// The closed set of operations through which stages affect shared state.
/// No stage mutates the stage index or the context in any other way.
#[derive(Debug, Clone)]
pub enum Event {
    /// Move to the next stage.
    Advance,
    /// Return to the first stage and clear the context.
    Reset,
    /// Record the chosen target application directory.
    SetGamePath(String),
    /// Record the chosen content source identifier.
    SetSource(String),
    /// Record the chosen package identifiers.
    SetMods(Vec<String>),
}

impl View for Event {
    type V = EventModel;

    open spec fn view(&self) -> EventModel {
        match self {
            Event::Advance => EventModel::Advance,
            Event::Reset => EventModel::Reset,
            Event::SetGamePath(p) => EventModel::SetGamePath { path: p@ },
            Event::SetSource(s) => EventModel::SetSource { source: s@ },
            Event::SetMods(m) => EventModel::SetMods { mods: m.deep_view() },
        }
    }
}

/// Mathematical model of a [`Wizard`].
#[verifier::ext_equal]
pub ghost struct WizardModel {
    pub stage: nat,
    pub context: ContextModel,
}

/// The model a fresh wizard run starts in: stage 0, empty context.
pub open spec fn initial_wizard_model() -> WizardModel {
    WizardModel { stage: 0, context: initial_context_model() }
}

/// The number of defined stages; indices `0..5` select a stage view, any
/// other index is the invalid-stage fallback.
pub open spec fn spec_stage_count() -> nat {
    5
}

/// Whether a stage index falls outside the five defined stages.
pub open spec fn stage_is_invalid(stage: nat) -> bool {
    stage >= spec_stage_count()
}

/// The transition function of the wizard: one event maps one state to the
/// next. Total on the model; the executable reducer refines it.
pub open spec fn wizard_step(m: WizardModel, e: EventModel) -> WizardModel {
    match e {
        EventModel::Advance => WizardModel { stage: m.stage + 1, context: m.context },
        EventModel::Reset => initial_wizard_model(),
        EventModel::SetGamePath { path } => WizardModel {
            stage: m.stage,
            context: ContextModel { game_path: path, ..m.context },
        },
        EventModel::SetSource { source } => WizardModel {
            stage: m.stage,
            context: ContextModel { source: source, ..m.context },
        },
        EventModel::SetMods { mods } => WizardModel {
            stage: m.stage,
            context: ContextModel { mods: mods, ..m.context },
        },
    }
}

/// The state after `n` consecutive advance dispatches.
pub open spec fn advance_n(m: WizardModel, n: nat) -> WizardModel
    decreases n,
{
    if n == 0 {
        m
    } else {
        wizard_step(advance_n(m, (n - 1) as nat), EventModel::Advance)
    }
}

/// A wizard session: the active-stage index together with the accumulated
/// installation context.
#[derive(Debug, Clone)]
pub struct Wizard {
    /// Index of the active stage; `0..5` are the defined stages.
    pub stage: usize,
    /// The accumulated user choices.
    pub context: InstallContext,
}

impl View for Wizard {
    type V = WizardModel;

    open spec fn view(&self) -> WizardModel {
        WizardModel { stage: self.stage as nat, context: self.context@ }
    }
}

impl Wizard {
    /// A fresh session at stage 0 with an empty context.
    pub fn new() -> (w: Wizard)
        ensures
            w@ == initial_wizard_model(),
    {
        let w = Wizard { stage: 0, context: InstallContext::new() };
        proof {
            assert(w@ =~= initial_wizard_model());
        }
        w
    }

    /// Apply one event: the executable reducer, refining [`wizard_step`].
    pub fn dispatch(&mut self, e: Event)
        requires
            e@ is Advance ==> old(self).stage < usize::MAX,
        ensures
            final(self)@ == wizard_step(old(self)@, e@),
    {
        match e {
            Event::Advance => {
                self.stage = self.stage + 1;
            },
            Event::Reset => {
                self.stage = 0;
                self.context = InstallContext::new();
            },
            Event::SetGamePath(p) => {
                self.context.game_path = p;
            },
            Event::SetSource(s) => {
                self.context.source = s;
            },
            Event::SetMods(m) => {
                self.context.mods = m;
            },
        }
        proof {
            assert(self@ =~= wizard_step(old(self)@, e@));
        }
    }
}

/// After any number of advance dispatches the stage index equals the starting
/// index plus the number of advances, and the context is untouched; from a
/// fresh session the index therefore counts the advances, and more than four
/// of them land in the invalid-stage fallback.
pub proof fn lemma_advance_counts(m: WizardModel, n: nat)
    ensures
        advance_n(m, n).stage == m.stage + n,
        advance_n(m, n).context == m.context,
    decreases n,
{
    if n > 0 {
        lemma_advance_counts(m, (n - 1) as nat);
    }
}

/// Starting at stage 0, the stage index equals the number of advances
/// dispatched, and past the last defined stage only the fallback is reached.
pub proof fn lemma_advances_from_start(n: nat)
    ensures
        advance_n(initial_wizard_model(), n).stage == n,
        n > 4 ==> stage_is_invalid(advance_n(initial_wizard_model(), n).stage),
{
    lemma_advance_counts(initial_wizard_model(), n);
}

/// A reset from any state, whatever the stage index and the context hold,
/// yields stage 0 and the initial empty context.
pub proof fn lemma_reset_from_anywhere(m: WizardModel)
    ensures
        wizard_step(m, EventModel::Reset).stage == 0,
        wizard_step(m, EventModel::Reset).context == initial_context_model(),
{
}

} // verus!
