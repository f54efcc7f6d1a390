use crate::config::{ConfigKey, DescribePictureConfig, DescribePictureConfigView};
use vstd::prelude::*;

verus! {

/// Which program's rules the selection follows.
#[derive(Clone, Copy, Debug, PartialEq, Eq, Structural)]
pub enum SelectionRules {
    /// The `image describe` command: a preferred model that lacks vision is
    /// removed from the configuration, a non-interactive run never prompts,
    /// and each listed model is probed under its own name.
    Command,
    /// The standalone picture tool: no configuration edit, no
    /// non-interactive mode, and every listed model is judged by the
    /// capabilities reported for the fixed model `gemma3:27b`.
    Standalone,
}

/// Why no model was chosen.
#[derive(Debug)]
pub enum SelectionError {
    /// The model named on the command line does not report vision.
    ArgModelLacksVision(String),
    /// The preferred model of the configuration does not report vision.
    PreferredModelLacksVision(String),
    /// Nothing names a model and the user may not be asked.
    NoModelNonInteractive,
    /// No local model reports vision.
    NoVisionModels,
    /// An outside call failed; `context` is what the failure is reported as.
    Outside { context: Option<String>, message: String },
    /// An event arrived that the current phase does not expect.
    UnexpectedEvent,
}

/// What a selection step asks the caller to do next.
#[derive(Debug)]
pub enum SelectionAction {
    /// Ask the model server for the capabilities of this model, then send `ModelInfo`.
    ShowModelInfo(String),
    /// Load the stored configuration, then send `ConfigLoaded`.
    LoadConfig,
    /// Store this configuration, then send `ConfigSaved`.
    SaveConfig(DescribePictureConfig),
    /// List the models installed locally, then send `ModelsListed`.
    ListLocalModels,
    /// Let the user pick one of these models, then send `Picked` with its index.
    Pick(Vec<String>),
    /// The selection is over.
    Finish(Result<String, SelectionError>),
}

/// What the caller reports back after performing an action.
pub enum SelectionEvent {
    /// The capabilities reported for the model asked about.
    ModelInfo { capabilities: Vec<String> },
    /// The stored configuration.
    ConfigLoaded(DescribePictureConfig),
    /// The configuration was stored.
    ConfigSaved,
    /// The names of the locally installed models, in the server's order.
    ModelsListed(Vec<String>),
    /// The index of the model the user picked.
    Picked(usize),
    /// The outside call failed with this message.
    CallFailed(String),
}

/// Where a selection stands.
pub enum Phase {
    CheckingArgModel { model: String },
    LoadingConfig,
    CheckingPreferred { model: String, config: DescribePictureConfig },
    SavingRejected { model: String },
    ListingModels,
    Probing { models: Vec<String>, next: usize, candidates: Vec<String> },
    Picking { candidates: Vec<String> },
    Finished,
}

/// The choice of a vision model for describing images, driven step by step.
pub struct ModelSelection {
    non_interactive: bool,
    rules: SelectionRules,
    phase: Phase,
}

// ---------------------------------------------------------------- views

pub enum ErrorView {
    ArgModelLacksVision(Seq<char>),
    PreferredModelLacksVision(Seq<char>),
    NoModelNonInteractive,
    NoVisionModels,
    Outside { context: Option<Seq<char>>, message: Seq<char> },
    UnexpectedEvent,
}

pub enum ActionView {
    ShowModelInfo(Seq<char>),
    LoadConfig,
    SaveConfig(DescribePictureConfigView),
    ListLocalModels,
    Pick(Seq<Seq<char>>),
    Finish(Result<Seq<char>, ErrorView>),
}

pub enum EventView {
    ModelInfo { capabilities: Seq<Seq<char>> },
    ConfigLoaded(DescribePictureConfigView),
    ConfigSaved,
    ModelsListed(Seq<Seq<char>>),
    Picked(int),
    CallFailed(Seq<char>),
}

pub enum PhaseView {
    CheckingArgModel { model: Seq<char> },
    LoadingConfig,
    CheckingPreferred { model: Seq<char>, config: DescribePictureConfigView },
    SavingRejected { model: Seq<char> },
    ListingModels,
    Probing { models: Seq<Seq<char>>, next: int, candidates: Seq<Seq<char>> },
    Picking { candidates: Seq<Seq<char>> },
    Finished,
}

pub struct SelectionView {
    pub non_interactive: bool,
    pub rules: SelectionRules,
    pub phase: PhaseView,
}

impl View for SelectionError {
    type V = ErrorView;

    open spec fn view(&self) -> ErrorView {
        match self {
            SelectionError::ArgModelLacksVision(m) => ErrorView::ArgModelLacksVision(m@),
            SelectionError::PreferredModelLacksVision(m) => ErrorView::PreferredModelLacksVision(m@),
            SelectionError::NoModelNonInteractive => ErrorView::NoModelNonInteractive,
            SelectionError::NoVisionModels => ErrorView::NoVisionModels,
            SelectionError::Outside { context, message } => ErrorView::Outside {
                context: crate::config::opt_view(*context),
                message: message@,
            },
            SelectionError::UnexpectedEvent => ErrorView::UnexpectedEvent,
        }
    }
}

impl View for SelectionAction {
    type V = ActionView;

    open spec fn view(&self) -> ActionView {
        match self {
            SelectionAction::ShowModelInfo(m) => ActionView::ShowModelInfo(m@),
            SelectionAction::LoadConfig => ActionView::LoadConfig,
            SelectionAction::SaveConfig(c) => ActionView::SaveConfig(c@),
            SelectionAction::ListLocalModels => ActionView::ListLocalModels,
            SelectionAction::Pick(c) => ActionView::Pick(c.deep_view()),
            SelectionAction::Finish(r) => ActionView::Finish(
                match r {
                    Ok(m) => Ok(m@),
                    Err(e) => Err(e@),
                },
            ),
        }
    }
}

impl View for SelectionEvent {
    type V = EventView;

    open spec fn view(&self) -> EventView {
        match self {
            SelectionEvent::ModelInfo { capabilities } => EventView::ModelInfo {
                capabilities: capabilities.deep_view(),
            },
            SelectionEvent::ConfigLoaded(c) => EventView::ConfigLoaded(c@),
            SelectionEvent::ConfigSaved => EventView::ConfigSaved,
            SelectionEvent::ModelsListed(m) => EventView::ModelsListed(m.deep_view()),
            SelectionEvent::Picked(i) => EventView::Picked(*i as int),
            SelectionEvent::CallFailed(m) => EventView::CallFailed(m@),
        }
    }
}

impl View for Phase {
    type V = PhaseView;

    open spec fn view(&self) -> PhaseView {
        match self {
            Phase::CheckingArgModel { model } => PhaseView::CheckingArgModel { model: model@ },
            Phase::LoadingConfig => PhaseView::LoadingConfig,
            Phase::CheckingPreferred { model, config } => PhaseView::CheckingPreferred {
                model: model@,
                config: config@,
            },
            Phase::SavingRejected { model } => PhaseView::SavingRejected { model: model@ },
            Phase::ListingModels => PhaseView::ListingModels,
            Phase::Probing { models, next, candidates } => PhaseView::Probing {
                models: models.deep_view(),
                next: *next as int,
                candidates: candidates.deep_view(),
            },
            Phase::Picking { candidates } => PhaseView::Picking {
                candidates: candidates.deep_view(),
            },
            Phase::Finished => PhaseView::Finished,
        }
    }
}

impl View for ModelSelection {
    type V = SelectionView;

    closed spec fn view(&self) -> SelectionView {
        SelectionView { non_interactive: self.non_interactive, rules: self.rules, phase: self.phase@ }
    }
}

// ---------------------------------------------------------------- the protocol

/// The capability a model must report to describe images.
pub open spec fn vision_capability() -> Seq<char> {
    "vision"@
}

/// A model reporting these capabilities can describe images.
pub open spec fn has_vision(capabilities: Seq<Seq<char>>) -> bool {
    capabilities.contains(vision_capability())
}

/// The model whose capabilities decide about listed model `name`.
pub open spec fn probe_target(rules: SelectionRules, name: Seq<char>) -> Seq<char> {
    match rules {
        SelectionRules::Command => name,
        SelectionRules::Standalone => "gemma3:27b"@,
    }
}

/// How the failure of probing model `name` is reported.
pub open spec fn probe_failure_context(rules: SelectionRules, name: Seq<char>) -> Option<Seq<char>> {
    match rules {
        SelectionRules::Command => Some("Failed to get model info for "@ + name),
        SelectionRules::Standalone => None,
    }
}

impl SelectionView {
    /// The phase is one that a selection can be in.
    pub open spec fn well_formed(self) -> bool {
        match self.phase {
            PhaseView::Probing { models, next, .. } => 0 <= next < models.len(),
            _ => true,
        }
    }

    pub open spec fn with_phase(self, phase: PhaseView) -> SelectionView {
        SelectionView { phase, ..self }
    }

    /// The user may not be asked to pick a model.
    pub open spec fn must_not_prompt(self) -> bool {
        self.non_interactive && self.rules == SelectionRules::Command
    }
}

pub open spec fn finish(s: SelectionView, r: Result<Seq<char>, ErrorView>) -> (SelectionView, ActionView) {
    (s.with_phase(PhaseView::Finished), ActionView::Finish(r))
}

pub open spec fn outside(s: SelectionView, message: Seq<char>) -> (SelectionView, ActionView) {
    finish(s, Err(ErrorView::Outside { context: None, message }))
}

/// After the probe of `models[next]`, with the candidates found so far.
pub open spec fn after_probe(
    s: SelectionView,
    models: Seq<Seq<char>>,
    next: int,
    candidates: Seq<Seq<char>>,
) -> (SelectionView, ActionView) {
    if next + 1 < models.len() {
        (
            s.with_phase(PhaseView::Probing { models, next: next + 1, candidates }),
            ActionView::ShowModelInfo(probe_target(s.rules, models[next + 1])),
        )
    } else if candidates.len() == 0 {
        finish(s, Err(ErrorView::NoVisionModels))
    } else {
        (s.with_phase(PhaseView::Picking { candidates }), ActionView::Pick(candidates))
    }
}

/// The selection when the caller passes `arg_model` (the model named on the
/// command line, if any).
pub open spec fn initial(
    arg_model: Option<Seq<char>>,
    non_interactive: bool,
    rules: SelectionRules,
) -> (SelectionView, ActionView) {
    let s = SelectionView { non_interactive, rules, phase: PhaseView::Finished };
    match arg_model {
        Some(m) => (
            s.with_phase(PhaseView::CheckingArgModel { model: m }),
            ActionView::ShowModelInfo(m),
        ),
        None => (s.with_phase(PhaseView::LoadingConfig), ActionView::LoadConfig),
    }
}

/// One step of the selection: the next state and action after `e`.
pub open spec fn transition(s: SelectionView, e: EventView) -> (SelectionView, ActionView) {
    match s.phase {
        PhaseView::CheckingArgModel { model } => match e {
            EventView::ModelInfo { capabilities } => if has_vision(capabilities) {
                finish(s, Ok(model))
            } else {
                finish(s, Err(ErrorView::ArgModelLacksVision(model)))
            },
            EventView::CallFailed(m) => outside(s, m),
            _ => finish(s, Err(ErrorView::UnexpectedEvent)),
        },
        PhaseView::LoadingConfig => match e {
            EventView::ConfigLoaded(config) => match config.preferred_vision_model {
                Some(m) => (
                    s.with_phase(PhaseView::CheckingPreferred { model: m, config }),
                    ActionView::ShowModelInfo(m),
                ),
                None => if s.must_not_prompt() {
                    finish(s, Err(ErrorView::NoModelNonInteractive))
                } else {
                    (s.with_phase(PhaseView::ListingModels), ActionView::ListLocalModels)
                },
            },
            EventView::CallFailed(m) => outside(s, m),
            _ => finish(s, Err(ErrorView::UnexpectedEvent)),
        },
        PhaseView::CheckingPreferred { model, config } => match e {
            EventView::ModelInfo { capabilities } => if has_vision(capabilities) {
                finish(s, Ok(model))
            } else if s.rules == SelectionRules::Command {
                (
                    s.with_phase(PhaseView::SavingRejected { model }),
                    ActionView::SaveConfig(config.unset(ConfigKey::PreferredVisionModel)),
                )
            } else {
                finish(s, Err(ErrorView::PreferredModelLacksVision(model)))
            },
            EventView::CallFailed(m) => outside(s, m),
            _ => finish(s, Err(ErrorView::UnexpectedEvent)),
        },
        PhaseView::SavingRejected { model } => match e {
            EventView::ConfigSaved => finish(s, Err(ErrorView::PreferredModelLacksVision(model))),
            EventView::CallFailed(m) => outside(s, m),
            _ => finish(s, Err(ErrorView::UnexpectedEvent)),
        },
        PhaseView::ListingModels => match e {
            EventView::ModelsListed(models) => if models.len() == 0 {
                finish(s, Err(ErrorView::NoVisionModels))
            } else {
                (
                    s.with_phase(PhaseView::Probing { models, next: 0, candidates: seq![] }),
                    ActionView::ShowModelInfo(probe_target(s.rules, models[0])),
                )
            },
            EventView::CallFailed(m) => outside(s, m),
            _ => finish(s, Err(ErrorView::UnexpectedEvent)),
        },
        PhaseView::Probing { models, next, candidates } => match e {
            EventView::ModelInfo { capabilities } => after_probe(
                s,
                models,
                next,
                if has_vision(capabilities) {
                    candidates.push(models[next])
                } else {
                    candidates
                },
            ),
            EventView::CallFailed(m) => finish(
                s,
                Err(
                    ErrorView::Outside {
                        context: probe_failure_context(s.rules, models[next]),
                        message: m,
                    },
                ),
            ),
            _ => finish(s, Err(ErrorView::UnexpectedEvent)),
        },
        PhaseView::Picking { candidates } => match e {
            EventView::Picked(i) => if 0 <= i < candidates.len() {
                finish(s, Ok(candidates[i]))
            } else {
                finish(s, Err(ErrorView::UnexpectedEvent))
            },
            EventView::CallFailed(m) => outside(s, m),
            _ => finish(s, Err(ErrorView::UnexpectedEvent)),
        },
        PhaseView::Finished => finish(s, Err(ErrorView::UnexpectedEvent)),
    }
}

// ---------------------------------------------------------------- execution

/// Whether a model reporting `capabilities` can describe images.
pub fn supports_vision(capabilities: &Vec<String>) -> (r: bool)
    ensures
        r == has_vision(capabilities.deep_view()),
{
    let vision = String::from_str("vision");
    let mut i: usize = 0;
    while i < capabilities.len()
        invariant
            i <= capabilities.len(),
            vision@ == vision_capability(),
            forall|j: int| 0 <= j < i ==> capabilities.deep_view()[j] != vision_capability(),
        decreases capabilities.len() - i,
    {
        if capabilities[i] == vision {
            assert(capabilities.deep_view()[i as int] == vision_capability());
            return true;
        }
        i = i + 1;
    }
    proof {
        if capabilities.deep_view().contains(vision_capability()) {
            let k = choose|k: int|
                0 <= k < capabilities.deep_view().len() && capabilities.deep_view()[k]
                    == vision_capability();
            assert(capabilities.deep_view()[k] != vision_capability());
        }
    }
    false
}

/// The header shown above the list of models to pick from.
pub fn pick_header() -> (r: &'static str)
    ensures
        r@ == "Choose a model"@,
{
    "Choose a model"
}

fn probe_name(rules: SelectionRules, name: &String) -> (r: String)
    ensures
        r@ == probe_target(rules, name@),
{
    match rules {
        SelectionRules::Command => name.clone(),
        SelectionRules::Standalone => String::from_str("gemma3:27b"),
    }
}

fn probe_context(rules: SelectionRules, name: &String) -> (r: Option<String>)
    ensures
        crate::config::opt_view(r) == probe_failure_context(rules, name@),
{
    match rules {
        SelectionRules::Command => {
            let mut c = String::from_str("Failed to get model info for ");
            c.append(name.as_str());
            Some(c)
        },
        SelectionRules::Standalone => None,
    }
}

impl SelectionError {
    /// The message this error is reported with.
    pub fn message(&self) -> (r: String)
        ensures
            r@ == error_message(self@),
    {
        match self {
            SelectionError::ArgModelLacksVision(m) => {
                let mut r = String::from_str("Model passed in args does not support vision: ");
                r.append(m.as_str());
                r
            },
            SelectionError::PreferredModelLacksVision(m) => {
                let mut r = String::from_str("Preferred model does not support vision: ");
                r.append(m.as_str());
                r
            },
            SelectionError::NoModelNonInteractive => String::from_str(
                "No model specified and non-interactive mode is enabled",
            ),
            SelectionError::NoVisionModels => String::from_str("No models support vision"),
            SelectionError::Outside { context, message } => match context {
                Some(c) => c.clone(),
                None => message.clone(),
            },
            SelectionError::UnexpectedEvent => String::from_str(
                "Model selection received an unexpected event",
            ),
        }
    }
}

/// The message an error is reported with: for an outside failure, its
/// context where it has one, else the failure's own message.
pub open spec fn error_message(e: ErrorView) -> Seq<char> {
    match e {
        ErrorView::ArgModelLacksVision(m) => "Model passed in args does not support vision: "@ + m,
        ErrorView::PreferredModelLacksVision(m) => "Preferred model does not support vision: "@ + m,
        ErrorView::NoModelNonInteractive => "No model specified and non-interactive mode is enabled"@,
        ErrorView::NoVisionModels => "No models support vision"@,
        ErrorView::Outside { context, message } => match context {
            Some(c) => c,
            None => message,
        },
        ErrorView::UnexpectedEvent => "Model selection received an unexpected event"@,
    }
}

impl ModelSelection {
    #[verifier::type_invariant]
    spec fn inv(self) -> bool {
        self@.well_formed()
    }

    fn finished(non_interactive: bool, rules: SelectionRules, r: Result<String, SelectionError>) -> (res: (
        ModelSelection,
        SelectionAction,
    ))
        ensures
            res.0@ == (SelectionView { non_interactive, rules, phase: PhaseView::Finished }),
            res.1@ == ActionView::Finish(
                match r {
                    Ok(m) => Ok(m@),
                    Err(e) => Err(e@),
                },
            ),
    {
        (
            ModelSelection { non_interactive, rules, phase: Phase::Finished },
            SelectionAction::Finish(r),
        )
    }

    /// Starts a selection. `arg_model` is the model named on the command
    /// line; `non_interactive` forbids prompting the user.
    pub fn start(arg_model: Option<String>, non_interactive: bool, rules: SelectionRules) -> (r: (
        ModelSelection,
        SelectionAction,
    ))
        ensures
            (r.0@, r.1@) == initial(crate::config::opt_view(arg_model), non_interactive, rules),
            r.0@.well_formed(),
    {
        match arg_model {
            Some(m) => {
                let action = SelectionAction::ShowModelInfo(m.clone());
                (
                    ModelSelection {
                        non_interactive,
                        rules,
                        phase: Phase::CheckingArgModel { model: m },
                    },
                    action,
                )
            },
            None => (
                ModelSelection { non_interactive, rules, phase: Phase::LoadingConfig },
                SelectionAction::LoadConfig,
            ),
        }
    }

    fn after_probe_exec(
        non_interactive: bool,
        rules: SelectionRules,
        models: Vec<String>,
        next: usize,
        candidates: Vec<String>,
    ) -> (r: (ModelSelection, SelectionAction))
        requires
            next < models.len(),
        ensures
            (r.0@, r.1@) == after_probe(
                SelectionView { non_interactive, rules, phase: PhaseView::Finished },
                models.deep_view(),
                next as int,
                candidates.deep_view(),
            ),
    {
        if next + 1 < models.len() {
            let target = probe_name(rules, &models[next + 1]);
            (
                ModelSelection {
                    non_interactive,
                    rules,
                    phase: Phase::Probing { models, next: next + 1, candidates },
                },
                SelectionAction::ShowModelInfo(target),
            )
        } else if candidates.len() == 0 {
            Self::finished(non_interactive, rules, Err(SelectionError::NoVisionModels))
        } else {
            let shown = candidates.clone();
            proof {
                assert(shown.deep_view() =~= candidates.deep_view());
            }
            (
                ModelSelection { non_interactive, rules, phase: Phase::Picking { candidates } },
                SelectionAction::Pick(shown),
            )
        }
    }

    /// Advances the selection by the outcome of the last action.
    pub fn step(self, event: SelectionEvent) -> (r: (ModelSelection, SelectionAction))
        ensures
            (r.0@, r.1@) == transition(self@, event@),
            r.0@.well_formed(),
    {
        proof {
            use_type_invariant(&self);
        }
        let ModelSelection { non_interactive, rules, phase } = self;
        let unexpected = Err(SelectionError::UnexpectedEvent);
        match phase {
            Phase::CheckingArgModel { model } => match event {
                SelectionEvent::ModelInfo { capabilities } => {
                    if supports_vision(&capabilities) {
                        Self::finished(non_interactive, rules, Ok(model))
                    } else {
                        Self::finished(
                            non_interactive,
                            rules,
                            Err(SelectionError::ArgModelLacksVision(model)),
                        )
                    }
                },
                SelectionEvent::CallFailed(m) => Self::finished(
                    non_interactive,
                    rules,
                    Err(SelectionError::Outside { context: None, message: m }),
                ),
                _ => Self::finished(non_interactive, rules, unexpected),
            },
            Phase::LoadingConfig => match event {
                SelectionEvent::ConfigLoaded(config) => {
                    match config.preferred_vision_model.clone() {
                        Some(m) => {
                            let action = SelectionAction::ShowModelInfo(m.clone());
                            (
                                ModelSelection {
                                    non_interactive,
                                    rules,
                                    phase: Phase::CheckingPreferred { model: m, config },
                                },
                                action,
                            )
                        },
                        None => {
                            if non_interactive && rules == SelectionRules::Command {
                                Self::finished(
                                    non_interactive,
                                    rules,
                                    Err(SelectionError::NoModelNonInteractive),
                                )
                            } else {
                                (
                                    ModelSelection {
                                        non_interactive,
                                        rules,
                                        phase: Phase::ListingModels,
                                    },
                                    SelectionAction::ListLocalModels,
                                )
                            }
                        },
                    }
                },
                SelectionEvent::CallFailed(m) => Self::finished(
                    non_interactive,
                    rules,
                    Err(SelectionError::Outside { context: None, message: m }),
                ),
                _ => Self::finished(non_interactive, rules, unexpected),
            },
            Phase::CheckingPreferred { model, config } => match event {
                SelectionEvent::ModelInfo { capabilities } => {
                    if supports_vision(&capabilities) {
                        Self::finished(non_interactive, rules, Ok(model))
                    } else if rules == SelectionRules::Command {
                        let mut cleared = config;
                        cleared.preferred_vision_model = None;
                        (
                            ModelSelection {
                                non_interactive,
                                rules,
                                phase: Phase::SavingRejected { model },
                            },
                            SelectionAction::SaveConfig(cleared),
                        )
                    } else {
                        Self::finished(
                            non_interactive,
                            rules,
                            Err(SelectionError::PreferredModelLacksVision(model)),
                        )
                    }
                },
                SelectionEvent::CallFailed(m) => Self::finished(
                    non_interactive,
                    rules,
                    Err(SelectionError::Outside { context: None, message: m }),
                ),
                _ => Self::finished(non_interactive, rules, unexpected),
            },
            Phase::SavingRejected { model } => match event {
                SelectionEvent::ConfigSaved => Self::finished(
                    non_interactive,
                    rules,
                    Err(SelectionError::PreferredModelLacksVision(model)),
                ),
                SelectionEvent::CallFailed(m) => Self::finished(
                    non_interactive,
                    rules,
                    Err(SelectionError::Outside { context: None, message: m }),
                ),
                _ => Self::finished(non_interactive, rules, unexpected),
            },
            Phase::ListingModels => match event {
                SelectionEvent::ModelsListed(models) => {
                    if models.len() == 0 {
                        Self::finished(non_interactive, rules, Err(SelectionError::NoVisionModels))
                    } else {
                        let target = probe_name(rules, &models[0]);
                        let candidates: Vec<String> = Vec::new();
                        proof {
                            assert(candidates.deep_view() =~= Seq::<Seq<char>>::empty());
                        }
                        (
                            ModelSelection {
                                non_interactive,
                                rules,
                                phase: Phase::Probing { models, next: 0, candidates },
                            },
                            SelectionAction::ShowModelInfo(target),
                        )
                    }
                },
                SelectionEvent::CallFailed(m) => Self::finished(
                    non_interactive,
                    rules,
                    Err(SelectionError::Outside { context: None, message: m }),
                ),
                _ => Self::finished(non_interactive, rules, unexpected),
            },
            Phase::Probing { models, next, candidates } => match event {
                SelectionEvent::ModelInfo { capabilities } => {
                    let mut candidates = candidates;
                    if supports_vision(&capabilities) {
                        let ghost before = candidates.deep_view();
                        candidates.push(models[next].clone());
                        proof {
                            assert(candidates.deep_view() =~= before.push(
                                models.deep_view()[next as int],
                            ));
                        }
                    }
                    Self::after_probe_exec(non_interactive, rules, models, next, candidates)
                },
                SelectionEvent::CallFailed(m) => {
                    let context = probe_context(rules, &models[next]);
                    Self::finished(
                        non_interactive,
                        rules,
                        Err(SelectionError::Outside { context, message: m }),
                    )
                },
                _ => Self::finished(non_interactive, rules, unexpected),
            },
            Phase::Picking { candidates } => match event {
                SelectionEvent::Picked(i) => {
                    if i < candidates.len() {
                        let chosen = candidates[i].clone();
                        Self::finished(non_interactive, rules, Ok(chosen))
                    } else {
                        Self::finished(non_interactive, rules, unexpected)
                    }
                },
                SelectionEvent::CallFailed(m) => Self::finished(
                    non_interactive,
                    rules,
                    Err(SelectionError::Outside { context: None, message: m }),
                ),
                _ => Self::finished(non_interactive, rules, unexpected),
            },
            Phase::Finished => Self::finished(non_interactive, rules, unexpected),
        }
    }
}

// ---------------------------------------------------------------- laws

/// The states and actions of a selection driven by `events`: event `i`
/// answers the action before it.
pub open spec fn run(s: SelectionView, events: Seq<EventView>) -> (SelectionView, Seq<ActionView>)
    decreases events.len(),
{
    if events.len() == 0 {
        (s, seq![])
    } else {
        let prev = run(s, events.drop_last());
        let next = transition(prev.0, events.last());
        (next.0, prev.1.push(next.1))
    }
}

/// All actions of a selection started with `arg_model` and driven by
/// `events`: the first action of `start`, then one per event.
pub open spec fn actions_of(
    arg_model: Option<Seq<char>>,
    non_interactive: bool,
    rules: SelectionRules,
    events: Seq<EventView>,
) -> Seq<ActionView> {
    let init = initial(arg_model, non_interactive, rules);
    seq![init.1] + run(init.0, events).1
}

/// The state reached by a selection started with `arg_model` and driven by `events`.
pub open spec fn state_of(
    arg_model: Option<Seq<char>>,
    non_interactive: bool,
    rules: SelectionRules,
    events: Seq<EventView>,
) -> SelectionView {
    let init = initial(arg_model, non_interactive, rules);
    run(init.0, events).0
}

/// Action `k` asked about model `m` and the answer reported vision.
pub open spec fn probe_ok(actions: Seq<ActionView>, events: Seq<EventView>, k: int, m: Seq<char>) -> bool {
    &&& 0 <= k < events.len()
    &&& k < actions.len()
    &&& actions[k] == ActionView::ShowModelInfo(m)
    &&& events[k] matches EventView::ModelInfo { capabilities } && has_vision(capabilities)
}

/// Before action `bound`, some answer reported vision for model `m`.
pub open spec fn vouched_before(
    actions: Seq<ActionView>,
    events: Seq<EventView>,
    m: Seq<char>,
    bound: int,
) -> bool {
    exists|k: int| #![trigger probe_ok(actions, events, k, m)] k < bound && probe_ok(actions, events, k, m)
}

pub open spec fn run_inv(s: SelectionView, actions: Seq<ActionView>, events: Seq<EventView>) -> bool {
    &&& s.rules == SelectionRules::Command
    &&& s.well_formed()
    &&& actions.len() == events.len() + 1
    &&& forall|i: int, m: Seq<char>|
        #![trigger vouched_before(actions, events, m, i)]
        0 <= i < actions.len() && actions[i] == ActionView::Finish(Ok(m)) ==> vouched_before(
            actions,
            events,
            m,
            i,
        )
    &&& match s.phase {
        PhaseView::CheckingArgModel { model } => actions.last() == ActionView::ShowModelInfo(model),
        PhaseView::CheckingPreferred { model, .. } => actions.last() == ActionView::ShowModelInfo(
            model,
        ),
        PhaseView::Probing { models, next, candidates } => {
            &&& actions.last() == ActionView::ShowModelInfo(models[next])
            &&& forall|c: Seq<char>|
                #![trigger vouched_before(actions, events, c, events.len() as int)]
                candidates.contains(c) ==> vouched_before(actions, events, c, events.len() as int)
        },
        PhaseView::Picking { candidates } => forall|c: Seq<char>|
            #![trigger vouched_before(actions, events, c, events.len() as int)]
            candidates.contains(c) ==> vouched_before(actions, events, c, events.len() as int),
        _ => true,
    }
}

proof fn lemma_vouched_extends(
    actions: Seq<ActionView>,
    events: Seq<EventView>,
    a: ActionView,
    e: EventView,
    m: Seq<char>,
    bound: int,
)
    requires
        actions.len() == events.len() + 1,
        bound <= events.len(),
        vouched_before(actions, events, m, bound),
    ensures
        vouched_before(actions.push(a), events.push(e), m, bound),
{
    let k = choose|k: int| #![trigger probe_ok(actions, events, k, m)] k < bound && probe_ok(actions, events, k, m);
    assert(actions.push(a)[k] == actions[k]);
    assert(events.push(e)[k] == events[k]);
    assert(probe_ok(actions.push(a), events.push(e), k, m));
}

proof fn lemma_step_inv(s: SelectionView, actions: Seq<ActionView>, events: Seq<EventView>, e: EventView)
    requires
        run_inv(s, actions, events),
    ensures
        run_inv(
            transition(s, e).0,
            actions.push(transition(s, e).1),
            events.push(e),
        ),
{
    let t = transition(s, e);
    let a2 = actions.push(t.1);
    let e2 = events.push(e);
    let n = events.len() as int;
    assert(a2[n] == actions.last());
    assert(e2[n] == e);
    // everything vouched before stays vouched
    assert forall|i: int, m: Seq<char>|
        #![trigger vouched_before(a2, e2, m, i)]
        0 <= i < a2.len() && a2[i] == ActionView::Finish(Ok(m)) implies vouched_before(
        a2,
        e2,
        m,
        i,
    ) by {
        if i < actions.len() {
            assert(a2[i] == actions[i]);
            assert(vouched_before(actions, events, m, i));
            lemma_vouched_extends(actions, events, t.1, e, m, i);
        } else {
            assert(i == n + 1);
            assert(t.1 == ActionView::Finish(Ok(m)));
            match s.phase {
                PhaseView::CheckingArgModel { model } => {
                    assert(probe_ok(a2, e2, n, m));
                },
                PhaseView::CheckingPreferred { model, .. } => {
                    assert(probe_ok(a2, e2, n, m));
                },
                PhaseView::Picking { candidates } => {
                    let j = e->Picked_0;
                    assert(candidates[j] == m);
                    assert(candidates.contains(m));
                    assert(vouched_before(actions, events, m, n));
                    lemma_vouched_extends(actions, events, t.1, e, m, n);
                },
                PhaseView::Probing { models, next, candidates } => {
                    let c2 = if e matches EventView::ModelInfo { capabilities } && has_vision(capabilities) {
                        candidates.push(models[next])
                    } else {
                        candidates
                    };
                    assert(t == after_probe(s, models, next, c2));
                },
                _ => {},
            }
        }
    }
    match s.phase {
        PhaseView::Probing { models, next, candidates } => {
            if let EventView::ModelInfo { capabilities } = e {
                let c2 = if has_vision(capabilities) {
                    candidates.push(models[next])
                } else {
                    candidates
                };
                assert forall|c: Seq<char>|
                    #![trigger vouched_before(a2, e2, c, e2.len() as int)]
                    c2.contains(c) implies vouched_before(a2, e2, c, e2.len() as int) by {
                    if candidates.contains(c) {
                        assert(vouched_before(actions, events, c, n));
                        lemma_vouched_extends(actions, events, t.1, e, c, n);
                        assert(vouched_before(a2, e2, c, n));
                        let k = choose|k: int| #![trigger probe_ok(a2, e2, k, c)] k < n && probe_ok(a2, e2, k, c);
                        assert(probe_ok(a2, e2, k, c));
                    } else {
                        let j = choose|j: int| 0 <= j < c2.len() && c2[j] == c;
                        assert(j == candidates.len());
                        assert(c == models[next]);
                        assert(probe_ok(a2, e2, n, c));
                    }
                }
            }
        },
        PhaseView::Picking { candidates } => {},
        _ => {},
    }
}

proof fn lemma_run_inv(arg_model: Option<Seq<char>>, non_interactive: bool, events: Seq<EventView>)
    ensures
        run_inv(
            state_of(arg_model, non_interactive, SelectionRules::Command, events),
            actions_of(arg_model, non_interactive, SelectionRules::Command, events),
            events,
        ),
    decreases events.len(),
{
    let init = initial(arg_model, non_interactive, SelectionRules::Command);
    if events.len() == 0 {
        assert(actions_of(arg_model, non_interactive, SelectionRules::Command, events) =~= seq![init.1]);
    } else {
        let prev = events.drop_last();
        lemma_run_inv(arg_model, non_interactive, prev);
        lemma_step_inv(
            state_of(arg_model, non_interactive, SelectionRules::Command, prev),
            actions_of(arg_model, non_interactive, SelectionRules::Command, prev),
            prev,
            events.last(),
        );
        assert(prev.push(events.last()) =~= events);
        assert(actions_of(arg_model, non_interactive, SelectionRules::Command, events)
            =~= actions_of(arg_model, non_interactive, SelectionRules::Command, prev).push(
            transition(state_of(arg_model, non_interactive, SelectionRules::Command, prev), events.last()).1,
        ));
    }
}

/// Whatever the answers, the command only ever chooses a model after the
/// model server reported, for that very model, that it supports vision.
pub proof fn law_chosen_model_reported_vision(
    arg_model: Option<Seq<char>>,
    non_interactive: bool,
    events: Seq<EventView>,
    i: int,
    m: Seq<char>,
)
    requires
        0 <= i < actions_of(arg_model, non_interactive, SelectionRules::Command, events).len(),
        actions_of(arg_model, non_interactive, SelectionRules::Command, events)[i]
            == ActionView::Finish(Ok(m)),
    ensures
        exists|k: int|
            0 <= k < i && actions_of(arg_model, non_interactive, SelectionRules::Command, events)[k]
                == ActionView::ShowModelInfo(m) && (events[k] matches EventView::ModelInfo {
                capabilities,
            } && has_vision(capabilities)),
{
    lemma_run_inv(arg_model, non_interactive, events);
    let actions = actions_of(arg_model, non_interactive, SelectionRules::Command, events);
    assert(vouched_before(actions, events, m, i));
    let k = choose|k: int| #![trigger probe_ok(actions, events, k, m)] k < i && probe_ok(actions, events, k, m);
    assert(probe_ok(actions, events, k, m));
}


/// A model named on the command line is the only model the selection can
/// choose: its check ends the selection, with that model or an error.
pub proof fn law_arg_model_decides(
    arg: Seq<char>,
    non_interactive: bool,
    rules: SelectionRules,
    e: EventView,
)
    ensures
        initial(Some(arg), non_interactive, rules).1 == ActionView::ShowModelInfo(arg),
        transition(initial(Some(arg), non_interactive, rules).0, e).0.phase is Finished,
        transition(initial(Some(arg), non_interactive, rules).0, e).1 is Finish,
        forall|m: Seq<char>|
            transition(initial(Some(arg), non_interactive, rules).0, e).1 == ActionView::Finish(
                Ok(m),
            ) ==> m == arg,
{
}

/// A preferred model that lacks vision is removed from the stored
/// configuration (nothing else in it changes) before the command fails; the
/// standalone tool fails at once and leaves the configuration alone.
pub proof fn law_rejected_preference_is_cleared(
    s: SelectionView,
    model: Seq<char>,
    config: DescribePictureConfigView,
    capabilities: Seq<Seq<char>>,
)
    requires
        s.phase == (PhaseView::CheckingPreferred { model, config }),
        !has_vision(capabilities),
    ensures
        s.rules == SelectionRules::Command ==> {
            let t = transition(s, EventView::ModelInfo { capabilities });
            &&& t.1 == ActionView::SaveConfig(config.unset(ConfigKey::PreferredVisionModel))
            &&& config.unset(ConfigKey::PreferredVisionModel).get(ConfigKey::PreferredVisionModel) is None
            &&& transition(t.0, EventView::ConfigSaved).1 == ActionView::Finish(
                Err(ErrorView::PreferredModelLacksVision(model)),
            )
        },
        s.rules == SelectionRules::Standalone ==> transition(
            s,
            EventView::ModelInfo { capabilities },
        ).1 == ActionView::Finish(Err(ErrorView::PreferredModelLacksVision(model))),
{
}

/// No prompt is possible from here: a selection that must not prompt never
/// reaches the listing, probing or picking phases.
pub open spec fn prompt_guard(s: SelectionView) -> bool {
    s.must_not_prompt() ==> !(s.phase is ListingModels || s.phase is Probing || s.phase is Picking)
}

proof fn lemma_guard_step(s: SelectionView, e: EventView)
    requires
        prompt_guard(s),
    ensures
        prompt_guard(transition(s, e).0),
        transition(s, e).0.rules == s.rules,
        transition(s, e).0.non_interactive == s.non_interactive,
        s.must_not_prompt() ==> !(transition(s, e).1 is Pick) && !(transition(s, e).1 is ListLocalModels),
{
}

proof fn lemma_guard_run(arg_model: Option<Seq<char>>, rules: SelectionRules, events: Seq<EventView>)
    ensures
        prompt_guard(state_of(arg_model, true, rules, events)),
        state_of(arg_model, true, rules, events).rules == rules,
        state_of(arg_model, true, rules, events).non_interactive,
        rules == SelectionRules::Command ==> forall|i: int|
            0 <= i < actions_of(arg_model, true, rules, events).len() ==> !(actions_of(
                arg_model,
                true,
                rules,
                events,
            )[i] is Pick) && !(actions_of(arg_model, true, rules, events)[i] is ListLocalModels),
    decreases events.len(),
{
    if events.len() > 0 {
        let prev = events.drop_last();
        lemma_guard_run(arg_model, rules, prev);
        lemma_guard_step(state_of(arg_model, true, rules, prev), events.last());
        assert(prev.push(events.last()) =~= events);
        assert(actions_of(arg_model, true, rules, events) =~= actions_of(arg_model, true, rules, prev).push(
            transition(state_of(arg_model, true, rules, prev), events.last()).1,
        ));
    } else {
        assert(actions_of(arg_model, true, rules, events) =~= seq![initial(arg_model, true, rules).1]);
    }
}

/// In non-interactive mode the command never lists models to offer and never
/// asks the user to pick one, whatever the answers it gets.
pub proof fn law_non_interactive_never_prompts(arg_model: Option<Seq<char>>, events: Seq<EventView>, i: int)
    requires
        0 <= i < actions_of(arg_model, true, SelectionRules::Command, events).len(),
    ensures
        !(actions_of(arg_model, true, SelectionRules::Command, events)[i] is Pick),
        !(actions_of(arg_model, true, SelectionRules::Command, events)[i] is ListLocalModels),
{
    lemma_guard_run(arg_model, SelectionRules::Command, events);
}

/// Each step keeps the selection well formed.
pub proof fn law_step_keeps_well_formed(s: SelectionView, e: EventView)
    requires
        s.well_formed(),
    ensures
        transition(s, e).0.well_formed(),
{
}


/// Under either rules, a model named on the command line is chosen exactly
/// when the server reports vision for it; otherwise the selection fails
/// naming that model.
pub proof fn law_arg_model_chosen_iff_vision(
    arg: Seq<char>,
    non_interactive: bool,
    rules: SelectionRules,
    capabilities: Seq<Seq<char>>,
)
    ensures
        has_vision(capabilities) ==> transition(
            initial(Some(arg), non_interactive, rules).0,
            EventView::ModelInfo { capabilities },
        ).1 == ActionView::Finish(Ok(arg)),
        !has_vision(capabilities) ==> transition(
            initial(Some(arg), non_interactive, rules).0,
            EventView::ModelInfo { capabilities },
        ).1 == ActionView::Finish(Err(ErrorView::ArgModelLacksVision(arg))),
{
}

/// Under either rules and in either mode, a configuration that names a
/// preferred model makes the selection ask the server about exactly that
/// model; "no model specified" is reported only when neither the command
/// line nor the configuration names one, and only when the user may not be
/// asked.
pub proof fn law_preferred_model_is_checked(
    non_interactive: bool,
    rules: SelectionRules,
    config: DescribePictureConfigView,
    s: SelectionView,
    e: EventView,
)
    ensures
        config.preferred_vision_model matches Some(m) ==> transition(
            initial(None, non_interactive, rules).0,
            EventView::ConfigLoaded(config),
        ).1 == ActionView::ShowModelInfo(m),
        transition(s, e).1 == ActionView::Finish(Err(ErrorView::NoModelNonInteractive)) ==> {
            &&& s.phase is LoadingConfig
            &&& e matches EventView::ConfigLoaded(c) && c.preferred_vision_model is None
            &&& s.non_interactive
        },
{
}

/// The listed models whose capabilities (`capabilities[i]` for `models[i]`)
/// report vision, in the listed order.
pub open spec fn listed_with_vision(models: Seq<Seq<char>>, capabilities: Seq<Seq<Seq<char>>>) -> Seq<Seq<char>>
    decreases models.len(),
{
    if models.len() == 0 {
        seq![]
    } else {
        let rest = listed_with_vision(models.drop_last(), capabilities.take(models.len() - 1));
        if has_vision(capabilities[models.len() - 1]) {
            rest.push(models.last())
        } else {
            rest
        }
    }
}

/// The events of a listing: the list of models, then one answer per probe.
pub open spec fn listing_events(models: Seq<Seq<char>>, capabilities: Seq<Seq<Seq<char>>>, k: int) -> Seq<EventView> {
    seq![EventView::ModelsListed(models)] + Seq::new(
        k as nat,
        |i: int| EventView::ModelInfo { capabilities: capabilities[i] },
    )
}

proof fn lemma_listed_take(models: Seq<Seq<char>>, capabilities: Seq<Seq<Seq<char>>>, k: int)
    requires
        0 <= k < models.len(),
        capabilities.len() == models.len(),
    ensures
        listed_with_vision(models.take(k + 1), capabilities.take(k + 1)) == if has_vision(capabilities[k]) {
            listed_with_vision(models.take(k), capabilities.take(k)).push(models[k])
        } else {
            listed_with_vision(models.take(k), capabilities.take(k))
        },
{
    assert(models.take(k + 1).drop_last() =~= models.take(k));
    assert(capabilities.take(k + 1).take(k) =~= capabilities.take(k));
    assert(models.take(k + 1).last() == models[k]);
    assert(capabilities.take(k + 1)[k] == capabilities[k]);
}

proof fn lemma_probing(s: SelectionView, models: Seq<Seq<char>>, capabilities: Seq<Seq<Seq<char>>>, k: int)
    requires
        s.phase is ListingModels,
        models.len() > 0,
        capabilities.len() == models.len(),
        0 <= k < models.len(),
    ensures
        run(s, listing_events(models, capabilities, k)).0 == s.with_phase(
            PhaseView::Probing {
                models,
                next: k,
                candidates: listed_with_vision(models.take(k), capabilities.take(k)),
            },
        ),
    decreases k,
{
    let ev = listing_events(models, capabilities, k);
    if k == 0 {
        assert(ev =~= seq![EventView::ModelsListed(models)]);
        assert(ev.drop_last() =~= Seq::<EventView>::empty());
        assert(models.take(0) =~= Seq::<Seq<char>>::empty());
        assert(listed_with_vision(models.take(0), capabilities.take(0)) =~= Seq::<Seq<char>>::empty());
        assert(run(s, ev.drop_last()) == (s, Seq::<ActionView>::empty()));
        assert(ev.last() == EventView::ModelsListed(models));
        assert(run(s, ev).0 == transition(s, EventView::ModelsListed(models)).0);
    } else {
        lemma_probing(s, models, capabilities, k - 1);
        assert(ev.drop_last() =~= listing_events(models, capabilities, k - 1));
        assert(ev.last() == EventView::ModelInfo { capabilities: capabilities[k - 1] });
        lemma_listed_take(models, capabilities, k - 1);
        let prev = run(s, ev.drop_last()).0;
        assert(run(s, ev).0 == transition(prev, ev.last()).0);
    }
}

/// Under either rules, after the listing and one answer per listed model,
/// the user is offered exactly the listed models whose answer reported
/// vision, by their listed names and in the listed order (the selection
/// fails when there is none), and picking entry `i` chooses that entry.
pub proof fn law_pick_offers_listed_vision_models(
    s: SelectionView,
    models: Seq<Seq<char>>,
    capabilities: Seq<Seq<Seq<char>>>,
    i: int,
)
    requires
        s.phase is ListingModels,
        models.len() > 0,
        capabilities.len() == models.len(),
    ensures
        ({
            let r = run(s, listing_events(models, capabilities, models.len() as int));
            let offered = listed_with_vision(models, capabilities);
            &&& offered.len() > 0 ==> r.1.last() == ActionView::Pick(offered)
            &&& offered.len() > 0 && 0 <= i < offered.len() ==> transition(
                r.0,
                EventView::Picked(i),
            ).1 == ActionView::Finish(Ok(offered[i]))
            &&& offered.len() == 0 ==> r.1.last() == ActionView::Finish(Err(ErrorView::NoVisionModels))
        }),
{
    let n = models.len() as int;
    let ev = listing_events(models, capabilities, n);
    lemma_probing(s, models, capabilities, n - 1);
    assert(ev.drop_last() =~= listing_events(models, capabilities, n - 1));
    assert(ev.last() == EventView::ModelInfo { capabilities: capabilities[n - 1] });
    lemma_listed_take(models, capabilities, n - 1);
    assert(models.take(n) =~= models);
    assert(capabilities.take(n) =~= capabilities);
}

} // verus!
