//! Conversations of one TUI surface: selecting, starting, restoring, prompting.
//!
//! The model holds no transcript. Where something outside has to answer before a
//! prompt can go on, the model returns a [`PromptStep`] that carries the prompt and
//! says what to do and where to hand the answer.
use vstd::prelude::*;
use vstd::string::*;
use crate::context::{AIConversation, AppContext};
use crate::events::{
    AgentViewEntryOrigin, BlocklistAIHistoryEvent, ConversationStatus, ConversationStatusUpdate,
    ConversationSurfaceEvent, EnterAgentViewError, HistoryChange,
};
use crate::ids::{AIConversationId, EntityId};
use crate::surface::{
    ConversationSurfaceModel, NewConversationPlan, NewConversationStart, SurfaceEffect,
    SurfaceState,
};

verus! {

/// Events emitted by a TUI conversation model for presentation layers.
#[derive(Debug, PartialEq, Eq)]
#[allow(inconsistent_fields)]
pub enum TuiConversationModelEvent {
    SelectedConversationChanged { conversation_id: Option<AIConversationId> },
    ConversationStarted { conversation_id: AIConversationId },
    ConversationUpdated { conversation_id: AIConversationId },
    ConversationStatusChanged {
        conversation_id: AIConversationId,
        status: ConversationStatus,
        update: ConversationStatusUpdate,
    },
    Error { message: String },
}

/// What a TUI conversation model wants done outside.
#[derive(Debug, PartialEq, Eq)]
pub enum TuiEffect {
    /// Something that the surface wants done.
    Surface(SurfaceEffect),
    /// Deliver an event to whoever listens to the model.
    Emit(TuiConversationModelEvent),
    /// Send a prompt to the agent in a conversation.
    SendUserQuery { prompt: String, conversation_id: AIConversationId },
}

/// Where a conversation that is to be restored comes from.
#[derive(Debug, PartialEq, Eq)]
pub enum RestoreSource {
    /// The history has it loaded, though not live in this surface.
    Loaded,
    /// It was fetched just now.
    Fetched(AIConversation),
}

/// What has to happen next for a prompt. The effects so far are to be carried out
/// first. What comes of a step goes to [`TuiConversationModel::resume_prompt`].
#[derive(Debug, PartialEq, Eq)]
pub enum PromptStep {
    /// Nothing.
    Finished,
    /// Get a new conversation as the plan says.
    StartConversation { plan: NewConversationPlan, prompt: String },
    /// Nothing but the effects, which open the Agent View.
    SendPrompt { prompt: String },
    /// Make a conversation live in a surface.
    RestoreConversation {
        terminal_surface_id: EntityId,
        conversation_id: AIConversationId,
        source: RestoreSource,
        prompt: String,
    },
    /// Fetch a conversation.
    LoadConversation { conversation_id: AIConversationId, prompt: String },
}

/// What came of a [`PromptStep`], with the prompt that it carried.
#[derive(Debug, PartialEq, Eq)]
pub enum PromptAnswer {
    /// A new conversation was asked for.
    Started { prompt: String, start: NewConversationStart },
    /// The Agent View was asked to open.
    Opened { prompt: String },
    /// A conversation was made live.
    Restored { prompt: String, conversation_id: AIConversationId },
    /// A conversation was fetched.
    Fetched {
        prompt: String,
        conversation_id: AIConversationId,
        fetched: Option<CloudConversationData>,
    },
}

/// What fetching a conversation found.
#[derive(Debug, PartialEq, Eq)]
pub enum CloudConversationData {
    /// A conversation with this application's agent.
    Oz(AIConversation),
    /// A conversation with some other agent, which cannot be restored here.
    Other,
}

/// A [`TuiConversationModelEvent`], as contracts speak of it.
pub enum TuiEventView {
    SelectedConversationChanged { selected: Option<AIConversationId> },
    ConversationStarted { conversation_id: AIConversationId },
    ConversationUpdated { conversation_id: AIConversationId },
    ConversationStatusChanged {
        conversation_id: AIConversationId,
        is_in_progress: bool,
        label: Seq<char>,
        update: ConversationStatusUpdate,
    },
    Error { message: Seq<char> },
}

/// A [`TuiEffect`], as contracts speak of it.
pub enum TuiEffectView {
    Surface(SurfaceEffect),
    Emit(TuiEventView),
    SendUserQuery { prompt: Seq<char>, conversation_id: AIConversationId },
}

/// A [`PromptStep`], as contracts speak of it.
pub enum PromptStepView {
    Finished,
    StartConversation { plan: NewConversationPlan, prompt: Seq<char> },
    SendPrompt { prompt: Seq<char> },
    RestoreConversation {
        terminal_surface_id: EntityId,
        conversation_id: AIConversationId,
        source: RestoreSource,
        prompt: Seq<char>,
    },
    LoadConversation { conversation_id: AIConversationId, prompt: Seq<char> },
}

impl View for TuiConversationModelEvent {
    type V = TuiEventView;

    open spec fn view(&self) -> TuiEventView {
        match *self {
            TuiConversationModelEvent::SelectedConversationChanged { conversation_id } => {
                TuiEventView::SelectedConversationChanged { selected: conversation_id }
            },
            TuiConversationModelEvent::ConversationStarted { conversation_id } => {
                TuiEventView::ConversationStarted { conversation_id }
            },
            TuiConversationModelEvent::ConversationUpdated { conversation_id } => {
                TuiEventView::ConversationUpdated { conversation_id }
            },
            TuiConversationModelEvent::ConversationStatusChanged {
                conversation_id,
                status,
                update,
            } => TuiEventView::ConversationStatusChanged {
                conversation_id,
                is_in_progress: status.is_in_progress,
                label: status.label@,
                update,
            },
            TuiConversationModelEvent::Error { message } => TuiEventView::Error {
                message: message@,
            },
        }
    }
}

impl View for TuiEffect {
    type V = TuiEffectView;

    open spec fn view(&self) -> TuiEffectView {
        match *self {
            TuiEffect::Surface(effect) => TuiEffectView::Surface(effect),
            TuiEffect::Emit(event) => TuiEffectView::Emit(event@),
            TuiEffect::SendUserQuery { prompt, conversation_id } => TuiEffectView::SendUserQuery {
                prompt: prompt@,
                conversation_id,
            },
        }
    }
}

impl View for PromptStep {
    type V = PromptStepView;

    open spec fn view(&self) -> PromptStepView {
        match *self {
            PromptStep::Finished => PromptStepView::Finished,
            PromptStep::StartConversation { plan, prompt } => {
                PromptStepView::StartConversation { plan, prompt: prompt@ }
            },
            PromptStep::SendPrompt { prompt } => PromptStepView::SendPrompt { prompt: prompt@ },
            PromptStep::RestoreConversation {
                terminal_surface_id,
                conversation_id,
                source,
                prompt,
            } => PromptStepView::RestoreConversation {
                terminal_surface_id,
                conversation_id,
                source,
                prompt: prompt@,
            },
            PromptStep::LoadConversation { conversation_id, prompt } => {
                PromptStepView::LoadConversation { conversation_id, prompt: prompt@ }
            },
        }
    }
}

/// What some effects are.
pub open spec fn effects_of(effects: Seq<TuiEffect>) -> Seq<TuiEffectView> {
    Seq::new(effects.len(), |i: int| effects[i]@)
}

/// Effects of the surface among the effects of the model.
pub open spec fn from_surface(effects: Seq<SurfaceEffect>) -> Seq<TuiEffectView> {
    Seq::new(effects.len(), |i: int| TuiEffectView::Surface(effects[i]))
}

/// What is told when a conversation is not live in a surface.
pub open spec fn not_live_message(
    conversation_id: AIConversationId,
    terminal_surface_id: EntityId,
) -> Seq<char> {
    "Conversation "@ + conversation_id.spec_text() + " is not live for TUI surface "@
        + terminal_surface_id.spec_text()
}

/// What is told when a conversation could not be fetched.
pub open spec fn not_loaded_message(conversation_id: AIConversationId) -> Seq<char> {
    "Failed to load local conversation "@ + conversation_id.spec_text()
}

/// The effect that tells listeners of a failure.
pub open spec fn failure(message: Seq<char>) -> TuiEffectView {
    TuiEffectView::Emit(TuiEventView::Error { message })
}

/// The effect that sends a prompt.
pub open spec fn sending(prompt: Seq<char>, conversation_id: AIConversationId) -> TuiEffectView {
    TuiEffectView::SendUserQuery { prompt, conversation_id }
}

/// The surface after a step on behalf of a prompt, what the step wants done
/// outside, and what has to happen next for the prompt.
pub struct TuiStep {
    pub surface: SurfaceState,
    pub effects: Seq<TuiEffectView>,
    pub next: PromptStepView,
}

/// A prompt goes to the selected conversation, or a conversation is asked for.
pub open spec fn prompted(surface: SurfaceState, prompt: Seq<char>, app: AppContext) -> TuiStep {
    match surface.selected_conversation_id(app) {
        Some(conversation_id) => TuiStep {
            surface,
            effects: seq![sending(prompt, conversation_id)],
            next: PromptStepView::Finished,
        },
        None => TuiStep {
            surface,
            effects: Seq::empty(),
            next: PromptStepView::StartConversation {
                plan: surface.plan_new(AgentViewEntryOrigin::Cli, app),
                prompt,
            },
        },
    }
}

/// A prompt goes to the conversation that was started for it, or the failure to
/// start one is told.
pub open spec fn prompted_in_new(
    surface: SurfaceState,
    prompt: Seq<char>,
    start: NewConversationStart,
) -> TuiStep {
    let step = surface.start_new(start);
    TuiStep {
        surface: step.state,
        effects: from_surface(step.effects).push(
            match start {
                NewConversationStart::ViaAgentView(Ok(id)) => sending(prompt, id),
                NewConversationStart::ViaAgentView(Err(error)) => failure(error.message@),
                NewConversationStart::ViaHistory(id) => sending(prompt, id),
            },
        ),
        next: PromptStepView::Finished,
    }
}

/// A live conversation is selected and prompted. Where the Agent View has to be
/// opened on it first, the prompt waits for that.
pub open spec fn selected_and_prompted(
    tui: EntityId,
    surface: SurfaceState,
    prompt: Seq<char>,
    conversation_id: AIConversationId,
    app: AppContext,
) -> TuiStep {
    let step = surface.select_existing(conversation_id, AgentViewEntryOrigin::Cli, app);
    if !app.history.spec_is_live(tui, conversation_id) {
        TuiStep {
            surface,
            effects: seq![failure(not_live_message(conversation_id, tui))],
            next: PromptStepView::Finished,
        }
    } else if surface.uses_agent_view_selection(app) {
        TuiStep {
            surface: step.state,
            effects: from_surface(step.effects),
            next: PromptStepView::SendPrompt { prompt },
        }
    } else {
        TuiStep {
            surface: step.state,
            effects: from_surface(step.effects).push(sending(prompt, conversation_id)),
            next: PromptStepView::Finished,
        }
    }
}

/// A conversation is prompted that may have to be restored, or even fetched, first.
pub open spec fn restored_and_prompted(
    tui: EntityId,
    surface: SurfaceState,
    prompt: Seq<char>,
    conversation_id: AIConversationId,
    app: AppContext,
) -> TuiStep {
    if app.history.spec_is_live(tui, conversation_id) {
        selected_and_prompted(tui, surface, prompt, conversation_id, app)
    } else {
        TuiStep {
            surface,
            effects: Seq::empty(),
            next: if app.history.spec_conversation(conversation_id) is Some {
                PromptStepView::RestoreConversation {
                    terminal_surface_id: tui,
                    conversation_id,
                    source: RestoreSource::Loaded,
                    prompt,
                }
            } else {
                PromptStepView::LoadConversation { conversation_id, prompt }
            },
        }
    }
}

/// What has to happen next for a prompt once its conversation was fetched.
pub open spec fn next_after_fetch(
    tui: EntityId,
    prompt: Seq<char>,
    conversation_id: AIConversationId,
    fetched: Option<CloudConversationData>,
) -> PromptStepView {
    match fetched {
        Some(CloudConversationData::Oz(conversation)) => PromptStepView::RestoreConversation {
            terminal_surface_id: tui,
            conversation_id,
            source: RestoreSource::Fetched(conversation),
            prompt,
        },
        _ => PromptStepView::Finished,
    }
}

/// What is told once a conversation was fetched: nothing, unless it was in vain.
pub open spec fn told_after_fetch(
    conversation_id: AIConversationId,
    fetched: Option<CloudConversationData>,
) -> Seq<TuiEffectView> {
    match fetched {
        Some(CloudConversationData::Oz(_)) => Seq::empty(),
        _ => seq![failure(not_loaded_message(conversation_id))],
    }
}

/// A conversation was fetched in order to be prompted.
pub open spec fn fetched_and_prompted(
    tui: EntityId,
    surface: SurfaceState,
    prompt: Seq<char>,
    conversation_id: AIConversationId,
    fetched: Option<CloudConversationData>,
) -> TuiStep {
    TuiStep {
        surface,
        effects: told_after_fetch(conversation_id, fetched),
        next: next_after_fetch(tui, prompt, conversation_id, fetched),
    }
}

/// A prompt goes on after an answer from outside.
pub open spec fn resumed(
    tui: EntityId,
    surface: SurfaceState,
    answer: PromptAnswer,
    app: AppContext,
) -> TuiStep {
    match answer {
        PromptAnswer::Started { prompt, start } => prompted_in_new(surface, prompt@, start),
        PromptAnswer::Opened { prompt } => prompted(surface, prompt@, app),
        PromptAnswer::Restored { prompt, conversation_id } => selected_and_prompted(
            tui,
            surface,
            prompt@,
            conversation_id,
            app,
        ),
        PromptAnswer::Fetched { prompt, conversation_id, fetched } => fetched_and_prompted(
            tui,
            surface,
            prompt@,
            conversation_id,
            fetched,
        ),
    }
}

/// What presentation layers are told of a history event.
pub open spec fn presented(tui: EntityId, event: BlocklistAIHistoryEvent) -> Seq<TuiEffectView> {
    if event.is_for_another(tui) {
        Seq::empty()
    } else {
        match event.change {
            HistoryChange::StartedNewConversation { new_conversation_id } => seq![
                TuiEffectView::Emit(
                    TuiEventView::ConversationStarted { conversation_id: new_conversation_id },
                ),
            ],
            HistoryChange::UpdatedStreamingExchange { conversation_id } => seq![
                TuiEffectView::Emit(TuiEventView::ConversationUpdated { conversation_id }),
            ],
            HistoryChange::UpdatedConversationStatus { conversation_id, new_status, update } => seq![
                TuiEffectView::Emit(
                    TuiEventView::ConversationStatusChanged {
                        conversation_id,
                        is_in_progress: new_status.is_in_progress,
                        label: new_status.label@,
                        update,
                    },
                ),
            ],
            _ => Seq::empty(),
        }
    }
}

/// What presentation layers are told of an event of the surface.
pub open spec fn announced(
    surface: SurfaceState,
    event: ConversationSurfaceEvent,
    app: AppContext,
) -> Seq<TuiEffectView> {
    match event {
        ConversationSurfaceEvent::PendingQueryStateUpdated => seq![
            TuiEffectView::Emit(
                TuiEventView::SelectedConversationChanged {
                    selected: surface.selected_conversation_id(app),
                },
            ),
        ],
        _ => Seq::empty(),
    }
}

/// Appends one effect.
fn push_effect(effects: &mut Vec<TuiEffect>, effect: TuiEffect)
    ensures
        effects_of(final(effects)@) == effects_of(old(effects)@).push(effect@),
{
    effects.push(effect);
    assert(effects_of(effects@) =~= effects_of(old(effects)@).push(effect@));
}

/// Appends what the surface wants done.
pub(crate) fn push_surface_effects(effects: &mut Vec<TuiEffect>, from: &Vec<SurfaceEffect>)
    ensures
        effects_of(final(effects)@) == effects_of(old(effects)@) + from_surface(from@),
{
    let mut i: usize = 0;
    assert(from_surface(from@.take(0)) =~= Seq::empty());
    assert(effects_of(effects@) =~= effects_of(old(effects)@) + from_surface(from@.take(0)));
    while i < from.len()
        invariant
            i <= from@.len(),
            effects_of(effects@) == effects_of(old(effects)@) + from_surface(from@.take(i as int)),
        decreases from@.len() - i,
    {
        push_effect(effects, TuiEffect::Surface(from[i]));
        assert(from_surface(from@.take(i + 1)) =~= from_surface(from@.take(i as int)).push(
            TuiEffectView::Surface(from@[i as int]),
        ));
        i = i + 1;
    }
    assert(from@.take(from@.len() as int) =~= from@);
}

/// Per-surface conversation and composer model for a TUI.
#[derive(Debug, PartialEq, Eq)]
pub struct TuiConversationModel {
    terminal_surface_id: EntityId,
}

impl View for TuiConversationModel {
    type V = EntityId;

    closed spec fn view(&self) -> EntityId {
        self.terminal_surface_id
    }
}

impl TuiConversationModel {
    /// Creates a TUI conversation model for a terminal surface.
    pub fn new(terminal_surface_id: EntityId) -> (model: Self)
        ensures
            model@ == terminal_surface_id,
    {
        TuiConversationModel { terminal_surface_id }
    }

    /// Tells presentation layers of a new selection when the surface reports one.
    pub fn handle_surface_event(
        &self,
        event: &ConversationSurfaceEvent,
        surface: &ConversationSurfaceModel,
        app: &AppContext,
        effects: &mut Vec<TuiEffect>,
    )
        ensures
            effects_of(final(effects)@) == effects_of(old(effects)@) + announced(
                surface@,
                *event,
                *app,
            ),
    {
        if matches!(event, ConversationSurfaceEvent::PendingQueryStateUpdated) {
            push_effect(
                effects,
                TuiEffect::Emit(
                    TuiConversationModelEvent::SelectedConversationChanged {
                        conversation_id: self.selected_conversation_id(surface, app),
                    },
                ),
            );
        }
        assert(effects_of(effects@) =~= effects_of(old(effects)@) + announced(
            surface@,
            *event,
            *app,
        ));
    }

    /// Returns this surface's currently selected next-prompt target.
    pub fn selected_conversation_id(
        &self,
        surface: &ConversationSurfaceModel,
        app: &AppContext,
    ) -> (id: Option<AIConversationId>)
        ensures
            id == surface@.selected_conversation_id(*app),
    {
        surface.selected_conversation_id(app)
    }

    /// Selects a live conversation as this surface's next-prompt target. One that is
    /// not live is refused, with what is to be told about it.
    pub fn select_conversation(
        &self,
        conversation_id: AIConversationId,
        surface: &mut ConversationSurfaceModel,
        app: &AppContext,
        effects: &mut Vec<TuiEffect>,
    ) -> (selected: Result<(), String>)
        ensures
            ({
                let step = old(surface)@.select_existing(
                    conversation_id,
                    AgentViewEntryOrigin::Cli,
                    *app,
                );
                if app.history.spec_is_live(self@, conversation_id) {
                    &&& selected is Ok
                    &&& final(surface)@ == step.state
                    &&& effects_of(final(effects)@) == effects_of(old(effects)@) + from_surface(
                        step.effects,
                    )
                } else {
                    &&& selected matches Err(message) && message@ == not_live_message(
                        conversation_id,
                        self@,
                    )
                    &&& final(surface)@ == old(surface)@
                    &&& effects_of(final(effects)@) == effects_of(old(effects)@)
                }
            }),
    {
        let is_live = app.history.is_live(self.terminal_surface_id, conversation_id);
        if !is_live {
            let mut message = crate::text::join(
                "Conversation ",
                conversation_id.to_text().as_str(),
            );
            message.append(" is not live for TUI surface ");
            message.append(self.terminal_surface_id.to_text().as_str());
            return Err(message);
        }
        let mut surface_effects: Vec<SurfaceEffect> = Vec::new();
        surface.select_existing_conversation(
            conversation_id,
            AgentViewEntryOrigin::Cli,
            app,
            &mut surface_effects,
        );
        assert(surface_effects@ =~= old(surface)@.select_existing(
            conversation_id,
            AgentViewEntryOrigin::Cli,
            *app,
        ).effects);
        push_surface_effects(effects, &surface_effects);
        Ok(())
    }

    /// Selects the empty conversation that was started for this TUI surface.
    pub fn start_new_conversation(
        &self,
        start: NewConversationStart,
        surface: &mut ConversationSurfaceModel,
        effects: &mut Vec<TuiEffect>,
    ) -> (started: Result<AIConversationId, EnterAgentViewError>)
        ensures
            final(surface)@ == old(surface)@.start_new(start).state,
            effects_of(final(effects)@) == effects_of(old(effects)@) + from_surface(
                old(surface)@.start_new(start).effects,
            ),
            started == match start {
                NewConversationStart::ViaAgentView(outcome) => outcome,
                NewConversationStart::ViaHistory(conversation_id) => Ok(conversation_id),
            },
    {
        let mut surface_effects: Vec<SurfaceEffect> = Vec::new();
        let started = surface.try_start_new_conversation(start, &mut surface_effects);
        assert(surface_effects@ =~= old(surface)@.start_new(start).effects);
        push_surface_effects(effects, &surface_effects);
        started
    }

    /// Sends a prompt to this surface's selected conversation. If there is none, a
    /// new one is asked for.
    pub fn send_prompt(
        &self,
        prompt: String,
        surface: &ConversationSurfaceModel,
        app: &AppContext,
        effects: &mut Vec<TuiEffect>,
    ) -> (next: PromptStep)
        ensures
            next@ == prompted(surface@, prompt@, *app).next,
            effects_of(final(effects)@) == effects_of(old(effects)@) + prompted(
                surface@,
                prompt@,
                *app,
            ).effects,
    {
        let ghost expected = prompted(surface@, prompt@, *app);
        match self.selected_conversation_id(surface, app) {
            Some(conversation_id) => {
                push_effect(effects, TuiEffect::SendUserQuery { prompt, conversation_id });
                assert(effects_of(effects@) =~= effects_of(old(effects)@) + expected.effects);
                PromptStep::Finished
            },
            None => {
                assert(effects_of(effects@) =~= effects_of(old(effects)@) + expected.effects);
                PromptStep::StartConversation {
                    plan: surface.plan_new_conversation(AgentViewEntryOrigin::Cli, app),
                    prompt,
                }
            },
        }
    }

    /// Sends a prompt to the conversation that was started for it. If none could be
    /// started, that is told and nothing is sent.
    pub fn send_prompt_in_new_conversation(
        &self,
        prompt: String,
        start: NewConversationStart,
        surface: &mut ConversationSurfaceModel,
        effects: &mut Vec<TuiEffect>,
    )
        ensures
            final(surface)@ == prompted_in_new(old(surface)@, prompt@, start).surface,
            effects_of(final(effects)@) == effects_of(old(effects)@) + prompted_in_new(
                old(surface)@,
                prompt@,
                start,
            ).effects,
    {
        let ghost expected = prompted_in_new(old(surface)@, prompt@, start);
        match self.start_new_conversation(start, surface, effects) {
            Ok(conversation_id) => {
                push_effect(effects, TuiEffect::SendUserQuery { prompt, conversation_id });
            },
            Err(error) => {
                self.emit_error(error.message, effects);
            },
        }
        assert(effects_of(effects@) =~= effects_of(old(effects)@) + expected.effects);
    }

    /// Restores, selects, and sends a prompt to an existing conversation.
    pub fn restore_conversation_and_send_prompt(
        &self,
        prompt: String,
        conversation_id: AIConversationId,
        surface: &mut ConversationSurfaceModel,
        app: &AppContext,
        effects: &mut Vec<TuiEffect>,
    ) -> (next: PromptStep)
        ensures
            ({
                let step = restored_and_prompted(
                    self@,
                    old(surface)@,
                    prompt@,
                    conversation_id,
                    *app,
                );
                &&& next@ == step.next
                &&& final(surface)@ == step.surface
                &&& effects_of(final(effects)@) == effects_of(old(effects)@) + step.effects
            }),
    {
        let is_live = app.history.is_live(self.terminal_surface_id, conversation_id);
        if is_live {
            return self.select_and_send_prompt(prompt, conversation_id, surface, app, effects);
        }
        let ghost before = effects_of(effects@);
        assert(before =~= before + Seq::<TuiEffectView>::empty());
        if app.history.conversation(&conversation_id).is_some() {
            return PromptStep::RestoreConversation {
                terminal_surface_id: self.terminal_surface_id,
                conversation_id,
                source: RestoreSource::Loaded,
                prompt,
            };
        }
        PromptStep::LoadConversation { conversation_id, prompt }
    }

    /// Goes on once a conversation was fetched: it has to be restored. One that was
    /// not found, or that another agent held, is reported as a failure.
    pub fn restore_fetched_conversation(
        &self,
        prompt: String,
        conversation_id: AIConversationId,
        fetched: Option<CloudConversationData>,
        effects: &mut Vec<TuiEffect>,
    ) -> (next: PromptStep)
        ensures
            next@ == next_after_fetch(self@, prompt@, conversation_id, fetched),
            effects_of(final(effects)@) == effects_of(old(effects)@) + told_after_fetch(
                conversation_id,
                fetched,
            ),
    {
        let ghost before = effects_of(effects@);
        assert(before =~= before + Seq::<TuiEffectView>::empty());
        match fetched {
            Some(CloudConversationData::Oz(conversation)) => PromptStep::RestoreConversation {
                terminal_surface_id: self.terminal_surface_id,
                conversation_id,
                source: RestoreSource::Fetched(conversation),
                prompt,
            },
            _ => {
                self.emit_error(
                    crate::text::join(
                        "Failed to load local conversation ",
                        conversation_id.to_text().as_str(),
                    ),
                    effects,
                );
                assert(effects_of(effects@) =~= before + seq![
                    failure(not_loaded_message(conversation_id)),
                ]);
                PromptStep::Finished
            },
        }
    }

    /// Selects a live conversation and sends a prompt to it. One that is not live is
    /// reported as a failure.
    pub fn select_and_send_prompt(
        &self,
        prompt: String,
        conversation_id: AIConversationId,
        surface: &mut ConversationSurfaceModel,
        app: &AppContext,
        effects: &mut Vec<TuiEffect>,
    ) -> (next: PromptStep)
        ensures
            ({
                let step = selected_and_prompted(
                    self@,
                    old(surface)@,
                    prompt@,
                    conversation_id,
                    *app,
                );
                &&& next@ == step.next
                &&& final(surface)@ == step.surface
                &&& effects_of(final(effects)@) == effects_of(old(effects)@) + step.effects
            }),
    {
        let ghost expected = selected_and_prompted(
            self@,
            old(surface)@,
            prompt@,
            conversation_id,
            *app,
        );
        if let Err(message) = self.select_conversation(conversation_id, surface, app, effects) {
            self.emit_error(message, effects);
            assert(effects_of(effects@) =~= effects_of(old(effects)@) + expected.effects);
            return PromptStep::Finished;
        }
        if surface.uses_agent_view_selection(app) {
            return PromptStep::SendPrompt { prompt };
        }
        let next = self.send_prompt(prompt, surface, app, effects);
        assert(effects_of(effects@) =~= effects_of(old(effects)@) + expected.effects);
        next
    }

    /// Goes on with a prompt after what its last step asked for was done.
    pub fn resume_prompt(
        &self,
        answer: PromptAnswer,
        surface: &mut ConversationSurfaceModel,
        app: &AppContext,
        effects: &mut Vec<TuiEffect>,
    ) -> (next: PromptStep)
        ensures
            ({
                let step = resumed(self@, old(surface)@, answer, *app);
                &&& next@ == step.next
                &&& final(surface)@ == step.surface
                &&& effects_of(final(effects)@) == effects_of(old(effects)@) + step.effects
            }),
    {
        match answer {
            PromptAnswer::Started { prompt, start } => {
                self.send_prompt_in_new_conversation(prompt, start, surface, effects);
                PromptStep::Finished
            },
            PromptAnswer::Opened { prompt } => self.send_prompt(prompt, surface, app, effects),
            PromptAnswer::Restored { prompt, conversation_id } => self.select_and_send_prompt(
                prompt,
                conversation_id,
                surface,
                app,
                effects,
            ),
            PromptAnswer::Fetched { prompt, conversation_id, fetched } => {
                self.restore_fetched_conversation(prompt, conversation_id, fetched, effects)
            },
        }
    }

    /// Converts terminal-surface-scoped history events into TUI presentation events.
    pub fn handle_history_event(
        &self,
        event: &BlocklistAIHistoryEvent,
        effects: &mut Vec<TuiEffect>,
    )
        ensures
            effects_of(final(effects)@) == effects_of(old(effects)@) + presented(self@, *event),
    {
        if event.belongs_to_another(self.terminal_surface_id) {
            assert(effects_of(effects@) =~= effects_of(old(effects)@) + presented(self@, *event));
            return ;
        }
        match &event.change {
            HistoryChange::StartedNewConversation { new_conversation_id } => {
                push_effect(
                    effects,
                    TuiEffect::Emit(
                        TuiConversationModelEvent::ConversationStarted {
                            conversation_id: *new_conversation_id,
                        },
                    ),
                );
            },
            HistoryChange::UpdatedStreamingExchange { conversation_id } => {
                push_effect(
                    effects,
                    TuiEffect::Emit(
                        TuiConversationModelEvent::ConversationUpdated {
                            conversation_id: *conversation_id,
                        },
                    ),
                );
            },
            HistoryChange::UpdatedConversationStatus { conversation_id, new_status, update } => {
                push_effect(
                    effects,
                    TuiEffect::Emit(
                        TuiConversationModelEvent::ConversationStatusChanged {
                            conversation_id: *conversation_id,
                            status: new_status.clone(),
                            update: *update,
                        },
                    ),
                );
            },
            _ => {},
        }
        assert(effects_of(effects@) =~= effects_of(old(effects)@) + presented(self@, *event));
    }

    /// Emits a presentation-safe model error.
    pub fn emit_error(&self, message: String, effects: &mut Vec<TuiEffect>)
        ensures
            effects_of(final(effects)@) == effects_of(old(effects)@).push(failure(message@)),
    {
        push_effect(effects, TuiEffect::Emit(TuiConversationModelEvent::Error { message }));
    }
}

} // verus!
