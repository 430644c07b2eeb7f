//! Which conversation the next query of a terminal surface targets.
//!
//! A TUI surface keeps its target itself. A GUI terminal view does so too while
//! the Agent View feature is off; while it is on, its target is whatever its
//! Agent View shows.
use vstd::prelude::*;
use crate::context::{
    AIConversation, AIConversationAutoexecuteMode, AgentViewController, AppContext,
};
use crate::events::{
    AgentViewControllerEvent, AgentViewEntryOrigin, BlocklistAIHistoryEvent,
    ConversationSurfaceEvent, EnterAgentViewError, HistoryChange,
};
use crate::ids::{AIConversationId, EntityId};

verus! {

/// The conversation targeted by the next query from a terminal surface.
#[derive(Debug, Clone, Copy, PartialEq, Eq, Structural)]
pub enum PendingQueryState {
    /// The next query will continue an existing conversation.
    Existing { conversation_id: AIConversationId },
    /// The next query will start a conversation.
    New {
        /// Autoexecute override for the new conversation to be started.
        autoexecute_override: AIConversationAutoexecuteMode,
    },
}

impl PendingQueryState {
    /// The state of a surface that nothing was selected for.
    pub open spec fn spec_default() -> Self {
        PendingQueryState::New {
            autoexecute_override: AIConversationAutoexecuteMode::spec_default(),
        }
    }

    /// Returns whether the next query targets an existing conversation.
    pub fn targets_existing_conversation(&self) -> (existing: bool)
        ensures
            existing == (self is Existing),
    {
        matches!(self, PendingQueryState::Existing { .. })
    }
}

impl Default for PendingQueryState {
    fn default() -> (state: Self)
        ensures
            state == PendingQueryState::spec_default(),
    {
        PendingQueryState::New {
            autoexecute_override: AIConversationAutoexecuteMode::default(),
        }
    }
}

/// What a surface is shown as.
#[derive(Debug, Clone, Copy, PartialEq, Eq, Structural)]
pub enum ConversationSurface {
    /// A GUI terminal view, which has an Agent View.
    TerminalView,
    /// A TUI, which has none.
    Tui,
}

/// What a surface wants done outside.
#[derive(Debug, Clone, Copy, PartialEq, Eq, Structural)]
pub enum SurfaceEffect {
    /// Deliver an event to whoever listens to the surface.
    Emit(ConversationSurfaceEvent),
    /// Open the surface's Agent View on a conversation, or on a new one. If it
    /// cannot be opened, the failure is reported to the log and to nobody else.
    EnterAgentView { target: Option<AIConversationId>, origin: AgentViewEntryOrigin },
    /// Close the surface's Agent View.
    ExitAgentView,
    /// Toggle the autoexecute override of a conversation in the history.
    ToggleAutoexecuteOverride {
        conversation_id: AIConversationId,
        terminal_surface_id: EntityId,
    },
}

/// What has to be called outside to get a new conversation.
#[derive(Debug, Clone, Copy, PartialEq, Eq)]
pub enum NewConversationPlan {
    /// Open the surface's Agent View on a new conversation.
    EnterAgentView { origin: AgentViewEntryOrigin },
    /// Start a conversation in the history, with the three switches of that call.
    StartInHistory { terminal_surface_id: EntityId, switches: (bool, bool, bool) },
}

/// What came of a [`NewConversationPlan`].
#[derive(Debug, PartialEq, Eq)]
pub enum NewConversationStart {
    /// What opening the Agent View returned.
    ViaAgentView(Result<AIConversationId, EnterAgentViewError>),
    /// The conversation that the history started, which it does not refuse.
    ViaHistory(AIConversationId),
}

/// A surface, as its contracts speak of it.
pub struct SurfaceState {
    pub terminal_surface_id: EntityId,
    pub pending: PendingQueryState,
    pub surface: ConversationSurface,
}

/// A surface after an operation, and what the operation wants done outside.
pub struct SurfaceStep {
    pub state: SurfaceState,
    pub effects: Seq<SurfaceEffect>,
}

impl SurfaceState {
    /// A surface that was just created.
    pub open spec fn created(
        terminal_surface_id: EntityId,
        surface: ConversationSurface,
        is_sandboxed: bool,
    ) -> SurfaceState {
        SurfaceState {
            terminal_surface_id,
            surface,
            pending: if is_sandboxed {
                PendingQueryState::New {
                    autoexecute_override: AIConversationAutoexecuteMode::RunToCompletion,
                }
            } else {
                PendingQueryState::spec_default()
            },
        }
    }

    /// Whether the Agent View decides what is selected.
    pub open spec fn uses_agent_view_selection(self, app: AppContext) -> bool {
        app.agent_view_enabled && self.surface is TerminalView
    }

    /// The conversation that the surface itself has as its target.
    pub open spec fn pending_conversation_id(self) -> Option<AIConversationId> {
        match self.pending {
            PendingQueryState::Existing { conversation_id } => Some(conversation_id),
            PendingQueryState::New { .. } => None,
        }
    }

    /// The conversation targeted by the next query.
    pub open spec fn selected_conversation_id(self, app: AppContext) -> Option<AIConversationId> {
        if self.uses_agent_view_selection(app) {
            app.agent_view.active_conversation_id
        } else {
            self.pending_conversation_id()
        }
    }

    /// The autoexecute override that the next query runs under.
    pub open spec fn autoexecute_override(self, app: AppContext) -> AIConversationAutoexecuteMode {
        match self.pending {
            PendingQueryState::New { autoexecute_override } => autoexecute_override,
            PendingQueryState::Existing { conversation_id } => {
                match app.history.spec_conversation(conversation_id) {
                    Some(conversation) => conversation.autoexecute_override,
                    None => AIConversationAutoexecuteMode::spec_default(),
                }
            },
        }
    }

    /// Nothing happens.
    pub open spec fn stay(self) -> SurfaceStep {
        SurfaceStep { state: self, effects: Seq::empty() }
    }

    /// The target becomes the given one, and listeners hear of it if it was another.
    pub open spec fn set_pending(self, pending: PendingQueryState) -> SurfaceStep {
        SurfaceStep {
            state: SurfaceState { pending, ..self },
            effects: if self.pending == pending {
                Seq::empty()
            } else {
                seq![SurfaceEffect::Emit(ConversationSurfaceEvent::PendingQueryStateUpdated)]
            },
        }
    }

    /// A conversation is selected; where the Agent View decides, it is opened on it.
    pub open spec fn select_existing(
        self,
        conversation_id: AIConversationId,
        origin: AgentViewEntryOrigin,
        app: AppContext,
    ) -> SurfaceStep {
        let step = self.set_pending(PendingQueryState::Existing { conversation_id });
        if self.uses_agent_view_selection(app) {
            step.and_do(
                SurfaceEffect::EnterAgentView { target: Some(conversation_id), origin },
            )
        } else {
            step
        }
    }

    /// A new conversation is selected; where the Agent View decides, it is opened on one.
    pub open spec fn select_new(self, origin: AgentViewEntryOrigin, app: AppContext) -> SurfaceStep {
        let step = self.set_pending(PendingQueryState::spec_default());
        if self.uses_agent_view_selection(app) {
            step.and_do(SurfaceEffect::EnterAgentView { target: None, origin })
        } else {
            step
        }
    }

    /// What has to be called outside to get a new conversation.
    pub open spec fn plan_new(
        self,
        origin: AgentViewEntryOrigin,
        app: AppContext,
    ) -> NewConversationPlan {
        if self.uses_agent_view_selection(app) {
            NewConversationPlan::EnterAgentView { origin }
        } else {
            NewConversationPlan::StartInHistory {
                terminal_surface_id: self.terminal_surface_id,
                switches: (false, false, false),
            }
        }
    }

    /// A new conversation was asked for, with the given outcome.
    pub open spec fn start_new(self, start: NewConversationStart) -> SurfaceStep {
        match start {
            NewConversationStart::ViaAgentView(Ok(_)) => {
                self.set_pending(PendingQueryState::spec_default())
            },
            NewConversationStart::ViaAgentView(Err(_)) => self.stay(),
            NewConversationStart::ViaHistory(conversation_id) => {
                self.set_pending(PendingQueryState::Existing { conversation_id })
            },
        }
    }

    /// The autoexecute override of the next query is toggled, where it is kept.
    pub open spec fn toggle_autoexecute(self, app: AppContext) -> SurfaceStep {
        match (self.uses_agent_view_selection(app), self.pending) {
            (true, _) => match app.agent_view.active_conversation_id {
                Some(conversation_id) => self.stay().and_do(self.toggle_of(conversation_id)),
                None => self.stay(),
            },
            (false, PendingQueryState::New { autoexecute_override }) => self.set_pending(
                PendingQueryState::New { autoexecute_override: autoexecute_override.toggled() },
            ),
            (false, PendingQueryState::Existing { conversation_id }) => {
                self.stay().and_do(self.toggle_of(conversation_id))
            },
        }
    }

    /// The effect that toggles the override of a conversation.
    pub open spec fn toggle_of(self, conversation_id: AIConversationId) -> SurfaceEffect {
        SurfaceEffect::ToggleAutoexecuteOverride {
            conversation_id,
            terminal_surface_id: self.terminal_surface_id,
        }
    }

    /// A conversation left the surface.
    pub open spec fn lose(self, conversation_id: AIConversationId, app: AppContext) -> SurfaceStep {
        if !self.uses_agent_view_selection(app) && self.selected_conversation_id(app) == Some(
            conversation_id,
        ) {
            self.set_pending(PendingQueryState::spec_default())
        } else {
            self.stay()
        }
    }

    /// The history reported something.
    pub open spec fn on_history_event(
        self,
        event: BlocklistAIHistoryEvent,
        app: AppContext,
    ) -> SurfaceStep {
        if event.is_for_another(self.terminal_surface_id) {
            self.stay()
        } else {
            match event.change {
                HistoryChange::ClearedConversationsForTerminalSurface => {
                    let step = self.set_pending(PendingQueryState::spec_default());
                    if self.uses_agent_view_selection(app) {
                        step.and_do(SurfaceEffect::ExitAgentView)
                    } else {
                        step
                    }
                },
                HistoryChange::SplitConversation { old_conversation_id, new_conversation_id } => {
                    if self.selected_conversation_id(app) == Some(old_conversation_id) {
                        self.select_existing(
                            new_conversation_id,
                            AgentViewEntryOrigin::AgentRequestedNewConversation,
                            app,
                        )
                    } else {
                        self.stay()
                    }
                },
                HistoryChange::RemoveConversation { conversation_id } => {
                    self.lose(conversation_id, app)
                },
                HistoryChange::DeletedConversation { conversation_id } => {
                    self.lose(conversation_id, app)
                },
                HistoryChange::ConversationTransferredBetweenTerminalSurfaces {
                    conversation_id,
                } => self.lose(conversation_id, app),
                _ => self.stay(),
            }
        }
    }

    /// The Agent View reported something.
    pub open spec fn on_agent_view_event(self, event: AgentViewControllerEvent) -> SurfaceStep {
        match event {
            AgentViewControllerEvent::EnteredAgentView { display_mode, origin } => {
                self.stay().and_do(
                    SurfaceEffect::Emit(
                        ConversationSurfaceEvent::AgentViewEntered { display_mode, origin },
                    ),
                )
            },
            AgentViewControllerEvent::ExitedAgentView {
                conversation_id,
                final_exchange_count,
                is_exit_before_new_entrance,
            } => self.stay().and_do(
                SurfaceEffect::Emit(
                    ConversationSurfaceEvent::AgentViewExited {
                        conversation_id,
                        final_exchange_count,
                        is_exit_before_new_entrance,
                    },
                ),
            ),
            AgentViewControllerEvent::ExitConfirmed => self.stay(),
        }
    }
}

impl SurfaceStep {
    /// The step with one more effect at its end.
    pub open spec fn and_do(self, effect: SurfaceEffect) -> SurfaceStep {
        SurfaceStep { state: self.state, effects: self.effects.push(effect) }
    }
}

/// Per-terminal-surface selection and Agent View lifecycle boundary.
#[derive(Debug, PartialEq, Eq)]
pub struct ConversationSurfaceModel {
    terminal_surface_id: EntityId,
    pending_query_state: PendingQueryState,
    surface: ConversationSurface,
}

impl View for ConversationSurfaceModel {
    type V = SurfaceState;

    closed spec fn view(&self) -> SurfaceState {
        SurfaceState {
            terminal_surface_id: self.terminal_surface_id,
            pending: self.pending_query_state,
            surface: self.surface,
        }
    }
}

impl ConversationSurfaceModel {
    /// Creates conversation state for a GUI terminal view.
    pub fn new_for_terminal_view(terminal_surface_id: EntityId, app: &AppContext) -> (model: Self)
        ensures
            model@ == SurfaceState::created(
                terminal_surface_id,
                ConversationSurface::TerminalView,
                app.is_sandboxed,
            ),
    {
        Self::new(terminal_surface_id, ConversationSurface::TerminalView, app)
    }

    /// Creates conversation state for a TUI surface.
    pub fn new_for_tui_surface(terminal_surface_id: EntityId, app: &AppContext) -> (model: Self)
        ensures
            model@ == SurfaceState::created(
                terminal_surface_id,
                ConversationSurface::Tui,
                app.is_sandboxed,
            ),
    {
        Self::new(terminal_surface_id, ConversationSurface::Tui, app)
    }

    fn new(
        terminal_surface_id: EntityId,
        surface: ConversationSurface,
        app: &AppContext,
    ) -> (model: Self)
        ensures
            model@ == SurfaceState::created(terminal_surface_id, surface, app.is_sandboxed),
    {
        let pending_query_state = if app.is_sandboxed {
            PendingQueryState::New {
                autoexecute_override: AIConversationAutoexecuteMode::RunToCompletion,
            }
        } else {
            PendingQueryState::default()
        };
        ConversationSurfaceModel { terminal_surface_id, pending_query_state, surface }
    }

    /// Passes on what the surface's Agent View reports.
    pub fn handle_agent_view_event(
        &self,
        event: &AgentViewControllerEvent,
        effects: &mut Vec<SurfaceEffect>,
    )
        ensures
            final(effects)@ == old(effects)@ + self@.on_agent_view_event(*event).effects,
    {
        match event {
            AgentViewControllerEvent::EnteredAgentView { display_mode, origin } => {
                effects.push(
                    SurfaceEffect::Emit(
                        ConversationSurfaceEvent::AgentViewEntered {
                            display_mode: *display_mode,
                            origin: *origin,
                        },
                    ),
                );
            },
            AgentViewControllerEvent::ExitedAgentView {
                conversation_id,
                final_exchange_count,
                is_exit_before_new_entrance,
            } => {
                effects.push(
                    SurfaceEffect::Emit(
                        ConversationSurfaceEvent::AgentViewExited {
                            conversation_id: *conversation_id,
                            final_exchange_count: *final_exchange_count,
                            is_exit_before_new_entrance: *is_exit_before_new_entrance,
                        },
                    ),
                );
            },
            AgentViewControllerEvent::ExitConfirmed => {},
        }
    }

    /// Returns whether this surface currently uses GUI Agent View selection.
    pub fn uses_agent_view_selection(&self, app: &AppContext) -> (uses: bool)
        ensures
            uses == self@.uses_agent_view_selection(*app),
    {
        app.agent_view_enabled && matches!(self.surface, ConversationSurface::TerminalView)
    }

    /// Returns whether this surface has an active GUI Agent View.
    pub fn is_agent_view_active(&self, app: &AppContext) -> (active: bool)
        ensures
            active == (self@.surface is TerminalView && app.agent_view.is_active),
    {
        match self.agent_view_controller(app) {
            Some(controller) => controller.is_active,
            None => false,
        }
    }

    /// Returns whether this surface has a fullscreen GUI Agent View.
    pub fn is_agent_view_fullscreen(&self, app: &AppContext) -> (fullscreen: bool)
        ensures
            fullscreen == (self@.surface is TerminalView && app.agent_view.is_fullscreen),
    {
        match self.agent_view_controller(app) {
            Some(controller) => controller.is_fullscreen,
            None => false,
        }
    }

    /// Returns the conversation targeted by the next query.
    pub fn selected_conversation_id(&self, app: &AppContext) -> (id: Option<AIConversationId>)
        ensures
            id == self@.selected_conversation_id(*app),
    {
        if self.uses_agent_view_selection(app) {
            return match self.agent_view_controller(app) {
                Some(controller) => controller.active_conversation_id,
                None => None,
            };
        }
        match self.pending_query_state {
            PendingQueryState::Existing { conversation_id } => Some(conversation_id),
            PendingQueryState::New { .. } => None,
        }
    }

    /// Returns the selected conversation, if it is loaded.
    pub fn selected_conversation<'a>(&self, app: &'a AppContext) -> (found: Option<
        &'a AIConversation,
    >)
        ensures
            match (self@.selected_conversation_id(*app), found) {
                (Some(id), Some(conversation)) => app.history.spec_conversation(id) == Some(
                    *conversation,
                ),
                (Some(id), None) => app.history.spec_conversation(id) is None,
                (None, found) => found is None,
            },
    {
        match self.selected_conversation_id(app) {
            Some(conversation_id) => app.history.conversation(&conversation_id),
            None => None,
        }
    }

    /// Returns the pending query state for this surface.
    pub fn pending_query_state(&self) -> (state: &PendingQueryState)
        ensures
            *state == self@.pending,
    {
        &self.pending_query_state
    }

    /// Returns the terminal surface that this model belongs to.
    pub fn terminal_surface_id(&self) -> (id: EntityId)
        ensures
            id == self@.terminal_surface_id,
    {
        self.terminal_surface_id
    }

    /// Selects an existing conversation for the next query.
    pub fn select_existing_conversation(
        &mut self,
        conversation_id: AIConversationId,
        origin: AgentViewEntryOrigin,
        app: &AppContext,
        effects: &mut Vec<SurfaceEffect>,
    )
        ensures
            final(self)@ == old(self)@.select_existing(conversation_id, origin, *app).state,
            final(effects)@ == old(effects)@ + old(self)@.select_existing(
                conversation_id,
                origin,
                *app,
            ).effects,
    {
        self.set_pending_query_state(PendingQueryState::Existing { conversation_id }, effects);
        if self.uses_agent_view_selection(app) {
            effects.push(
                SurfaceEffect::EnterAgentView { target: Some(conversation_id), origin },
            );
        }
    }

    /// Selects the new-conversation state for the next query.
    pub fn select_new_conversation(
        &mut self,
        origin: AgentViewEntryOrigin,
        app: &AppContext,
        effects: &mut Vec<SurfaceEffect>,
    )
        ensures
            final(self)@ == old(self)@.select_new(origin, *app).state,
            final(effects)@ == old(effects)@ + old(self)@.select_new(origin, *app).effects,
    {
        self.set_pending_query_state(PendingQueryState::default(), effects);
        if self.uses_agent_view_selection(app) {
            effects.push(SurfaceEffect::EnterAgentView { target: None, origin });
        }
    }

    /// Tells what to call outside to get a new conversation for this surface. What
    /// comes of it goes to [`Self::try_start_new_conversation`].
    pub fn plan_new_conversation(
        &self,
        origin: AgentViewEntryOrigin,
        app: &AppContext,
    ) -> (plan: NewConversationPlan)
        ensures
            plan == self@.plan_new(origin, *app),
    {
        if self.uses_agent_view_selection(app) {
            NewConversationPlan::EnterAgentView { origin }
        } else {
            NewConversationPlan::StartInHistory {
                terminal_surface_id: self.terminal_surface_id,
                switches: (false, false, false),
            }
        }
    }

    /// Selects the conversation that was started for this surface. If none could be
    /// started, the surface stays as it is and the failure is handed back.
    pub fn try_start_new_conversation(
        &mut self,
        start: NewConversationStart,
        effects: &mut Vec<SurfaceEffect>,
    ) -> (started: Result<AIConversationId, EnterAgentViewError>)
        ensures
            final(self)@ == old(self)@.start_new(start).state,
            final(effects)@ == old(effects)@ + old(self)@.start_new(start).effects,
            started == match start {
                NewConversationStart::ViaAgentView(outcome) => outcome,
                NewConversationStart::ViaHistory(conversation_id) => Ok(conversation_id),
            },
    {
        match start {
            NewConversationStart::ViaAgentView(Ok(conversation_id)) => {
                self.set_pending_query_state(PendingQueryState::default(), effects);
                Ok(conversation_id)
            },
            NewConversationStart::ViaAgentView(Err(error)) => Err(error),
            NewConversationStart::ViaHistory(conversation_id) => {
                self.set_pending_query_state(
                    PendingQueryState::Existing { conversation_id },
                    effects,
                );
                Ok(conversation_id)
            },
        }
    }

    /// Returns the autoexecute override for the pending query.
    pub fn pending_query_autoexecute_override(&self, app: &AppContext) -> (mode:
        AIConversationAutoexecuteMode)
        ensures
            mode == self@.autoexecute_override(*app),
    {
        match self.pending_query_state {
            PendingQueryState::New { autoexecute_override } => autoexecute_override,
            PendingQueryState::Existing { conversation_id } => {
                match app.history.conversation(&conversation_id) {
                    Some(conversation) => conversation.autoexecute_override,
                    None => AIConversationAutoexecuteMode::default(),
                }
            },
        }
    }

    /// Toggles the autoexecute override for the pending query.
    pub fn toggle_pending_query_autoexecute(
        &mut self,
        app: &AppContext,
        effects: &mut Vec<SurfaceEffect>,
    )
        ensures
            final(self)@ == old(self)@.toggle_autoexecute(*app).state,
            final(effects)@ == old(effects)@ + old(self)@.toggle_autoexecute(*app).effects,
    {
        if self.uses_agent_view_selection(app) {
            if let Some(conversation_id) = self.selected_conversation_id(app) {
                effects.push(
                    SurfaceEffect::ToggleAutoexecuteOverride {
                        conversation_id,
                        terminal_surface_id: self.terminal_surface_id,
                    },
                );
            }
            return ;
        }
        match self.pending_query_state {
            PendingQueryState::New { autoexecute_override } => {
                let toggled = if autoexecute_override
                    == AIConversationAutoexecuteMode::RespectUserSettings {
                    AIConversationAutoexecuteMode::RunToCompletion
                } else {
                    AIConversationAutoexecuteMode::RespectUserSettings
                };
                self.pending_query_state = PendingQueryState::New { autoexecute_override: toggled };
                effects.push(
                    SurfaceEffect::Emit(ConversationSurfaceEvent::PendingQueryStateUpdated),
                );
            },
            PendingQueryState::Existing { conversation_id } => {
                effects.push(
                    SurfaceEffect::ToggleAutoexecuteOverride {
                        conversation_id,
                        terminal_surface_id: self.terminal_surface_id,
                    },
                );
            },
        }
    }

    /// Returns whether the pending query targets an existing conversation.
    pub fn is_targeting_existing_conversation(&self) -> (existing: bool)
        ensures
            existing == (self@.pending is Existing),
    {
        self.pending_query_state.targets_existing_conversation()
    }

    fn agent_view_controller<'a>(&self, app: &'a AppContext) -> (controller: Option<
        &'a AgentViewController,
    >)
        ensures
            controller == match self@.surface {
                ConversationSurface::TerminalView => Some(&app.agent_view),
                ConversationSurface::Tui => None,
            },
    {
        match self.surface {
            ConversationSurface::TerminalView => Some(&app.agent_view),
            ConversationSurface::Tui => None,
        }
    }

    fn set_pending_query_state(
        &mut self,
        state: PendingQueryState,
        effects: &mut Vec<SurfaceEffect>,
    )
        ensures
            final(self)@ == old(self)@.set_pending(state).state,
            final(effects)@ == old(effects)@ + old(self)@.set_pending(state).effects,
    {
        if self.pending_query_state != state {
            self.pending_query_state = state;
            effects.push(SurfaceEffect::Emit(ConversationSurfaceEvent::PendingQueryStateUpdated));
        }
    }

    /// Keeps the selection in step with the history.
    pub fn handle_history_event(
        &mut self,
        event: &BlocklistAIHistoryEvent,
        app: &AppContext,
        effects: &mut Vec<SurfaceEffect>,
    )
        ensures
            final(self)@ == old(self)@.on_history_event(*event, *app).state,
            final(effects)@ == old(effects)@ + old(self)@.on_history_event(*event, *app).effects,
    {
        if event.belongs_to_another(self.terminal_surface_id) {
            return ;
        }
        match &event.change {
            HistoryChange::ClearedConversationsForTerminalSurface => {
                self.set_pending_query_state(PendingQueryState::default(), effects);
                if self.uses_agent_view_selection(app) {
                    effects.push(SurfaceEffect::ExitAgentView);
                }
            },
            HistoryChange::SplitConversation { old_conversation_id, new_conversation_id } => {
                if self.selected_conversation_id(app) == Some(*old_conversation_id) {
                    self.select_existing_conversation(
                        *new_conversation_id,
                        AgentViewEntryOrigin::AgentRequestedNewConversation,
                        app,
                        effects,
                    );
                }
            },
            HistoryChange::RemoveConversation { conversation_id }
            | HistoryChange::DeletedConversation { conversation_id }
            | HistoryChange::ConversationTransferredBetweenTerminalSurfaces {
                conversation_id,
            } => {
                if !self.uses_agent_view_selection(app) && self.selected_conversation_id(app)
                    == Some(*conversation_id) {
                    self.set_pending_query_state(PendingQueryState::default(), effects);
                }
            },
            _ => {},
        }
    }
}

} // verus!
