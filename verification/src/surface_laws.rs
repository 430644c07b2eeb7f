//! What holds of every surface, whatever is done to it.
use vstd::prelude::*;
use crate::context::{AIConversationAutoexecuteMode, AppContext};
use crate::events::{
    AgentViewControllerEvent, AgentViewEntryOrigin, BlocklistAIHistoryEvent,
    ConversationSurfaceEvent, HistoryChange,
};
use crate::ids::{AIConversationId, EntityId};
use crate::surface::{
    ConversationSurface, NewConversationPlan, NewConversationStart, PendingQueryState,
    SurfaceEffect, SurfaceState, SurfaceStep,
};

verus! {

/// Everything that can be done to a surface.
pub enum SurfaceOperation {
    SelectExisting { conversation_id: AIConversationId, origin: AgentViewEntryOrigin },
    SelectNew { origin: AgentViewEntryOrigin },
    StartNew { start: NewConversationStart },
    ToggleAutoexecute,
    HistoryEvent(BlocklistAIHistoryEvent),
    AgentViewEvent(AgentViewControllerEvent),
}

/// The effect that tells listeners of a new pending query state.
pub open spec fn notification() -> SurfaceEffect {
    SurfaceEffect::Emit(ConversationSurfaceEvent::PendingQueryStateUpdated)
}

impl SurfaceState {
    /// What an operation does to a surface.
    pub open spec fn step(self, operation: SurfaceOperation, app: AppContext) -> SurfaceStep {
        match operation {
            SurfaceOperation::SelectExisting { conversation_id, origin } => {
                self.select_existing(conversation_id, origin, app)
            },
            SurfaceOperation::SelectNew { origin } => self.select_new(origin, app),
            SurfaceOperation::StartNew { start } => self.start_new(start),
            SurfaceOperation::ToggleAutoexecute => self.toggle_autoexecute(app),
            SurfaceOperation::HistoryEvent(event) => self.on_history_event(event, app),
            SurfaceOperation::AgentViewEvent(event) => self.on_agent_view_event(event),
        }
    }

    /// What a row of operations does to a surface, each of them in the world as it
    /// is then.
    pub open spec fn run(self, operations: Seq<(SurfaceOperation, AppContext)>) -> SurfaceStep
        decreases operations.len(),
    {
        if operations.len() == 0 {
            self.stay()
        } else {
            let before = self.run(operations.drop_last());
            let step = before.state.step(operations.last().0, operations.last().1);
            SurfaceStep { state: step.state, effects: before.effects + step.effects }
        }
    }
}

/// While the Agent View decides, the surface's target is what the view shows,
/// whatever the surface itself has pending; and selecting a conversation asks the
/// view, last of all, to show it.
pub proof fn law_gui_surface_delegates_selection(
    state: SurfaceState,
    conversation_id: AIConversationId,
    origin: AgentViewEntryOrigin,
    app: AppContext,
    later: AppContext,
)
    requires
        state.uses_agent_view_selection(app),
        state.uses_agent_view_selection(later),
    ensures
        state.selected_conversation_id(app) == app.agent_view.active_conversation_id,
        ({
            let step = state.select_existing(conversation_id, origin, app);
            &&& step.effects.last() == (SurfaceEffect::EnterAgentView {
                target: Some(conversation_id),
                origin,
            })
            &&& step.state.selected_conversation_id(later)
                == later.agent_view.active_conversation_id
        }),
{
}

/// Where the Agent View does not decide, a selected conversation stays the target
/// in whatever world comes next, and selecting a new one leaves no target.
pub proof fn law_surface_owns_selection(
    state: SurfaceState,
    conversation_id: AIConversationId,
    origin: AgentViewEntryOrigin,
    app: AppContext,
    later: AppContext,
)
    requires
        !state.uses_agent_view_selection(later),
    ensures
        state.select_existing(conversation_id, origin, app).state.selected_conversation_id(later)
            == Some(conversation_id),
        state.select_new(origin, app).state.selected_conversation_id(later) is None,
{
}

/// A TUI surface never has its target decided by an Agent View.
pub proof fn law_tui_ignores_agent_view(state: SurfaceState, app: AppContext)
    requires
        state.surface is Tui,
    ensures
        !state.uses_agent_view_selection(app),
        state.selected_conversation_id(app) == state.pending_conversation_id(),
{
}

/// A conversation that a surface starts in the history is started for that very
/// surface and is its target afterwards.
pub proof fn law_started_conversation_is_selected(
    state: SurfaceState,
    conversation_id: AIConversationId,
    origin: AgentViewEntryOrigin,
    app: AppContext,
)
    requires
        !state.uses_agent_view_selection(app),
    ensures
        state.plan_new(origin, app) matches NewConversationPlan::StartInHistory {
            terminal_surface_id,
            ..
        } && terminal_surface_id == state.terminal_surface_id,
        state.start_new(NewConversationStart::ViaHistory(conversation_id)).state
            .selected_conversation_id(app) == Some(conversation_id),
{
}

/// Where the Agent View decides, a new conversation is asked of the view; the
/// surface keeps no target of its own then, and its target is the new conversation
/// once the view shows it.
pub proof fn law_gui_start_goes_through_agent_view(
    state: SurfaceState,
    conversation_id: AIConversationId,
    origin: AgentViewEntryOrigin,
    app: AppContext,
    later: AppContext,
)
    requires
        state.uses_agent_view_selection(app),
        state.uses_agent_view_selection(later),
        later.agent_view.active_conversation_id == Some(conversation_id),
    ensures
        state.plan_new(origin, app) == (NewConversationPlan::EnterAgentView { origin }),
        ({
            let step = state.start_new(NewConversationStart::ViaAgentView(Ok(conversation_id)));
            &&& step.state.pending == PendingQueryState::spec_default()
            &&& step.state.selected_conversation_id(later) == Some(conversation_id)
        }),
{
}

/// A start that the Agent View refused changes nothing and tells nobody.
pub proof fn law_refused_start_changes_nothing(state: SurfaceState, start: NewConversationStart)
    requires
        start matches NewConversationStart::ViaAgentView(Err(_)),
    ensures
        state.start_new(start) == state.stay(),
{
}

/// When the targeted conversation is split, the target moves on to its new part;
/// a split of any other conversation changes nothing.
pub proof fn law_split_moves_selection(
    state: SurfaceState,
    event: BlocklistAIHistoryEvent,
    old_conversation_id: AIConversationId,
    new_conversation_id: AIConversationId,
    app: AppContext,
)
    requires
        !event.is_for_another(state.terminal_surface_id),
        event.change == (HistoryChange::SplitConversation {
            old_conversation_id,
            new_conversation_id,
        }),
    ensures
        state.selected_conversation_id(app) == Some(old_conversation_id)
            ==> state.on_history_event(event, app).state.pending == (PendingQueryState::Existing {
            conversation_id: new_conversation_id,
        }),
        state.selected_conversation_id(app) == Some(old_conversation_id)
            && !state.uses_agent_view_selection(app) ==> state.on_history_event(
            event,
            app,
        ).state.selected_conversation_id(app) == Some(new_conversation_id),
        state.selected_conversation_id(app) != Some(old_conversation_id)
            ==> state.on_history_event(event, app) == state.stay(),
{
}

/// A conversation that is removed, deleted or moved to another surface is not the
/// target afterwards, and no other target is lost with it. Where the Agent View
/// decides, the surface leaves that to the view.
pub proof fn law_lost_conversation_is_not_selected(
    state: SurfaceState,
    event: BlocklistAIHistoryEvent,
    conversation_id: AIConversationId,
    app: AppContext,
)
    requires
        !event.is_for_another(state.terminal_surface_id),
        event.change == (HistoryChange::RemoveConversation { conversation_id }) || event.change
            == (HistoryChange::DeletedConversation { conversation_id }) || event.change == (
        HistoryChange::ConversationTransferredBetweenTerminalSurfaces { conversation_id }),
    ensures
        !state.uses_agent_view_selection(app) ==> state.on_history_event(
            event,
            app,
        ).state.selected_conversation_id(app) == (if state.selected_conversation_id(app) == Some(
            conversation_id,
        ) {
            None
        } else {
            state.selected_conversation_id(app)
        }),
        state.uses_agent_view_selection(app) ==> state.on_history_event(event, app)
            == state.stay(),
{
}

/// When the conversations of a surface are cleared, its pending state is the
/// default one; an Agent View that decides is closed.
pub proof fn law_cleared_surface_starts_over(
    state: SurfaceState,
    event: BlocklistAIHistoryEvent,
    app: AppContext,
)
    requires
        !event.is_for_another(state.terminal_surface_id),
        event.change is ClearedConversationsForTerminalSurface,
    ensures
        state.on_history_event(event, app).state.pending == PendingQueryState::spec_default(),
        state.uses_agent_view_selection(app) ==> state.on_history_event(event, app).effects.last()
            == SurfaceEffect::ExitAgentView,
        !state.uses_agent_view_selection(app) ==> state.on_history_event(
            event,
            app,
        ).state.selected_conversation_id(app) is None,
{
}

/// What the history reports of another surface changes nothing here.
pub proof fn law_other_surfaces_do_not_interfere(
    state: SurfaceState,
    event: BlocklistAIHistoryEvent,
    app: AppContext,
)
    requires
        event.is_for_another(state.terminal_surface_id),
    ensures
        state.on_history_event(event, app) == state.stay(),
{
}

/// Every operation leaves alone which surface it is.
pub proof fn law_identity_is_kept(state: SurfaceState, operation: SurfaceOperation, app: AppContext)
    ensures
        state.step(operation, app).state.terminal_surface_id == state.terminal_surface_id,
        state.step(operation, app).state.surface == state.surface,
{
}

/// Every operation tells listeners of a new pending state if there is one, once,
/// before anything else that it wants done, and otherwise not at all.
pub proof fn law_notified_exactly_when_changed(
    state: SurfaceState,
    operation: SurfaceOperation,
    app: AppContext,
)
    ensures
        ({
            let step = state.step(operation, app);
            &&& step.state.pending != state.pending <==> step.effects.contains(notification())
            &&& forall|i: int|
                0 <= i < step.effects.len() && #[trigger] step.effects[i] == notification() ==> i
                    == 0
        }),
{
    let step = state.step(operation, app);
    if step.state.pending != state.pending {
        assert(step.effects[0] == notification());
    }
}

/// No operation opens or closes an Agent View that does not decide.
pub proof fn law_agent_view_is_left_alone(
    state: SurfaceState,
    operation: SurfaceOperation,
    app: AppContext,
)
    requires
        !state.uses_agent_view_selection(app),
    ensures
        forall|i: int|
            0 <= i < state.step(operation, app).effects.len() ==> !(#[trigger] state.step(
                operation,
                app,
            ).effects[i] is EnterAgentView) && !(state.step(operation, app).effects[i]
                is ExitAgentView),
{
}

/// Only the override of the targeted conversation is ever toggled, on behalf of
/// this surface.
pub proof fn law_toggles_only_the_target(
    state: SurfaceState,
    operation: SurfaceOperation,
    app: AppContext,
)
    ensures
        forall|i: int|
            0 <= i < state.step(operation, app).effects.len() ==> (#[trigger] state.step(
                operation,
                app,
            ).effects[i] matches SurfaceEffect::ToggleAutoexecuteOverride {
                conversation_id,
                terminal_surface_id,
            } ==> state.selected_conversation_id(app) == Some(conversation_id)
                && terminal_surface_id == state.terminal_surface_id),
{
}

/// Toggling the override never changes the target; where the surface keeps the
/// override itself, toggling switches it, and toggling again switches it back.
pub proof fn law_toggle_twice_restores(state: SurfaceState, app: AppContext)
    ensures
        state.toggle_autoexecute(app).state.selected_conversation_id(app)
            == state.selected_conversation_id(app),
        state.toggle_autoexecute(app).state.toggle_autoexecute(app).state == state,
        !state.uses_agent_view_selection(app) && state.pending is New
            ==> state.toggle_autoexecute(app).state.autoexecute_override(app)
            == state.autoexecute_override(app).toggled(),
{
}

/// Where the Agent View does not decide, there is a target exactly when the
/// pending query targets an existing conversation.
pub proof fn law_target_agrees_with_pending(state: SurfaceState, app: AppContext)
    requires
        !state.uses_agent_view_selection(app),
    ensures
        state.selected_conversation_id(app) is Some <==> state.pending is Existing,
{
}

/// A new surface targets no conversation yet. In a sandbox its first conversation
/// runs to completion, and elsewhere it respects the user's settings.
pub proof fn law_created_surface(
    terminal_surface_id: EntityId,
    surface: ConversationSurface,
    is_sandboxed: bool,
    app: AppContext,
)
    ensures
        ({
            let state = SurfaceState::created(terminal_surface_id, surface, is_sandboxed);
            &&& state.pending_conversation_id() is None
            &&& state.autoexecute_override(app) == (if is_sandboxed {
                AIConversationAutoexecuteMode::RunToCompletion
            } else {
                AIConversationAutoexecuteMode::RespectUserSettings
            })
        }),
{
}

/// After any row of operations it is still the same surface, and a listener that
/// was told of nothing has missed nothing.
pub proof fn law_runs_keep_identity_and_listeners(
    state: SurfaceState,
    operations: Seq<(SurfaceOperation, AppContext)>,
)
    ensures
        state.run(operations).state.terminal_surface_id == state.terminal_surface_id,
        state.run(operations).state.surface == state.surface,
        state.run(operations).state.pending != state.pending ==> state.run(
            operations,
        ).effects.contains(notification()),
    decreases operations.len(),
{
    if operations.len() > 0 {
        law_runs_keep_identity_and_listeners(state, operations.drop_last());
        let before = state.run(operations.drop_last());
        let (operation, app) = operations.last();
        let step = before.state.step(operation, app);
        law_identity_is_kept(before.state, operation, app);
        law_notified_exactly_when_changed(before.state, operation, app);
        let effects = state.run(operations).effects;
        if step.state.pending != before.state.pending {
            let i = choose|i: int|
                0 <= i < step.effects.len() && step.effects[i] == notification();
            assert(effects[before.effects.len() + i] == notification());
        } else if before.state.pending != state.pending {
            let i = choose|i: int|
                0 <= i < before.effects.len() && before.effects[i] == notification();
            assert(effects[i] == notification());
        }
    }
}

/// Whether a step leaves a surface with the given pending state, tells listeners
/// first if that is another than before, then wants the given things done, and
/// nothing more.
pub open spec fn leaves_pending(
    before: SurfaceState,
    step: SurfaceStep,
    pending: PendingQueryState,
    wanted: Seq<SurfaceEffect>,
) -> bool {
    let told: int = if before.pending == pending {
        0
    } else {
        1
    };
    &&& step.state.terminal_surface_id == before.terminal_surface_id
    &&& step.state.surface == before.surface
    &&& step.state.pending == pending
    &&& step.effects.len() == told + wanted.len()
    &&& told == 1 ==> step.effects[0] == SurfaceEffect::Emit(
        ConversationSurfaceEvent::PendingQueryStateUpdated,
    )
    &&& forall|i: int| 0 <= i < wanted.len() ==> step.effects[told + i] == #[trigger] wanted[i]
}

/// The Agent View decides for a GUI terminal view while its feature is on, and for
/// nothing else.
pub proof fn law_where_agent_view_decides(state: SurfaceState, app: AppContext)
    ensures
        state.uses_agent_view_selection(app) <==> app.agent_view_enabled && state.surface
            == ConversationSurface::TerminalView,
{
}

/// The target is what the Agent View shows where it decides, and elsewhere the
/// conversation that is pending, if one is.
pub proof fn law_what_is_the_target(
    state: SurfaceState,
    app: AppContext,
    conversation_id: AIConversationId,
)
    ensures
        app.agent_view_enabled && state.surface == ConversationSurface::TerminalView
            ==> state.selected_conversation_id(app) == app.agent_view.active_conversation_id,
        !app.agent_view_enabled || state.surface == ConversationSurface::Tui ==> (
        state.selected_conversation_id(app) == Some(conversation_id) <==> state.pending == (
        PendingQueryState::Existing { conversation_id })),
        state.pending_conversation_id() == Some(conversation_id) <==> state.pending == (
        PendingQueryState::Existing { conversation_id }),
{
}

/// The next query runs under the override of the conversation that it continues, if
/// that one is loaded, and under the user's settings if it is not. A query that
/// starts a conversation runs under the override that is pending.
pub proof fn law_override_is_the_conversations_own(state: SurfaceState, app: AppContext)
    ensures
        state.pending matches PendingQueryState::New { autoexecute_override }
            ==> state.autoexecute_override(app) == autoexecute_override,
        state.pending matches PendingQueryState::Existing { conversation_id } ==> {
            let loaded = app.history.conversations@;
            &&& forall|i: int|
                0 <= i < loaded.len() && #[trigger] loaded[i].id == conversation_id && (forall|
                    j: int,
                |
                    0 <= j < i ==> #[trigger] loaded[j].id != conversation_id)
                    ==> state.autoexecute_override(app) == loaded[i].autoexecute_override
            &&& (forall|i: int|
                0 <= i < loaded.len() ==> #[trigger] loaded[i].id != conversation_id)
                ==> state.autoexecute_override(app)
                == AIConversationAutoexecuteMode::RespectUserSettings
        },
{
    if let PendingQueryState::Existing { conversation_id } = state.pending {
        crate::context::law_history_finds_loaded_conversations(app.history, conversation_id);
    }
}

/// A surface is created as what it was asked for, with a new conversation pending.
pub proof fn law_surface_is_created_as_asked(
    terminal_surface_id: EntityId,
    surface: ConversationSurface,
    is_sandboxed: bool,
)
    ensures
        ({
            let state = SurfaceState::created(terminal_surface_id, surface, is_sandboxed);
            &&& state.terminal_surface_id == terminal_surface_id
            &&& state.surface == surface
            &&& state.pending matches PendingQueryState::New { autoexecute_override } && (
            autoexecute_override is RunToCompletion <==> is_sandboxed)
        }),
        PendingQueryState::spec_default() == (PendingQueryState::New {
            autoexecute_override: AIConversationAutoexecuteMode::RespectUserSettings,
        }),
{
}

/// Selecting a conversation makes it the pending one. A GUI terminal view whose
/// Agent View decides has the view opened on it, for the reason that was given,
/// whatever was pending before; no other surface has anything done.
pub proof fn law_selecting_a_conversation(
    state: SurfaceState,
    conversation_id: AIConversationId,
    origin: AgentViewEntryOrigin,
    app: AppContext,
)
    ensures
        leaves_pending(
            state,
            state.select_existing(conversation_id, origin, app),
            PendingQueryState::Existing { conversation_id },
            if app.agent_view_enabled && state.surface == ConversationSurface::TerminalView {
                seq![SurfaceEffect::EnterAgentView { target: Some(conversation_id), origin }]
            } else {
                Seq::empty()
            },
        ),
{
}

/// Selecting a new conversation makes the default state pending. A GUI terminal view
/// whose Agent View decides has the view opened on a new conversation, for the reason
/// that was given, whatever was pending before; no other surface has anything done.
pub proof fn law_selecting_a_new_conversation(
    state: SurfaceState,
    origin: AgentViewEntryOrigin,
    app: AppContext,
)
    ensures
        leaves_pending(
            state,
            state.select_new(origin, app),
            PendingQueryState::New {
                autoexecute_override: AIConversationAutoexecuteMode::RespectUserSettings,
            },
            if app.agent_view_enabled && state.surface == ConversationSurface::TerminalView {
                seq![SurfaceEffect::EnterAgentView { target: None, origin }]
            } else {
                Seq::empty()
            },
        ),
        state.uses_agent_view_selection(app) ==> state.select_new(origin, app).effects.last() == (
        SurfaceEffect::EnterAgentView { target: None, origin }),
{
}

/// A new conversation is asked of the Agent View where it decides, for the reason
/// that was given, and elsewhere of the history, for this surface and with all
/// switches off.
pub proof fn law_planning_a_new_conversation(
    state: SurfaceState,
    origin: AgentViewEntryOrigin,
    app: AppContext,
)
    ensures
        app.agent_view_enabled && state.surface == ConversationSurface::TerminalView
            ==> state.plan_new(origin, app) == (NewConversationPlan::EnterAgentView { origin }),
        !app.agent_view_enabled || state.surface == ConversationSurface::Tui ==> state.plan_new(
            origin,
            app,
        ) == (NewConversationPlan::StartInHistory {
            terminal_surface_id: state.terminal_surface_id,
            switches: (false, false, false),
        }),
{
}

/// A conversation that the history started is the pending one; one that the Agent
/// View started leaves the default state pending; a refusal leaves everything as it
/// was. Nothing but the telling is done in any case.
pub proof fn law_starting_a_conversation(
    state: SurfaceState,
    conversation_id: AIConversationId,
    error: crate::events::EnterAgentViewError,
)
    ensures
        leaves_pending(
            state,
            state.start_new(NewConversationStart::ViaHistory(conversation_id)),
            PendingQueryState::Existing { conversation_id },
            Seq::empty(),
        ),
        leaves_pending(
            state,
            state.start_new(NewConversationStart::ViaAgentView(Ok(conversation_id))),
            PendingQueryState::New {
                autoexecute_override: AIConversationAutoexecuteMode::RespectUserSettings,
            },
            Seq::empty(),
        ),
        leaves_pending(
            state,
            state.start_new(NewConversationStart::ViaAgentView(Err(error))),
            state.pending,
            Seq::empty(),
        ),
{
}

/// Toggling has the override of the targeted conversation toggled in the history, on
/// behalf of this surface, and leaves the surface alone. Without a target it switches
/// the pending override to the other mode, unless the Agent View decides: then it
/// does nothing.
pub proof fn law_toggling_the_override(state: SurfaceState, app: AppContext)
    ensures
        state.selected_conversation_id(app) matches Some(conversation_id) ==> leaves_pending(
            state,
            state.toggle_autoexecute(app),
            state.pending,
            seq![
                SurfaceEffect::ToggleAutoexecuteOverride {
                    conversation_id,
                    terminal_surface_id: state.terminal_surface_id,
                },
            ],
        ),
        state.selected_conversation_id(app) is None && app.agent_view_enabled && state.surface
            == ConversationSurface::TerminalView ==> leaves_pending(
            state,
            state.toggle_autoexecute(app),
            state.pending,
            Seq::empty(),
        ),
        (!app.agent_view_enabled || state.surface == ConversationSurface::Tui) ==> (
        state.pending matches PendingQueryState::New { autoexecute_override } ==> leaves_pending(
            state,
            state.toggle_autoexecute(app),
            PendingQueryState::New {
                autoexecute_override: if autoexecute_override is RespectUserSettings {
                    AIConversationAutoexecuteMode::RunToCompletion
                } else {
                    AIConversationAutoexecuteMode::RespectUserSettings
                },
            },
            Seq::empty(),
        )),
{
}

/// What the history reports of this surface, or of all surfaces, does exactly this:
/// clearing makes the default state pending and closes an Agent View that decides; a
/// split of the target selects its new part, as the agent's request; the loss of the
/// target makes the default state pending, unless the Agent View decides; and
/// everything else does nothing, as does everything that is reported of another
/// surface.
pub proof fn law_history_events_do_this(
    state: SurfaceState,
    event: BlocklistAIHistoryEvent,
    app: AppContext,
)
    ensures
        ({
            let step = state.on_history_event(event, app);
            let view_decides = app.agent_view_enabled && state.surface
                == ConversationSurface::TerminalView;
            let fresh = PendingQueryState::New {
                autoexecute_override: AIConversationAutoexecuteMode::RespectUserSettings,
            };
            let nothing = leaves_pending(state, step, state.pending, Seq::empty());
            let lost = match event.change {
                HistoryChange::RemoveConversation { conversation_id } => Some(conversation_id),
                HistoryChange::DeletedConversation { conversation_id } => Some(conversation_id),
                HistoryChange::ConversationTransferredBetweenTerminalSurfaces {
                    conversation_id,
                } => Some(conversation_id),
                _ => None,
            };
            if event.terminal_surface_id is Some && event.terminal_surface_id != Some(
                state.terminal_surface_id,
            ) {
                nothing
            } else if event.change is ClearedConversationsForTerminalSurface {
                leaves_pending(
                    state,
                    step,
                    fresh,
                    if view_decides {
                        seq![SurfaceEffect::ExitAgentView]
                    } else {
                        Seq::empty()
                    },
                )
            } else if event.change is SplitConversation {
                let new_conversation_id = event.change->SplitConversation_new_conversation_id;
                if state.selected_conversation_id(app) == Some(
                    event.change->SplitConversation_old_conversation_id,
                ) {
                    leaves_pending(
                        state,
                        step,
                        PendingQueryState::Existing { conversation_id: new_conversation_id },
                        if view_decides {
                            seq![
                                SurfaceEffect::EnterAgentView {
                                    target: Some(new_conversation_id),
                                    origin: AgentViewEntryOrigin::AgentRequestedNewConversation,
                                },
                            ]
                        } else {
                            Seq::empty()
                        },
                    )
                } else {
                    nothing
                }
            } else if lost is Some && !view_decides && state.selected_conversation_id(app) == lost {
                leaves_pending(state, step, fresh, Seq::empty())
            } else {
                nothing
            }
        }),
{
}

/// What an Agent View reports never changes the selection. Entering and leaving are
/// passed on with all that was reported of them, and a confirmed exit is not.
pub proof fn law_agent_view_events_are_passed_on(
    state: SurfaceState,
    event: AgentViewControllerEvent,
)
    ensures
        ({
            let step = state.on_agent_view_event(event);
            &&& step.state == state
            &&& match event {
                AgentViewControllerEvent::EnteredAgentView { display_mode, origin } => {
                    step.effects.len() == 1 && step.effects[0] == SurfaceEffect::Emit(
                        ConversationSurfaceEvent::AgentViewEntered { display_mode, origin },
                    )
                },
                AgentViewControllerEvent::ExitedAgentView {
                    conversation_id,
                    final_exchange_count,
                    is_exit_before_new_entrance,
                } => step.effects.len() == 1 && step.effects[0] == SurfaceEffect::Emit(
                    ConversationSurfaceEvent::AgentViewExited {
                        conversation_id,
                        final_exchange_count,
                        is_exit_before_new_entrance,
                    },
                ),
                AgentViewControllerEvent::ExitConfirmed => step.effects.len() == 0,
            }
        }),
{
}

} // verus!
