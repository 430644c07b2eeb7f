use conversation_surface::context::{
    AIConversation, AIConversationAutoexecuteMode, AgentViewController, AppContext,
    BlocklistAIHistoryModel, LiveConversation,
};
use conversation_surface::events::{
    AgentViewControllerEvent, AgentViewDisplayMode, AgentViewEntryOrigin, BlocklistAIHistoryEvent,
    ConversationSurfaceEvent, EnterAgentViewError, HistoryChange,
};
use conversation_surface::ids::{AIConversationId, EntityId};
use conversation_surface::surface::{
    ConversationSurfaceModel, NewConversationPlan, NewConversationStart, PendingQueryState,
    SurfaceEffect,
};

const SURFACE: EntityId = EntityId { value: 7 };
const OTHER_SURFACE: EntityId = EntityId { value: 8 };
const NOTIFIED: SurfaceEffect =
    SurfaceEffect::Emit(ConversationSurfaceEvent::PendingQueryStateUpdated);

fn id(value: u128) -> AIConversationId {
    AIConversationId { value }
}

fn world(agent_view_enabled: bool) -> AppContext {
    AppContext {
        agent_view_enabled,
        is_sandboxed: false,
        agent_view: AgentViewController {
            is_active: false,
            is_fullscreen: false,
            active_conversation_id: None,
        },
        history: BlocklistAIHistoryModel {
            conversations: vec![],
            live_conversations: vec![],
        },
    }
}

fn loaded(value: u128, autoexecute_override: AIConversationAutoexecuteMode) -> AIConversation {
    AIConversation { id: id(value), autoexecute_override, latest_exchange: None }
}

/// Opens and closes the Agent View as the effects say.
fn perform(app: &mut AppContext, effects: &[SurfaceEffect]) {
    for effect in effects {
        match effect {
            SurfaceEffect::EnterAgentView { target, .. } => {
                app.agent_view.is_active = true;
                app.agent_view.active_conversation_id = *target;
            }
            SurfaceEffect::ExitAgentView => {
                app.agent_view.is_active = false;
                app.agent_view.active_conversation_id = None;
            }
            _ => {}
        }
    }
}

fn here(change: HistoryChange) -> BlocklistAIHistoryEvent {
    BlocklistAIHistoryEvent { terminal_surface_id: Some(SURFACE), change }
}

#[test]
fn gui_surface_delegates_selection_to_agent_view() {
    let mut app = world(true);
    let mut surface = ConversationSurfaceModel::new_for_terminal_view(SURFACE, &app);
    let conversation_id = id(11);
    let mut effects = vec![];

    surface.select_existing_conversation(
        conversation_id,
        AgentViewEntryOrigin::ConversationSelector,
        &app,
        &mut effects,
    );
    perform(&mut app, &effects);

    assert_eq!(surface.selected_conversation_id(&app), Some(conversation_id));
    assert!(app.agent_view.is_active);
    assert!(surface.is_agent_view_active(&app));
    assert_eq!(
        effects,
        vec![
            NOTIFIED,
            SurfaceEffect::EnterAgentView {
                target: Some(conversation_id),
                origin: AgentViewEntryOrigin::ConversationSelector,
            },
        ]
    );
}

#[test]
fn tui_surface_owns_next_prompt_selection() {
    let app = world(true);
    let mut surface = ConversationSurfaceModel::new_for_tui_surface(SURFACE, &app);
    let conversation_id = id(12);
    let mut effects = vec![];

    surface.select_existing_conversation(
        conversation_id,
        AgentViewEntryOrigin::Cli,
        &app,
        &mut effects,
    );
    assert_eq!(surface.selected_conversation_id(&app), Some(conversation_id));

    surface.select_new_conversation(AgentViewEntryOrigin::Cli, &app, &mut effects);
    assert_eq!(surface.selected_conversation_id(&app), None);
    assert_eq!(effects, vec![NOTIFIED, NOTIFIED]);
}

#[test]
fn tui_surface_creates_and_selects_terminal_surface_scoped_conversation() {
    let mut app = world(false);
    let mut surface = ConversationSurfaceModel::new_for_tui_surface(SURFACE, &app);
    let fresh = id(13);

    let start = match surface.plan_new_conversation(AgentViewEntryOrigin::Cli, &app) {
        NewConversationPlan::StartInHistory { terminal_surface_id, switches } => {
            assert_eq!(switches, (false, false, false));
            app.history.live_conversations.push(LiveConversation {
                terminal_surface_id,
                conversation_id: fresh,
            });
            NewConversationStart::ViaHistory(fresh)
        }
        NewConversationPlan::EnterAgentView { .. } => panic!("a TUI has no Agent View"),
    };
    let mut effects = vec![];
    let conversation_id = surface
        .try_start_new_conversation(start, &mut effects)
        .expect("TUI conversation creation should succeed");

    assert_eq!(surface.selected_conversation_id(&app), Some(conversation_id));
    assert_eq!(
        app.history
            .live_conversations
            .iter()
            .filter(|live| live.terminal_surface_id == SURFACE)
            .map(|live| live.conversation_id)
            .collect::<Vec<_>>(),
        vec![conversation_id]
    );
    assert!(app.history.is_live(SURFACE, conversation_id));
    assert!(!app.history.is_live(OTHER_SURFACE, conversation_id));
    assert_eq!(effects, vec![NOTIFIED]);
}

#[test]
fn tui_surface_reconciles_split_and_removed_selection() {
    let app = world(false);
    let mut surface = ConversationSurfaceModel::new_for_tui_surface(SURFACE, &app);
    let old_conversation_id = id(14);
    let new_conversation_id = id(15);
    let mut effects = vec![];

    surface.select_existing_conversation(
        old_conversation_id,
        AgentViewEntryOrigin::Cli,
        &app,
        &mut effects,
    );
    surface.handle_history_event(
        &here(HistoryChange::SplitConversation { old_conversation_id, new_conversation_id }),
        &app,
        &mut effects,
    );
    assert_eq!(surface.selected_conversation_id(&app), Some(new_conversation_id));

    surface.handle_history_event(
        &here(HistoryChange::RemoveConversation { conversation_id: new_conversation_id }),
        &app,
        &mut effects,
    );
    assert_eq!(surface.selected_conversation_id(&app), None);
    assert_eq!(effects, vec![NOTIFIED, NOTIFIED, NOTIFIED]);
}

#[test]
fn gui_surface_without_the_feature_keeps_its_own_selection() {
    let mut app = world(false);
    app.agent_view.active_conversation_id = Some(id(99));
    let mut surface = ConversationSurfaceModel::new_for_terminal_view(SURFACE, &app);
    let mut effects = vec![];
    assert!(!surface.uses_agent_view_selection(&app));
    assert_eq!(surface.selected_conversation_id(&app), None);
    surface.select_existing_conversation(id(1), AgentViewEntryOrigin::Cli, &app, &mut effects);
    assert_eq!(surface.selected_conversation_id(&app), Some(id(1)));
    assert_eq!(effects, vec![NOTIFIED]);
}

#[test]
fn selecting_the_same_conversation_again_notifies_nobody() {
    let app = world(false);
    let mut surface = ConversationSurfaceModel::new_for_tui_surface(SURFACE, &app);
    let mut effects = vec![];
    surface.select_new_conversation(AgentViewEntryOrigin::Cli, &app, &mut effects);
    assert!(effects.is_empty());
    surface.select_existing_conversation(id(1), AgentViewEntryOrigin::Cli, &app, &mut effects);
    surface.select_existing_conversation(id(1), AgentViewEntryOrigin::Cli, &app, &mut effects);
    assert_eq!(effects, vec![NOTIFIED]);
}

#[test]
fn gui_selection_of_a_new_conversation_opens_the_agent_view_on_one() {
    let app = world(true);
    let mut surface = ConversationSurfaceModel::new_for_terminal_view(SURFACE, &app);
    let mut effects = vec![];
    surface.select_new_conversation(AgentViewEntryOrigin::Other(3), &app, &mut effects);
    assert_eq!(
        effects,
        vec![SurfaceEffect::EnterAgentView {
            target: None,
            origin: AgentViewEntryOrigin::Other(3),
        }]
    );
}

#[test]
fn gui_start_goes_through_the_agent_view() {
    let app = world(true);
    let mut surface = ConversationSurfaceModel::new_for_terminal_view(SURFACE, &app);
    let mut effects = vec![];
    surface.select_existing_conversation(id(1), AgentViewEntryOrigin::Cli, &app, &mut effects);
    effects.clear();
    assert_eq!(
        surface.plan_new_conversation(AgentViewEntryOrigin::Other(4), &app),
        NewConversationPlan::EnterAgentView { origin: AgentViewEntryOrigin::Other(4) }
    );
    let started = surface
        .try_start_new_conversation(NewConversationStart::ViaAgentView(Ok(id(2))), &mut effects);
    assert_eq!(started, Ok(id(2)));
    assert_eq!(*surface.pending_query_state(), PendingQueryState::default());
    assert_eq!(effects, vec![NOTIFIED]);
}

#[test]
fn refused_start_changes_nothing() {
    let app = world(true);
    let mut surface = ConversationSurfaceModel::new_for_terminal_view(SURFACE, &app);
    let mut effects = vec![];
    surface.select_existing_conversation(id(1), AgentViewEntryOrigin::Cli, &app, &mut effects);
    effects.clear();
    let refusal = || EnterAgentViewError { message: "busy".to_owned() };
    let started = surface.try_start_new_conversation(
        NewConversationStart::ViaAgentView(Err(refusal())),
        &mut effects,
    );
    assert_eq!(started, Err(refusal()));
    assert!(effects.is_empty());
    assert!(surface.is_targeting_existing_conversation());
}

#[test]
fn events_of_other_surfaces_are_ignored() {
    let app = world(false);
    let mut surface = ConversationSurfaceModel::new_for_tui_surface(SURFACE, &app);
    let mut effects = vec![];
    surface.select_existing_conversation(id(1), AgentViewEntryOrigin::Cli, &app, &mut effects);
    effects.clear();
    let elsewhere = BlocklistAIHistoryEvent {
        terminal_surface_id: Some(OTHER_SURFACE),
        change: HistoryChange::RemoveConversation { conversation_id: id(1) },
    };
    surface.handle_history_event(&elsewhere, &app, &mut effects);
    assert_eq!(surface.selected_conversation_id(&app), Some(id(1)));
    let everywhere = BlocklistAIHistoryEvent {
        terminal_surface_id: None,
        change: HistoryChange::DeletedConversation { conversation_id: id(1) },
    };
    surface.handle_history_event(&everywhere, &app, &mut effects);
    assert_eq!(surface.selected_conversation_id(&app), None);
    assert_eq!(effects, vec![NOTIFIED]);
}

#[test]
fn losing_another_conversation_keeps_the_selection() {
    let app = world(false);
    let mut surface = ConversationSurfaceModel::new_for_tui_surface(SURFACE, &app);
    let mut effects = vec![];
    surface.select_existing_conversation(id(1), AgentViewEntryOrigin::Cli, &app, &mut effects);
    effects.clear();
    surface.handle_history_event(
        &here(HistoryChange::RemoveConversation { conversation_id: id(2) }),
        &app,
        &mut effects,
    );
    surface.handle_history_event(
        &here(HistoryChange::SplitConversation {
            old_conversation_id: id(2),
            new_conversation_id: id(3),
        }),
        &app,
        &mut effects,
    );
    surface.handle_history_event(&here(HistoryChange::Other), &app, &mut effects);
    assert_eq!(surface.selected_conversation_id(&app), Some(id(1)));
    assert!(effects.is_empty());
    surface.handle_history_event(
        &here(HistoryChange::ConversationTransferredBetweenTerminalSurfaces {
            conversation_id: id(1),
        }),
        &app,
        &mut effects,
    );
    assert_eq!(surface.selected_conversation_id(&app), None);
}

#[test]
fn gui_surface_leaves_lost_conversations_to_the_agent_view() {
    let mut app = world(true);
    let mut surface = ConversationSurfaceModel::new_for_terminal_view(SURFACE, &app);
    let mut effects = vec![];
    surface.select_existing_conversation(id(1), AgentViewEntryOrigin::Cli, &app, &mut effects);
    perform(&mut app, &effects);
    effects.clear();
    surface.handle_history_event(
        &here(HistoryChange::RemoveConversation { conversation_id: id(1) }),
        &app,
        &mut effects,
    );
    assert!(effects.is_empty());
    assert_eq!(surface.selected_conversation_id(&app), Some(id(1)));
}

#[test]
fn gui_split_reopens_the_agent_view() {
    let mut app = world(true);
    app.agent_view.active_conversation_id = Some(id(1));
    let mut surface = ConversationSurfaceModel::new_for_terminal_view(SURFACE, &app);
    let mut effects = vec![];
    surface.handle_history_event(
        &here(HistoryChange::SplitConversation {
            old_conversation_id: id(1),
            new_conversation_id: id(2),
        }),
        &app,
        &mut effects,
    );
    assert_eq!(
        effects,
        vec![
            NOTIFIED,
            SurfaceEffect::EnterAgentView {
                target: Some(id(2)),
                origin: AgentViewEntryOrigin::AgentRequestedNewConversation,
            },
        ]
    );
}

#[test]
fn clearing_starts_over_and_closes_the_agent_view() {
    let mut app = world(true);
    let mut surface = ConversationSurfaceModel::new_for_terminal_view(SURFACE, &app);
    let mut effects = vec![];
    surface.select_existing_conversation(id(1), AgentViewEntryOrigin::Cli, &app, &mut effects);
    perform(&mut app, &effects);
    effects.clear();
    surface.handle_history_event(
        &here(HistoryChange::ClearedConversationsForTerminalSurface),
        &app,
        &mut effects,
    );
    assert_eq!(effects, vec![NOTIFIED, SurfaceEffect::ExitAgentView]);
    perform(&mut app, &effects);
    assert_eq!(surface.selected_conversation_id(&app), None);
    assert!(!surface.is_targeting_existing_conversation());
}

#[test]
fn toggling_a_new_conversation_switches_its_override_back_and_forth() {
    let app = world(false);
    let mut surface = ConversationSurfaceModel::new_for_tui_surface(SURFACE, &app);
    let mut effects = vec![];
    assert_eq!(
        surface.pending_query_autoexecute_override(&app),
        AIConversationAutoexecuteMode::RespectUserSettings
    );
    surface.toggle_pending_query_autoexecute(&app, &mut effects);
    assert_eq!(
        surface.pending_query_autoexecute_override(&app),
        AIConversationAutoexecuteMode::RunToCompletion
    );
    surface.toggle_pending_query_autoexecute(&app, &mut effects);
    assert_eq!(*surface.pending_query_state(), PendingQueryState::default());
    assert_eq!(effects, vec![NOTIFIED, NOTIFIED]);
}

#[test]
fn toggling_an_existing_conversation_is_left_to_the_history() {
    let mut app = world(false);
    app.history.conversations = vec![
        loaded(1, AIConversationAutoexecuteMode::RespectUserSettings),
        loaded(2, AIConversationAutoexecuteMode::RunToCompletion),
    ];
    let mut surface = ConversationSurfaceModel::new_for_tui_surface(SURFACE, &app);
    let mut effects = vec![];
    surface.select_existing_conversation(id(2), AgentViewEntryOrigin::Cli, &app, &mut effects);
    assert_eq!(
        surface.pending_query_autoexecute_override(&app),
        AIConversationAutoexecuteMode::RunToCompletion
    );
    assert_eq!(surface.selected_conversation(&app), Some(&app.history.conversations[1]));
    effects.clear();
    surface.toggle_pending_query_autoexecute(&app, &mut effects);
    assert_eq!(
        effects,
        vec![SurfaceEffect::ToggleAutoexecuteOverride {
            conversation_id: id(2),
            terminal_surface_id: SURFACE,
        }]
    );
    surface.select_existing_conversation(id(3), AgentViewEntryOrigin::Cli, &app, &mut effects);
    assert_eq!(
        surface.pending_query_autoexecute_override(&app),
        AIConversationAutoexecuteMode::RespectUserSettings
    );
    assert_eq!(surface.selected_conversation(&app), None);
}

#[test]
fn toggling_under_the_agent_view_concerns_what_it_shows() {
    let mut app = world(true);
    let mut surface = ConversationSurfaceModel::new_for_terminal_view(SURFACE, &app);
    let mut effects = vec![];
    surface.toggle_pending_query_autoexecute(&app, &mut effects);
    assert!(effects.is_empty());
    app.agent_view.active_conversation_id = Some(id(5));
    surface.toggle_pending_query_autoexecute(&app, &mut effects);
    assert_eq!(
        effects,
        vec![SurfaceEffect::ToggleAutoexecuteOverride {
            conversation_id: id(5),
            terminal_surface_id: SURFACE,
        }]
    );
    assert_eq!(*surface.pending_query_state(), PendingQueryState::default());
}

#[test]
fn sandboxed_surface_runs_to_completion() {
    let mut app = world(false);
    app.is_sandboxed = true;
    let surface = ConversationSurfaceModel::new_for_tui_surface(SURFACE, &app);
    assert_eq!(
        *surface.pending_query_state(),
        PendingQueryState::New {
            autoexecute_override: AIConversationAutoexecuteMode::RunToCompletion,
        }
    );
    assert!(!surface.pending_query_state().targets_existing_conversation());
    assert_eq!(surface.terminal_surface_id(), SURFACE);
}

#[test]
fn agent_view_events_are_passed_on() {
    let app = world(true);
    let surface = ConversationSurfaceModel::new_for_terminal_view(SURFACE, &app);
    let mut effects = vec![];
    surface.handle_agent_view_event(
        &AgentViewControllerEvent::EnteredAgentView {
            display_mode: AgentViewDisplayMode::Fullscreen,
            origin: AgentViewEntryOrigin::Cli,
        },
        &mut effects,
    );
    surface.handle_agent_view_event(&AgentViewControllerEvent::ExitConfirmed, &mut effects);
    surface.handle_agent_view_event(
        &AgentViewControllerEvent::ExitedAgentView {
            conversation_id: id(1),
            final_exchange_count: 4,
            is_exit_before_new_entrance: true,
        },
        &mut effects,
    );
    assert_eq!(
        effects,
        vec![
            SurfaceEffect::Emit(ConversationSurfaceEvent::AgentViewEntered {
                display_mode: AgentViewDisplayMode::Fullscreen,
                origin: AgentViewEntryOrigin::Cli,
            }),
            SurfaceEffect::Emit(ConversationSurfaceEvent::AgentViewExited {
                conversation_id: id(1),
                final_exchange_count: 4,
                is_exit_before_new_entrance: true,
            }),
        ]
    );
}

#[test]
fn only_a_gui_surface_has_an_agent_view() {
    let mut app = world(true);
    app.agent_view.is_active = true;
    app.agent_view.is_fullscreen = true;
    let gui = ConversationSurfaceModel::new_for_terminal_view(SURFACE, &app);
    let tui = ConversationSurfaceModel::new_for_tui_surface(SURFACE, &app);
    assert!(gui.is_agent_view_active(&app) && gui.is_agent_view_fullscreen(&app));
    assert!(!tui.is_agent_view_active(&app) && !tui.is_agent_view_fullscreen(&app));
    assert!(!tui.uses_agent_view_selection(&app));
}

#[test]
fn surface_stays_itself_through_a_row_of_operations() {
    let app = world(false);
    let mut surface = ConversationSurfaceModel::new_for_tui_surface(SURFACE, &app);
    let mut effects = vec![];
    surface.toggle_pending_query_autoexecute(&app, &mut effects);
    surface.select_existing_conversation(id(1), AgentViewEntryOrigin::Cli, &app, &mut effects);
    surface.toggle_pending_query_autoexecute(&app, &mut effects);
    surface.handle_history_event(
        &here(HistoryChange::ClearedConversationsForTerminalSurface),
        &app,
        &mut effects,
    );
    surface.handle_history_event(
        &here(HistoryChange::ClearedConversationsForTerminalSurface),
        &app,
        &mut effects,
    );
    assert_eq!(surface.terminal_surface_id(), SURFACE);
    assert_eq!(*surface.pending_query_state(), PendingQueryState::default());
    assert_eq!(
        effects,
        vec![
            NOTIFIED,
            NOTIFIED,
            SurfaceEffect::ToggleAutoexecuteOverride {
                conversation_id: id(1),
                terminal_surface_id: SURFACE,
            },
            NOTIFIED,
        ]
    );
}
