use conversation_surface::context::{
    AIAgentExchange, AIAgentOutput, AIAgentText, AIAgentTextSection, AIConversation,
    AIConversationAutoexecuteMode, AgentViewController, AppContext, BlocklistAIHistoryModel,
    LiveConversation,
};
use conversation_surface::conversation_model::{
    CloudConversationData, PromptAnswer, PromptStep, RestoreSource, TuiConversationModel,
    TuiConversationModelEvent, TuiEffect,
};
use conversation_surface::events::{
    AgentViewEntryOrigin, BlocklistAIHistoryEvent, ConversationStatus, ConversationStatusUpdate,
    ConversationSurfaceEvent, EnterAgentViewError, HistoryChange,
};
use conversation_surface::ids::{AIConversationId, EntityId};
use conversation_surface::prompt_stream::{PromptStreamEffect, PromptStreamSurface};
use conversation_surface::surface::{
    ConversationSurfaceModel, NewConversationPlan, NewConversationStart, SurfaceEffect,
};

const SURFACE: EntityId = EntityId { value: 42 };
const NOTIFIED: TuiEffect = TuiEffect::Surface(SurfaceEffect::Emit(
    ConversationSurfaceEvent::PendingQueryStateUpdated,
));

fn id(value: u128) -> AIConversationId {
    AIConversationId { value }
}

fn world() -> AppContext {
    AppContext {
        agent_view_enabled: true,
        is_sandboxed: false,
        agent_view: AgentViewController {
            is_active: false,
            is_fullscreen: false,
            active_conversation_id: None,
        },
        history: BlocklistAIHistoryModel { conversations: vec![], live_conversations: vec![] },
    }
}

fn conversation(value: u128, output: Option<AIAgentOutput>) -> AIConversation {
    AIConversation {
        id: id(value),
        autoexecute_override: AIConversationAutoexecuteMode::RespectUserSettings,
        latest_exchange: Some(AIAgentExchange { output }),
    }
}

fn live(value: u128) -> LiveConversation {
    LiveConversation { terminal_surface_id: SURFACE, conversation_id: id(value) }
}

fn plain(text: &str) -> AIAgentTextSection {
    AIAgentTextSection::PlainText { text: text.to_owned() }
}

fn answer(action_count: usize, texts: Vec<Vec<AIAgentTextSection>>) -> Option<AIAgentOutput> {
    Some(AIAgentOutput {
        action_count,
        texts: texts.into_iter().map(|sections| AIAgentText { sections }).collect(),
    })
}

fn query(prompt: &str, value: u128) -> TuiEffect {
    TuiEffect::SendUserQuery { prompt: prompt.to_owned(), conversation_id: id(value) }
}

fn error(message: &str) -> TuiEffect {
    TuiEffect::Emit(TuiConversationModelEvent::Error { message: message.to_owned() })
}

fn print(text: &str) -> PromptStreamEffect {
    PromptStreamEffect::Print { text: text.to_owned() }
}

fn status(is_in_progress: bool, update: ConversationStatusUpdate) -> TuiConversationModelEvent {
    TuiConversationModelEvent::ConversationStatusChanged {
        conversation_id: id(1),
        status: ConversationStatus { is_in_progress, label: "Success".to_owned() },
        update,
    }
}

const UPDATED: TuiConversationModelEvent = TuiConversationModelEvent::ConversationUpdated {
    conversation_id: AIConversationId { value: 1 },
};

#[test]
fn first_prompt_starts_a_conversation_and_the_next_follows_it() {
    let app = world();
    let mut stream = PromptStreamSurface::new(SURFACE, &app);
    let mut effects = vec![];
    let step = stream.submit_prompt("one".to_owned(), None, &app, &mut effects);
    assert_eq!(
        step,
        PromptStep::StartConversation {
            plan: NewConversationPlan::StartInHistory {
                terminal_surface_id: SURFACE,
                switches: (false, false, false),
            },
            prompt: "one".to_owned(),
        }
    );
    assert!(effects.is_empty());
    let step = stream.resume_prompt(
        PromptAnswer::Started {
            prompt: "one".to_owned(),
            start: NewConversationStart::ViaHistory(id(5)),
        },
        &app,
        &mut effects,
    );
    assert_eq!(step, PromptStep::Finished);
    assert_eq!(effects, vec![NOTIFIED, query("one", 5)]);
    assert_eq!(stream.conversation_surface().selected_conversation_id(&app), Some(id(5)));
    effects.clear();
    let step = stream.submit_prompt("two".to_owned(), None, &app, &mut effects);
    assert_eq!(step, PromptStep::Finished);
    assert_eq!(effects, vec![query("two", 5)]);
}

#[test]
fn live_conversation_is_prompted_at_once() {
    let mut app = world();
    app.history.live_conversations = vec![live(3), live(1)];
    let mut stream = PromptStreamSurface::new(SURFACE, &app);
    let mut effects = vec![];
    let step = stream.submit_prompt("hi".to_owned(), Some(id(1)), &app, &mut effects);
    assert_eq!(step, PromptStep::Finished);
    assert_eq!(effects, vec![NOTIFIED, query("hi", 1)]);
}

#[test]
fn loaded_conversation_is_restored_first() {
    let mut app = world();
    app.history.conversations = vec![conversation(1, None)];
    let mut stream = PromptStreamSurface::new(SURFACE, &app);
    let mut effects = vec![];
    let step = stream.submit_prompt("hi".to_owned(), Some(id(1)), &app, &mut effects);
    assert_eq!(
        step,
        PromptStep::RestoreConversation {
            terminal_surface_id: SURFACE,
            conversation_id: id(1),
            source: RestoreSource::Loaded,
            prompt: "hi".to_owned(),
        }
    );
    assert!(effects.is_empty());
    app.history.live_conversations = vec![live(1)];
    let step = stream.resume_prompt(
        PromptAnswer::Restored { prompt: "hi".to_owned(), conversation_id: id(1) },
        &app,
        &mut effects,
    );
    assert_eq!(step, PromptStep::Finished);
    assert_eq!(effects, vec![NOTIFIED, query("hi", 1)]);
}

#[test]
fn unknown_conversation_is_fetched_first() {
    let app = world();
    let mut stream = PromptStreamSurface::new(SURFACE, &app);
    let mut effects = vec![];
    let step = stream.submit_prompt("hi".to_owned(), Some(id(1)), &app, &mut effects);
    assert_eq!(
        step,
        PromptStep::LoadConversation { conversation_id: id(1), prompt: "hi".to_owned() }
    );
    let step = stream.resume_prompt(
        PromptAnswer::Fetched {
            prompt: "hi".to_owned(),
            conversation_id: id(1),
            fetched: Some(CloudConversationData::Oz(conversation(1, None))),
        },
        &app,
        &mut effects,
    );
    assert_eq!(
        step,
        PromptStep::RestoreConversation {
            terminal_surface_id: SURFACE,
            conversation_id: id(1),
            source: RestoreSource::Fetched(conversation(1, None)),
            prompt: "hi".to_owned(),
        }
    );
    assert!(effects.is_empty());
}

#[test]
fn failed_fetch_is_told() {
    let app = world();
    for fetched in [None, Some(CloudConversationData::Other)] {
        let mut stream = PromptStreamSurface::new(SURFACE, &app);
        let mut effects = vec![];
        let step = stream.resume_prompt(
            PromptAnswer::Fetched {
                prompt: "hi".to_owned(),
                conversation_id: id(0xab),
                fetched,
            },
            &app,
            &mut effects,
        );
        assert_eq!(step, PromptStep::Finished);
        assert_eq!(
            effects,
            vec![error(
                "Failed to load local conversation 00000000-0000-0000-0000-0000000000ab"
            )]
        );
    }
}

#[test]
fn conversation_that_is_not_live_is_refused() {
    let mut app = world();
    app.history.live_conversations = vec![LiveConversation {
        terminal_surface_id: EntityId { value: 43 },
        conversation_id: id(1),
    }];
    let model = TuiConversationModel::new(SURFACE);
    let mut surface = ConversationSurfaceModel::new_for_tui_surface(SURFACE, &app);
    let mut effects = vec![];
    let message = "Conversation 00000000-0000-0000-0000-000000000001 is not live for TUI surface 42";
    assert_eq!(
        model.select_conversation(id(1), &mut surface, &app, &mut effects),
        Err(message.to_owned())
    );
    assert!(effects.is_empty());
    let step =
        model.select_and_send_prompt("hi".to_owned(), id(1), &mut surface, &app, &mut effects);
    assert_eq!(step, PromptStep::Finished);
    assert_eq!(effects, vec![error(message)]);
    assert_eq!(model.selected_conversation_id(&surface, &app), None);
}

#[test]
fn failed_start_is_told() {
    let app = world();
    let model = TuiConversationModel::new(SURFACE);
    let mut surface = ConversationSurfaceModel::new_for_terminal_view(SURFACE, &app);
    let mut effects = vec![];
    model.send_prompt_in_new_conversation(
        "hi".to_owned(),
        NewConversationStart::ViaAgentView(Err(EnterAgentViewError {
            message: "view: busy".to_owned(),
        })),
        &mut surface,
        &mut effects,
    );
    assert_eq!(effects, vec![error("view: busy")]);
}

#[test]
fn prompt_waits_for_the_agent_view_where_it_decides() {
    let mut app = world();
    app.history.live_conversations = vec![live(1)];
    let model = TuiConversationModel::new(SURFACE);
    let mut surface = ConversationSurfaceModel::new_for_terminal_view(SURFACE, &app);
    let mut effects = vec![];
    let step = model.restore_conversation_and_send_prompt(
        "hi".to_owned(),
        id(1),
        &mut surface,
        &app,
        &mut effects,
    );
    assert_eq!(step, PromptStep::SendPrompt { prompt: "hi".to_owned() });
    assert_eq!(
        effects,
        vec![
            NOTIFIED,
            TuiEffect::Surface(SurfaceEffect::EnterAgentView {
                target: Some(id(1)),
                origin: AgentViewEntryOrigin::Cli,
            }),
        ]
    );
    app.agent_view.active_conversation_id = Some(id(1));
    effects.clear();
    let step = model.resume_prompt(
        PromptAnswer::Opened { prompt: "hi".to_owned() },
        &mut surface,
        &app,
        &mut effects,
    );
    assert_eq!(step, PromptStep::Finished);
    assert_eq!(effects, vec![query("hi", 1)]);
}

#[test]
fn lost_conversation_is_not_prompted_again() {
    let mut app = world();
    app.history.live_conversations = vec![live(1)];
    let mut stream = PromptStreamSurface::new(SURFACE, &app);
    let mut effects = vec![];
    stream.submit_prompt("hi".to_owned(), Some(id(1)), &app, &mut effects);
    effects.clear();
    stream.handle_history_event(
        &BlocklistAIHistoryEvent {
            terminal_surface_id: None,
            change: HistoryChange::DeletedConversation { conversation_id: id(1) },
        },
        &app,
        &mut effects,
    );
    assert_eq!(effects, vec![NOTIFIED]);
    let step = stream.submit_prompt("more".to_owned(), None, &app, &mut effects);
    assert!(matches!(step, PromptStep::StartConversation { .. }));
}

#[test]
fn new_selection_is_announced() {
    let mut app = world();
    app.history.live_conversations = vec![live(1)];
    let mut stream = PromptStreamSurface::new(SURFACE, &app);
    let mut effects = vec![];
    stream.submit_prompt("hi".to_owned(), Some(id(1)), &app, &mut effects);
    effects.clear();
    stream.handle_surface_event(
        &ConversationSurfaceEvent::PendingQueryStateUpdated,
        &app,
        &mut effects,
    );
    stream.handle_surface_event(
        &ConversationSurfaceEvent::AgentViewExited {
            conversation_id: id(1),
            final_exchange_count: 0,
            is_exit_before_new_entrance: false,
        },
        &app,
        &mut effects,
    );
    assert_eq!(
        effects,
        vec![TuiEffect::Emit(TuiConversationModelEvent::SelectedConversationChanged {
            conversation_id: Some(id(1)),
        })]
    );
}

#[test]
fn history_events_are_presented() {
    let model = TuiConversationModel::new(SURFACE);
    let mut effects = vec![];
    let new_status = || ConversationStatus { is_in_progress: false, label: "Done".to_owned() };
    for surface in [Some(SURFACE), Some(EntityId { value: 1 }), None] {
        for change in [
            HistoryChange::StartedNewConversation { new_conversation_id: id(1) },
            HistoryChange::UpdatedStreamingExchange { conversation_id: id(2) },
            HistoryChange::UpdatedConversationStatus {
                conversation_id: id(3),
                new_status: new_status(),
                update: ConversationStatusUpdate::Restored,
            },
            HistoryChange::Other,
        ] {
            let event = BlocklistAIHistoryEvent { terminal_surface_id: surface, change };
            model.handle_history_event(&event, &mut effects);
        }
    }
    let once = || {
        vec![
            TuiEffect::Emit(TuiConversationModelEvent::ConversationStarted {
                conversation_id: id(1),
            }),
            TuiEffect::Emit(TuiConversationModelEvent::ConversationUpdated {
                conversation_id: id(2),
            }),
            TuiEffect::Emit(TuiConversationModelEvent::ConversationStatusChanged {
                conversation_id: id(3),
                status: new_status(),
                update: ConversationStatusUpdate::Restored,
            }),
        ]
    };
    let mut expected = once();
    expected.extend(once());
    assert_eq!(effects, expected);
}

#[test]
fn answer_is_printed_when_it_changes() {
    let mut app = world();
    let mut stream = PromptStreamSurface::new(SURFACE, &app);
    let mut effects = vec![];
    stream.handle_conversation_event(&UPDATED, &app, &mut effects);
    app.history.conversations = vec![conversation(1, None)];
    stream.handle_conversation_event(&UPDATED, &app, &mut effects);
    app.history.conversations = vec![conversation(1, answer(0, vec![]))];
    stream.handle_conversation_event(&UPDATED, &app, &mut effects);
    assert!(effects.is_empty());
    app.history.conversations = vec![conversation(
        1,
        answer(
            0,
            vec![
                vec![plain("a"), AIAgentTextSection::Code, plain("b")],
                vec![],
                vec![
                    AIAgentTextSection::Table,
                    AIAgentTextSection::Image,
                    AIAgentTextSection::MermaidDiagram,
                    plain(""),
                    plain("c"),
                ],
            ],
        ),
    )];
    stream.handle_conversation_event(&UPDATED, &app, &mut effects);
    stream.handle_conversation_event(&UPDATED, &app, &mut effects);
    assert_eq!(effects, vec![print("a\nb\n\nc")]);
    stream.handle_conversation_event(
        &TuiConversationModelEvent::SelectedConversationChanged { conversation_id: None },
        &app,
        &mut effects,
    );
    stream.handle_conversation_event(&UPDATED, &app, &mut effects);
    assert_eq!(effects, vec![print("a\nb\n\nc"), print("a\nb\n\nc")]);
}

#[test]
fn tool_actions_end_the_stream() {
    let mut app = world();
    app.history.conversations = vec![conversation(1, answer(1, vec![vec![plain("a")]]))];
    let mut stream = PromptStreamSurface::new(SURFACE, &app);
    let mut effects = vec![];
    stream.print_stream_snapshot(id(1), &app, &mut effects);
    assert_eq!(
        effects,
        vec![PromptStreamEffect::Terminate {
            error: Some("TUI prompt streaming does not support tool actions".to_owned()),
        }]
    );
}

#[test]
fn status_ends_the_stream_when_the_agent_is_done() {
    let mut app = world();
    app.history.conversations = vec![conversation(1, answer(0, vec![vec![plain("a")]]))];
    let mut stream = PromptStreamSurface::new(SURFACE, &app);
    let mut effects = vec![];
    stream.handle_conversation_event(
        &status(false, ConversationStatusUpdate::Restored),
        &app,
        &mut effects,
    );
    assert!(effects.is_empty());
    stream.handle_conversation_event(
        &status(true, ConversationStatusUpdate::Changed),
        &app,
        &mut effects,
    );
    assert_eq!(effects, vec![print("a")]);
    stream.handle_conversation_event(
        &status(false, ConversationStatusUpdate::Changed),
        &app,
        &mut effects,
    );
    assert_eq!(
        effects,
        vec![
            print("a"),
            print("status=Success"),
            PromptStreamEffect::Terminate { error: None },
        ]
    );
}

#[test]
fn started_conversation_and_failures_are_reported() {
    let app = world();
    let mut stream = PromptStreamSurface::new(SURFACE, &app);
    let mut effects = vec![];
    stream.handle_conversation_event(
        &TuiConversationModelEvent::ConversationStarted { conversation_id: id(0x10) },
        &app,
        &mut effects,
    );
    stream.handle_conversation_event(
        &TuiConversationModelEvent::Error { message: "no".to_owned() },
        &app,
        &mut effects,
    );
    assert_eq!(
        effects,
        vec![
            print("conversation_id=00000000-0000-0000-0000-000000000010"),
            PromptStreamEffect::Terminate { error: Some("no".to_owned()) },
        ]
    );
}
