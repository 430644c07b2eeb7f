//! What becomes of every prompt that a TUI surface is given.
use vstd::prelude::*;
use crate::context::{AIConversation, AIConversationAutoexecuteMode, AppContext};
use crate::conversation_model::{
    CloudConversationData, PromptAnswer, PromptStep, PromptStepView, RestoreSource,
    TuiConversationModelEvent, TuiEffect, TuiEffectView, TuiEventView, TuiStep,
};
use crate::events::{
    AgentViewEntryOrigin, BlocklistAIHistoryEvent, ConversationSurfaceEvent, EnterAgentViewError,
    HistoryChange,
};
use crate::ids::{AIConversationId, EntityId};
use crate::surface::{
    NewConversationPlan, NewConversationStart, PendingQueryState, SurfaceEffect, SurfaceState,
};

verus! {

/// Everything that can be done on behalf of a prompt.
pub enum PromptMove {
    Send { app: AppContext },
    SendInNew { start: NewConversationStart },
    Restore { conversation_id: AIConversationId, app: AppContext },
    SelectAndSend { conversation_id: AIConversationId, app: AppContext },
    Fetched { conversation_id: AIConversationId, fetched: Option<CloudConversationData> },
}

/// What a move does.
pub open spec fn moved(
    tui: EntityId,
    surface: SurfaceState,
    prompt: Seq<char>,
    prompt_move: PromptMove,
) -> TuiStep {
    match prompt_move {
        PromptMove::Send { app } => crate::conversation_model::prompted(surface, prompt, app),
        PromptMove::SendInNew { start } => {
            crate::conversation_model::prompted_in_new(surface, prompt, start)
        },
        PromptMove::Restore { conversation_id, app } => {
            crate::conversation_model::restored_and_prompted(
                tui,
                surface,
                prompt,
                conversation_id,
                app,
            )
        },
        PromptMove::SelectAndSend { conversation_id, app } => {
            crate::conversation_model::selected_and_prompted(
                tui,
                surface,
                prompt,
                conversation_id,
                app,
            )
        },
        PromptMove::Fetched { conversation_id, fetched } => {
            crate::conversation_model::fetched_and_prompted(
                tui,
                surface,
                prompt,
                conversation_id,
                fetched,
            )
        },
    }
}

/// The prompt that a step still has to deal with.
pub open spec fn prompt_in(step: PromptStepView) -> Option<Seq<char>> {
    match step {
        PromptStepView::Finished => None,
        PromptStepView::StartConversation { prompt, .. } => Some(prompt),
        PromptStepView::SendPrompt { prompt } => Some(prompt),
        PromptStepView::RestoreConversation { prompt, .. } => Some(prompt),
        PromptStepView::LoadConversation { prompt, .. } => Some(prompt),
    }
}

/// Whether an effect settles a prompt: it is sent, or a failure is told.
pub open spec fn settles(effect: TuiEffectView) -> bool {
    effect is SendUserQuery || (effect matches TuiEffectView::Emit(event) && event is Error)
}

/// Whether a step takes care of a prompt: it either hands the very prompt on and
/// settles nothing, or it is the last one and settles the prompt with its last
/// effect and with that one alone, by sending it or by telling a failure.
pub open spec fn takes_care_of(step: TuiStep, prompt: Seq<char>) -> bool {
    if step.next is Finished {
        &&& step.effects.len() > 0
        &&& settles(step.effects.last())
        &&& step.effects.last() matches TuiEffectView::SendUserQuery { prompt: sent, .. } ==> sent
            == prompt
        &&& forall|i: int|
            0 <= i < step.effects.len() - 1 ==> !settles(#[trigger] step.effects[i])
    } else {
        &&& prompt_in(step.next) == Some(prompt)
        &&& forall|i: int| 0 <= i < step.effects.len() ==> !settles(#[trigger] step.effects[i])
    }
}

/// No prompt is lost and none is sent twice: every move takes care of its prompt.
pub proof fn law_every_prompt_is_settled_once(
    tui: EntityId,
    surface: SurfaceState,
    prompt: Seq<char>,
    prompt_move: PromptMove,
)
    ensures
        takes_care_of(moved(tui, surface, prompt, prompt_move), prompt),
{
}

/// The prompt that came with an answer.
pub open spec fn prompt_of(answer: PromptAnswer) -> Seq<char> {
    match answer {
        PromptAnswer::Started { prompt, .. } => prompt@,
        PromptAnswer::Opened { prompt } => prompt@,
        PromptAnswer::Restored { prompt, .. } => prompt@,
        PromptAnswer::Fetched { prompt, .. } => prompt@,
    }
}

/// Whatever is answered from outside, the prompt that waited for the answer is
/// taken care of.
pub proof fn law_every_answer_is_settled_once(
    tui: EntityId,
    surface: SurfaceState,
    answer: PromptAnswer,
    app: AppContext,
)
    ensures
        takes_care_of(
            crate::conversation_model::resumed(tui, surface, answer, app),
            prompt_of(answer),
        ),
{
}

/// A prompt for a given conversation is never sent to another one, and the
/// conversation is not mixed up on the way there.
pub proof fn law_restored_prompt_goes_nowhere_else(
    tui: EntityId,
    surface: SurfaceState,
    prompt: Seq<char>,
    prompt_move: PromptMove,
    wanted: AIConversationId,
)
    requires
        match prompt_move {
            PromptMove::Restore { conversation_id, .. } => conversation_id == wanted,
            PromptMove::SelectAndSend { conversation_id, .. } => conversation_id == wanted,
            PromptMove::Fetched { conversation_id, .. } => conversation_id == wanted,
            _ => false,
        },
    ensures
        ({
            let step = moved(tui, surface, prompt, prompt_move);
            &&& forall|i: int|
                0 <= i < step.effects.len() ==> (#[trigger] step.effects[i] matches
                    TuiEffectView::SendUserQuery { conversation_id, .. } ==> conversation_id
                    == wanted)
            &&& match step.next {
                PromptStepView::RestoreConversation { terminal_surface_id, conversation_id, .. } => {
                    terminal_surface_id == tui && conversation_id == wanted
                },
                PromptStepView::LoadConversation { conversation_id, .. } => conversation_id
                    == wanted,
                PromptStepView::SendPrompt { .. } => step.surface.pending
                    == (PendingQueryState::Existing { conversation_id: wanted }),
                PromptStepView::StartConversation { .. } => false,
                PromptStepView::Finished => true,
            }
        }),
{
}

/// A prompt for a conversation that is live is sent there, without restoring
/// anything, and the conversation is the target from then on.
pub proof fn law_live_conversation_is_prompted(
    tui: EntityId,
    surface: SurfaceState,
    prompt: Seq<char>,
    conversation_id: AIConversationId,
    app: AppContext,
    later: AppContext,
)
    requires
        app.history.spec_is_live(tui, conversation_id),
        !surface.uses_agent_view_selection(app),
        !surface.uses_agent_view_selection(later),
    ensures
        ({
            let step = crate::conversation_model::restored_and_prompted(
                tui,
                surface,
                prompt,
                conversation_id,
                app,
            );
            &&& step.next is Finished
            &&& step.effects.last() == crate::conversation_model::sending(prompt, conversation_id)
            &&& step.surface.selected_conversation_id(later) == Some(conversation_id)
            &&& step == crate::conversation_model::selected_and_prompted(
                tui,
                surface,
                prompt,
                conversation_id,
                app,
            )
        }),
{
}

/// Where the Agent View decides, a prompt for a live conversation waits until the
/// view was opened on it, and is sent there once the view shows it.
pub proof fn law_agent_view_is_opened_before_prompting(
    tui: EntityId,
    surface: SurfaceState,
    prompt: Seq<char>,
    conversation_id: AIConversationId,
    app: AppContext,
    later: AppContext,
)
    requires
        app.history.spec_is_live(tui, conversation_id),
        surface.uses_agent_view_selection(app),
        surface.uses_agent_view_selection(later),
        later.agent_view.active_conversation_id == Some(conversation_id),
    ensures
        ({
            let step = crate::conversation_model::selected_and_prompted(
                tui,
                surface,
                prompt,
                conversation_id,
                app,
            );
            &&& step.next == (PromptStepView::SendPrompt { prompt })
            &&& step.effects.last() == TuiEffectView::Surface(
                SurfaceEffect::EnterAgentView {
                    target: Some(conversation_id),
                    origin: AgentViewEntryOrigin::Cli,
                },
            )
            &&& crate::conversation_model::prompted(step.surface, prompt, later).effects =~= seq![
                crate::conversation_model::sending(prompt, conversation_id),
            ]
        }),
{
}

/// A conversation that is not live is restored if it is loaded and fetched if it is
/// not, before anything is selected, sent or told; and one that was fetched is
/// restored.
pub proof fn law_conversation_is_restored_before_prompting(
    tui: EntityId,
    surface: SurfaceState,
    prompt: Seq<char>,
    conversation_id: AIConversationId,
    app: AppContext,
    fetched: Option<CloudConversationData>,
)
    requires
        !app.history.spec_is_live(tui, conversation_id),
    ensures
        ({
            let step = crate::conversation_model::restored_and_prompted(
                tui,
                surface,
                prompt,
                conversation_id,
                app,
            );
            &&& step.surface == surface
            &&& step.effects.len() == 0
            &&& step.next is RestoreConversation <==> app.history.spec_conversation(conversation_id)
                is Some
            &&& step.next is LoadConversation <==> app.history.spec_conversation(conversation_id)
                is None
        }),
        crate::conversation_model::next_after_fetch(
            tui,
            prompt,
            conversation_id,
            fetched,
        ) is RestoreConversation <==> (fetched matches Some(data) && data is Oz),
{
}

/// A prompt for a conversation that is not live yet arrives there: once the
/// conversation was fetched, if it had to be, and was made live, the prompt is sent
/// to it and to no other, and the conversation is the target.
pub proof fn law_restored_prompt_arrives(
    tui: EntityId,
    surface: SurfaceState,
    prompt: Seq<char>,
    conversation_id: AIConversationId,
    app: AppContext,
    fetched: Option<CloudConversationData>,
    later: AppContext,
)
    requires
        !app.history.spec_is_live(tui, conversation_id),
        app.history.spec_conversation(conversation_id) is Some || (fetched matches Some(data)
            && data is Oz),
        later.history.spec_is_live(tui, conversation_id),
        !surface.uses_agent_view_selection(later),
    ensures
        ({
            let asked = crate::conversation_model::restored_and_prompted(
                tui,
                surface,
                prompt,
                conversation_id,
                app,
            );
            let ready = if asked.next is LoadConversation {
                crate::conversation_model::fetched_and_prompted(
                    tui,
                    asked.surface,
                    prompt,
                    conversation_id,
                    fetched,
                )
            } else {
                asked
            };
            let sent = crate::conversation_model::selected_and_prompted(
                tui,
                ready.surface,
                prompt,
                conversation_id,
                later,
            );
            &&& asked.effects.len() == 0 && ready.effects.len() == 0
            &&& ready.next matches PromptStepView::RestoreConversation {
                terminal_surface_id,
                conversation_id: restored,
                prompt: carried,
                ..
            } && terminal_surface_id == tui && restored == conversation_id && carried == prompt
            &&& sent.next is Finished
            &&& sent.effects.last() == crate::conversation_model::sending(prompt, conversation_id)
            &&& sent.surface.selected_conversation_id(later) == Some(conversation_id)
        }),
{
}

/// The first prompt of a surface that targets nothing starts a conversation for
/// this surface and goes there; the next prompt follows it into the same one.
pub proof fn law_follow_up_continues_conversation(
    surface: SurfaceState,
    first: Seq<char>,
    second: Seq<char>,
    conversation_id: AIConversationId,
    app: AppContext,
    later: AppContext,
)
    requires
        !surface.uses_agent_view_selection(app),
        !surface.uses_agent_view_selection(later),
        surface.selected_conversation_id(app) is None,
    ensures
        ({
            let asked = crate::conversation_model::prompted(surface, first, app);
            let started = crate::conversation_model::prompted_in_new(
                surface,
                first,
                NewConversationStart::ViaHistory(conversation_id),
            );
            let followed = crate::conversation_model::prompted(started.surface, second, later);
            &&& asked.next == (PromptStepView::StartConversation {
                plan: NewConversationPlan::StartInHistory {
                    terminal_surface_id: surface.terminal_surface_id,
                    switches: (false, false, false),
                },
                prompt: first,
            })
            &&& asked.effects.len() == 0
            &&& started.effects.last() == crate::conversation_model::sending(first, conversation_id)
            &&& followed.next is Finished
            &&& followed.effects =~= seq![
                crate::conversation_model::sending(second, conversation_id),
            ]
        }),
{
}

/// After the targeted conversation was removed, deleted or moved away, the next
/// prompt asks for a new conversation and does not go to the lost one.
pub proof fn law_prompt_after_loss_starts_over(
    surface: SurfaceState,
    event: BlocklistAIHistoryEvent,
    prompt: Seq<char>,
    conversation_id: AIConversationId,
    app: AppContext,
    later: AppContext,
)
    requires
        !event.is_for_another(surface.terminal_surface_id),
        event.change == (HistoryChange::RemoveConversation { conversation_id }) || event.change
            == (HistoryChange::DeletedConversation { conversation_id }) || event.change == (
        HistoryChange::ConversationTransferredBetweenTerminalSurfaces { conversation_id }),
        !surface.uses_agent_view_selection(app),
        !surface.uses_agent_view_selection(later),
        surface.selected_conversation_id(app) == Some(conversation_id),
    ensures
        crate::conversation_model::prompted(
            surface.on_history_event(event, app).state,
            prompt,
            later,
        ).next is StartConversation,
{
}

/// A conversation that could not be started leaves the surface alone, sends nothing
/// and is told of, once and in the words of the failure.
pub proof fn law_failed_start_is_told(
    surface: SurfaceState,
    prompt: Seq<char>,
    error: EnterAgentViewError,
)
    ensures
        ({
            let step = crate::conversation_model::prompted_in_new(
                surface,
                prompt,
                NewConversationStart::ViaAgentView(Err(error)),
            );
            &&& step.surface == surface
            &&& step.effects =~= seq![crate::conversation_model::failure(error.message@)]
            &&& step.next is Finished
        }),
{
}

/// A started conversation that was not the target yet is announced: the surface
/// notifies the model, and the model then tells of the selected conversation.
pub proof fn law_started_conversation_is_announced(
    surface: SurfaceState,
    prompt: Seq<char>,
    conversation_id: AIConversationId,
    later: AppContext,
)
    requires
        surface.pending_conversation_id() != Some(conversation_id),
        !surface.uses_agent_view_selection(later),
    ensures
        ({
            let step = crate::conversation_model::prompted_in_new(
                surface,
                prompt,
                NewConversationStart::ViaHistory(conversation_id),
            );
            &&& step.effects[0] == TuiEffectView::Surface(crate::surface_laws::notification())
            &&& crate::conversation_model::announced(
                step.surface,
                ConversationSurfaceEvent::PendingQueryStateUpdated,
                later,
            ) =~= seq![
                TuiEffectView::Emit(
                    TuiEventView::SelectedConversationChanged { selected: Some(conversation_id) },
                ),
            ]
        }),
{
}

/// Presentation layers hear nothing of other surfaces, and never more than one
/// event for one history event.
pub proof fn law_presentation_is_scoped(tui: EntityId, event: BlocklistAIHistoryEvent)
    ensures
        event.is_for_another(tui) ==> crate::conversation_model::presented(tui, event).len() == 0,
        crate::conversation_model::presented(tui, event).len() <= 1,
{
}

/// Whether a step leaves the surface with the given pending state, tells the
/// surface's listeners first if that is another than before, then wants the given
/// things done, and nothing more.
pub open spec fn leaves_surface(
    before: SurfaceState,
    step: TuiStep,
    pending: PendingQueryState,
    wanted: Seq<TuiEffectView>,
) -> bool {
    let told: int = if before.pending == pending {
        0
    } else {
        1
    };
    &&& step.surface.terminal_surface_id == before.terminal_surface_id
    &&& step.surface.surface == before.surface
    &&& step.surface.pending == pending
    &&& step.effects.len() == told + wanted.len()
    &&& told == 1 ==> step.effects[0] == TuiEffectView::Surface(
        SurfaceEffect::Emit(ConversationSurfaceEvent::PendingQueryStateUpdated),
    )
    &&& forall|i: int| 0 <= i < wanted.len() ==> step.effects[told + i] == #[trigger] wanted[i]
}

/// Whether a step does nothing but tell of a failure, as the last thing that is done
/// for a prompt.
pub open spec fn only_tells(before: SurfaceState, step: TuiStep, message: Seq<char>) -> bool {
    &&& leaves_surface(
        before,
        step,
        before.pending,
        seq![TuiEffectView::Emit(TuiEventView::Error { message })],
    )
    &&& step.next is Finished
}

/// A prompt is sent to the target, if there is one, and to nothing else. If there is
/// none, nothing is done yet: a conversation is asked for, of the Agent View where it
/// decides and of the history elsewhere, and the prompt is kept for it.
pub proof fn law_sending_a_prompt(surface: SurfaceState, prompt: Seq<char>, app: AppContext)
    ensures
        ({
            let step = crate::conversation_model::prompted(surface, prompt, app);
            match surface.selected_conversation_id(app) {
                Some(conversation_id) => {
                    &&& leaves_surface(
                        surface,
                        step,
                        surface.pending,
                        seq![TuiEffectView::SendUserQuery { prompt, conversation_id }],
                    )
                    &&& step.next is Finished
                },
                None => {
                    &&& leaves_surface(surface, step, surface.pending, Seq::empty())
                    &&& step.next == (PromptStepView::StartConversation {
                        plan: if app.agent_view_enabled && surface.surface is TerminalView {
                            NewConversationPlan::EnterAgentView {
                                origin: AgentViewEntryOrigin::Cli,
                            }
                        } else {
                            NewConversationPlan::StartInHistory {
                                terminal_surface_id: surface.terminal_surface_id,
                                switches: (false, false, false),
                            }
                        },
                        prompt,
                    })
                },
            }
        }),
{
}

/// A prompt is sent to the very conversation that was started for it, which is the
/// pending one then if the history started it; if none was started, that is told in
/// the words of the failure and nothing else is done.
pub proof fn law_sending_a_prompt_in_a_new_conversation(
    surface: SurfaceState,
    prompt: Seq<char>,
    conversation_id: AIConversationId,
    error: EnterAgentViewError,
)
    ensures
        ({
            let step = crate::conversation_model::prompted_in_new(
                surface,
                prompt,
                NewConversationStart::ViaHistory(conversation_id),
            );
            &&& leaves_surface(
                surface,
                step,
                PendingQueryState::Existing { conversation_id },
                seq![TuiEffectView::SendUserQuery { prompt, conversation_id }],
            )
            &&& step.next is Finished
        }),
        ({
            let step = crate::conversation_model::prompted_in_new(
                surface,
                prompt,
                NewConversationStart::ViaAgentView(Ok(conversation_id)),
            );
            &&& leaves_surface(
                surface,
                step,
                PendingQueryState::New {
                    autoexecute_override: AIConversationAutoexecuteMode::RespectUserSettings,
                },
                seq![TuiEffectView::SendUserQuery { prompt, conversation_id }],
            )
            &&& step.next is Finished
        }),
        only_tells(
            surface,
            crate::conversation_model::prompted_in_new(
                surface,
                prompt,
                NewConversationStart::ViaAgentView(Err(error)),
            ),
            error.message@,
        ),
{
}

/// A live conversation becomes the pending one and is prompted; where the Agent View
/// decides, the view is opened on it in place of that, and the prompt is kept. One
/// that is not live is told of, with its identifier and the surface.
pub proof fn law_prompting_a_restored_conversation(
    tui: EntityId,
    surface: SurfaceState,
    prompt: Seq<char>,
    conversation_id: AIConversationId,
    app: AppContext,
)
    ensures
        ({
            let step = crate::conversation_model::selected_and_prompted(
                tui,
                surface,
                prompt,
                conversation_id,
                app,
            );
            let pending = PendingQueryState::Existing { conversation_id };
            if !app.history.spec_is_live(tui, conversation_id) {
                only_tells(
                    surface,
                    step,
                    crate::conversation_model::not_live_message(conversation_id, tui),
                )
            } else if app.agent_view_enabled && surface.surface is TerminalView {
                &&& leaves_surface(
                    surface,
                    step,
                    pending,
                    seq![
                        TuiEffectView::Surface(
                            SurfaceEffect::EnterAgentView {
                                target: Some(conversation_id),
                                origin: AgentViewEntryOrigin::Cli,
                            },
                        ),
                    ],
                )
                &&& step.next == (PromptStepView::SendPrompt { prompt })
            } else {
                &&& leaves_surface(
                    surface,
                    step,
                    pending,
                    seq![TuiEffectView::SendUserQuery { prompt, conversation_id }],
                )
                &&& step.next is Finished
            }
        }),
{
}

/// To prompt a conversation that is live is to select and prompt it. For any other
/// one nothing is done yet: the history's own copy is to be restored exactly when
/// the history has the conversation loaded, and else it is to be fetched.
pub proof fn law_restoring_a_conversation(
    tui: EntityId,
    surface: SurfaceState,
    prompt: Seq<char>,
    conversation_id: AIConversationId,
    app: AppContext,
)
    ensures
        ({
            let step = crate::conversation_model::restored_and_prompted(
                tui,
                surface,
                prompt,
                conversation_id,
                app,
            );
            let is_loaded = exists|i: int|
                0 <= i < app.history.conversations@.len()
                    && #[trigger] app.history.conversations@[i].id == conversation_id;
            if app.history.spec_is_live(tui, conversation_id) {
                step == crate::conversation_model::selected_and_prompted(
                    tui,
                    surface,
                    prompt,
                    conversation_id,
                    app,
                )
            } else {
                &&& leaves_surface(surface, step, surface.pending, Seq::empty())
                &&& is_loaded ==> step.next == (PromptStepView::RestoreConversation {
                    terminal_surface_id: tui,
                    conversation_id,
                    source: RestoreSource::Loaded,
                    prompt,
                })
                &&& !is_loaded ==> step.next == (PromptStepView::LoadConversation {
                    conversation_id,
                    prompt,
                })
            }
        }),
{
    crate::context::law_history_finds_loaded_conversations(app.history, conversation_id);
}

/// What is restored after a fetch is the conversation that was fetched, whatever it
/// holds, in this surface and for the prompt that waited for it. A fetch that found
/// nothing, or another agent's conversation, is told of.
pub proof fn law_fetched_conversation_itself_is_restored(
    tui: EntityId,
    surface: SurfaceState,
    prompt: Seq<char>,
    conversation_id: AIConversationId,
    conversation: AIConversation,
)
    ensures
        ({
            let step = crate::conversation_model::fetched_and_prompted(
                tui,
                surface,
                prompt,
                conversation_id,
                Some(CloudConversationData::Oz(conversation)),
            );
            &&& leaves_surface(surface, step, surface.pending, Seq::empty())
            &&& step.next == (PromptStepView::RestoreConversation {
                terminal_surface_id: tui,
                conversation_id,
                source: RestoreSource::Fetched(conversation),
                prompt,
            })
        }),
        only_tells(
            surface,
            crate::conversation_model::fetched_and_prompted(
                tui,
                surface,
                prompt,
                conversation_id,
                None,
            ),
            crate::conversation_model::not_loaded_message(conversation_id),
        ),
        only_tells(
            surface,
            crate::conversation_model::fetched_and_prompted(
                tui,
                surface,
                prompt,
                conversation_id,
                Some(CloudConversationData::Other),
            ),
            crate::conversation_model::not_loaded_message(conversation_id),
        ),
{
}

/// A fetch has one outcome, which both of its accounts give: what is next and what
/// is told. Different conversations that were fetched are restored as different ones.
pub proof fn law_fetched_conversations_are_told_apart(
    tui: EntityId,
    prompt: Seq<char>,
    conversation_id: AIConversationId,
    one: AIConversation,
    other: AIConversation,
)
    ensures
        crate::conversation_model::next_after_fetch(
            tui,
            prompt,
            conversation_id,
            Some(CloudConversationData::Oz(one)),
        ) == (PromptStepView::RestoreConversation {
            terminal_surface_id: tui,
            conversation_id,
            source: RestoreSource::Fetched(one),
            prompt,
        }),
        one != other ==> crate::conversation_model::next_after_fetch(
            tui,
            prompt,
            conversation_id,
            Some(CloudConversationData::Oz(one)),
        ) != crate::conversation_model::next_after_fetch(
            tui,
            prompt,
            conversation_id,
            Some(CloudConversationData::Oz(other)),
        ),
        crate::conversation_model::told_after_fetch(
            conversation_id,
            Some(CloudConversationData::Oz(one)),
        ).len() == 0,
        forall|fetched: Option<CloudConversationData>|
            fetched is None || fetched == Some(CloudConversationData::Other) ==> {
                &&& #[trigger] crate::conversation_model::next_after_fetch(
                    tui,
                    prompt,
                    conversation_id,
                    fetched,
                ) is Finished
                &&& crate::conversation_model::told_after_fetch(conversation_id, fetched) =~= seq![
                    TuiEffectView::Emit(
                        TuiEventView::Error {
                            message: crate::conversation_model::not_loaded_message(conversation_id),
                        },
                    ),
                ]
            },
{
}

/// A prompt goes on from where it waited: in the conversation that was started, with
/// the target once the Agent View was opened, in the conversation that was made live,
/// or with what was fetched.
pub proof fn law_answers_continue_their_prompt(
    tui: EntityId,
    surface: SurfaceState,
    prompt: String,
    start: NewConversationStart,
    conversation_id: AIConversationId,
    fetched: Option<CloudConversationData>,
    app: AppContext,
)
    ensures
        crate::conversation_model::resumed(
            tui,
            surface,
            PromptAnswer::Started { prompt, start },
            app,
        ) == moved(tui, surface, prompt@, PromptMove::SendInNew { start }),
        crate::conversation_model::resumed(tui, surface, PromptAnswer::Opened { prompt }, app)
            == moved(tui, surface, prompt@, PromptMove::Send { app }),
        crate::conversation_model::resumed(
            tui,
            surface,
            PromptAnswer::Restored { prompt, conversation_id },
            app,
        ) == moved(tui, surface, prompt@, PromptMove::SelectAndSend { conversation_id, app }),
        crate::conversation_model::resumed(
            tui,
            surface,
            PromptAnswer::Fetched { prompt, conversation_id, fetched },
            app,
        ) == moved(tui, surface, prompt@, PromptMove::Fetched { conversation_id, fetched }),
{
}

/// A history event of this surface, or of all surfaces, is presented as one event
/// that carries all that was reported: a started conversation, a conversation with
/// news, or a status, be it new or restored. No other event is presented, and none
/// of another surface.
pub proof fn law_history_events_are_presented(tui: EntityId, event: BlocklistAIHistoryEvent)
    ensures
        ({
            let told = crate::conversation_model::presented(tui, event);
            if event.terminal_surface_id is Some && event.terminal_surface_id != Some(tui) {
                told.len() == 0
            } else {
                match event.change {
                    HistoryChange::StartedNewConversation { new_conversation_id } => {
                        told.len() == 1 && told[0] == TuiEffectView::Emit(
                            TuiEventView::ConversationStarted {
                                conversation_id: new_conversation_id,
                            },
                        )
                    },
                    HistoryChange::UpdatedStreamingExchange { conversation_id } => {
                        told.len() == 1 && told[0] == TuiEffectView::Emit(
                            TuiEventView::ConversationUpdated { conversation_id },
                        )
                    },
                    HistoryChange::UpdatedConversationStatus {
                        conversation_id,
                        new_status,
                        update,
                    } => told.len() == 1 && told[0] == TuiEffectView::Emit(
                        TuiEventView::ConversationStatusChanged {
                            conversation_id,
                            is_in_progress: new_status.is_in_progress,
                            label: new_status.label@,
                            update,
                        },
                    ),
                    _ => told.len() == 0,
                }
            }
        }),
{
}

/// When the surface's pending state changed, the target is told as it is then, be it
/// a conversation or none; of other events of the surface nothing is told.
pub proof fn law_targets_are_announced(
    surface: SurfaceState,
    event: ConversationSurfaceEvent,
    app: AppContext,
)
    ensures
        ({
            let told = crate::conversation_model::announced(surface, event, app);
            if event is PendingQueryStateUpdated {
                told.len() == 1 && told[0] == TuiEffectView::Emit(
                    TuiEventView::SelectedConversationChanged {
                        selected: surface.selected_conversation_id(app),
                    },
                )
            } else {
                told.len() == 0
            }
        }),
{
}

/// The messages name what failed: the conversation by its text, and the surface by
/// its text behind everything else.
pub proof fn law_messages_name_the_conversation(
    conversation_id: AIConversationId,
    terminal_surface_id: EntityId,
)
    ensures
        ({
            let message = crate::conversation_model::not_live_message(
                conversation_id,
                terminal_surface_id,
            );
            &&& message.len() == 78 + terminal_surface_id.spec_text().len()
            &&& message.take(13) == "Conversation "@
            &&& message.subrange(13, 49) == conversation_id.spec_text()
            &&& message.subrange(49, 78) == " is not live for TUI surface "@
            &&& message.skip(78) == terminal_surface_id.spec_text()
        }),
        ({
            let message = crate::conversation_model::not_loaded_message(conversation_id);
            &&& message.len() == 70
            &&& message.take(34) == "Failed to load local conversation "@
            &&& message.skip(34) == conversation_id.spec_text()
        }),
{
    reveal_strlit("Conversation ");
    reveal_strlit(" is not live for TUI surface ");
    reveal_strlit("Failed to load local conversation ");
    let not_live = crate::conversation_model::not_live_message(
        conversation_id,
        terminal_surface_id,
    );
    let not_loaded = crate::conversation_model::not_loaded_message(conversation_id);
    assert(not_live.take(13) =~= "Conversation "@);
    assert(not_live.subrange(13, 49) =~= conversation_id.spec_text());
    assert(not_live.subrange(49, 78) =~= " is not live for TUI surface "@);
    assert(not_live.skip(78) =~= terminal_surface_id.spec_text());
    assert(not_loaded.take(34) =~= "Failed to load local conversation "@);
    assert(not_loaded.skip(34) =~= conversation_id.spec_text());
}

/// Contracts see every effect, in its place.
pub proof fn law_effects_are_seen_in_order(
    effects: Seq<TuiEffect>,
    surface_effects: Seq<SurfaceEffect>,
)
    ensures
        crate::conversation_model::effects_of(effects).len() == effects.len(),
        forall|i: int|
            0 <= i < effects.len() ==> #[trigger] crate::conversation_model::effects_of(effects)[i]
                == effects[i]@,
        crate::conversation_model::from_surface(surface_effects).len() == surface_effects.len(),
        forall|i: int|
            0 <= i < surface_effects.len() ==> #[trigger] crate::conversation_model::from_surface(
                surface_effects,
            )[i] == TuiEffectView::Surface(surface_effects[i]),
{
}

/// Contracts see every effect and every event with all that it carries.
pub proof fn law_effects_are_seen_whole(effect: TuiEffect, event: TuiConversationModelEvent)
    ensures
        ({
            match (effect, effect@) {
                (TuiEffect::Surface(done), TuiEffectView::Surface(seen)) => seen == done,
                (TuiEffect::Emit(told), TuiEffectView::Emit(seen)) => seen == told@,
                (
                    TuiEffect::SendUserQuery { prompt, conversation_id },
                    TuiEffectView::SendUserQuery { prompt: seen, conversation_id: seen_id },
                ) => seen == prompt@ && seen_id == conversation_id,
                _ => false,
            }
        }),
        ({
            match (event, event@) {
                (
                    TuiConversationModelEvent::SelectedConversationChanged { conversation_id },
                    TuiEventView::SelectedConversationChanged { selected },
                ) => selected == conversation_id,
                (
                    TuiConversationModelEvent::ConversationStarted { conversation_id },
                    TuiEventView::ConversationStarted { conversation_id: seen },
                ) => seen == conversation_id,
                (
                    TuiConversationModelEvent::ConversationUpdated { conversation_id },
                    TuiEventView::ConversationUpdated { conversation_id: seen },
                ) => seen == conversation_id,
                (
                    TuiConversationModelEvent::ConversationStatusChanged {
                        conversation_id,
                        status,
                        update,
                    },
                    TuiEventView::ConversationStatusChanged {
                        conversation_id: seen,
                        is_in_progress,
                        label,
                        update: seen_update,
                    },
                ) => {
                    &&& seen == conversation_id
                    &&& is_in_progress == status.is_in_progress
                    &&& label == status.label@
                    &&& seen_update == update
                },
                (
                    TuiConversationModelEvent::Error { message },
                    TuiEventView::Error { message: seen },
                ) => seen == message@,
                _ => false,
            }
        }),
{
}

/// Contracts see every step with the prompt that it carries and all else that it
/// holds.
pub proof fn law_steps_are_seen_whole(step: PromptStep)
    ensures
        ({
            match (step, step@) {
                (PromptStep::Finished, PromptStepView::Finished) => true,
                (
                    PromptStep::StartConversation { plan, prompt },
                    PromptStepView::StartConversation { plan: seen_plan, prompt: seen },
                ) => seen_plan == plan && seen == prompt@,
                (
                    PromptStep::SendPrompt { prompt },
                    PromptStepView::SendPrompt { prompt: seen },
                ) => seen == prompt@,
                (
                    PromptStep::RestoreConversation {
                        terminal_surface_id,
                        conversation_id,
                        source,
                        prompt,
                    },
                    PromptStepView::RestoreConversation {
                        terminal_surface_id: seen_surface,
                        conversation_id: seen_id,
                        source: seen_source,
                        prompt: seen,
                    },
                ) => {
                    &&& seen_surface == terminal_surface_id
                    &&& seen_id == conversation_id
                    &&& seen_source == source
                    &&& seen == prompt@
                },
                (
                    PromptStep::LoadConversation { conversation_id, prompt },
                    PromptStepView::LoadConversation { conversation_id: seen_id, prompt: seen },
                ) => seen_id == conversation_id && seen == prompt@,
                _ => false,
            }
        }),
{
}

} // verus!
