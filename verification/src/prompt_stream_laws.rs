//! What holds of every prompt stream, whatever it is told.
use vstd::prelude::*;
use crate::context::{AIAgentOutput, AIAgentText, AIAgentTextSection, AppContext};
use crate::conversation_laws::PromptMove;
use crate::conversation_model::{PromptAnswer, PromptStepView, TuiEventView};
use crate::events::{BlocklistAIHistoryEvent, ConversationStatusUpdate};
use crate::ids::{AIConversationId, EntityId};
use crate::prompt_stream::{PromptStreamEffect, StreamEffectView, StreamState};
use crate::surface::{ConversationSurface, NewConversationPlan, PendingQueryState};

verus! {

/// Whether some effects end the application.
pub open spec fn terminates(effects: Seq<StreamEffectView>) -> bool {
    exists|i: int| 0 <= i < effects.len() && #[trigger] effects[i] is Terminate
}

/// Whether an answer asks for something that a prompt stream cannot do.
pub open spec fn asks_for_actions(output: Option<AIAgentOutput>) -> bool {
    output matches Some(output) && output.action_count > 0
}

/// A prompt stream is and stays the stream of one TUI, whatever is done to it.
pub proof fn law_stream_stays_with_its_tui(
    state: StreamState,
    prompt: Seq<char>,
    conversation_id: Option<AIConversationId>,
    answer: PromptAnswer,
    history_event: BlocklistAIHistoryEvent,
    event: TuiEventView,
    app: AppContext,
)
    requires
        state.wf(),
    ensures
        (StreamState {
            surface: state.submitted(prompt, conversation_id, app).surface,
            ..state
        }).wf(),
        (StreamState {
            surface: crate::conversation_model::resumed(
                state.tui,
                state.surface,
                answer,
                app,
            ).surface,
            ..state
        }).wf(),
        (StreamState {
            surface: state.surface.on_history_event(history_event, app).state,
            ..state
        }).wf(),
        state.on_event(event, app).state.wf(),
        state.on_event(event, app).state.tui == state.tui,
        state.on_event(event, app).state.surface == state.surface,
{
}

/// A prompt stream never waits for an Agent View, and the conversations that it
/// asks for are started in the history for its own surface.
pub proof fn law_stream_starts_its_own_conversations(
    state: StreamState,
    prompt: Seq<char>,
    conversation_id: Option<AIConversationId>,
    app: AppContext,
)
    requires
        state.wf(),
    ensures
        ({
            let step = state.submitted(prompt, conversation_id, app);
            &&& !(step.next is SendPrompt)
            &&& step.next matches PromptStepView::StartConversation { plan, .. } ==> plan == (
            NewConversationPlan::StartInHistory {
                terminal_surface_id: state.tui,
                switches: (false, false, false),
            })
            &&& crate::conversation_laws::takes_care_of(step, prompt)
        }),
{
}

/// The first prompt of a new stream that names no conversation asks for one.
pub proof fn law_new_stream_asks_for_conversation(
    terminal_surface_id: EntityId,
    is_sandboxed: bool,
    prompt: Seq<char>,
    app: AppContext,
)
    ensures
        StreamState::created(terminal_surface_id, is_sandboxed).wf(),
        StreamState::created(terminal_surface_id, is_sandboxed).submitted(
            prompt,
            None,
            app,
        ).next is StartConversation,
{
}

/// An answer without tool actions is printed exactly when it is another than the
/// one printed last, and is then the one printed last.
pub proof fn law_answer_is_printed_when_it_changes(state: StreamState, output: AIAgentOutput)
    requires
        output.action_count == 0,
    ensures
        ({
            let step = state.on_answer(Some(output));
            let text = crate::prompt_stream::printed_answer(output);
            &&& step.state.last_output == text
            &&& step.effects =~= (if text == state.last_output {
                Seq::empty()
            } else {
                seq![StreamEffectView::Print { text }]
            })
        }),
{
}

/// An answer that did not change is not printed again.
pub proof fn law_answer_is_not_repeated(state: StreamState, output: Option<AIAgentOutput>)
    requires
        !asks_for_actions(output),
    ensures
        state.on_answer(output).state.on_answer(output) == state.on_answer(output).state.stay(),
{
}

/// Only plain text is printed: a section of any other kind leaves no trace in the
/// output, wherever it stands.
pub proof fn law_only_plain_text_is_printed(
    before: Seq<AIAgentTextSection>,
    section: AIAgentTextSection,
    after: Seq<AIAgentTextSection>,
)
    requires
        !(section is PlainText),
    ensures
        crate::prompt_stream::plain_texts_in(before.push(section) + after)
            == crate::prompt_stream::plain_texts_in(before + after),
    decreases after.len(),
{
    if after.len() == 0 {
        assert((before.push(section) + after).drop_last() =~= before + after);
        assert((before.push(section) + after).last() == section);
    } else {
        law_only_plain_text_is_printed(before, section, after.drop_last());
        assert((before.push(section) + after).drop_last() =~= before.push(section)
            + after.drop_last());
        assert((before + after).drop_last() =~= before + after.drop_last());
    }
}

/// After another conversation was selected its answer is printed anew, even one
/// that reads like the answer before.
pub proof fn law_selection_starts_output_over(
    state: StreamState,
    selected: Option<AIConversationId>,
    output: AIAgentOutput,
    app: AppContext,
)
    requires
        output.action_count == 0,
        crate::prompt_stream::printed_answer(output).len() > 0,
    ensures
        ({
            let step = state.on_event(TuiEventView::SelectedConversationChanged { selected }, app);
            &&& step.effects.len() == 0
            &&& step.state.on_answer(Some(output)).effects =~= seq![
                StreamEffectView::Print { text: crate::prompt_stream::printed_answer(output) },
            ]
        }),
{
}

/// An answer that asks for tool actions is not printed: the stream ends with a
/// failure that says why.
pub proof fn law_tool_actions_end_the_stream(state: StreamState, output: Option<AIAgentOutput>)
    requires
        asks_for_actions(output),
    ensures
        state.on_answer(output).state == state,
        state.on_answer(output).effects =~= seq![
            StreamEffectView::Terminate {
                error: Some("TUI prompt streaming does not support tool actions"@),
            },
        ],
{
}

/// The stream ends on a failure, on an answer that asks for tool actions, and when
/// the conversation got a status other than in progress; on nothing else, so not on
/// the status that a restored conversation had.
pub proof fn law_when_the_stream_ends(state: StreamState, event: TuiEventView, app: AppContext)
    ensures
        terminates(state.on_event(event, app).effects) <==> match event {
            TuiEventView::Error { .. } => true,
            TuiEventView::ConversationUpdated { conversation_id } => asks_for_actions(
                crate::prompt_stream::answer_in(app, conversation_id),
            ),
            TuiEventView::ConversationStatusChanged {
                conversation_id,
                is_in_progress,
                update,
                ..
            } => update is Changed && (!is_in_progress || asks_for_actions(
                crate::prompt_stream::answer_in(app, conversation_id),
            )),
            _ => false,
        },
{
    let effects = state.on_event(event, app).effects;
    match event {
        TuiEventView::Error { .. } => {
            assert(effects[0] is Terminate);
        },
        TuiEventView::ConversationUpdated { conversation_id } => {
            if asks_for_actions(crate::prompt_stream::answer_in(app, conversation_id)) {
                assert(effects[0] is Terminate);
            }
        },
        TuiEventView::ConversationStatusChanged {
            conversation_id,
            is_in_progress,
            update,
            ..
        } => {
            if update is Changed && !is_in_progress {
                assert(effects[effects.len() - 1] is Terminate);
            } else if update is Changed && asks_for_actions(
                crate::prompt_stream::answer_in(app, conversation_id),
            ) {
                assert(effects[0] is Terminate);
            }
        },
        _ => {},
    }
}

/// A conversation that came to an end has its answer brought up to date, then its
/// status printed, and then the stream ends without a failure of its own.
pub proof fn law_finished_conversation_ends_the_stream(
    state: StreamState,
    conversation_id: AIConversationId,
    label: Seq<char>,
    app: AppContext,
)
    ensures
        ({
            let step = state.on_event(
                TuiEventView::ConversationStatusChanged {
                    conversation_id,
                    is_in_progress: false,
                    label,
                    update: ConversationStatusUpdate::Changed,
                },
                app,
            );
            let answered = state.on_answer(crate::prompt_stream::answer_in(app, conversation_id));
            &&& step.state == answered.state
            &&& step.effects.take(answered.effects.len() as int) =~= answered.effects
            &&& step.effects.skip(answered.effects.len() as int) =~= seq![
                StreamEffectView::Print { text: "status="@ + label },
                StreamEffectView::Terminate { error: None },
            ]
        }),
{
}

/// What the conversation model fails with is what the stream ends with.
pub proof fn law_failures_reach_the_user(state: StreamState, message: Seq<char>, app: AppContext)
    ensures
        state.on_event(TuiEventView::Error { message }, app) == state.fail(message),
{
}

/// The answer of a conversation is the output of its latest exchange. There is none
/// without the conversation, without an exchange, or before the exchange has output.
pub proof fn law_answer_is_the_latest_output(app: AppContext, conversation_id: AIConversationId)
    ensures
        ({
            let loaded = app.history.conversations@;
            let answer = crate::prompt_stream::answer_in(app, conversation_id);
            &&& forall|i: int|
                0 <= i < loaded.len() && #[trigger] loaded[i].id == conversation_id && (forall|
                    j: int,
                |
                    0 <= j < i ==> #[trigger] loaded[j].id != conversation_id) ==> {
                    &&& loaded[i].latest_exchange is None ==> answer is None
                    &&& loaded[i].latest_exchange matches Some(exchange) ==> answer
                        == exchange.output
                }
            &&& (forall|i: int|
                0 <= i < loaded.len() ==> #[trigger] loaded[i].id != conversation_id) ==> answer
                is None
        }),
{
    crate::context::law_history_finds_loaded_conversations(app.history, conversation_id);
}

/// A plain text among sections is printed as it stands, the sections of two groups
/// are printed one group after the other, and the texts of an answer are printed
/// section by section.
pub proof fn law_plain_texts_are_kept_in_order(
    text: String,
    first: Seq<AIAgentTextSection>,
    rest: Seq<AIAgentTextSection>,
)
    ensures
        crate::prompt_stream::plain_texts_in(seq![AIAgentTextSection::PlainText { text }]) == seq![
            text@,
        ],
        crate::prompt_stream::plain_texts_in(first + rest) == crate::prompt_stream::plain_texts_in(
            first,
        ) + crate::prompt_stream::plain_texts_in(rest),
    decreases rest.len(),
{
    let one = seq![AIAgentTextSection::PlainText { text }];
    assert(one.drop_last() =~= Seq::empty());
    reveal_with_fuel(crate::prompt_stream::plain_texts_in, 2);
    assert(crate::prompt_stream::plain_texts_in(one) =~= seq![text@]);
    let printed = crate::prompt_stream::plain_texts_in(first)
        + crate::prompt_stream::plain_texts_in(rest);
    if rest.len() == 0 {
        assert(first + rest =~= first);
        assert(printed =~= crate::prompt_stream::plain_texts_in(first));
    } else {
        law_plain_texts_are_kept_in_order(text, first, rest.drop_last());
        assert((first + rest).drop_last() =~= first + rest.drop_last());
        assert((first + rest).last() == rest.last());
        assert(crate::prompt_stream::plain_texts_in(first + rest) =~= printed);
    }
}

/// Sections of any other kind are not printed.
pub proof fn law_other_sections_print_nothing(sections: Seq<AIAgentTextSection>)
    requires
        forall|i: int| 0 <= i < sections.len() ==> !(#[trigger] sections[i] is PlainText),
    ensures
        crate::prompt_stream::plain_texts_in(sections).len() == 0,
    decreases sections.len(),
{
    if sections.len() > 0 {
        let before = sections.drop_last();
        assert forall|i: int| 0 <= i < before.len() implies !(#[trigger] before[i]
            is PlainText) by {
            assert(before[i] == sections[i]);
        }
        law_other_sections_print_nothing(before);
        assert(!(sections[sections.len() - 1] is PlainText));
    }
}

/// An answer is the plain texts of its texts, one text after the other.
pub proof fn law_texts_are_printed_in_order(
    text: AIAgentText,
    first: Seq<AIAgentText>,
    rest: Seq<AIAgentText>,
)
    ensures
        crate::prompt_stream::plain_texts_of(Seq::empty()).len() == 0,
        crate::prompt_stream::plain_texts_of(seq![text]) == crate::prompt_stream::plain_texts_in(
            text.sections@,
        ),
        crate::prompt_stream::plain_texts_of(first + rest) == crate::prompt_stream::plain_texts_of(
            first,
        ) + crate::prompt_stream::plain_texts_of(rest),
    decreases rest.len(),
{
    reveal_with_fuel(crate::prompt_stream::plain_texts_of, 2);
    assert(seq![text].drop_last() =~= Seq::empty());
    assert(crate::prompt_stream::plain_texts_of(seq![text])
        =~= crate::prompt_stream::plain_texts_in(text.sections@));
    let printed = crate::prompt_stream::plain_texts_of(first)
        + crate::prompt_stream::plain_texts_of(rest);
    if rest.len() == 0 {
        assert(first + rest =~= first);
        assert(printed =~= crate::prompt_stream::plain_texts_of(first));
    } else {
        law_texts_are_printed_in_order(text, first, rest.drop_last());
        assert((first + rest).drop_last() =~= first + rest.drop_last());
        assert((first + rest).last() == rest.last());
        assert(crate::prompt_stream::plain_texts_of(first + rest) =~= printed);
    }
}

/// What is printed of an answer depends on its texts alone. An answer without plain
/// text prints nothing, one with a single plain text prints that, and what is added
/// to an answer is printed behind it on a new line.
pub proof fn law_printed_answer(
    answer: AIAgentOutput,
    first: AIAgentOutput,
    rest: AIAgentOutput,
    text: Seq<char>,
)
    requires
        answer.texts@ == first.texts@ + rest.texts@,
    ensures
        ({
            let first_texts = crate::prompt_stream::plain_texts_of(first.texts@);
            let rest_texts = crate::prompt_stream::plain_texts_of(rest.texts@);
            let printed = crate::prompt_stream::printed_answer(answer);
            &&& first_texts.len() == 0 && rest_texts.len() == 0 ==> printed.len() == 0
            &&& first_texts =~= seq![text] && rest_texts.len() == 0 ==> printed == text
            &&& rest_texts.len() == 0 ==> printed == crate::prompt_stream::printed_answer(first)
            &&& first_texts.len() == 0 ==> printed == crate::prompt_stream::printed_answer(rest)
            &&& first_texts.len() > 0 && rest_texts.len() > 0 ==> printed
                == crate::prompt_stream::printed_answer(first) + seq!['\n']
                + crate::prompt_stream::printed_answer(rest)
        }),
{
    let first_texts = crate::prompt_stream::plain_texts_of(first.texts@);
    let rest_texts = crate::prompt_stream::plain_texts_of(rest.texts@);
    if first.texts@.len() > 0 {
        law_texts_are_printed_in_order(first.texts@[0], first.texts@, rest.texts@);
    } else {
        assert(answer.texts@ =~= rest.texts@);
        assert(first_texts + rest_texts =~= rest_texts);
    }
    crate::text::law_lines_are_joined(text, first_texts, rest_texts);
    if rest_texts.len() == 0 {
        assert(first_texts + rest_texts =~= first_texts);
    }
    if first_texts.len() == 0 {
        assert(first_texts =~= Seq::empty());
        assert(first_texts + rest_texts =~= rest_texts);
    }
}

/// On news of a conversation its answer is printed exactly when it is another than
/// the one printed last, and is the one printed last afterwards. Without an answer
/// nothing happens, and one that asks for tool actions ends the stream instead.
pub proof fn law_news_print_the_answer(
    state: StreamState,
    conversation_id: AIConversationId,
    app: AppContext,
)
    ensures
        ({
            let step = state.on_event(TuiEventView::ConversationUpdated { conversation_id }, app);
            &&& step.state.tui == state.tui
            &&& step.state.surface == state.surface
            &&& match crate::prompt_stream::answer_in(app, conversation_id) {
                None => step.effects.len() == 0 && step.state.last_output == state.last_output,
                Some(answer) => if answer.action_count > 0 {
                    &&& step.state.last_output == state.last_output
                    &&& step.effects =~= seq![
                        StreamEffectView::Terminate {
                            error: Some("TUI prompt streaming does not support tool actions"@),
                        },
                    ]
                } else {
                    let text = crate::prompt_stream::printed_answer(answer);
                    &&& step.state.last_output == text
                    &&& text != state.last_output ==> step.effects =~= seq![
                        StreamEffectView::Print { text },
                    ]
                    &&& text == state.last_output ==> step.effects.len() == 0
                },
            }
        }),
{
}

/// However often a conversation has news, the answer printed last is the one that it
/// has, and each answer is printed that is not like the one before it.
pub proof fn law_growing_answer_is_printed_again(
    state: StreamState,
    conversation_id: AIConversationId,
    first: AppContext,
    second: AppContext,
    one: AIAgentOutput,
    other: AIAgentOutput,
)
    requires
        crate::prompt_stream::answer_in(first, conversation_id) == Some(one),
        crate::prompt_stream::answer_in(second, conversation_id) == Some(other),
        one.action_count == 0,
        other.action_count == 0,
        crate::prompt_stream::printed_answer(one) != crate::prompt_stream::printed_answer(other),
    ensures
        ({
            let event = TuiEventView::ConversationUpdated { conversation_id };
            let before = state.on_event(event, first);
            let step = before.state.on_event(event, second);
            &&& before.state.last_output == crate::prompt_stream::printed_answer(one)
            &&& step.state.last_output == crate::prompt_stream::printed_answer(other)
            &&& step.effects =~= seq![
                StreamEffectView::Print { text: crate::prompt_stream::printed_answer(other) },
            ]
        }),
{
}

/// A new status brings the answer up to date as news of the conversation do; a
/// status other than in progress is then printed, and the stream ends. A status that
/// a restored conversation had does nothing.
pub proof fn law_status_is_handled_like_news(
    state: StreamState,
    conversation_id: AIConversationId,
    is_in_progress: bool,
    label: Seq<char>,
    app: AppContext,
)
    ensures
        ({
            let news = state.on_event(TuiEventView::ConversationUpdated { conversation_id }, app);
            let changed = state.on_event(
                TuiEventView::ConversationStatusChanged {
                    conversation_id,
                    is_in_progress,
                    label,
                    update: ConversationStatusUpdate::Changed,
                },
                app,
            );
            let restored = state.on_event(
                TuiEventView::ConversationStatusChanged {
                    conversation_id,
                    is_in_progress,
                    label,
                    update: ConversationStatusUpdate::Restored,
                },
                app,
            );
            &&& changed.state == news.state
            &&& is_in_progress ==> changed.effects =~= news.effects
            &&& !is_in_progress ==> changed.effects =~= news.effects + seq![
                StreamEffectView::Print { text: "status="@ + label },
                StreamEffectView::Terminate { error: None },
            ]
            &&& restored.state == state
            &&& restored.effects.len() == 0
        }),
{
}

/// A started conversation is printed by its text and changes nothing; a new selection
/// prints nothing and forgets what was printed, and nothing else; a failure ends the
/// stream with its message and changes nothing.
pub proof fn law_other_events_of_the_stream(
    state: StreamState,
    conversation_id: AIConversationId,
    selected: Option<AIConversationId>,
    message: Seq<char>,
    app: AppContext,
)
    ensures
        ({
            let step = state.on_event(TuiEventView::ConversationStarted { conversation_id }, app);
            &&& step.state == state
            &&& step.effects.len() == 1
            &&& step.effects[0] matches StreamEffectView::Print { text } && text.len() == 52
                && text.take(16) == "conversation_id="@ && text.skip(16)
                == conversation_id.spec_text()
        }),
        ({
            let step = state.on_event(TuiEventView::SelectedConversationChanged { selected }, app);
            &&& step.state.tui == state.tui
            &&& step.state.surface == state.surface
            &&& step.state.last_output.len() == 0
            &&& step.effects.len() == 0
        }),
        ({
            let step = state.on_event(TuiEventView::Error { message }, app);
            &&& step.state == state
            &&& step.effects =~= seq![StreamEffectView::Terminate { error: Some(message) }]
        }),
        state.fail(message).effects =~= seq![StreamEffectView::Terminate { error: Some(message) }],
{
    reveal_strlit("conversation_id=");
    let text = "conversation_id="@ + conversation_id.spec_text();
    assert(text.take(16) =~= "conversation_id="@);
    assert(text.skip(16) =~= conversation_id.spec_text());
}

/// The latest answer is looked at the same way whoever asks for it.
pub proof fn law_snapshot_is_news(
    state: StreamState,
    conversation_id: AIConversationId,
    app: AppContext,
)
    ensures
        state.on_answer(crate::prompt_stream::answer_in(app, conversation_id)) == state.on_event(
            TuiEventView::ConversationUpdated { conversation_id },
            app,
        ),
{
}

/// A stream is created as that of one TUI surface, with nothing printed and a new
/// conversation pending, which runs to completion in a sandbox alone.
pub proof fn law_stream_is_created_as_asked(terminal_surface_id: EntityId, is_sandboxed: bool)
    ensures
        ({
            let state = StreamState::created(terminal_surface_id, is_sandboxed);
            &&& state.tui == terminal_surface_id
            &&& state.surface.terminal_surface_id == terminal_surface_id
            &&& state.surface.surface == ConversationSurface::Tui
            &&& state.surface.pending matches PendingQueryState::New { autoexecute_override } && (
            autoexecute_override is RunToCompletion <==> is_sandboxed)
            &&& state.last_output.len() == 0
        }),
        forall|state: StreamState| #[trigger]
            state.wf() <==> state.surface.surface == ConversationSurface::Tui
                && state.surface.terminal_surface_id == state.tui,
{
}

/// A prompt for a given conversation goes the way of a restored conversation, whatever
/// is selected; any other prompt goes the way of the selected one.
pub proof fn law_submitted_prompt_goes_its_way(
    state: StreamState,
    prompt: Seq<char>,
    conversation_id: AIConversationId,
    app: AppContext,
)
    ensures
        state.submitted(prompt, Some(conversation_id), app) == crate::conversation_laws::moved(
            state.tui,
            state.surface,
            prompt,
            PromptMove::Restore { conversation_id, app },
        ),
        state.submitted(prompt, None, app) == crate::conversation_laws::moved(
            state.tui,
            state.surface,
            prompt,
            PromptMove::Send { app },
        ),
{
}

/// Contracts see every effect, in its place and with the text that it carries.
pub proof fn law_stream_effects_are_seen_whole(
    effects: Seq<PromptStreamEffect>,
    effect: PromptStreamEffect,
)
    ensures
        crate::prompt_stream::stream_effects_of(effects).len() == effects.len(),
        forall|i: int|
            0 <= i < effects.len() ==> #[trigger] crate::prompt_stream::stream_effects_of(
                effects,
            )[i] == effects[i]@,
        ({
            match (effect, effect@) {
                (
                    PromptStreamEffect::Print { text },
                    StreamEffectView::Print { text: seen },
                ) => seen == text@,
                (
                    PromptStreamEffect::Terminate { error: Some(error) },
                    StreamEffectView::Terminate { error: Some(seen) },
                ) => seen == error@,
                (
                    PromptStreamEffect::Terminate { error: None },
                    StreamEffectView::Terminate { error: None },
                ) => true,
                _ => false,
            }
        }),
{
}

} // verus!
