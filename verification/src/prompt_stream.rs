//! Streaming the answer to one prompt to standard output.
use vstd::prelude::*;
use vstd::string::*;
use crate::context::{AIAgentOutput, AIAgentText, AIAgentTextSection, AppContext};
use crate::conversation_model::{
    PromptAnswer, PromptStep, TuiConversationModel, TuiConversationModelEvent, TuiEffect,
    TuiEventView, TuiStep,
};
use crate::events::{BlocklistAIHistoryEvent, ConversationStatusUpdate, ConversationSurfaceEvent};
use crate::ids::{AIConversationId, EntityId};
use crate::surface::{ConversationSurface, ConversationSurfaceModel, SurfaceEffect, SurfaceState};
use crate::tui_args::TuiArgs;

verus! {

/// A prompt to stream the answer to.
#[derive(Debug, PartialEq, Eq)]
pub struct PromptStreamRequest {
    pub prompt: String,
    /// The conversation to ask in, or none for a new one.
    pub conversation_id: Option<AIConversationId>,
}

/// Tells what to stream: something only if the TUI frontend received a prompt.
pub fn start(args: TuiArgs) -> (request: Option<PromptStreamRequest>)
    ensures
        match (args.prompt, request) {
            (Some(prompt), Some(request)) => request.prompt@ == prompt@
                && request.conversation_id == args.conversation_id,
            (None, None) => true,
            _ => false,
        },
{
    match args.prompt {
        Some(prompt) => Some(
            PromptStreamRequest { prompt, conversation_id: args.conversation_id },
        ),
        None => None,
    }
}

/// What a prompt stream wants done outside.
#[derive(Debug, PartialEq, Eq)]
pub enum PromptStreamEffect {
    /// Print a text and a line break.
    Print { text: String },
    /// Terminate the application by force: with a failure, or without one.
    Terminate { error: Option<String> },
}

/// A [`PromptStreamEffect`], as contracts speak of it.
pub enum StreamEffectView {
    Print { text: Seq<char> },
    Terminate { error: Option<Seq<char>> },
}

impl View for PromptStreamEffect {
    type V = StreamEffectView;

    open spec fn view(&self) -> StreamEffectView {
        match *self {
            PromptStreamEffect::Print { text } => StreamEffectView::Print { text: text@ },
            PromptStreamEffect::Terminate { error } => StreamEffectView::Terminate {
                error: match error {
                    Some(error) => Some(error@),
                    None => None,
                },
            },
        }
    }
}

/// What some effects are.
pub open spec fn stream_effects_of(effects: Seq<PromptStreamEffect>) -> Seq<StreamEffectView> {
    Seq::new(effects.len(), |i: int| effects[i]@)
}

/// The plain texts among some sections, in order.
pub open spec fn plain_texts_in(sections: Seq<AIAgentTextSection>) -> Seq<Seq<char>>
    decreases sections.len(),
{
    if sections.len() == 0 {
        Seq::empty()
    } else {
        let before = plain_texts_in(sections.drop_last());
        match sections.last() {
            AIAgentTextSection::PlainText { text } => before.push(text@),
            _ => before,
        }
    }
}

/// The plain texts of an answer, in order.
pub open spec fn plain_texts_of(texts: Seq<AIAgentText>) -> Seq<Seq<char>>
    decreases texts.len(),
{
    if texts.len() == 0 {
        Seq::empty()
    } else {
        plain_texts_of(texts.drop_last()) + plain_texts_in(texts.last().sections@)
    }
}

/// The answer that a conversation has at the moment, if it has one.
pub open spec fn answer_in(app: AppContext, conversation_id: AIConversationId) -> Option<
    AIAgentOutput,
> {
    match app.history.spec_conversation(conversation_id) {
        Some(conversation) => match conversation.latest_exchange {
            Some(exchange) => exchange.output,
            None => None,
        },
        None => None,
    }
}

/// An answer as it is printed: its plain texts, each on a line of its own.
pub open spec fn printed_answer(output: AIAgentOutput) -> Seq<char> {
    crate::text::joined_lines(plain_texts_of(output.texts@))
}

/// A prompt stream, as contracts speak of it.
pub struct StreamState {
    /// The surface that the conversation model speaks for.
    pub tui: EntityId,
    pub surface: SurfaceState,
    /// What was printed last of the answer.
    pub last_output: Seq<char>,
}

/// A prompt stream after an event, and what the event makes it want done outside.
pub struct StreamStep {
    pub state: StreamState,
    pub effects: Seq<StreamEffectView>,
}

impl StreamState {
    /// Surface and conversation model are those of one and the same TUI.
    pub open spec fn wf(self) -> bool {
        &&& self.surface.surface is Tui
        &&& self.surface.terminal_surface_id == self.tui
    }

    /// A prompt stream that was just created.
    pub open spec fn created(terminal_surface_id: EntityId, is_sandboxed: bool) -> StreamState {
        StreamState {
            tui: terminal_surface_id,
            surface: SurfaceState::created(
                terminal_surface_id,
                ConversationSurface::Tui,
                is_sandboxed,
            ),
            last_output: Seq::empty(),
        }
    }

    /// A prompt is submitted, for a given conversation or for the selected one.
    pub open spec fn submitted(
        self,
        prompt: Seq<char>,
        conversation_id: Option<AIConversationId>,
        app: AppContext,
    ) -> TuiStep {
        match conversation_id {
            Some(conversation_id) => crate::conversation_model::restored_and_prompted(
                self.tui,
                self.surface,
                prompt,
                conversation_id,
                app,
            ),
            None => crate::conversation_model::prompted(self.surface, prompt, app),
        }
    }

    /// Nothing happens.
    pub open spec fn stay(self) -> StreamStep {
        StreamStep { state: self, effects: Seq::empty() }
    }

    /// The stream ends with a failure.
    pub open spec fn fail(self, message: Seq<char>) -> StreamStep {
        StreamStep {
            state: self,
            effects: seq![StreamEffectView::Terminate { error: Some(message) }],
        }
    }

    /// The answer is printed if it is another than the last one; one that asks for
    /// tool actions ends the stream.
    pub open spec fn on_answer(self, output: Option<AIAgentOutput>) -> StreamStep {
        match output {
            None => self.stay(),
            Some(output) => if output.action_count > 0 {
                self.fail("TUI prompt streaming does not support tool actions"@)
            } else if printed_answer(output) != self.last_output {
                StreamStep {
                    state: StreamState { last_output: printed_answer(output), ..self },
                    effects: seq![StreamEffectView::Print { text: printed_answer(output) }],
                }
            } else {
                self.stay()
            },
        }
    }

    /// The conversation model reported something.
    pub open spec fn on_event(self, event: TuiEventView, app: AppContext) -> StreamStep {
        match event {
            TuiEventView::SelectedConversationChanged { .. } => StreamStep {
                state: StreamState { last_output: Seq::empty(), ..self },
                effects: Seq::empty(),
            },
            TuiEventView::ConversationStarted { conversation_id } => StreamStep {
                state: self,
                effects: seq![
                    StreamEffectView::Print {
                        text: "conversation_id="@ + conversation_id.spec_text(),
                    },
                ],
            },
            TuiEventView::ConversationUpdated { conversation_id } => {
                self.on_answer(answer_in(app, conversation_id))
            },
            TuiEventView::ConversationStatusChanged {
                conversation_id,
                is_in_progress,
                label,
                update,
            } => match update {
                ConversationStatusUpdate::Restored => self.stay(),
                ConversationStatusUpdate::Changed => {
                    let step = self.on_answer(answer_in(app, conversation_id));
                    if is_in_progress {
                        step
                    } else {
                        StreamStep {
                            state: step.state,
                            effects: step.effects + seq![
                                StreamEffectView::Print { text: "status="@ + label },
                                StreamEffectView::Terminate { error: None },
                            ],
                        }
                    }
                },
            },
            TuiEventView::Error { message } => self.fail(message),
        }
    }
}

/// Appends one effect.
fn push_stream_effect(effects: &mut Vec<PromptStreamEffect>, effect: PromptStreamEffect)
    ensures
        stream_effects_of(final(effects)@) == stream_effects_of(old(effects)@).push(effect@),
{
    effects.push(effect);
    assert(stream_effects_of(effects@) =~= stream_effects_of(old(effects)@).push(effect@));
}

/// Appends the plain texts among some sections.
fn push_plain_texts(lines: &mut Vec<String>, sections: &Vec<AIAgentTextSection>)
    ensures
        crate::text::texts_of(final(lines)@) == crate::text::texts_of(old(lines)@)
            + plain_texts_in(sections@),
{
    let ghost before = crate::text::texts_of(lines@);
    let mut i: usize = 0;
    assert(crate::text::texts_of(lines@) =~= before + plain_texts_in(sections@.take(0)));
    while i < sections.len()
        invariant
            i <= sections@.len(),
            crate::text::texts_of(lines@) == before + plain_texts_in(sections@.take(i as int)),
        decreases sections@.len() - i,
    {
        assert(sections@.take(i + 1).drop_last() =~= sections@.take(i as int));
        assert(sections@.take(i + 1).last() == sections@[i as int]);
        match &sections[i] {
            AIAgentTextSection::PlainText { text } => {
                let ghost so_far = lines@;
                lines.push(text.clone());
                assert(crate::text::texts_of(lines@) =~= crate::text::texts_of(so_far).push(text@));
                assert(crate::text::texts_of(lines@) =~= before + plain_texts_in(
                    sections@.take(i + 1),
                ));
            },
            AIAgentTextSection::Code
            | AIAgentTextSection::Table
            | AIAgentTextSection::Image
            | AIAgentTextSection::MermaidDiagram => {},
        }
        i = i + 1;
    }
    assert(sections@.take(sections@.len() as int) =~= sections@);
}

/// Writes an answer as it is printed.
fn print_answer(output: &AIAgentOutput) -> (text: String)
    ensures
        text@ == printed_answer(*output),
{
    let texts = &output.texts;
    let mut lines: Vec<String> = Vec::new();
    let mut i: usize = 0;
    assert(crate::text::texts_of(lines@) =~= plain_texts_of(texts@.take(0)));
    while i < texts.len()
        invariant
            i <= texts@.len(),
            crate::text::texts_of(lines@) == plain_texts_of(texts@.take(i as int)),
        decreases texts@.len() - i,
    {
        assert(texts@.take(i + 1).drop_last() =~= texts@.take(i as int));
        assert(texts@.take(i + 1).last() == texts@[i as int]);
        push_plain_texts(&mut lines, &texts[i].sections);
        i = i + 1;
    }
    assert(texts@.take(texts@.len() as int) =~= texts@);
    crate::text::join_lines(&lines)
}

/// A TUI surface that answers one prompt on standard output.
#[derive(Debug, PartialEq, Eq)]
pub struct PromptStreamSurface {
    conversation_surface: ConversationSurfaceModel,
    conversation_model: TuiConversationModel,
    last_output: String,
}

impl View for PromptStreamSurface {
    type V = StreamState;

    closed spec fn view(&self) -> StreamState {
        StreamState {
            tui: self.conversation_model@,
            surface: self.conversation_surface@,
            last_output: self.last_output@,
        }
    }
}

impl PromptStreamSurface {
    /// Builds the conversation-capable surface of a terminal session.
    pub fn new(terminal_surface_id: EntityId, app: &AppContext) -> (stream: Self)
        ensures
            stream@ == StreamState::created(terminal_surface_id, app.is_sandboxed),
            stream@.wf(),
    {
        PromptStreamSurface {
            conversation_surface: ConversationSurfaceModel::new_for_tui_surface(
                terminal_surface_id,
                app,
            ),
            conversation_model: TuiConversationModel::new(terminal_surface_id),
            last_output: String::new(),
        }
    }

    /// Returns the selection of this surface.
    pub fn conversation_surface(&self) -> (surface: &ConversationSurfaceModel)
        ensures
            surface@ == self@.surface,
    {
        &self.conversation_surface
    }

    /// Submits a new prompt or restores and follows up in an existing conversation.
    pub fn submit_prompt(
        &mut self,
        prompt: String,
        conversation_id: Option<AIConversationId>,
        app: &AppContext,
        effects: &mut Vec<TuiEffect>,
    ) -> (next: PromptStep)
        ensures
            ({
                let step = old(self)@.submitted(prompt@, conversation_id, *app);
                &&& next@ == step.next
                &&& final(self)@ == (StreamState { surface: step.surface, ..old(self)@ })
                &&& crate::conversation_model::effects_of(final(effects)@)
                    == crate::conversation_model::effects_of(old(effects)@) + step.effects
            }),
    {
        match conversation_id {
            Some(conversation_id) => {
                self.conversation_model.restore_conversation_and_send_prompt(
                    prompt,
                    conversation_id,
                    &mut self.conversation_surface,
                    app,
                    effects,
                )
            },
            None => self.conversation_model.send_prompt(
                prompt,
                &self.conversation_surface,
                app,
                effects,
            ),
        }
    }

    /// Goes on with the prompt after what its last step asked for was done.
    pub fn resume_prompt(
        &mut self,
        answer: PromptAnswer,
        app: &AppContext,
        effects: &mut Vec<TuiEffect>,
    ) -> (next: PromptStep)
        ensures
            ({
                let step = crate::conversation_model::resumed(
                    old(self)@.tui,
                    old(self)@.surface,
                    answer,
                    *app,
                );
                &&& next@ == step.next
                &&& final(self)@ == (StreamState { surface: step.surface, ..old(self)@ })
                &&& crate::conversation_model::effects_of(final(effects)@)
                    == crate::conversation_model::effects_of(old(effects)@) + step.effects
            }),
    {
        self.conversation_model.resume_prompt(
            answer,
            &mut self.conversation_surface,
            app,
            effects,
        )
    }

    /// Hands a history event to the selection and then to the conversation model.
    pub fn handle_history_event(
        &mut self,
        event: &BlocklistAIHistoryEvent,
        app: &AppContext,
        effects: &mut Vec<TuiEffect>,
    )
        ensures
            ({
                let step = old(self)@.surface.on_history_event(*event, *app);
                &&& final(self)@ == (StreamState { surface: step.state, ..old(self)@ })
                &&& crate::conversation_model::effects_of(final(effects)@)
                    == crate::conversation_model::effects_of(old(effects)@)
                    + crate::conversation_model::from_surface(step.effects)
                    + crate::conversation_model::presented(old(self)@.tui, *event)
            }),
    {
        let mut surface_effects: Vec<SurfaceEffect> = Vec::new();
        self.conversation_surface.handle_history_event(event, app, &mut surface_effects);
        assert(surface_effects@ =~= old(self)@.surface.on_history_event(*event, *app).effects);
        crate::conversation_model::push_surface_effects(effects, &surface_effects);
        self.conversation_model.handle_history_event(event, effects);
    }

    /// Hands an event of the selection to the conversation model.
    pub fn handle_surface_event(
        &self,
        event: &ConversationSurfaceEvent,
        app: &AppContext,
        effects: &mut Vec<TuiEffect>,
    )
        ensures
            crate::conversation_model::effects_of(final(effects)@)
                == crate::conversation_model::effects_of(old(effects)@)
                + crate::conversation_model::announced(self@.surface, *event, *app),
    {
        self.conversation_model.handle_surface_event(
            event,
            &self.conversation_surface,
            app,
            effects,
        );
    }

    /// Adapts events of the conversation model to standard output.
    pub fn handle_conversation_event(
        &mut self,
        event: &TuiConversationModelEvent,
        app: &AppContext,
        effects: &mut Vec<PromptStreamEffect>,
    )
        ensures
            final(self)@ == old(self)@.on_event(event@, *app).state,
            stream_effects_of(final(effects)@) == stream_effects_of(old(effects)@) + old(
                self,
            )@.on_event(event@, *app).effects,
    {
        let ghost before = stream_effects_of(effects@);
        let ghost expected = old(self)@.on_event(event@, *app);
        match event {
            TuiConversationModelEvent::SelectedConversationChanged { .. } => {
                self.last_output = String::new();
            },
            TuiConversationModelEvent::ConversationStarted { conversation_id } => {
                push_stream_effect(
                    effects,
                    PromptStreamEffect::Print {
                        text: crate::text::join(
                            "conversation_id=",
                            conversation_id.to_text().as_str(),
                        ),
                    },
                );
            },
            TuiConversationModelEvent::ConversationUpdated { conversation_id } => {
                self.print_stream_snapshot(*conversation_id, app, effects);
            },
            TuiConversationModelEvent::ConversationStatusChanged {
                conversation_id,
                status,
                update,
            } => match update {
                ConversationStatusUpdate::Changed => {
                    self.print_stream_snapshot(*conversation_id, app, effects);
                    if !status.is_in_progress {
                        push_stream_effect(
                            effects,
                            PromptStreamEffect::Print {
                                text: crate::text::join("status=", status.label.as_str()),
                            },
                        );
                        push_stream_effect(effects, PromptStreamEffect::Terminate { error: None });
                    }
                },
                ConversationStatusUpdate::Restored => {},
            },
            TuiConversationModelEvent::Error { message } => {
                self.terminate_with_error(message.clone(), effects);
            },
        }
        assert(stream_effects_of(effects@) =~= before + expected.effects);
    }

    /// Prints the latest plain-text output when it changes.
    pub fn print_stream_snapshot(
        &mut self,
        conversation_id: AIConversationId,
        app: &AppContext,
        effects: &mut Vec<PromptStreamEffect>,
    )
        ensures
            final(self)@ == old(self)@.on_answer(answer_in(*app, conversation_id)).state,
            stream_effects_of(final(effects)@) == stream_effects_of(old(effects)@) + old(
                self,
            )@.on_answer(answer_in(*app, conversation_id)).effects,
    {
        let ghost before = stream_effects_of(effects@);
        assert(before =~= before + Seq::<StreamEffectView>::empty());
        let output = match app.history.conversation(&conversation_id) {
            Some(conversation) => match &conversation.latest_exchange {
                Some(exchange) => match &exchange.output {
                    Some(output) => output,
                    None => {
                        return ;
                    },
                },
                None => {
                    return ;
                },
            },
            None => {
                return ;
            },
        };
        let text = print_answer(output);
        if output.action_count > 0 {
            self.terminate_with_error(
                "TUI prompt streaming does not support tool actions".to_owned(),
                effects,
            );
            return ;
        }
        if !(text == self.last_output) {
            push_stream_effect(effects, PromptStreamEffect::Print { text: text.clone() });
            self.last_output = text;
            assert(stream_effects_of(effects@) =~= before + old(self)@.on_answer(
                answer_in(*app, conversation_id),
            ).effects);
        }
    }

    /// Terminates prompt streaming with a user-visible error.
    pub fn terminate_with_error(&self, message: String, effects: &mut Vec<PromptStreamEffect>)
        ensures
            stream_effects_of(final(effects)@) == stream_effects_of(old(effects)@) + self@.fail(
                message@,
            ).effects,
    {
        push_stream_effect(effects, PromptStreamEffect::Terminate { error: Some(message) });
        assert(stream_effects_of(effects@) =~= stream_effects_of(old(effects)@) + self@.fail(
            message@,
        ).effects);
    }
}

} // verus!
