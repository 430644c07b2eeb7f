//! The arguments of the TUI frontend.
//!
//! Arguments are read from left to right. `--prompt` and `--conversation-id` take
//! the argument behind them as their value, whatever it looks like; of a flag that
//! is given twice the last value counts. The first argument that cannot be read
//! ends the reading.
use vstd::prelude::*;
use crate::ids::AIConversationId;

verus! {

/// The arguments of the TUI frontend.
#[derive(Debug, PartialEq, Eq)]
pub struct TuiArgs {
    /// What to ask in place of showing the frontend.
    pub prompt: Option<String>,
    /// The conversation to ask it in.
    pub conversation_id: Option<AIConversationId>,
}

/// Why arguments were refused.
#[derive(Debug, PartialEq, Eq)]
pub enum TuiArgsError {
    /// Nothing stands behind a flag that takes a value.
    MissingValue { flag: String },
    /// A value stands for no conversation.
    InvalidConversationId { value: String },
    /// An argument is none of the flags.
    UnknownArgument { argument: String },
}

/// Arguments, as contracts speak of them.
pub struct ArgsState {
    pub prompt: Option<Seq<char>>,
    pub conversation_id: Option<AIConversationId>,
}

/// A refusal, as contracts speak of it.
pub enum ArgsRefusal {
    MissingValue { flag: Seq<char> },
    InvalidConversationId { value: Seq<char> },
    UnknownArgument { argument: Seq<char> },
}

impl View for TuiArgs {
    type V = ArgsState;

    open spec fn view(&self) -> ArgsState {
        ArgsState {
            prompt: match self.prompt {
                Some(prompt) => Some(prompt@),
                None => None,
            },
            conversation_id: self.conversation_id,
        }
    }
}

impl View for TuiArgsError {
    type V = ArgsRefusal;

    open spec fn view(&self) -> ArgsRefusal {
        match *self {
            TuiArgsError::MissingValue { flag } => ArgsRefusal::MissingValue { flag: flag@ },
            TuiArgsError::InvalidConversationId { value } => {
                ArgsRefusal::InvalidConversationId { value: value@ }
            },
            TuiArgsError::UnknownArgument { argument } => {
                ArgsRefusal::UnknownArgument { argument: argument@ }
            },
        }
    }
}

impl ArgsState {
    /// What is known before any argument was read.
    pub open spec fn empty() -> ArgsState {
        ArgsState { prompt: None, conversation_id: None }
    }

    /// What is known once some more arguments were read.
    pub open spec fn read(self, args: Seq<Seq<char>>) -> Result<ArgsState, ArgsRefusal>
        decreases args.len(),
    {
        if args.len() == 0 {
            Ok(self)
        } else if args[0] != "--prompt"@ && args[0] != "--conversation-id"@ {
            Err(ArgsRefusal::UnknownArgument { argument: args[0] })
        } else if args.len() == 1 {
            Err(ArgsRefusal::MissingValue { flag: args[0] })
        } else if args[0] == "--prompt"@ {
            ArgsState { prompt: Some(args[1]), ..self }.read(args.skip(2))
        } else {
            match crate::ids::id_in(args[1]) {
                Some(id) => ArgsState { conversation_id: Some(id), ..self }.read(args.skip(2)),
                None => Err(ArgsRefusal::InvalidConversationId { value: args[1] }),
            }
        }
    }
}

impl ArgsRefusal {
    /// What the user is told.
    pub open spec fn message(self) -> Seq<char> {
        match self {
            ArgsRefusal::MissingValue { flag } => flag + " requires a value"@,
            ArgsRefusal::InvalidConversationId { value } => "Invalid conversation ID: "@ + value,
            ArgsRefusal::UnknownArgument { argument } => "Unknown argument: "@ + argument,
        }
    }
}

impl TuiArgs {
    /// Reads the arguments.
    pub fn parse(args: Vec<String>) -> (parsed: Result<TuiArgs, TuiArgsError>)
        ensures
            match (ArgsState::empty().read(crate::text::texts_of(args@)), parsed) {
                (Ok(state), Ok(parsed)) => parsed@ == state,
                (Err(refusal), Err(error)) => error@ == refusal,
                _ => false,
            },
    {
        let ghost texts = crate::text::texts_of(args@);
        let mut parsed = TuiArgs { prompt: None, conversation_id: None };
        let mut i: usize = 0;
        assert(texts.skip(0) =~= texts);
        while i < args.len()
            invariant
                i <= args@.len(),
                texts == crate::text::texts_of(args@),
                ArgsState::empty().read(texts) == parsed@.read(texts.skip(i as int)),
            decreases args@.len() - i,
        {
            let ghost rest = texts.skip(i as int);
            assert(rest.len() == args@.len() - i);
            assert(rest[0] == args@[i as int]@);
            let is_prompt = crate::text::text_is(&args[i], "--prompt");
            if !is_prompt && !crate::text::text_is(&args[i], "--conversation-id") {
                return Err(TuiArgsError::UnknownArgument { argument: args[i].clone() });
            }
            if i + 1 == args.len() {
                return Err(TuiArgsError::MissingValue { flag: args[i].clone() });
            }
            assert(rest[1] == args@[i + 1]@);
            assert(rest.skip(2) =~= texts.skip(i + 2));
            if is_prompt {
                parsed.prompt = Some(args[i + 1].clone());
            } else {
                match AIConversationId::from_text(args[i + 1].as_str()) {
                    Some(id) => {
                        parsed.conversation_id = Some(id);
                    },
                    None => {
                        return Err(
                            TuiArgsError::InvalidConversationId { value: args[i + 1].clone() },
                        );
                    },
                }
            }
            i = i + 2;
        }
        Ok(parsed)
    }
}

impl TuiArgsError {
    /// Writes what the user is told.
    pub fn message(&self) -> (text: String)
        ensures
            text@ == self@.message(),
    {
        match self {
            TuiArgsError::MissingValue { flag } => {
                crate::text::join(flag.as_str(), " requires a value")
            },
            TuiArgsError::InvalidConversationId { value } => {
                crate::text::join("Invalid conversation ID: ", value.as_str())
            },
            TuiArgsError::UnknownArgument { argument } => {
                crate::text::join("Unknown argument: ", argument.as_str())
            },
        }
    }
}

/// A prompt and a conversation that are given by their flags, in either order, are
/// what is read, whatever the prompt says.
pub proof fn law_given_arguments_are_read(
    state: ArgsState,
    prompt: Seq<char>,
    conversation_id: AIConversationId,
)
    ensures
        state.read(seq!["--prompt"@, prompt]) == Ok::<ArgsState, ArgsRefusal>(
            ArgsState { prompt: Some(prompt), ..state },
        ),
        state.read(seq!["--conversation-id"@, conversation_id.spec_text()]) == Ok::<
            ArgsState,
            ArgsRefusal,
        >(ArgsState { conversation_id: Some(conversation_id), ..state }),
        state.read(
            seq!["--conversation-id"@, conversation_id.spec_text(), "--prompt"@, prompt],
        ) == Ok::<ArgsState, ArgsRefusal>(
            ArgsState { prompt: Some(prompt), conversation_id: Some(conversation_id) },
        ),
        state.read(
            seq!["--prompt"@, prompt, "--conversation-id"@, conversation_id.spec_text()],
        ) == Ok::<ArgsState, ArgsRefusal>(
            ArgsState { prompt: Some(prompt), conversation_id: Some(conversation_id) },
        ),
{
    let id_text = conversation_id.spec_text();
    lemma_flags_differ();
    crate::ids::law_id_round_trip(conversation_id);
    let by_prompt = seq!["--prompt"@, prompt];
    let by_id = seq!["--conversation-id"@, id_text];
    let id_first = seq!["--conversation-id"@, id_text, "--prompt"@, prompt];
    let prompt_first = seq!["--prompt"@, prompt, "--conversation-id"@, id_text];
    assert(by_prompt.skip(2) =~= Seq::empty());
    assert(by_id.skip(2) =~= Seq::empty());
    assert(id_first.skip(2) =~= by_prompt);
    assert(prompt_first.skip(2) =~= by_id);
    reveal_with_fuel(ArgsState::read, 3);
}

/// Arguments that can be read are read the same with more behind them, and the
/// rest is read from there.
pub proof fn law_arguments_are_read_left_to_right(
    state: ArgsState,
    first: Seq<Seq<char>>,
    rest: Seq<Seq<char>>,
)
    requires
        state.read(first) is Ok,
    ensures
        state.read(first + rest) == state.read(first)->Ok_0.read(rest),
    decreases first.len(),
{
    if first.len() == 0 {
        assert(first + rest =~= rest);
    } else {
        assert((first + rest)[0] == first[0]);
        assert((first + rest)[1] == first[1]);
        assert((first + rest).skip(2) =~= first.skip(2) + rest);
        if first[0] == "--prompt"@ {
            let next = ArgsState { prompt: Some(first[1]), ..state };
            law_arguments_are_read_left_to_right(next, first.skip(2), rest);
        } else {
            let next = ArgsState { conversation_id: crate::ids::id_in(first[1]), ..state };
            law_arguments_are_read_left_to_right(next, first.skip(2), rest);
        }
    }
}

proof fn lemma_flags_differ()
    ensures
        "--prompt"@ != "--conversation-id"@,
{
    reveal_strlit("--prompt");
    reveal_strlit("--conversation-id");
    assert("--prompt"@.len() != "--conversation-id"@.len());
}

/// No arguments say nothing, and before any was read nothing is known.
pub proof fn law_no_arguments_say_nothing(state: ArgsState)
    ensures
        state.read(Seq::empty()) == Ok::<ArgsState, ArgsRefusal>(state),
        ArgsState::empty().prompt is None,
        ArgsState::empty().conversation_id is None,
{
}

/// An argument that is neither flag is refused as it stands, a flag with nothing
/// behind it is refused for that, and a value that stands for no conversation is
/// refused; whatever was read before and whatever else follows.
pub proof fn law_bad_arguments_are_refused(
    state: ArgsState,
    read: Seq<Seq<char>>,
    argument: Seq<char>,
    rest: Seq<Seq<char>>,
)
    requires
        state.read(read) is Ok,
    ensures
        argument != "--prompt"@ && argument != "--conversation-id"@ ==> state.read(
            read + (seq![argument] + rest),
        ) == Err::<ArgsState, ArgsRefusal>(ArgsRefusal::UnknownArgument { argument }),
        state.read(read + seq!["--prompt"@]) == Err::<ArgsState, ArgsRefusal>(
            ArgsRefusal::MissingValue { flag: "--prompt"@ },
        ),
        state.read(read + seq!["--conversation-id"@]) == Err::<ArgsState, ArgsRefusal>(
            ArgsRefusal::MissingValue { flag: "--conversation-id"@ },
        ),
        crate::ids::id_in(argument) is None ==> state.read(
            read + (seq!["--conversation-id"@, argument] + rest),
        ) == Err::<ArgsState, ArgsRefusal>(
            ArgsRefusal::InvalidConversationId { value: argument },
        ),
{
    lemma_flags_differ();
    law_arguments_are_read_left_to_right(state, read, seq![argument] + rest);
    law_arguments_are_read_left_to_right(state, read, seq!["--prompt"@]);
    law_arguments_are_read_left_to_right(state, read, seq!["--conversation-id"@]);
    law_arguments_are_read_left_to_right(state, read, seq!["--conversation-id"@, argument] + rest);
    assert((seq![argument] + rest)[0] == argument);
    assert((seq!["--conversation-id"@, argument] + rest)[0] == "--conversation-id"@);
    assert((seq!["--conversation-id"@, argument] + rest)[1] == argument);
}

/// Every refusal quotes what was refused: a flag in front of the reason, anything
/// else behind it.
pub proof fn law_refusals_quote_the_argument(quoted: Seq<char>)
    ensures
        ({
            let message = ArgsRefusal::MissingValue { flag: quoted }.message();
            &&& message.take(quoted.len() as int) == quoted
            &&& message.skip(quoted.len() as int) == " requires a value"@
        }),
        ({
            let message = ArgsRefusal::InvalidConversationId { value: quoted }.message();
            &&& message.len() == 25 + quoted.len()
            &&& message.take(25) == "Invalid conversation ID: "@
            &&& message.skip(25) == quoted
        }),
        ({
            let message = ArgsRefusal::UnknownArgument { argument: quoted }.message();
            &&& message.len() == 18 + quoted.len()
            &&& message.take(18) == "Unknown argument: "@
            &&& message.skip(18) == quoted
        }),
{
    reveal_strlit("Invalid conversation ID: ");
    reveal_strlit("Unknown argument: ");
    let missing = ArgsRefusal::MissingValue { flag: quoted }.message();
    let invalid = ArgsRefusal::InvalidConversationId { value: quoted }.message();
    let unknown = ArgsRefusal::UnknownArgument { argument: quoted }.message();
    assert(missing.take(quoted.len() as int) =~= quoted);
    assert(missing.skip(quoted.len() as int) =~= " requires a value"@);
    assert(invalid.take(25) =~= "Invalid conversation ID: "@);
    assert(invalid.skip(25) =~= quoted);
    assert(unknown.take(18) =~= "Unknown argument: "@);
    assert(unknown.skip(18) =~= quoted);
}

/// Contracts see arguments and refusals with every text that they hold.
pub proof fn law_arguments_are_seen_whole(
    args: TuiArgs,
    text: String,
    error: TuiArgsError,
)
    ensures
        args@.conversation_id == args.conversation_id,
        args.prompt is None <==> args@.prompt is None,
        args.prompt == Some(text) ==> args@.prompt == Some(text@),
        error == (TuiArgsError::MissingValue { flag: text }) ==> error@ == (
        ArgsRefusal::MissingValue { flag: text@ }),
        error == (TuiArgsError::InvalidConversationId { value: text }) ==> error@ == (
        ArgsRefusal::InvalidConversationId { value: text@ }),
        error == (TuiArgsError::UnknownArgument { argument: text }) ==> error@ == (
        ArgsRefusal::UnknownArgument { argument: text@ }),
{
}

} // verus!
