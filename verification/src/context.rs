//! What the models read of the world around them, as plain values.
use vstd::prelude::*;
use crate::ids::{AIConversationId, EntityId};

verus! {

/// Whether the agent's commands run without asking.
#[derive(Debug, Clone, Copy, PartialEq, Eq, Structural)]
pub enum AIConversationAutoexecuteMode {
    /// Commands run as the user's settings say.
    RespectUserSettings,
    /// Commands run until the task is complete.
    RunToCompletion,
}

impl AIConversationAutoexecuteMode {
    /// The mode that a conversation has unless something overrides it.
    pub open spec fn spec_default() -> Self {
        AIConversationAutoexecuteMode::RespectUserSettings
    }

    /// The other mode.
    pub open spec fn toggled(self) -> Self {
        match self {
            AIConversationAutoexecuteMode::RespectUserSettings => {
                AIConversationAutoexecuteMode::RunToCompletion
            },
            AIConversationAutoexecuteMode::RunToCompletion => {
                AIConversationAutoexecuteMode::RespectUserSettings
            },
        }
    }
}

impl Default for AIConversationAutoexecuteMode {
    fn default() -> (mode: Self)
        ensures
            mode == AIConversationAutoexecuteMode::spec_default(),
    {
        AIConversationAutoexecuteMode::RespectUserSettings
    }
}

/// One section of a text that the agent wrote. What the sections other than plain
/// text hold is of no interest here.
#[derive(Debug, PartialEq, Eq)]
pub enum AIAgentTextSection {
    PlainText { text: String },
    Code,
    Table,
    Image,
    MermaidDiagram,
}

/// A text that the agent wrote.
#[derive(Debug, PartialEq, Eq)]
pub struct AIAgentText {
    pub sections: Vec<AIAgentTextSection>,
}

/// What the agent has answered so far in one exchange.
#[derive(Debug, PartialEq, Eq)]
pub struct AIAgentOutput {
    /// How many tool actions the answer asks for.
    pub action_count: usize,
    /// The texts of the answer, in order.
    pub texts: Vec<AIAgentText>,
}

/// A query and its answer.
#[derive(Debug, PartialEq, Eq)]
pub struct AIAgentExchange {
    /// The answer, once there is one.
    pub output: Option<AIAgentOutput>,
}

/// A conversation that is loaded.
#[derive(Debug, PartialEq, Eq)]
pub struct AIConversation {
    pub id: AIConversationId,
    pub autoexecute_override: AIConversationAutoexecuteMode,
    pub latest_exchange: Option<AIAgentExchange>,
}

/// A conversation that is live in a terminal surface.
#[derive(Debug, Clone, Copy, PartialEq, Eq, Structural)]
pub struct LiveConversation {
    pub terminal_surface_id: EntityId,
    pub conversation_id: AIConversationId,
}

/// The conversations that are loaded, and where they are live.
#[derive(Debug, PartialEq, Eq)]
pub struct BlocklistAIHistoryModel {
    pub conversations: Vec<AIConversation>,
    pub live_conversations: Vec<LiveConversation>,
}

/// The first of some conversations that has an identifier.
pub open spec fn conversation_with(
    conversations: Seq<AIConversation>,
    id: AIConversationId,
) -> Option<AIConversation>
    decreases conversations.len(),
{
    if conversations.len() == 0 {
        None
    } else if conversations[0].id == id {
        Some(conversations[0])
    } else {
        conversation_with(conversations.drop_first(), id)
    }
}

impl BlocklistAIHistoryModel {
    /// The loaded conversation with an identifier.
    pub open spec fn spec_conversation(self, id: AIConversationId) -> Option<AIConversation> {
        conversation_with(self.conversations@, id)
    }

    /// Whether a conversation is live in a terminal surface.
    pub open spec fn spec_is_live(self, surface: EntityId, id: AIConversationId) -> bool {
        self.live_conversations@.contains(
            LiveConversation { terminal_surface_id: surface, conversation_id: id },
        )
    }

    /// Finds a loaded conversation.
    pub fn conversation(&self, id: &AIConversationId) -> (found: Option<&AIConversation>)
        ensures
            match found {
                Some(conversation) => self.spec_conversation(*id) == Some(*conversation),
                None => self.spec_conversation(*id) is None,
            },
    {
        let mut i: usize = 0;
        assert(self.conversations@.skip(0) =~= self.conversations@);
        while i < self.conversations.len()
            invariant
                i <= self.conversations@.len(),
                self.spec_conversation(*id) == conversation_with(
                    self.conversations@.skip(i as int),
                    *id,
                ),
            decreases self.conversations@.len() - i,
        {
            assert(self.conversations@.skip(i as int)[0] == self.conversations@[i as int]);
            if self.conversations[i].id == *id {
                return Some(&self.conversations[i]);
            }
            assert(self.conversations@.skip(i as int).drop_first() =~= self.conversations@.skip(
                i + 1,
            ));
            i = i + 1;
        }
        None
    }

    /// Tells whether a conversation is live in a terminal surface.
    pub fn is_live(&self, surface: EntityId, id: AIConversationId) -> (live: bool)
        ensures
            live == self.spec_is_live(surface, id),
    {
        let wanted = LiveConversation { terminal_surface_id: surface, conversation_id: id };
        let mut i: usize = 0;
        while i < self.live_conversations.len()
            invariant
                i <= self.live_conversations@.len(),
                wanted == (LiveConversation { terminal_surface_id: surface, conversation_id: id }),
                forall|j: int| 0 <= j < i ==> #[trigger] self.live_conversations@[j] != wanted,
            decreases self.live_conversations@.len() - i,
        {
            if self.live_conversations[i] == wanted {
                assert(self.live_conversations@[i as int] == wanted);
                return true;
            }
            i = i + 1;
        }
        false
    }
}

/// The Agent View of a GUI terminal view, as it is now.
#[derive(Debug, Clone, Copy, PartialEq, Eq, Structural)]
pub struct AgentViewController {
    pub is_active: bool,
    pub is_fullscreen: bool,
    /// The conversation that the view shows.
    pub active_conversation_id: Option<AIConversationId>,
}

/// The world around the models.
#[derive(Debug, PartialEq, Eq)]
pub struct AppContext {
    /// Whether the Agent View feature is on.
    pub agent_view_enabled: bool,
    /// Whether the application runs in a sandbox.
    pub is_sandboxed: bool,
    /// The Agent View that belongs to the surface. A surface without a GUI does
    /// not look at it.
    pub agent_view: AgentViewController,
    pub history: BlocklistAIHistoryModel,
}

/// There are two modes, each the other one's opposite, and nothing runs to
/// completion unless something says so.
pub proof fn law_autoexecute_modes(mode: AIConversationAutoexecuteMode)
    ensures
        mode.toggled() != mode,
        mode.toggled().toggled() == mode,
        AIConversationAutoexecuteMode::spec_default() is RespectUserSettings,
{
}

/// The conversation that is found is the first one with the identifier, and one is
/// found whenever there is one.
pub proof fn law_first_conversation_is_found(
    conversations: Seq<AIConversation>,
    id: AIConversationId,
)
    ensures
        forall|i: int|
            0 <= i < conversations.len() && #[trigger] conversations[i].id == id && (forall|j: int|
                0 <= j < i ==> #[trigger] conversations[j].id != id) ==> conversation_with(
                conversations,
                id,
            ) == Some(conversations[i]),
        (forall|i: int| 0 <= i < conversations.len() ==> #[trigger] conversations[i].id != id)
            <==> conversation_with(conversations, id) is None,
    decreases conversations.len(),
{
    if conversations.len() > 0 {
        let rest = conversations.drop_first();
        law_first_conversation_is_found(rest, id);
        let found = conversation_with(conversations, id);
        if conversations[0].id != id {
            assert forall|i: int|
                0 <= i < conversations.len() && #[trigger] conversations[i].id == id && (forall|
                    j: int,
                |
                    0 <= j < i ==> #[trigger] conversations[j].id != id) implies found == Some(
                conversations[i],
            ) by {
                assert(rest[i - 1] == conversations[i]);
                assert forall|j: int| 0 <= j < i - 1 implies #[trigger] rest[j].id != id by {
                    assert(rest[j] == conversations[j + 1]);
                }
            }
            if found is None {
                assert forall|i: int| 0 <= i < conversations.len() implies #[trigger]
                    conversations[i].id != id by {
                    if i > 0 {
                        assert(rest[i - 1] == conversations[i]);
                    }
                }
            }
            if forall|i: int| 0 <= i < conversations.len() ==> #[trigger] conversations[i].id != id {
                assert forall|i: int| 0 <= i < rest.len() implies #[trigger] rest[i].id != id by {
                    assert(rest[i] == conversations[i + 1]);
                }
            }
        }
    }
}

/// The history finds the first of its loaded conversations with an identifier.
pub proof fn law_history_finds_loaded_conversations(
    history: BlocklistAIHistoryModel,
    id: AIConversationId,
)
    ensures
        forall|i: int|
            0 <= i < history.conversations@.len() && #[trigger] history.conversations@[i].id == id
                && (forall|j: int| 0 <= j < i ==> #[trigger] history.conversations@[j].id != id)
                ==> history.spec_conversation(id) == Some(history.conversations@[i]),
        (forall|i: int|
            0 <= i < history.conversations@.len() ==> #[trigger] history.conversations@[i].id != id)
            <==> history.spec_conversation(id) is None,
{
    law_first_conversation_is_found(history.conversations@, id);
}

/// A conversation is live in a surface exactly when it is listed under that surface.
pub proof fn law_live_conversations_are_listed(
    history: BlocklistAIHistoryModel,
    surface: EntityId,
    id: AIConversationId,
)
    ensures
        history.spec_is_live(surface, id) <==> exists|i: int|
            0 <= i < history.live_conversations@.len()
                && #[trigger] history.live_conversations@[i].terminal_surface_id == surface
                && history.live_conversations@[i].conversation_id == id,
{
    let live = history.live_conversations@;
    let wanted = LiveConversation { terminal_surface_id: surface, conversation_id: id };
    if exists|i: int|
        0 <= i < live.len() && #[trigger] live[i].terminal_surface_id == surface
            && live[i].conversation_id == id {
        let i = choose|i: int|
            0 <= i < live.len() && #[trigger] live[i].terminal_surface_id == surface
                && live[i].conversation_id == id;
        assert(live[i] == wanted);
    }
    if live.contains(wanted) {
        let i = choose|i: int| 0 <= i < live.len() && live[i] == wanted;
        assert(live[i].terminal_surface_id == surface);
    }
}

} // verus!
