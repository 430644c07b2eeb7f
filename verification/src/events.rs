//! What the models are told, and what they tell.
use vstd::prelude::*;
use crate::ids::{AIConversationId, EntityId};

verus! {

/// What made an Agent View open.
#[derive(Debug, Clone, Copy, PartialEq, Eq, Structural)]
pub enum AgentViewEntryOrigin {
    /// The command line or a TUI.
    Cli,
    /// The user chose a conversation.
    ConversationSelector,
    /// The agent split its conversation.
    AgentRequestedNewConversation,
    /// Any other reason, under a number that the caller gave it.
    Other(u32),
}

/// How an Agent View is shown.
#[derive(Debug, Clone, Copy, PartialEq, Eq, Structural)]
pub enum AgentViewDisplayMode {
    Fullscreen,
    /// Any other way, under a number that the caller gave it.
    Other(u32),
}

/// Why an Agent View could not be entered.
#[derive(Debug, PartialEq, Eq)]
pub struct EnterAgentViewError {
    pub message: String,
}

/// What an Agent View reports.
#[derive(Debug, Clone, Copy, PartialEq, Eq, Structural)]
pub enum AgentViewControllerEvent {
    EnteredAgentView { display_mode: AgentViewDisplayMode, origin: AgentViewEntryOrigin },
    ExitedAgentView {
        conversation_id: AIConversationId,
        final_exchange_count: usize,
        is_exit_before_new_entrance: bool,
    },
    ExitConfirmed,
}

/// Events that a surface emits for models that know nothing of the Agent View.
#[derive(Debug, Clone, Copy, PartialEq, Eq, Structural)]
pub enum ConversationSurfaceEvent {
    /// The next query has another target, or another autoexecute override.
    PendingQueryStateUpdated,
    AgentViewEntered { display_mode: AgentViewDisplayMode, origin: AgentViewEntryOrigin },
    AgentViewExited {
        conversation_id: AIConversationId,
        final_exchange_count: usize,
        is_exit_before_new_entrance: bool,
    },
}

/// How far a conversation is.
#[derive(Debug, PartialEq, Eq)]
pub struct ConversationStatus {
    /// Whether the agent is still at work.
    pub is_in_progress: bool,
    /// How the status is shown.
    pub label: String,
}

impl Clone for ConversationStatus {
    fn clone(&self) -> (status: Self)
        ensures
            status == *self,
    {
        ConversationStatus { is_in_progress: self.is_in_progress, label: self.label.clone() }
    }
}

/// Why a status is reported.
#[derive(Debug, Clone, Copy, PartialEq, Eq, Structural)]
pub enum ConversationStatusUpdate {
    /// The conversation got this status now.
    Changed,
    /// The conversation had this status when it was restored.
    Restored,
}

/// What happened to the history.
#[derive(Debug, PartialEq, Eq)]
pub enum HistoryChange {
    ClearedConversationsForTerminalSurface,
    SplitConversation {
        old_conversation_id: AIConversationId,
        new_conversation_id: AIConversationId,
    },
    RemoveConversation { conversation_id: AIConversationId },
    DeletedConversation { conversation_id: AIConversationId },
    ConversationTransferredBetweenTerminalSurfaces { conversation_id: AIConversationId },
    StartedNewConversation { new_conversation_id: AIConversationId },
    UpdatedStreamingExchange { conversation_id: AIConversationId },
    UpdatedConversationStatus {
        conversation_id: AIConversationId,
        new_status: ConversationStatus,
        update: ConversationStatusUpdate,
    },
    /// A change that concerns neither selection nor streaming.
    Other,
}

/// What the history reports.
#[derive(Debug, PartialEq, Eq)]
pub struct BlocklistAIHistoryEvent {
    /// The terminal surface that the event belongs to. An event without one
    /// concerns every surface.
    pub terminal_surface_id: Option<EntityId>,
    pub change: HistoryChange,
}

impl BlocklistAIHistoryEvent {
    /// Whether an event belongs to another surface than the given one.
    pub open spec fn is_for_another(self, surface: EntityId) -> bool {
        self.terminal_surface_id is Some && self.terminal_surface_id != Some(surface)
    }

    /// Tells whether the event belongs to another surface than the given one.
    pub fn belongs_to_another(&self, surface: EntityId) -> (another: bool)
        ensures
            another == self.is_for_another(surface),
    {
        match self.terminal_surface_id {
            Some(id) => id != surface,
            None => false,
        }
    }
}

/// An event with a surface belongs to that surface alone; an event without one
/// belongs to every surface.
pub proof fn law_events_belong_to_surfaces(event: BlocklistAIHistoryEvent, surface: EntityId)
    ensures
        event.terminal_surface_id is None ==> !event.is_for_another(surface),
        event.terminal_surface_id matches Some(owner) ==> (event.is_for_another(surface) <==> owner
            != surface),
{
}

} // verus!
