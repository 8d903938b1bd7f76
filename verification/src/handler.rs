//! The inbound-event handler's decisions: what one arriving chat message
//! leads to, as a pure plan the connection layer carries out.

use vstd::prelude::*;

verus! {

/// The event handler of the chat connection. It holds no state: every
/// decision is a pure function of the arriving event.
pub struct DefaultHandler;

impl DefaultHandler {
    pub fn new() -> (h: DefaultHandler) {
        DefaultHandler {  }
    }
}

/// What one arriving message leads to, besides the content router's own
/// forwarding decision.
pub struct MessagePlan {
    /// Refresh the pinned sticky message: on every message not our own.
    pub refresh_sticky: bool,
    /// Answer the author's question: only when we are mentioned by
    /// someone else.
    pub reply_to_question: bool,
}

/// Decide what an arriving message leads to, from whether it mentions us
/// and whether we sent it ourselves.
pub fn message_plan(being_mentioned: bool, is_self: bool) -> (plan: MessagePlan)
    ensures
        plan.refresh_sticky == !is_self,
        plan.reply_to_question == (being_mentioned && !is_self),
{
    MessagePlan { refresh_sticky: !is_self, reply_to_question: being_mentioned && !is_self }
}

} // verus!
