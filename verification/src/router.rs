//! The content router: decides, for an inbound chat event, whether a
//! derived notice is forwarded and to which destinations.
//!
//! An event is forwarded when its origin channel is on the rule's watch
//! list and the event carries a link or an attachment. The derived notice
//! names the author and the origin channel and never carries the event's
//! own content. The fan-out to the destinations is independent per
//! destination: one failed send never blocks the remaining sends.

use vstd::prelude::*;
use vstd::string::*;
use vstd::seq_lib::group_seq_lib_default;

use crate::text;
use crate::text::{channel_mention_text, starts_with_text, user_mention_text};

verus! {

/// An inbound chat event, reduced to what the router reads.
pub struct InboundEvent {
    /// The channel the event arrived on.
    pub origin: u64,
    /// The author of the event.
    pub author: u64,
    /// The text content of the event.
    pub content: String,
    /// How many attachments the event carries.
    pub attachment_count: usize,
}

/// A watch rule: which origins are scanned, and the fixed fan-out list a
/// notice of theirs goes to.
pub struct WatchRule {
    /// The origin channels whose events are scanned.
    pub sources: Vec<u64>,
    /// The destinations every forwarded notice goes to, in order.
    pub destinations: Vec<u64>,
}

/// A derived notice, ready to fan out: one text, one destination list.
pub struct ForwardNotice {
    /// The text sent to every destination.
    pub text: String,
    /// The destinations, in the rule's order.
    pub destinations: Vec<u64>,
}

/// Whether the content carries a link: it starts with "http" or "www".
pub open spec fn has_link(content: Seq<char>) -> bool {
    starts_with_text(content, "http"@) || starts_with_text(content, "www"@)
}

/// Whether an event is forwarded: its origin is watched and it carries a
/// link or an attachment.
pub open spec fn should_forward(rule: WatchRule, ev: InboundEvent) -> bool {
    rule.sources@.contains(ev.origin) && (has_link(ev.content@) || ev.attachment_count > 0)
}

/// The derived notice's text: who posted, and where. The event's own
/// content stays out of it by design.
pub open spec fn notice_text(author: int, origin: int) -> Seq<char> {
    user_mention_text(author) + " vient de poster quelque chose sur "@ + channel_mention_text(
        origin,
    )
}

/// Decide whether the list holds the id.
fn contains_id(ids: &Vec<u64>, id: u64) -> (r: bool)
    ensures
        r == ids@.contains(id),
{
    let mut i: usize = 0;
    while i < ids.len()
        invariant
            i <= ids@.len(),
            forall|j: int| 0 <= j < i ==> ids@[j] != id,
        decreases ids@.len() - i,
    {
        if ids[i] == id {
            return true;
        }
        i = i + 1;
    }
    false
}

/// Copy a destination list.
fn copy_ids(ids: &Vec<u64>) -> (r: Vec<u64>)
    ensures
        r@ == ids@,
{
    let mut out: Vec<u64> = Vec::new();
    let mut i: usize = 0;
    while i < ids.len()
        invariant
            i <= ids@.len(),
            out@ == ids@.subrange(0, i as int),
        decreases ids@.len() - i,
    {
        out.push(ids[i]);
        proof {
            assert(out@ =~= ids@.subrange(0, i + 1 as int));
        }
        i = i + 1;
    }
    proof {
        assert(out@ =~= ids@);
    }
    out
}

/// Build the notice an event derives: the author's mention, the fixed
/// phrase, the origin channel's mention.
pub fn build_notice(author: u64, origin: u64) -> (s: String)
    ensures
        s@ == notice_text(author as int, origin as int),
{
    let mut s = text::user_mention(author);
    s.append(" vient de poster quelque chose sur ");
    let chan = text::channel_mention(origin);
    s.append(chan.as_str());
    s
}

/// Route one inbound event: a notice with the rule's full destination list
/// exactly when the event is forwarded, nothing otherwise.
pub fn route(rule: &WatchRule, ev: &InboundEvent) -> (r: Option<ForwardNotice>)
    ensures
        (r is Some) == should_forward(*rule, *ev),
        r is Some ==> r->Some_0.text@ == notice_text(ev.author as int, ev.origin as int),
        r is Some ==> r->Some_0.destinations@ == rule.destinations@,
{
    let watched = contains_id(&rule.sources, ev.origin);
    let linked = text::str_starts_with(ev.content.as_str(), "http") || text::str_starts_with(
        ev.content.as_str(),
        "www",
    );
    if watched && (linked || ev.attachment_count > 0) {
        Some(
            ForwardNotice {
                text: build_notice(ev.author, ev.origin),
                destinations: copy_ids(&rule.destinations),
            },
        )
    } else {
        None
    }
}

/// The destinations a fan-out reaches: every planned destination whose own
/// send does not fail. Which sends fail is the sink's doing; the loop
/// attempts every destination regardless of earlier failures.
pub fn delivered_destinations(plan: &Vec<u64>, failed: &Vec<u64>) -> (r: Vec<u64>)
    ensures
        r@ == plan@.filter(|d: u64| !failed@.contains(d)),
{
    broadcast use group_seq_lib_default;

    let ghost pred = |d: u64| !failed@.contains(d);
    let mut out: Vec<u64> = Vec::new();
    let mut i: usize = 0;
    while i < plan.len()
        invariant
            i <= plan@.len(),
            out@ == plan@.subrange(0, i as int).filter(pred),
            pred == (|d: u64| !failed@.contains(d)),
        decreases plan@.len() - i,
    {
        let d = plan[i];
        if !contains_id(failed, d) {
            out.push(d);
        }
        proof {
            reveal(Seq::filter);
            let prefix = plan@.subrange(0, i + 1 as int);
            assert(prefix.drop_last() =~= plan@.subrange(0, i as int));
            assert(prefix.last() == d);
        }
        i = i + 1;
    }
    proof {
        assert(plan@.subrange(0, plan@.len() as int) =~= plan@);
    }
    out
}

/// Partial failure never spreads across the fan-out: a planned destination
/// whose own send succeeds is delivered, whichever other destinations fail.
pub proof fn lemma_fanout_partial_failure(plan: Seq<u64>, failed: Seq<u64>, d: u64)
    requires
        plan.contains(d),
        !failed.contains(d),
    ensures
        plan.filter(|x: u64| !failed.contains(x)).contains(d),
{
    broadcast use group_seq_lib_default;

    let i = choose|i: int| 0 <= i < plan.len() && plan[i] == d;
    plan.lemma_filter_contains(|x: u64| !failed.contains(x), i);
}

} // verus!
