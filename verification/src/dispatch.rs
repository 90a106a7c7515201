//! The open-or-focus policy.
//!
//! A request for a ticket either focuses the live window that already carries
//! the ticket's label or creates a fresh one from the standard configuration;
//! it never does both and never creates a second window for a label that is
//! live. The host's live window set is modelled as the set of live labels:
//! `plan_action` decides from one membership query, `labels_after` says what
//! the decision does to that set, and the lemmas below state the policy's
//! guarantees. The shell around this crate queries the host, performs the
//! planned action and hands the outcome to `operation_result`.

use vstd::prelude::*;

use crate::label::label_of;
use crate::label::ticket_label;
use crate::window::ticket_window_config;
use crate::window::WindowConfig;

verus! {

/// The one window-affecting action an open-or-focus request performs.
pub enum HostAction {
    /// Bring the live window with this label to the foreground.
    Focus { label: String },
    /// Build a new window from this configuration.
    Create { config: WindowConfig },
}

impl HostAction {
    /// The action an open-or-focus request for `ticket_id` is allowed to
    /// plan, given whether a window with the ticket's label is live.
    pub open spec fn planned_for(self, ticket_id: u32, window_exists: bool) -> bool {
        if window_exists {
            self matches HostAction::Focus { label } && label@ == label_of(ticket_id)
        } else {
            self matches HostAction::Create { config } && config.is_for(ticket_id)
        }
    }
}

/// The host's live labels after an action succeeds: a focus changes nothing,
/// a creation adds the new window's label.
pub open spec fn labels_after(live: Set<Seq<char>>, action: HostAction) -> Set<Seq<char>> {
    match action {
        HostAction::Focus { label } => live,
        HostAction::Create { config } => live.insert(config.label@),
    }
}

/// The live labels after an open-or-focus request for `ticket_id` succeeds.
pub open spec fn live_after_open(live: Set<Seq<char>>, ticket_id: u32) -> Set<Seq<char>> {
    if live.contains(label_of(ticket_id)) {
        live
    } else {
        live.insert(label_of(ticket_id))
    }
}

/// Decides what an open-or-focus request for `ticket_id` does, given whether
/// the host reports a live window under the ticket's label: focus that window,
/// or create one from the standard configuration.
pub fn plan_action(ticket_id: u32, window_exists: bool) -> (action: HostAction)
    ensures
        action.planned_for(ticket_id, window_exists),
        window_exists ==> action is Focus,
        !window_exists ==> action is Create,
{
    if window_exists {
        HostAction::Focus { label: ticket_label(ticket_id) }
    } else {
        HostAction::Create { config: ticket_window_config(ticket_id) }
    }
}

/// Maps the host's reply to the operation's result: success passes through,
/// and any host failure surfaces as the one error kind the caller sees,
/// carrying the host's diagnostic unmodified.
pub fn operation_result(host_reply: Result<(), String>) -> (r: Result<(), String>)
    ensures
        r is Ok <==> host_reply is Ok,
        host_reply matches Err(diagnostic) ==> (r matches Err(message) && message@
            == diagnostic@),
{
    match host_reply {
        Ok(()) => Ok(()),
        Err(diagnostic) => Err(diagnostic),
    }
}

/// A planned action moves the host's live labels exactly as the policy says:
/// whatever action the decision for `ticket_id` produced, performing it turns
/// the live set into `live_after_open`.
pub proof fn lemma_plan_tracks_live(live: Set<Seq<char>>, ticket_id: u32, action: HostAction)
    requires
        action.planned_for(ticket_id, live.contains(label_of(ticket_id))),
    ensures
        labels_after(live, action) == live_after_open(live, ticket_id),
{
}

/// Focusing is idempotent: once the ticket's label is live, every further
/// request plans a focus of that same label — never a second creation — and
/// leaves the host's window set unchanged, however often it is repeated.
pub proof fn lemma_idempotent_focus(live: Set<Seq<char>>, ticket_id: u32, action: HostAction)
    requires
        live.contains(label_of(ticket_id)),
        action.planned_for(ticket_id, live.contains(label_of(ticket_id))),
    ensures
        action matches HostAction::Focus { label } && label@ == label_of(ticket_id),
        labels_after(live, action) == live,
        live_after_open(live_after_open(live, ticket_id), ticket_id) == live_after_open(
            live,
            ticket_id,
        ),
{
}

/// The host's live labels after a whole run of open-or-focus requests,
/// served in order, each one succeeding.
pub open spec fn live_after_opens(live: Set<Seq<char>>, requests: Seq<u32>) -> Set<Seq<char>>
    decreases requests.len(),
{
    if requests.len() == 0 {
        live
    } else {
        live_after_opens(live_after_open(live, requests.first()), requests.drop_first())
    }
}

/// How many requests of a run create a window for `ticket_id`: a request
/// counts when it asks for that ticket while no window with its label is live.
pub open spec fn creations_for(live: Set<Seq<char>>, requests: Seq<u32>, ticket_id: u32) -> nat
    decreases requests.len(),
{
    if requests.len() == 0 {
        0
    } else {
        (if requests.first() == ticket_id && !live.contains(label_of(ticket_id)) {
            1nat
        } else {
            0nat
        }) + creations_for(live_after_open(live, requests.first()), requests.drop_first(), ticket_id)
    }
}

/// An open-or-focus request never takes a label away.
pub proof fn lemma_open_keeps_live_labels(live: Set<Seq<char>>, ticket_id: u32, l: Seq<char>)
    requires
        live.contains(l),
    ensures
        live_after_open(live, ticket_id).contains(l),
{
}

/// A live window is never recreated: while a window for `ticket_id` stays
/// open, no run of further requests — for this ticket or any other — creates
/// another window for it, and its label stays live throughout.
pub proof fn lemma_live_window_never_recreated(
    live: Set<Seq<char>>,
    requests: Seq<u32>,
    ticket_id: u32,
)
    requires
        live.contains(label_of(ticket_id)),
    ensures
        creations_for(live, requests, ticket_id) == 0,
        live_after_opens(live, requests).contains(label_of(ticket_id)),
    decreases requests.len(),
{
    if requests.len() > 0 {
        lemma_open_keeps_live_labels(live, requests.first(), label_of(ticket_id));
        lemma_live_window_never_recreated(
            live_after_open(live, requests.first()),
            requests.drop_first(),
            ticket_id,
        );
    }
}

/// Any run of requests creates at most one window per ticket: the first
/// request that finds no live window builds it, and every later one focuses.
pub proof fn lemma_at_most_one_creation(live: Set<Seq<char>>, requests: Seq<u32>, ticket_id: u32)
    ensures
        creations_for(live, requests, ticket_id) <= 1,
    decreases requests.len(),
{
    broadcast use vstd::set::group_set_axioms;

    if requests.len() > 0 {
        let next = live_after_open(live, requests.first());
        if requests.first() == ticket_id && !live.contains(label_of(ticket_id)) {
            lemma_live_window_never_recreated(next, requests.drop_first(), ticket_id);
        } else {
            lemma_at_most_one_creation(next, requests.drop_first(), ticket_id);
        }
    }
}

/// A run of requests leaves exactly the right labels live: a ticket's label
/// is live afterwards precisely when it was live before or the run asked for
/// that ticket. The "only when" direction rests on labels being injective:
/// no request for another ticket can plant this ticket's label.
pub proof fn lemma_opens_reach_exactly_requested(
    live: Set<Seq<char>>,
    requests: Seq<u32>,
    ticket_id: u32,
)
    ensures
        live_after_opens(live, requests).contains(label_of(ticket_id)) <==> live.contains(
            label_of(ticket_id),
        ) || requests.contains(ticket_id),
    decreases requests.len(),
{
    broadcast use vstd::set::group_set_axioms;

    if requests.len() > 0 {
        let first = requests.first();
        let next = live_after_open(live, first);
        lemma_opens_reach_exactly_requested(next, requests.drop_first(), ticket_id);
        if first != ticket_id {
            crate::label::lemma_label_injective(first, ticket_id);
        }
        assert(requests.contains(ticket_id) <==> first == ticket_id
            || requests.drop_first().contains(ticket_id)) by {
            if requests.drop_first().contains(ticket_id) {
                let i = choose|i: int|
                    0 <= i < requests.drop_first().len() && requests.drop_first()[i] == ticket_id;
                assert(requests[i + 1] == ticket_id);
            }
            if requests.contains(ticket_id) {
                let i = choose|i: int| 0 <= i < requests.len() && requests[i] == ticket_id;
                if i > 0 {
                    assert(requests.drop_first()[i - 1] == ticket_id);
                }
            }
        }
    }
}

/// A first request creates exactly one window: when the ticket's label is not
/// live, the planned action builds one window from the standard configuration,
/// and afterwards the live set has gained that label and nothing else.
pub proof fn lemma_first_call_creates(live: Set<Seq<char>>, ticket_id: u32, action: HostAction)
    requires
        live.finite(),
        !live.contains(label_of(ticket_id)),
        action.planned_for(ticket_id, live.contains(label_of(ticket_id))),
    ensures
        action matches HostAction::Create { config } && config.is_for(ticket_id),
        labels_after(live, action) == live.insert(label_of(ticket_id)),
        labels_after(live, action).len() == live.len() + 1,
        labels_after(live, action).contains(label_of(ticket_id)),
        forall|l: Seq<char>|
            labels_after(live, action).contains(l) <==> live.contains(l) || l == label_of(
                ticket_id,
            ),
{
    broadcast use vstd::set::group_set_axioms;

}

} // verus!
