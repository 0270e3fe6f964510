use vstd::prelude::*;
use vstd::string::StringExecFns;
use crate::formatter::{format_spec, format_status};
use crate::status::{
    classify_handshake, classify_spec, HandshakeModel, HandshakeResult, OutcomeModel, QueryOutcome,
};

verus! {

/// The fixed fallback shown to a user when the server could not be reached.
pub open spec fn fallback_message() -> Seq<char> {
    "❌ Failed to retrieve server status"@
}

/// What the command handler replies for each outcome: the detailed formatted
/// message when one exists, and the fixed fallback when the server was
/// unreachable.
pub open spec fn query_reply_spec(o: OutcomeModel) -> Seq<char> {
    match format_spec(o, true) {
        Some(s) => s,
        None => fallback_message(),
    }
}

/// Decides the reply to one user command, given the classified outcome of
/// its fetch. Every outcome gets a reply; no invocation is left unanswered.
pub fn query_reply(o: &QueryOutcome) -> (r: String)
    ensures
        r@ == query_reply_spec(o@),
{
    match format_status(o, true) {
        Some(s) => s,
        None => String::from_str("❌ Failed to retrieve server status"),
    }
}

/// What the presence loop shows for each outcome: the compact formatted
/// message for `Online` and `Offline`, and nothing at all (the indicator is
/// cleared, never left stale) for `Unreachable`.
pub open spec fn presence_spec(o: OutcomeModel) -> Option<Seq<char>> {
    format_spec(o, false)
}

/// Decides the presence value for one cycle of the background loop, given
/// the classified outcome of its fetch.
pub fn presence_value(o: &QueryOutcome) -> (r: Option<String>)
    ensures
        r.deep_view() == presence_spec(o@),
{
    format_status(o, false)
}

/// The user-visible message for one handshake attempt: classification
/// followed by formatting. `None` is returned exactly when the server was
/// unreachable.
pub fn status_message(h: HandshakeResult, include_players: bool) -> (r: Option<String>)
    ensures
        r.deep_view() == format_spec(classify_spec(h@, include_players), include_players),
        r is None <==> h@ is Failed,
{
    let o = classify_handshake(h, include_players);
    format_status(&o, include_players)
}

/// A failed handshake is classified `Unreachable`, whatever was asked of the
/// player list; the command handler then replies with exactly the fixed
/// fallback, and the presence loop clears the indicator rather than reusing
/// any earlier value.
pub proof fn lemma_failed_handshake_handling(want_player_list: bool)
    ensures
        classify_spec(HandshakeModel::Failed, want_player_list) == OutcomeModel::Unreachable,
        query_reply_spec(OutcomeModel::Unreachable) == fallback_message(),
        presence_spec(OutcomeModel::Unreachable) is None,
{
}

/// Runs the presence decision over a whole run of cycles. Each cycle's value
/// is a function of that cycle's outcome alone — the indicator is overwritten
/// wholesale, with no carry-over from any previous cycle.
pub fn presence_trace(outcomes: &Vec<QueryOutcome>) -> (r: Vec<Option<String>>)
    ensures
        r@.len() == outcomes@.len(),
        forall|i: int|
            0 <= i < outcomes@.len() ==> r@[i].deep_view() == presence_spec(outcomes@[i]@),
{
    let mut r: Vec<Option<String>> = Vec::new();
    let mut i: usize = 0;
    while i < outcomes.len()
        invariant
            i <= outcomes.len(),
            r@.len() == i,
            forall|j: int| 0 <= j < i ==> r@[j].deep_view() == presence_spec(outcomes@[j]@),
        decreases outcomes.len() - i,
    {
        let v = presence_value(&outcomes[i]);
        r.push(v);
        i += 1;
    }
    r
}

} // verus!
