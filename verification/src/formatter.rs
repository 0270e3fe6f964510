use vstd::prelude::*;
use vstd::string::StringExecFns;
use crate::decimal::{dec_rep, u64_to_string};
use crate::status::{OutcomeModel, QueryOutcome};

verus! {

/// The compact online message: count and latency, no player list.
pub open spec fn online_message(online_count: nat, latency: nat) -> Seq<char> {
    "✅ "@ + dec_rep(online_count) + " players online (latency: "@ + dec_rep(latency) + " ms)"@
}

/// One line per sampled player, in server order, joined by newlines.
pub open spec fn player_lines(players: Seq<Seq<char>>) -> Seq<char>
    decreases players.len(),
{
    if players.len() == 0 {
        Seq::empty()
    } else if players.len() == 1 {
        "- "@ + players[0]
    } else {
        player_lines(players.drop_last()) + "\n"@ + "- "@ + players.last()
    }
}

/// The full online message: the compact form, and, when the player list is
/// wanted and the sample is non-empty, the player lines after a `:` header.
pub open spec fn online_full_message(
    online_count: nat,
    latency: nat,
    players: Seq<Seq<char>>,
    include_players: bool,
) -> Seq<char> {
    if include_players && players.len() > 0 {
        online_message(online_count, latency) + ":\n"@ + player_lines(players)
    } else {
        online_message(online_count, latency)
    }
}

/// The message shown when the server answered but reported itself closed.
pub open spec fn offline_message() -> Seq<char> {
    "❌ Server currently closed"@
}

/// What the formatter produces for each outcome. An `Unreachable` outcome
/// yields no string at all: "we do not know" is the caller's decision, not a
/// formattable fact.
pub open spec fn format_spec(o: OutcomeModel, include_players: bool) -> Option<Seq<char>> {
    match o {
        OutcomeModel::Online { latency, online_count, max_count, sample_players } => {
            Some(online_full_message(online_count, latency, sample_players, include_players))
        },
        OutcomeModel::Offline => Some(offline_message()),
        OutcomeModel::Unreachable => None,
    }
}

proof fn lemma_player_lines_step(ps: Seq<Seq<char>>, i: int)
    requires
        0 <= i < ps.len(),
    ensures
        i == 0 ==> player_lines(ps.take(1)) == "- "@ + ps[0],
        i > 0 ==> player_lines(ps.take(i + 1)) == player_lines(ps.take(i)) + "\n"@ + "- "@
            + ps[i],
{
    let t = ps.take(i + 1);
    if i == 0 {
        assert(t.len() == 1);
        assert(t[0] == ps[0]);
    } else {
        assert(t.drop_last() =~= ps.take(i));
        assert(t.last() == ps[i]);
    }
}

/// Renders an outcome for presentation. `Online` and `Offline` always yield
/// a string; `Unreachable` never does.
pub fn format_status(o: &QueryOutcome, include_players: bool) -> (r: Option<String>)
    ensures
        r.deep_view() == format_spec(o@, include_players),
{
    match o {
        QueryOutcome::Online { latency, online_count, sample_players, .. } => {
            let mut s = String::from_str("✅ ");
            let count_digits = u64_to_string(*online_count);
            s.append(count_digits.as_str());
            s.append(" players online (latency: ");
            let latency_digits = u64_to_string(*latency);
            s.append(latency_digits.as_str());
            s.append(" ms)");
            proof {
                assert(s@ =~= online_message(*online_count as nat, *latency as nat));
            }
            if include_players && sample_players.len() > 0 {
                s.append(":\n");
                let ghost prefix: Seq<char> = s@;
                let ghost ps: Seq<Seq<char>> = sample_players.deep_view();
                proof {
                    assert(s@ =~= prefix + player_lines(ps.take(0)));
                }
                let mut i: usize = 0;
                while i < sample_players.len()
                    invariant
                        i <= sample_players.len(),
                        ps == sample_players.deep_view(),
                        prefix == online_message(*online_count as nat, *latency as nat)
                            + ":\n"@,
                        s@ == prefix + player_lines(ps.take(i as int)),
                    decreases sample_players.len() - i,
                {
                    if i > 0 {
                        s.append("\n");
                    }
                    s.append("- ");
                    s.append(sample_players[i].as_str());
                    proof {
                        lemma_player_lines_step(ps, i as int);
                        assert(s@ =~= prefix + player_lines(ps.take(i + 1)));
                    }
                    i += 1;
                }
                proof {
                    assert(ps.take(i as int) =~= ps);
                    assert(s@ =~= online_full_message(
                        *online_count as nat,
                        *latency as nat,
                        ps,
                        include_players,
                    ));
                }
            }
            Some(s)
        },
        QueryOutcome::Offline => Some(String::from_str("❌ Server currently closed")),
        QueryOutcome::Unreachable => None,
    }
}

/// The closed-server message is one fixed string, whatever the player-list
/// flag says: `format` renders `Offline` the same way for every flag value.
pub proof fn lemma_offline_message_constant(flag_a: bool, flag_b: bool)
    ensures
        format_spec(OutcomeModel::Offline, flag_a) == format_spec(OutcomeModel::Offline, flag_b),
        format_spec(OutcomeModel::Offline, flag_a) == Some(offline_message()),
{
}

/// An online outcome with an empty player sample formats identically with and
/// without the player list: the player suffix is omitted entirely, falling
/// back to the compact form.
pub proof fn lemma_empty_sample_same_form(latency: nat, online_count: nat, max_count: nat)
    ensures
        format_spec(
            OutcomeModel::Online { latency, online_count, max_count, sample_players: Seq::empty() },
            true,
        ) == format_spec(
            OutcomeModel::Online { latency, online_count, max_count, sample_players: Seq::empty() },
            false,
        ),
        format_spec(
            OutcomeModel::Online { latency, online_count, max_count, sample_players: Seq::empty() },
            true,
        ) == Some(online_message(online_count, latency)),
{
}

} // verus!
