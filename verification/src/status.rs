use vstd::prelude::*;

verus! {

/// The classified result of one status query. A fresh value is produced per
/// query and discarded after formatting; there is no cache and no cross-call
/// state. The player data is only present in the `Online` variant, and the
/// sample is a snapshot, not authoritative membership.
pub enum QueryOutcome {
    Online {
        /// End-to-end handshake latency in milliseconds.
        latency: u64,
        online_count: u64,
        max_count: u64,
        /// Sampled player names in the order the server returned them;
        /// possibly truncated or empty even when players are online.
        sample_players: Vec<String>,
    },
    Offline,
    Unreachable,
}

/// Mathematical model of a `QueryOutcome`.
#[verifier::ext_equal]
pub enum OutcomeModel {
    Online {
        latency: nat,
        online_count: nat,
        max_count: nat,
        sample_players: Seq<Seq<char>>,
    },
    Offline,
    Unreachable,
}

impl View for QueryOutcome {
    type V = OutcomeModel;

    open spec fn view(&self) -> OutcomeModel {
        match self {
            QueryOutcome::Online { latency, online_count, max_count, sample_players } => {
                OutcomeModel::Online {
                    latency: *latency as nat,
                    online_count: *online_count as nat,
                    max_count: *max_count as nat,
                    sample_players: sample_players.deep_view(),
                }
            },
            QueryOutcome::Offline => OutcomeModel::Offline,
            QueryOutcome::Unreachable => OutcomeModel::Unreachable,
        }
    }
}

/// What one handshake attempt against the server yielded, as plain values.
/// The caller that performs the network exchange reduces it to this shape;
/// everything after that point is pure computation.
pub enum HandshakeResult {
    /// The exchange completed and the server answered with status data.
    /// `sample_players` is `None` when the response carried no sample.
    Completed {
        latency: u64,
        online_count: u64,
        max_count: u64,
        sample_players: Option<Vec<String>>,
    },
    /// The server was reachable at the transport level but reported itself
    /// closed or refused the status exchange.
    Refused,
    /// Timeout, name-resolution failure, connection error, or an unexpected
    /// internal failure: no answer was obtained at all.
    Failed,
}

/// Mathematical model of a `HandshakeResult`.
#[verifier::ext_equal]
pub enum HandshakeModel {
    Completed {
        latency: nat,
        online_count: nat,
        max_count: nat,
        sample_players: Option<Seq<Seq<char>>>,
    },
    Refused,
    Failed,
}

impl View for HandshakeResult {
    type V = HandshakeModel;

    open spec fn view(&self) -> HandshakeModel {
        match self {
            HandshakeResult::Completed { latency, online_count, max_count, sample_players } => {
                HandshakeModel::Completed {
                    latency: *latency as nat,
                    online_count: *online_count as nat,
                    max_count: *max_count as nat,
                    sample_players: match sample_players {
                        Some(ps) => Some(ps.deep_view()),
                        None => None,
                    },
                }
            },
            HandshakeResult::Refused => HandshakeModel::Refused,
            HandshakeResult::Failed => HandshakeModel::Failed,
        }
    }
}

/// How a handshake result is classified into the three-valued outcome:
/// a completed exchange is `Online` (keeping the sample only when it was
/// requested and present), a refused exchange is `Offline`, and every other
/// failure collapses into `Unreachable`.
pub open spec fn classify_spec(h: HandshakeModel, want_player_list: bool) -> OutcomeModel {
    match h {
        HandshakeModel::Completed { latency, online_count, max_count, sample_players } => {
            OutcomeModel::Online {
                latency,
                online_count,
                max_count,
                sample_players: if want_player_list {
                    match sample_players {
                        Some(ps) => ps,
                        None => Seq::empty(),
                    }
                } else {
                    Seq::empty()
                },
            }
        },
        HandshakeModel::Refused => OutcomeModel::Offline,
        HandshakeModel::Failed => OutcomeModel::Unreachable,
    }
}

/// Classifies one handshake attempt. This function never fails: every
/// possible result maps to exactly one outcome variant.
pub fn classify_handshake(h: HandshakeResult, want_player_list: bool) -> (o: QueryOutcome)
    ensures
        o@ == classify_spec(h@, want_player_list),
{
    match h {
        HandshakeResult::Completed { latency, online_count, max_count, sample_players } => {
            let players: Vec<String> = if want_player_list {
                match sample_players {
                    Some(ps) => ps,
                    None => Vec::new(),
                }
            } else {
                Vec::new()
            };
            proof {
                assert(players.deep_view() =~= classify_spec(h@, want_player_list)->Online_sample_players);
            }
            QueryOutcome::Online { latency, online_count, max_count, sample_players: players }
        },
        HandshakeResult::Refused => QueryOutcome::Offline,
        HandshakeResult::Failed => QueryOutcome::Unreachable,
    }
}

} // verus!
