use vstd::prelude::*;

verus! {

/// One party's request to join a key-generation ceremony: the number of
/// parties expected per round, the share count the ceremony was announced
/// with, and the session token returned by session initialization.
#[derive(Debug)]
pub struct PartySignupKeygen {
    pub threshold: u16,
    pub share_count: u16,
    pub join_uuid: String,
}

/// The signup record persisted per session, which is also the assignment
/// handed to a joining party: the index counter (`number`), the identifier of
/// the current assignment round (`uuid`), and the session token the record
/// belongs to (`join_uuid`).
#[derive(Debug)]
pub struct PartySignup {
    pub number: u16,
    pub uuid: String,
    pub join_uuid: String,
}

/// Mathematical value of a signup record: the index counter and the two
/// identifiers as character sequences.
pub ghost struct SignupRecordView {
    pub number: int,
    pub uuid: Seq<char>,
    pub join_uuid: Seq<char>,
}

impl View for PartySignup {
    type V = SignupRecordView;

    open spec fn view(&self) -> SignupRecordView {
        SignupRecordView {
            number: self.number as int,
            uuid: self.uuid@,
            join_uuid: self.join_uuid@,
        }
    }
}

/// The record that follows `current` when one more party joins with the given
/// threshold: while the current round still has room (counter below the
/// threshold) the counter advances by one and the round identifier stays;
/// once a round has filled, assignment starts over at index 1 under the
/// freshly generated round identifier.
pub open spec fn spec_next_signup(
    current: SignupRecordView,
    threshold: u16,
    fresh_round_id: Seq<char>,
) -> SignupRecordView {
    if current.number < threshold {
        SignupRecordView {
            number: current.number + 1,
            uuid: current.uuid,
            join_uuid: current.join_uuid,
        }
    } else {
        SignupRecordView { number: 1, uuid: fresh_round_id, join_uuid: current.join_uuid }
    }
}

/// Computes the successor of a signup record for one join. `fresh_round_id`
/// names the round that starts when the current one has filled; it is used
/// only on rollover.
pub fn next_signup(current: &PartySignup, threshold: u16, fresh_round_id: String) -> (next:
    PartySignup)
    ensures
        next@ == spec_next_signup(current@, threshold, fresh_round_id@),
{
    if current.number < threshold {
        PartySignup {
            number: current.number + 1,
            uuid: current.uuid.clone(),
            join_uuid: current.join_uuid.clone(),
        }
    } else {
        PartySignup { number: 1, uuid: fresh_round_id, join_uuid: current.join_uuid.clone() }
    }
}

/// The record a session holds after `joins` consecutive joins against it,
/// starting from `initial`; the element `fresh_round_ids[j]` is the round
/// identifier that would be generated on a rollover at join number `j + 1`.
pub open spec fn signup_after_joins(
    initial: SignupRecordView,
    threshold: u16,
    fresh_round_ids: Seq<Seq<char>>,
    joins: nat,
) -> SignupRecordView
    decreases joins,
{
    if joins == 0 {
        initial
    } else {
        spec_next_signup(
            signup_after_joins(initial, threshold, fresh_round_ids, (joins - 1) as nat),
            threshold,
            fresh_round_ids[joins - 1],
        )
    }
}

/// First join: on a freshly initialized record (counter 0) a join with any
/// positive threshold is assigned index 1, in the round the record started
/// with.
pub proof fn lemma_first_join(
    initial: SignupRecordView,
    threshold: u16,
    fresh_round_id: Seq<char>,
)
    requires
        initial.number == 0,
        threshold >= 1,
    ensures
        spec_next_signup(initial, threshold, fresh_round_id).number == 1,
        spec_next_signup(initial, threshold, fresh_round_id).uuid == initial.uuid,
{
}

/// Sequential fill: starting from a fresh record (counter 0), the k-th of the
/// first `threshold` joins against a session is assigned index k, and neither
/// the round identifier nor the session token of the record ever changes. One
/// round therefore issues the indices 1 through the threshold in order, each
/// exactly once. This also covers concurrent joins: the coordinator runs each
/// read-modify-write cycle atomically per session, so any interleaving of N
/// joins is some sequence of N of these steps.
pub proof fn lemma_sequential_fill(
    initial: SignupRecordView,
    threshold: u16,
    fresh_round_ids: Seq<Seq<char>>,
    joins: nat,
)
    requires
        initial.number == 0,
        threshold >= 1,
        joins <= threshold,
    ensures
        signup_after_joins(initial, threshold, fresh_round_ids, joins).number == joins,
        signup_after_joins(initial, threshold, fresh_round_ids, joins).uuid == initial.uuid,
        signup_after_joins(initial, threshold, fresh_round_ids, joins).join_uuid
            == initial.join_uuid,
    decreases joins,
{
    if joins > 0 {
        lemma_sequential_fill(initial, threshold, fresh_round_ids, (joins - 1) as nat);
    }
}

/// No duplicates within a round: among the first `threshold` joins against a
/// fresh record, no two are assigned the same index.
pub proof fn lemma_no_duplicate_indices(
    initial: SignupRecordView,
    threshold: u16,
    fresh_round_ids: Seq<Seq<char>>,
    j: nat,
    k: nat,
)
    requires
        initial.number == 0,
        threshold >= 1,
        1 <= j < k <= threshold,
    ensures
        signup_after_joins(initial, threshold, fresh_round_ids, j).number
            != signup_after_joins(initial, threshold, fresh_round_ids, k).number,
{
    lemma_sequential_fill(initial, threshold, fresh_round_ids, j);
    lemma_sequential_fill(initial, threshold, fresh_round_ids, k);
}

/// Rollover: the join that follows a filled round (counter equal to the
/// threshold) is assigned index 1 under the freshly generated round
/// identifier. Whenever that identifier differs from the filled round's — the
/// generator draws it at random, so equality is the one case left out here —
/// the new round is distinguishable from the old one.
pub proof fn lemma_rollover(current: SignupRecordView, threshold: u16, fresh_round_id: Seq<char>)
    requires
        threshold >= 1,
        current.number == threshold,
        fresh_round_id != current.uuid,
    ensures
        spec_next_signup(current, threshold, fresh_round_id).number == 1,
        spec_next_signup(current, threshold, fresh_round_id).uuid == fresh_round_id,
        spec_next_signup(current, threshold, fresh_round_id).uuid != current.uuid,
{
}

} // verus!
