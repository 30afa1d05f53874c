use crate::error::SignupError;
use crate::signup::{next_signup, spec_next_signup, PartySignup, PartySignupKeygen, SignupRecordView};
use vstd::hash_map::StringHashMap;
use vstd::map::*;
use vstd::prelude::*;

verus! {

/// Relies on `uuid::Uuid::new_v4` and the hyphenated form its `Display`
/// implementation renders: a version-4 identifier drawn from the operating
/// system's random source, printed as 36 characters. The value is random, so
/// nothing beyond its length is assumed of it.
#[verifier::external_body]
fn fresh_uuid() -> (r: String)
    ensures
        r@.len() == 36,
{
    uuid::Uuid::new_v4().to_string()
}

/// The state a record store holds, as a mathematical map from session tokens
/// to signup record values.
spec fn record_views(m: Map<Seq<char>, PartySignup>) -> Map<Seq<char>, SignupRecordView> {
    m.map_values(|p: PartySignup| p@)
}

proof fn lemma_record_views_insert(m: Map<Seq<char>, PartySignup>, k: Seq<char>, v: PartySignup)
    ensures
        record_views(m.insert(k, v)) == record_views(m).insert(k, v@),
{
    assert_maps_equal!(record_views(m.insert(k, v)), record_views(m).insert(k, v@));
}

/// The rendezvous coordinator: one signup record per session token, read and
/// overwritten atomically on every join. The records live in a map owned
/// exclusively by the coordinator, so the read-modify-write cycle of a join
/// can never interleave with another cycle for the same token.
pub struct RendezvousCoordinator {
    records: StringHashMap<PartySignup>,
}

impl View for RendezvousCoordinator {
    type V = Map<Seq<char>, SignupRecordView>;

    closed spec fn view(&self) -> Map<Seq<char>, SignupRecordView> {
        record_views(self.records@)
    }
}

impl RendezvousCoordinator {
    /// Every signup record is stored under the session token it belongs to.
    #[verifier::type_invariant]
    closed spec fn wf(&self) -> bool {
        forall|k: Seq<char>| #[trigger]
            self.records@.contains_key(k) ==> self.records@[k]@.join_uuid == k
    }

    /// A coordinator with no sessions yet.
    pub fn new() -> (r: Self)
        ensures
            r@ == Map::<Seq<char>, SignupRecordView>::empty(),
    {
        let records = StringHashMap::new();
        let r = RendezvousCoordinator { records };
        proof {
            assert_maps_equal!(r@, Map::<Seq<char>, SignupRecordView>::empty());
        }
        r
    }

    /// Mints a fresh session token, persists the signup record `{index 0,
    /// fresh round identifier}` under it, and returns the token. Every other
    /// session's record is left untouched.
    pub fn initialize_session(&mut self) -> (token: String)
        ensures
            token@.len() == 36,
            final(self)@.contains_key(token@),
            final(self)@[token@].number == 0,
            final(self)@[token@].join_uuid == token@,
            final(self)@[token@].uuid.len() == 36,
            final(self)@ == old(self)@.insert(token@, final(self)@[token@]),
    {
        proof {
            use_type_invariant(&*self);
        }
        let token = fresh_uuid();
        let round_id = fresh_uuid();
        let record = PartySignup { number: 0, uuid: round_id, join_uuid: token.clone() };
        let ghost records_before = self.records@;
        let ghost token_view = token@;
        let ghost record_snapshot = record;
        let mut records = StringHashMap::new();
        std::mem::swap(&mut records, &mut self.records);
        records.insert(token.clone(), record);
        self.records = records;
        proof {
            lemma_record_views_insert(records_before, token_view, record_snapshot);
        }
        token
    }

    /// One join against the session named by `session_token`: atomically reads
    /// the session's signup record, computes its successor — counter advanced
    /// while the round has room, else index 1 under a fresh round identifier —
    /// persists the successor, and returns it as the caller's assignment.
    ///
    /// A zero threshold is rejected, and a token that no record exists for
    /// fails as unknown; in both cases no session's record changes. On
    /// success, exactly the named session's record is replaced.
    pub fn join(&mut self, session_token: &str, threshold: u16) -> (r: Result<
        PartySignup,
        SignupError,
    >)
        ensures
            threshold == 0 ==> r == Err::<PartySignup, SignupError>(SignupError::InvalidArgument)
                && final(self)@ == old(self)@,
            threshold >= 1 && !old(self)@.contains_key(session_token@) ==> r == Err::<
                PartySignup,
                SignupError,
            >(SignupError::SessionNotFound) && final(self)@ == old(self)@,
            threshold >= 1 && old(self)@.contains_key(session_token@) ==> match r {
                Ok(assignment) => {
                    &&& assignment@ == spec_next_signup(
                        old(self)@[session_token@],
                        threshold,
                        assignment@.uuid,
                    )
                    &&& final(self)@ == old(self)@.insert(session_token@, assignment@)
                    &&& assignment@.number >= 1
                    &&& assignment@.join_uuid == session_token@
                    &&& old(self)@[session_token@].number >= threshold ==> assignment@.uuid.len()
                        == 36
                },
                Err(_) => false,
            },
    {
        proof {
            use_type_invariant(&*self);
        }
        if threshold == 0 {
            return Err(SignupError::InvalidArgument);
        }
        let current = match self.records.get(session_token) {
            Some(record) => record,
            None => {
                return Err(SignupError::SessionNotFound);
            },
        };
        let fresh_round_id = fresh_uuid();
        let assignment = next_signup(current, threshold, fresh_round_id);
        let stored = PartySignup {
            number: assignment.number,
            uuid: assignment.uuid.clone(),
            join_uuid: assignment.join_uuid.clone(),
        };
        let ghost records_before = self.records@;
        let ghost token_view = session_token@;
        let ghost stored_snapshot = stored;
        let mut records = StringHashMap::new();
        std::mem::swap(&mut records, &mut self.records);
        records.insert(session_token.to_owned(), stored);
        self.records = records;
        proof {
            lemma_record_views_insert(records_before, token_view, stored_snapshot);
        }
        Ok(assignment)
    }

    /// One join phrased over the wire-level request: the session token and
    /// threshold are taken from the request body, exactly as the signup
    /// endpoint receives them.
    pub fn signup_keygen(&mut self, request: &PartySignupKeygen) -> (r: Result<
        PartySignup,
        SignupError,
    >)
        ensures
            request.threshold == 0 ==> r == Err::<PartySignup, SignupError>(
                SignupError::InvalidArgument,
            ) && final(self)@ == old(self)@,
            request.threshold >= 1 && !old(self)@.contains_key(request.join_uuid@) ==> r == Err::<
                PartySignup,
                SignupError,
            >(SignupError::SessionNotFound) && final(self)@ == old(self)@,
            request.threshold >= 1 && old(self)@.contains_key(request.join_uuid@) ==> match r {
                Ok(assignment) => {
                    &&& assignment@ == spec_next_signup(
                        old(self)@[request.join_uuid@],
                        request.threshold,
                        assignment@.uuid,
                    )
                    &&& final(self)@ == old(self)@.insert(request.join_uuid@, assignment@)
                    &&& assignment@.number >= 1
                    &&& assignment@.join_uuid == request.join_uuid@
                    &&& old(self)@[request.join_uuid@].number >= request.threshold
                        ==> assignment@.uuid.len() == 36
                },
                Err(_) => false,
            },
    {
        self.join(request.join_uuid.as_str(), request.threshold)
    }
}

} // verus!
