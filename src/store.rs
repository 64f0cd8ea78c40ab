use vstd::prelude::*;
use vstd::seq_lib::to_multiset_build;

use crate::models::{LogEntry, NetSession, Participant, SessionData};
use crate::table::{
    find_key, insert_sorted, keys_unique, lemma_upsert_effect, sorted_by_number, upsert,
    upsert_into, Keyed, Numbered,
};

verus! {

/// A participant as held by the store: the record and the session it belongs to.
pub struct StoredParticipant {
    pub session_id: String,
    pub participant: Participant,
}

/// A log entry as held by the store: the record and the session it belongs to.
pub struct StoredLogEntry {
    pub session_id: String,
    pub entry: LogEntry,
}

/// Why a store operation did not succeed.
#[derive(Clone, Debug, PartialEq, Eq)]
pub enum StoreError {
    /// No session has the requested identity.
    NotFound(String),
}

impl Keyed for NetSession {
    open spec fn key(&self) -> Seq<char> {
        self.id@
    }

    fn key_str(&self) -> (r: &String) {
        &self.id
    }
}

impl Keyed for StoredParticipant {
    open spec fn key(&self) -> Seq<char> {
        self.participant.id@
    }

    fn key_str(&self) -> (r: &String) {
        &self.participant.id
    }
}

impl Keyed for StoredLogEntry {
    open spec fn key(&self) -> Seq<char> {
        self.entry.id@
    }

    fn key_str(&self) -> (r: &String) {
        &self.entry.id
    }
}

impl Numbered for Participant {
    open spec fn number(&self) -> int {
        self.check_in_number as int
    }

    fn number_of(&self) -> (r: i32) {
        self.check_in_number
    }
}

impl Numbered for LogEntry {
    open spec fn number(&self) -> int {
        self.entry_number as int
    }

    fn number_of(&self) -> (r: i32) {
        self.entry_number
    }
}

/// The participants of `s` that belong to session `sid`, in stored order.
pub open spec fn participants_in(s: Seq<StoredParticipant>, sid: Seq<char>) -> Seq<Participant>
    decreases s.len(),
{
    if s.len() == 0 {
        Seq::empty()
    } else {
        let rest = participants_in(s.drop_last(), sid);
        if s.last().session_id@ == sid {
            rest.push(s.last().participant)
        } else {
            rest
        }
    }
}

/// The log entries of `s` that belong to session `sid`, in stored order.
pub open spec fn entries_in(s: Seq<StoredLogEntry>, sid: Seq<char>) -> Seq<LogEntry>
    decreases s.len(),
{
    if s.len() == 0 {
        Seq::empty()
    } else {
        let rest = entries_in(s.drop_last(), sid);
        if s.last().session_id@ == sid {
            rest.push(s.last().entry)
        } else {
            rest
        }
    }
}

/// `r` holds exactly the participants of session `sid`, ascending by check-in number.
pub open spec fn is_participant_listing(
    r: Seq<Participant>,
    s: Seq<StoredParticipant>,
    sid: Seq<char>,
) -> bool {
    sorted_by_number(r) && r.to_multiset() == participants_in(s, sid).to_multiset()
}

/// `r` holds exactly the log entries of session `sid`, ascending by entry number.
pub open spec fn is_entry_listing(r: Seq<LogEntry>, s: Seq<StoredLogEntry>, sid: Seq<char>) -> bool {
    sorted_by_number(r) && r.to_multiset() == entries_in(s, sid).to_multiset()
}

/// The record store: sessions, participants and log entries, each keyed by
/// its own identity and saved by insert-or-replace.
pub struct RecordStore {
    sessions: Vec<NetSession>,
    participants: Vec<StoredParticipant>,
    log_entries: Vec<StoredLogEntry>,
}

impl RecordStore {
    /// The stored sessions.
    pub closed spec fn sessions(&self) -> Seq<NetSession> {
        self.sessions@
    }

    /// The stored participants, each with its session.
    pub closed spec fn participants(&self) -> Seq<StoredParticipant> {
        self.participants@
    }

    /// The stored log entries, each with its session.
    pub closed spec fn log_entries(&self) -> Seq<StoredLogEntry> {
        self.log_entries@
    }

    /// Each table holds at most one record per identity.
    pub open spec fn wf(&self) -> bool {
        &&& keys_unique(self.sessions())
        &&& keys_unique(self.participants())
        &&& keys_unique(self.log_entries())
    }

    /// An empty store.
    pub fn new() -> (r: RecordStore)
        ensures
            r.wf(),
            r.sessions() == Seq::<NetSession>::empty(),
            r.participants() == Seq::<StoredParticipant>::empty(),
            r.log_entries() == Seq::<StoredLogEntry>::empty(),
    {
        RecordStore { sessions: Vec::new(), participants: Vec::new(), log_entries: Vec::new() }
    }

    /// Inserts the session, or replaces the one with the same identity.
    pub fn save_session(&mut self, session: NetSession)
        requires
            old(self).wf(),
        ensures
            final(self).wf(),
            final(self).sessions() == upsert(old(self).sessions(), session),
            final(self).participants() == old(self).participants(),
            final(self).log_entries() == old(self).log_entries(),
    {
        upsert_into(&mut self.sessions, session);
    }

    /// Inserts the participant under session `session_id`, or replaces the
    /// one with the same identity (whatever session that one belonged to).
    pub fn save_participant(&mut self, session_id: &String, participant: Participant)
        requires
            old(self).wf(),
        ensures
            final(self).wf(),
            final(self).participants() == upsert(
                old(self).participants(),
                StoredParticipant { session_id: *session_id, participant },
            ),
            final(self).sessions() == old(self).sessions(),
            final(self).log_entries() == old(self).log_entries(),
    {
        let rec = StoredParticipant { session_id: session_id.clone(), participant };
        upsert_into(&mut self.participants, rec);
    }

    /// Inserts the log entry under session `session_id`, or replaces the one
    /// with the same identity (whatever session that one belonged to).
    pub fn save_log_entry(&mut self, session_id: &String, entry: LogEntry)
        requires
            old(self).wf(),
        ensures
            final(self).wf(),
            final(self).log_entries() == upsert(
                old(self).log_entries(),
                StoredLogEntry { session_id: *session_id, entry },
            ),
            final(self).sessions() == old(self).sessions(),
            final(self).participants() == old(self).participants(),
    {
        let rec = StoredLogEntry { session_id: session_id.clone(), entry };
        upsert_into(&mut self.log_entries, rec);
    }

    /// The session with identity `id`, if there is one.
    pub fn load_session(&self, id: &String) -> (r: Option<NetSession>)
        requires
            self.wf(),
        ensures
            r == find_key(self.sessions(), id@),
    {
        match crate::table::position_of(&self.sessions, id) {
            Some(i) => Some(self.sessions[i].duplicate()),
            None => None,
        }
    }

    /// The participants of session `session_id`, ascending by check-in number.
    pub fn load_participants(&self, session_id: &String) -> (r: Vec<Participant>)
        ensures
            is_participant_listing(r@, self.participants(), session_id@),
    {
        let s = &self.participants;
        let mut out: Vec<Participant> = Vec::new();
        let mut i: usize = 0;
        while i < s.len()
            invariant
                i <= s.len(),
                s@ == self.participants(),
                is_participant_listing(out@, s@.subrange(0, i as int), session_id@),
            decreases s.len() - i,
        {
            let ghost pre = s@.subrange(0, i as int);
            let ghost next = s@.subrange(0, i + 1);
            assert(next.drop_last() =~= pre);
            assert(next.last() == s@[i as int]);
            if s[i].session_id == *session_id {
                proof {
                    to_multiset_build(participants_in(pre, session_id@), s@[i as int].participant);
                }
                insert_sorted(&mut out, s[i].participant.duplicate());
            }
            i += 1;
        }
        assert(s@.subrange(0, s@.len() as int) =~= s@);
        out
    }

    /// The log entries of session `session_id`, ascending by entry number.
    pub fn load_log_entries(&self, session_id: &String) -> (r: Vec<LogEntry>)
        ensures
            is_entry_listing(r@, self.log_entries(), session_id@),
    {
        let s = &self.log_entries;
        let mut out: Vec<LogEntry> = Vec::new();
        let mut i: usize = 0;
        while i < s.len()
            invariant
                i <= s.len(),
                s@ == self.log_entries(),
                is_entry_listing(out@, s@.subrange(0, i as int), session_id@),
            decreases s.len() - i,
        {
            let ghost pre = s@.subrange(0, i as int);
            let ghost next = s@.subrange(0, i + 1);
            assert(next.drop_last() =~= pre);
            assert(next.last() == s@[i as int]);
            if s[i].session_id == *session_id {
                proof {
                    to_multiset_build(entries_in(pre, session_id@), s@[i as int].entry);
                }
                insert_sorted(&mut out, s[i].entry.duplicate());
            }
            i += 1;
        }
        assert(s@.subrange(0, s@.len() as int) =~= s@);
        out
    }

    /// The session `id` with its participants and log entries, or
    /// `NotFound` when no session has that identity.
    pub fn load_session_bundle(&self, id: &String) -> (r: Result<SessionData, StoreError>)
        requires
            self.wf(),
        ensures
            r is Err <==> find_key(self.sessions(), id@) is None,
            r is Err ==> r->Err_0 == StoreError::NotFound(*id),
            r is Ok ==> {
                &&& Some(r->Ok_0.session) == find_key(self.sessions(), id@)
                &&& is_participant_listing(r->Ok_0.participants@, self.participants(), id@)
                &&& is_entry_listing(r->Ok_0.log_entries@, self.log_entries(), id@)
            },
    {
        match self.load_session(id) {
            None => Err(StoreError::NotFound(id.clone())),
            Some(session) => {
                let participants = self.load_participants(id);
                let log_entries = self.load_log_entries(id);
                Ok(SessionData { session, participants, log_entries })
            },
        }
    }
}

/// A session that was saved is found again under its identity, equal to
/// what was saved in every field.
pub proof fn lemma_session_round_trip(before: RecordStore, after: RecordStore, session: NetSession)
    requires
        before.wf(),
        after.sessions() == upsert(before.sessions(), session),
    ensures
        find_key(after.sessions(), session.id@) == Some(session),
{
    lemma_upsert_effect(before.sessions(), session);
}

} // verus!
