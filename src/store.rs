use vstd::prelude::*;
use crate::session::{opt_view, Session, SessionError, SessionModel};
use serde_json::Value;

verus! {

/// The error of serde_json's encoding and decoding, declared so that the
/// wrappers can hand it back; it is mapped to `SessionError`.
#[verifier::external_type_specification]
#[verifier::external_body]
pub struct ExJsonError(serde_json::Error);

/// A stored record: field names with their text.
pub type Entries = Seq<(Seq<char>, Seq<char>)>;

/// A member's value in a record as read back.
#[derive(Debug, Clone)]
pub enum Member {
    Text(String),
    Null,
    /// A number, a boolean, an array or an object.
    Other,
}

/// What a member's value is, as a plain value.
pub enum MemberModel {
    Text(Seq<char>),
    Null,
    Other,
}

impl View for Member {
    type V = MemberModel;

    open spec fn view(&self) -> MemberModel {
        match self {
            Member::Text(s) => MemberModel::Text(s@),
            Member::Null => MemberModel::Null,
            Member::Other => MemberModel::Other,
        }
    }
}

impl Member {
    pub fn copy(&self) -> (r: Member)
        ensures
            r@ == self@,
    {
        match self {
            Member::Text(s) => Member::Text(s.clone()),
            Member::Null => Member::Null,
            Member::Other => Member::Other,
        }
    }
}

/// A record as read back: field names with their values.
pub type ReadEntries = Seq<(Seq<char>, MemberModel)>;

/// The bytes that `serde_json::to_vec` gives for the JSON object whose members
/// are `es`.
pub uninterp spec fn json_object_text(es: Entries) -> Seq<u8>;

/// The members of the JSON object that `b` holds, in the order
/// `serde_json::from_slice` hands them out; `None` where `b` holds no JSON
/// object.
pub uninterp spec fn json_object_members(b: Seq<u8>) -> Option<ReadEntries>;

pub open spec fn entries_view(v: Seq<(String, String)>) -> Entries {
    v.map_values(|p: (String, String)| (p.0@, p.1@))
}

pub open spec fn read_entries_view(v: Seq<(String, Member)>) -> ReadEntries {
    v.map_values(|p: (String, Member)| (p.0@, p.1@))
}

/// Relies on `serde_json::to_vec` over an ordered map of strings: the bytes of
/// one JSON object with those members, in the order of their names.
#[verifier::external_body]
fn encode_object(entries: &Vec<(String, String)>) -> (r: Result<Vec<u8>, serde_json::Error>)
    ensures
        r is Ok,
        r matches Ok(b) ==> b@ == json_object_text(entries_view(entries@)),
{
    let object: std::collections::BTreeMap<&String, &String> = entries.iter().map(|p| (&p.0, &p.1)).collect();
    serde_json::to_vec(&object)
}

/// Whether `s` is a Matrix user ID as ruma's `UserId::parse` accepts it.
pub uninterp spec fn is_user_id(s: Seq<char>) -> bool;

/// Relies on ruma's `UserId::parse` (through matrix_sdk), the check that a
/// stored `user_id` meets when it is read as a user ID; it rejects the empty
/// string, which lacks the leading `@`.
#[verifier::external_body]
fn user_id_parses(s: &str) -> (r: bool)
    ensures
        r == is_user_id(s@),
        r ==> s@.len() > 0,
{
    matrix_sdk::ruma::UserId::parse(s).is_ok()
}

/// Relies on `serde_json::from_slice` into a map of JSON values: it succeeds
/// exactly on a JSON object. Each value is told apart by its kind.
#[verifier::external_body]
fn decode_object(b: &[u8]) -> (r: Result<Vec<(String, Member)>, serde_json::Error>)
    ensures
        r matches Ok(v) ==> json_object_members(b@) == Some(read_entries_view(v@)),
        r is Err ==> json_object_members(b@).is_none(),
{
    let object: std::collections::BTreeMap<String, Value> = serde_json::from_slice(b)?;
    Ok(object.into_iter().map(|(k, v)| (k, match v {
        Value::String(s) => Member::Text(s),
        Value::Null => Member::Null,
        Value::Bool(_) => Member::Other,
        Value::Number(_) => Member::Other,
        Value::Array(_) => Member::Other,
        Value::Object(_) => Member::Other,
    })).collect())
}

pub open spec fn homeserver_key() -> Seq<char> {
    "homeserver"@
}

pub open spec fn user_id_key() -> Seq<char> {
    "user_id"@
}

pub open spec fn device_id_key() -> Seq<char> {
    "device_id"@
}

pub open spec fn access_token_key() -> Seq<char> {
    "access_token"@
}

pub open spec fn refresh_token_key() -> Seq<char> {
    "refresh_token"@
}

pub open spec fn sync_token_key() -> Seq<char> {
    "sync_token"@
}

pub open spec fn optional_entry(k: Seq<char>, v: Option<Seq<char>>) -> Entries {
    match v {
        Some(x) => seq![(k, x)],
        None => Seq::empty(),
    }
}

/// The record that stores a session: the four identifying fields, then each
/// optional token that is present.
pub open spec fn entries_of(m: SessionModel) -> Entries {
    seq![
        (homeserver_key(), m.homeserver),
        (user_id_key(), m.user_id),
        (device_id_key(), m.device_id),
        (access_token_key(), m.access_token),
    ] + optional_entry(refresh_token_key(), m.refresh_token) + optional_entry(
        sync_token_key(),
        m.sync_token,
    )
}

/// The value of the last member named `k`.
pub open spec fn lookup(es: ReadEntries, k: Seq<char>) -> Option<MemberModel>
    decreases es.len(),
{
    if es.len() == 0 {
        None
    } else if es.last().0 == k {
        Some(es.last().1)
    } else {
        lookup(es.drop_last(), k)
    }
}

/// The text of a member; null, another kind or no member at all give none.
pub open spec fn text(o: Option<MemberModel>) -> Option<Seq<char>> {
    match o {
        Some(MemberModel::Text(s)) => Some(s),
        _ => None,
    }
}

/// A member that may be left out is absent, null or text.
pub open spec fn optional_ok(o: Option<MemberModel>) -> bool {
    !(o matches Some(MemberModel::Other))
}

pub open spec fn present(o: Option<Seq<char>>) -> bool {
    o matches Some(v) && v.len() > 0
}

/// A read record describes a session: each identifying field is there as
/// non-empty text, the user ID is well formed, and each token is absent, null
/// or text. Other members may hold anything.
pub open spec fn complete(es: ReadEntries) -> bool {
    &&& present(text(lookup(es, homeserver_key())))
    &&& present(text(lookup(es, user_id_key())))
    &&& is_user_id(text(lookup(es, user_id_key())).unwrap_or(Seq::empty()))
    &&& present(text(lookup(es, device_id_key())))
    &&& present(text(lookup(es, access_token_key())))
    &&& optional_ok(lookup(es, refresh_token_key()))
    &&& optional_ok(lookup(es, sync_token_key()))
}

/// The session that a complete read record describes; other members are ignored.
pub open spec fn model_of(es: ReadEntries) -> SessionModel {
    SessionModel {
        homeserver: text(lookup(es, homeserver_key())).unwrap_or(Seq::empty()),
        user_id: text(lookup(es, user_id_key())).unwrap_or(Seq::empty()),
        device_id: text(lookup(es, device_id_key())).unwrap_or(Seq::empty()),
        access_token: text(lookup(es, access_token_key())).unwrap_or(Seq::empty()),
        refresh_token: text(lookup(es, refresh_token_key())),
        sync_token: text(lookup(es, sync_token_key())),
    }
}

/// A stored record as it reads back.
pub open spec fn lifted(es: Entries) -> ReadEntries {
    es.map_values(|p: (Seq<char>, Seq<char>)| (p.0, MemberModel::Text(p.1)))
}

pub open spec fn member_opt_view(o: Option<Member>) -> Option<MemberModel> {
    match o {
        Some(m) => Some(m@),
        None => None,
    }
}

fn find_entry(entries: &Vec<(String, Member)>, key: &String) -> (r: Option<Member>)
    ensures
        member_opt_view(r) == lookup(read_entries_view(entries@), key@),
{
    let ghost es = read_entries_view(entries@);
    let mut found: Option<Member> = None;
    let mut i: usize = 0;
    while i < entries.len()
        invariant
            i <= entries@.len(),
            es == read_entries_view(entries@),
            member_opt_view(found) == lookup(es.take(i as int), key@),
        decreases entries@.len() - i,
    {
        assert(es.take(i + 1).drop_last() =~= es.take(i as int));
        if entries[i].0 == *key {
            found = Some(entries[i].1.copy());
        }
        i = i + 1;
    }
    assert(es.take(entries@.len() as int) =~= es);
    found
}

fn required(o: Option<Member>) -> (r: Result<String, SessionError>)
    ensures
        r matches Ok(s) ==> text(member_opt_view(o)) == Some(s@) && s@.len() > 0,
        r is Err ==> !present(text(member_opt_view(o))) && r == Err::<String, SessionError>(
            SessionError::CorruptSession,
        ),
{
    match o {
        Some(Member::Text(s)) => {
            if s.as_str().unicode_len() > 0 {
                Ok(s)
            } else {
                Err(SessionError::CorruptSession)
            }
        },
        _ => Err(SessionError::CorruptSession),
    }
}

fn optional(o: Option<Member>) -> (r: Result<Option<String>, SessionError>)
    ensures
        r matches Ok(t) ==> opt_view(t) == text(member_opt_view(o)),
        r is Ok <==> optional_ok(member_opt_view(o)),
        r is Err ==> r == Err::<Option<String>, SessionError>(SessionError::CorruptSession),
{
    match o {
        Some(Member::Text(s)) => Ok(Some(s)),
        Some(Member::Other) => Err(SessionError::CorruptSession),
        _ => Ok(None),
    }
}

impl Session {
    /// The record that stores this session.
    pub fn to_entries(&self) -> (r: Vec<(String, String)>)
        ensures
            entries_view(r@) == entries_of(self@),
    {
        let mut r: Vec<(String, String)> = Vec::new();
        r.push((String::from_str("homeserver"), self.homeserver.clone()));
        r.push((String::from_str("user_id"), self.user_id.clone()));
        r.push((String::from_str("device_id"), self.device_id.clone()));
        r.push((String::from_str("access_token"), self.access_token.clone()));
        match &self.refresh_token {
            Some(t) => r.push((String::from_str("refresh_token"), t.clone())),
            None => {},
        }
        match &self.sync_token {
            Some(t) => r.push((String::from_str("sync_token"), t.clone())),
            None => {},
        }
        assert(entries_view(r@) =~= entries_of(self@));
        r
    }

    /// The session that a read record describes, or `CorruptSession` where an
    /// identifying field is missing, empty or not text, the user ID is
    /// malformed, or a token is neither text nor null.
    pub fn from_entries(entries: &Vec<(String, Member)>) -> (r: Result<
        Session,
        SessionError,
    >)
        ensures
            r is Ok <==> complete(read_entries_view(entries@)),
            r matches Ok(s) ==> s@ == model_of(read_entries_view(entries@)),
            r is Err ==> r == Err::<Session, SessionError>(SessionError::CorruptSession),
    {
        let homeserver = required(find_entry(entries, &String::from_str("homeserver")))?;
        let user_id = required(find_entry(entries, &String::from_str("user_id")))?;
        if !user_id_parses(user_id.as_str()) {
            return Err(SessionError::CorruptSession);
        }
        let device_id = required(find_entry(entries, &String::from_str("device_id")))?;
        let access_token = required(find_entry(entries, &String::from_str("access_token")))?;
        let refresh_token = optional(find_entry(entries, &String::from_str("refresh_token")))?;
        let sync_token = optional(find_entry(entries, &String::from_str("sync_token")))?;
        Ok(Session { homeserver, user_id, device_id, access_token, refresh_token, sync_token })
    }

    /// The bytes of the session file: the record as one JSON object.
    pub fn encode(&self) -> (r: Result<Vec<u8>, SessionError>)
        ensures
            r is Ok,
            r matches Ok(b) ==> b@ == json_object_text(entries_of(self@)),
    {
        let entries = self.to_entries();
        match encode_object(&entries) {
            Ok(b) => Ok(b),
            Err(_) => Err(SessionError::PersistenceError),
        }
    }

    /// The session that the bytes of a session file describe; `CorruptSession`
    /// where they hold no JSON object, or one that `from_entries` refuses.
    pub fn decode(b: &[u8]) -> (r: Result<Session, SessionError>)
        ensures
            r is Ok <==> (json_object_members(b@) matches Some(es) && complete(es)),
            r matches Ok(s) ==> s@ == model_of(json_object_members(b@).unwrap()),
            r is Err ==> r == Err::<Session, SessionError>(SessionError::CorruptSession),
    {
        match decode_object(b) {
            Ok(entries) => Session::from_entries(&entries),
            Err(_) => Err(SessionError::CorruptSession),
        }
    }
}

/// Reading back the record that stores a valid session gives that session
/// again, field by field: what `Session::to_entries` writes for `m`,
/// read by `Session::from_entries` with each value present, is complete and
/// describes `m`.
pub proof fn lemma_record_round_trip(m: SessionModel)
    requires
        m.valid(),
        is_user_id(m.user_id),
    ensures
        complete(lifted(entries_of(m))),
        model_of(lifted(entries_of(m))) == m,
{
    reveal_strlit("homeserver");
    reveal_strlit("user_id");
    reveal_strlit("device_id");
    reveal_strlit("access_token");
    reveal_strlit("refresh_token");
    reveal_strlit("sync_token");
    let keys = seq![
        homeserver_key(),
        user_id_key(),
        device_id_key(),
        access_token_key(),
        refresh_token_key(),
        sync_token_key(),
    ];
    assert(keys[0].len() == 10 && keys[1].len() == 7 && keys[2].len() == 9);
    assert(keys[3].len() == 12 && keys[4].len() == 13 && keys[5].len() == 10);
    assert(keys[0][0] != keys[5][0]);
    let base = Seq::<(Seq<char>, MemberModel)>::empty().push(
        (homeserver_key(), MemberModel::Text(m.homeserver)),
    ).push((user_id_key(), MemberModel::Text(m.user_id))).push(
        (device_id_key(), MemberModel::Text(m.device_id)),
    ).push((access_token_key(), MemberModel::Text(m.access_token)));
    let with_refresh = match m.refresh_token {
        Some(t) => base.push((refresh_token_key(), MemberModel::Text(t))),
        None => base,
    };
    let es = match m.sync_token {
        Some(t) => with_refresh.push((sync_token_key(), MemberModel::Text(t))),
        None => with_refresh,
    };
    assert(lifted(entries_of(m)) =~= es);
    reveal_with_fuel(lookup, 7);
    assert(lookup(base, homeserver_key()) == Some(MemberModel::Text(m.homeserver)));
    assert(lookup(base, user_id_key()) == Some(MemberModel::Text(m.user_id)));
    assert(lookup(base, device_id_key()) == Some(MemberModel::Text(m.device_id)));
    assert(lookup(base, refresh_token_key()).is_none());
    assert(lookup(base, sync_token_key()).is_none());
    assert(lookup(with_refresh, sync_token_key()).is_none());
    assert(model_of(es) == m);
}

} // verus!
