//! The chat event model and its wire form: a JSON object whose `type` member
//! names the kind of event.

use vstd::prelude::*;
use vstd::string::*;

verus! {

/// One chat event as carried between a connection and the hub.
#[derive(Clone, Debug, PartialEq, Eq)]
pub enum ChatEvent {
    Message { user: String, content: String },
}

/// The mathematical value of a [`ChatEvent`].
pub enum EventView {
    Message { user: Seq<char>, content: Seq<char> },
}

impl View for ChatEvent {
    type V = EventView;

    open spec fn view(&self) -> EventView {
        match self {
            ChatEvent::Message { user, content } => EventView::Message {
                user: user@,
                content: content@,
            },
        }
    }
}

/// Why a piece of wire text is not a chat event.
#[derive(Clone, Copy, Debug, PartialEq, Eq, Structural)]
pub enum DecodeError {
    /// The text is not a JSON document.
    Malformed,
    /// The document has no `type` member.
    MissingTag,
    /// The `type` member names no known kind of event.
    UnknownTag,
    /// A member that the event kind needs is absent.
    MissingField,
    /// A member holds something other than a string.
    WrongFieldType,
}

/// What a JSON document holds under one key, as far as the event model reads it.
#[derive(Clone, Debug, PartialEq, Eq)]
pub enum Member {
    Absent,
    Text(String),
    NotText,
}

/// The mathematical value of a [`Member`].
pub enum MemberView {
    Absent,
    Text(Seq<char>),
    NotText,
}

impl View for Member {
    type V = MemberView;

    open spec fn view(&self) -> MemberView {
        match self {
            Member::Absent => MemberView::Absent,
            Member::Text(s) => MemberView::Text(s@),
            Member::NotText => MemberView::NotText,
        }
    }
}

/// The member that names the kind of event.
pub open spec fn tag_key() -> Seq<char> {
    seq!['t', 'y', 'p', 'e']
}

/// The member that names the sender of a message.
pub open spec fn user_key() -> Seq<char> {
    seq!['u', 's', 'e', 'r']
}

/// The member that holds the text of a message.
pub open spec fn content_key() -> Seq<char> {
    seq!['c', 'o', 'n', 't', 'e', 'n', 't']
}

/// The tag of a message event.
pub open spec fn message_tag() -> Seq<char> {
    seq!['M', 'e', 's', 's', 'a', 'g', 'e']
}

/// The string held by a required member, or the error for its absence or type.
pub open spec fn required_text(m: MemberView) -> Result<Seq<char>, DecodeError> {
    match m {
        MemberView::Absent => Err(DecodeError::MissingField),
        MemberView::NotText => Err(DecodeError::WrongFieldType),
        MemberView::Text(s) => Ok(s),
    }
}

/// The event that the members `type`, `user` and `content` of a document
/// describe: the tag is read first, then `user`, then `content`.
pub open spec fn decode_members_spec(
    tag: MemberView,
    user: MemberView,
    content: MemberView,
) -> Result<EventView, DecodeError> {
    match tag {
        MemberView::Absent => Err(DecodeError::MissingTag),
        MemberView::NotText => Err(DecodeError::WrongFieldType),
        MemberView::Text(t) => if t != message_tag() {
            Err(DecodeError::UnknownTag)
        } else {
            match required_text(user) {
                Err(e) => Err(e),
                Ok(u) => match required_text(content) {
                    Err(e) => Err(e),
                    Ok(c) => Ok(EventView::Message { user: u, content: c }),
                },
            }
        },
    }
}

/// The view of a decoding result.
pub open spec fn decoded_view(r: Result<ChatEvent, DecodeError>) -> Result<EventView, DecodeError> {
    match r {
        Ok(e) => Ok(e@),
        Err(d) => Err(d),
    }
}

fn required_member(m: &Member) -> (r: Result<String, DecodeError>)
    ensures
        match r {
            Ok(s) => required_text(m@) == Ok::<Seq<char>, DecodeError>(s@),
            Err(d) => required_text(m@) == Err::<Seq<char>, DecodeError>(d),
        },
{
    match m {
        Member::Absent => Err(DecodeError::MissingField),
        Member::NotText => Err(DecodeError::WrongFieldType),
        Member::Text(s) => Ok(s.clone()),
    }
}

/// Builds the event that the `type`, `user` and `content` members describe.
pub fn decode_members(tag: &Member, user: &Member, content: &Member) -> (r: Result<
    ChatEvent,
    DecodeError,
>)
    ensures
        decoded_view(r) == decode_members_spec(tag@, user@, content@),
{
    match tag {
        Member::Absent => Err(DecodeError::MissingTag),
        Member::NotText => Err(DecodeError::WrongFieldType),
        Member::Text(t) => {
            let known = String::from_str("Message");
            proof {
                reveal_strlit("Message");
                assert(known@ == message_tag());
            }
            if !t.eq(&known) {
                return Err(DecodeError::UnknownTag);
            }
            match (required_member(user), required_member(content)) {
                (Err(d), _) => Err(d),
                (Ok(_), Err(d)) => Err(d),
                (Ok(user), Ok(content)) => Ok(ChatEvent::Message { user, content }),
            }
        },
    }
}


/// What `serde_json` reads from `text` under each of `keys`: `None` where the
/// text is not a JSON document.
pub uninterp spec fn json_members(text: Seq<char>, keys: Seq<Seq<char>>) -> Option<Seq<MemberView>>;

/// The compact JSON text of an object whose members map each key to a string.
pub uninterp spec fn json_object_text(members: Seq<(Seq<char>, Seq<char>)>) -> Seq<char>;

/// The views of a sequence of members.
pub open spec fn member_views(ms: Seq<Member>) -> Seq<MemberView> {
    ms.map_values(|m: Member| m@)
}

/// The views of a sequence of strings.
pub open spec fn string_views(ks: Seq<String>) -> Seq<Seq<char>> {
    ks.map_values(|k: String| k@)
}

/// The views of a sequence of string pairs.
pub open spec fn pair_views(ps: Seq<(String, String)>) -> Seq<(Seq<char>, Seq<char>)> {
    ps.map_values(|p: (String, String)| (p.0@, p.1@))
}

/// Relies on `serde_json::from_str` (into a `serde_json::Value`) to parse the
/// text, and on `Value::get` to look up each key in the parsed document.
#[verifier::external_body]
fn read_members(text: &str, keys: &Vec<String>) -> (r: Option<Vec<Member>>)
    ensures
        r is None <==> json_members(text@, string_views(keys@)) is None,
        r matches Some(ms) ==> json_members(text@, string_views(keys@)) == Some(member_views(ms@))
            && ms@.len() == keys@.len(),
{
    let doc: serde_json::Value = serde_json::from_str(text).ok()?;
    Some(keys.iter().map(|k| match doc.get(k.as_str()) {
        None => Member::Absent,
        Some(serde_json::Value::String(s)) => Member::Text(s.clone()),
        Some(_) => Member::NotText,
    }).collect())
}

/// Relies on `serde_json::Value`'s `Display` impl to write an object of
/// string members as compact JSON text.
#[verifier::external_body]
fn write_object(members: &Vec<(String, String)>) -> (r: String)
    ensures
        r@ == json_object_text(pair_views(members@)),
{
    let object: serde_json::Map<String, serde_json::Value> = members.iter().map(
        |(k, v)| (k.clone(), serde_json::Value::String(v.clone())),
    ).collect();
    serde_json::Value::Object(object).to_string()
}

/// The keys that the event model reads, in the order it reads them.
pub open spec fn event_keys() -> Seq<Seq<char>> {
    seq![tag_key(), user_key(), content_key()]
}

/// The result of decoding `text`.
pub open spec fn decode_spec(text: Seq<char>) -> Result<EventView, DecodeError> {
    match json_members(text, event_keys()) {
        None => Err(DecodeError::Malformed),
        Some(ms) => decode_members_spec(ms[0], ms[1], ms[2]),
    }
}

/// The members, in order, of the wire object of an event.
pub open spec fn event_members_spec(e: EventView) -> Seq<(Seq<char>, Seq<char>)> {
    match e {
        EventView::Message { user, content } => seq![
            (tag_key(), message_tag()),
            (user_key(), user),
            (content_key(), content),
        ],
    }
}

/// The wire text of an event.
pub open spec fn encode_spec(e: EventView) -> Seq<char> {
    json_object_text(event_members_spec(e))
}

fn event_key_strings() -> (r: Vec<String>)
    ensures
        string_views(r@) == event_keys(),
        r@.len() == 3,
{
    let t = String::from_str("type");
    let u = String::from_str("user");
    let c = String::from_str("content");
    proof {
        reveal_strlit("type");
        reveal_strlit("user");
        reveal_strlit("content");
        assert(t@ =~= tag_key());
        assert(u@ =~= user_key());
        assert(c@ =~= content_key());
    }
    let r = vec![t, u, c];
    assert(string_views(r@) =~= event_keys());
    r
}

/// Decodes wire text into a chat event.
pub fn decode(text: &str) -> (r: Result<ChatEvent, DecodeError>)
    ensures
        decoded_view(r) == decode_spec(text@),
{
    let keys = event_key_strings();
    match read_members(text, &keys) {
        None => Err(DecodeError::Malformed),
        Some(ms) => {
            proof {
                assert(member_views(ms@)[0] == ms@[0]@);
                assert(member_views(ms@)[1] == ms@[1]@);
                assert(member_views(ms@)[2] == ms@[2]@);
            }
            decode_members(&ms[0], &ms[1], &ms[2])
        },
    }
}

/// The members of the wire object of an event: its tag, then its fields.
pub fn event_members(e: &ChatEvent) -> (r: Vec<(String, String)>)
    ensures
        pair_views(r@) == event_members_spec(e@),
{
    match e {
        ChatEvent::Message { user, content } => {
            let t = String::from_str("type");
            let m = String::from_str("Message");
            let u = String::from_str("user");
            let c = String::from_str("content");
            proof {
                reveal_strlit("type");
                reveal_strlit("Message");
                reveal_strlit("user");
                reveal_strlit("content");
                assert(t@ =~= tag_key());
                assert(m@ =~= message_tag());
                assert(u@ =~= user_key());
                assert(c@ =~= content_key());
            }
            let r = vec![(t, m), (u, user.clone()), (c, content.clone())];
            assert(pair_views(r@) =~= event_members_spec(e@));
            r
        },
    }
}

/// Encodes a chat event as wire text; every event has an encoding.
pub fn encode(e: &ChatEvent) -> (r: String)
    ensures
        r@ == encode_spec(e@),
{
    let members = event_members(e);
    write_object(&members)
}


/// What an object with these string members holds under `key`: where a key
/// repeats, the last member wins.
pub open spec fn member_in(members: Seq<(Seq<char>, Seq<char>)>, key: Seq<char>) -> MemberView
    decreases members.len(),
{
    if members.len() == 0 {
        MemberView::Absent
    } else if members.last().0 == key {
        MemberView::Text(members.last().1)
    } else {
        member_in(members.drop_last(), key)
    }
}

/// Reading back the `type`, `user` and `content` members of the object that
/// `encode` writes for an event yields that event again.
pub proof fn lemma_members_round_trip(e: EventView)
    ensures
        ({
            let ms = event_members_spec(e);
            decode_members_spec(
                member_in(ms, tag_key()),
                member_in(ms, user_key()),
                member_in(ms, content_key()),
            ) == Ok::<EventView, DecodeError>(e)
        }),
{
    let ms = event_members_spec(e);
    let EventView::Message { user, content } = e;
    assert(tag_key()[0] != user_key()[0]);
    assert(tag_key() != content_key());
    assert(user_key() != content_key());
    let ms1 = ms.drop_last();
    let ms0 = ms1.drop_last();
    assert(ms1 =~= seq![(tag_key(), message_tag()), (user_key(), user)]);
    assert(ms0 =~= seq![(tag_key(), message_tag())]);
    assert(ms0.drop_last() =~= Seq::<(Seq<char>, Seq<char>)>::empty());
    assert(member_in(ms, content_key()) == MemberView::Text(content));
    assert(member_in(ms0.drop_last(), user_key()) == MemberView::Absent);
    assert(ms0.last().0 != user_key());
    assert(member_in(ms0, user_key()) == MemberView::Absent);
    assert(member_in(ms1, user_key()) == MemberView::Text(user));
    assert(member_in(ms, user_key()) == MemberView::Text(user));
    assert(member_in(ms0, tag_key()) == MemberView::Text(message_tag()));
    assert(member_in(ms1, tag_key()) == MemberView::Text(message_tag()));
    assert(member_in(ms, tag_key()) == MemberView::Text(message_tag()));
}

} // verus!
