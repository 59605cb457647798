//! The wire codec: tagged envelopes to and from JSON values.
use vstd::prelude::*;
use crate::api::Note;
use crate::json::{Json, field, get, get_str, str_value, member, is_text, lemma_field_at};

verus! {

/// A value written as the members of a JSON object.
pub trait ToJsonFields: Sized {
    /// `fields` are the members of an object that writes `x`.
    spec fn encodes(fields: Seq<(String, Json)>, x: Self) -> bool;

    fn to_fields(&self) -> (r: Vec<(String, Json)>)
        ensures
            Self::encodes(r@, *self),
    ;
}

/// A value written as the members of a JSON object and read back from them.
pub trait JsonObject: ToJsonFields {
    /// What the members of an object read as, or `None` when they do not fit.
    spec fn parse(fields: Seq<(String, Json)>) -> Option<Self>;

    fn from_fields(fields: &Vec<(String, Json)>) -> (r: Option<Self>)
        ensures
            r == Self::parse(fields@),
    ;

    /// Reading what was written gives the value back.
    proof fn lemma_round_trip(fields: Seq<(String, Json)>, x: Self)
        requires
            Self::encodes(fields, x),
        ensures
            Self::parse(fields) == Some(x),
    ;
}

/// An object with no members: the parameters of a channel that takes none.
impl ToJsonFields for () {
    open spec fn encodes(fields: Seq<(String, Json)>, x: Self) -> bool {
        fields.len() == 0
    }

    fn to_fields(&self) -> (r: Vec<(String, Json)>) {
        Vec::new()
    }
}

impl JsonObject for () {
    open spec fn parse(fields: Seq<(String, Json)>) -> Option<Self> {
        Some(())
    }

    fn from_fields(fields: &Vec<(String, Json)>) -> (r: Option<Self>) {
        Some(())
    }

    proof fn lemma_round_trip(fields: Seq<(String, Json)>, x: Self) {
    }
}

/// A value written as a tag and a content: `{"type": tag, "body": content}`
/// when it stands alone, or beside other members when it is flattened into them.
pub trait TaggedBody: Sized {
    /// `tag` and `content` write `x`.
    spec fn encodes(tag: Seq<char>, content: Json, x: Self) -> bool;

    /// What a tag and a content read as, or `None` when they do not fit.
    spec fn parse(tag: Seq<char>, content: Json) -> Option<Self>;

    fn to_tagged(&self) -> (r: (String, Json))
        ensures
            Self::encodes(r.0@, r.1, *self),
    ;

    fn from_tagged(tag: &String, content: &Json) -> (r: Option<Self>)
        ensures
            r == Self::parse(tag@, *content),
    ;

    /// Reading what was written gives the value back.
    proof fn lemma_round_trip(tag: Seq<char>, content: Json, x: Self)
        requires
            Self::encodes(tag, content, x),
        ensures
            Self::parse(tag, content) == Some(x),
    ;
}

/// The object members of a content, read as a `T`.
pub open spec fn parse_object<T: JsonObject>(content: Json) -> Option<T> {
    match content {
        Json::Object(v) => T::parse(v@),
        _ => None,
    }
}

/// A content that is an object whose members write `x`.
pub open spec fn encodes_object<T: ToJsonFields>(content: Json, x: T) -> bool {
    match content {
        Json::Object(v) => T::encodes(v@, x),
        _ => false,
    }
}

fn object_from_json<T: JsonObject>(content: &Json) -> (r: Option<T>)
    ensures
        r == parse_object::<T>(*content),
{
    match content {
        Json::Object(v) => T::from_fields(v),
        _ => None,
    }
}

proof fn lemma_object_round_trip<T: JsonObject>(content: Json, x: T)
    requires
        encodes_object(content, x),
    ensures
        parse_object::<T>(content) == Some(x),
{
    if let Json::Object(v) = content {
        T::lemma_round_trip(v@, x);
    }
}

/// A request to receive the events of `channel` under the id `id`.
#[derive(PartialEq, Eq, Debug)]
pub struct StreamingConnect<Params> {
    pub channel: String,
    pub id: String,
    pub params: Params,
}

impl<Params: ToJsonFields> ToJsonFields for StreamingConnect<Params> {
    open spec fn encodes(fields: Seq<(String, Json)>, x: Self) -> bool {
        &&& fields.len() == 3
        &&& fields[0].0@ == "channel"@ && fields[0].1 == Json::Str(x.channel)
        &&& fields[1].0@ == "id"@ && fields[1].1 == Json::Str(x.id)
        &&& fields[2].0@ == "params"@ && encodes_object(fields[2].1, x.params)
    }

    fn to_fields(&self) -> (r: Vec<(String, Json)>) {
        let mut r = Vec::new();
        r.push(member("channel", Json::Str(self.channel.clone())));
        r.push(member("id", Json::Str(self.id.clone())));
        r.push(member("params", Json::Object(self.params.to_fields())));
        r
    }
}

impl<Params: JsonObject> JsonObject for StreamingConnect<Params> {
    open spec fn parse(fields: Seq<(String, Json)>) -> Option<Self> {
        let params = match field(fields, "params"@) {
            Some(c) => parse_object::<Params>(c),
            None => None,
        };
        match (str_value(field(fields, "channel"@)), str_value(field(fields, "id"@)), params) {
            (Some(channel), Some(id), Some(params)) => Some(StreamingConnect { channel, id, params }),
            _ => None,
        }
    }

    fn from_fields(fields: &Vec<(String, Json)>) -> (r: Option<Self>) {
        let params = match get(fields, "params") {
            Some(c) => object_from_json::<Params>(c),
            None => None,
        };
        match (get_str(fields, "channel"), get_str(fields, "id"), params) {
            (Some(channel), Some(id), Some(params)) => Some(StreamingConnect { channel, id, params }),
            _ => None,
        }
    }

    proof fn lemma_round_trip(fields: Seq<(String, Json)>, x: Self) {
        reveal_strlit("channel");
        reveal_strlit("id");
        reveal_strlit("params");
        assert("channel"@.len() == 7 && "id"@.len() == 2 && "params"@.len() == 6);
        assert("channel"@[0] != "params"@[0]);
        lemma_field_at(fields, "channel"@, 0);
        lemma_field_at(fields, "id"@, 1);
        lemma_field_at(fields, "params"@, 2);
        lemma_object_round_trip(fields[2].1, x.params);
    }
}

/// A request to stop the events sent under the id `id`.
#[derive(PartialEq, Eq, Debug)]
pub struct StreamingDisconnect {
    pub id: String,
}

impl ToJsonFields for StreamingDisconnect {
    open spec fn encodes(fields: Seq<(String, Json)>, x: Self) -> bool {
        &&& fields.len() == 1
        &&& fields[0].0@ == "id"@ && fields[0].1 == Json::Str(x.id)
    }

    fn to_fields(&self) -> (r: Vec<(String, Json)>) {
        let mut r = Vec::new();
        r.push(member("id", Json::Str(self.id.clone())));
        r
    }
}

impl JsonObject for StreamingDisconnect {
    open spec fn parse(fields: Seq<(String, Json)>) -> Option<Self> {
        match str_value(field(fields, "id"@)) {
            Some(id) => Some(StreamingDisconnect { id }),
            None => None,
        }
    }

    fn from_fields(fields: &Vec<(String, Json)>) -> (r: Option<Self>) {
        match get_str(fields, "id") {
            Some(id) => Some(StreamingDisconnect { id }),
            None => None,
        }
    }

    proof fn lemma_round_trip(fields: Seq<(String, Json)>, x: Self) {
        lemma_field_at(fields, "id"@, 0);
    }
}

/// An event of the channel subscribed under `id`; the event's own tag and
/// content stand beside `id` in the same object.
#[derive(PartialEq, Eq, Debug)]
pub struct StreamingChannel<Body> {
    pub id: String,
    pub body_inner: Body,
}

impl<Body: TaggedBody> ToJsonFields for StreamingChannel<Body> {
    open spec fn encodes(fields: Seq<(String, Json)>, x: Self) -> bool {
        &&& fields.len() == 3
        &&& fields[0].0@ == "id"@ && fields[0].1 == Json::Str(x.id)
        &&& fields[1].0@ == "type"@
        &&& fields[2].0@ == "body"@
        &&& match fields[1].1 {
            Json::Str(t) => Body::encodes(t@, fields[2].1, x.body_inner),
            _ => false,
        }
    }

    fn to_fields(&self) -> (r: Vec<(String, Json)>) {
        let (tag, content) = self.body_inner.to_tagged();
        let mut r = Vec::new();
        r.push(member("id", Json::Str(self.id.clone())));
        r.push(member("type", Json::Str(tag)));
        r.push(member("body", content));
        r
    }
}

impl<Body: TaggedBody> JsonObject for StreamingChannel<Body> {
    open spec fn parse(fields: Seq<(String, Json)>) -> Option<Self> {
        let body = match (str_value(field(fields, "type"@)), field(fields, "body"@)) {
            (Some(t), Some(c)) => Body::parse(t@, c),
            _ => None,
        };
        match (str_value(field(fields, "id"@)), body) {
            (Some(id), Some(body_inner)) => Some(StreamingChannel { id, body_inner }),
            _ => None,
        }
    }

    fn from_fields(fields: &Vec<(String, Json)>) -> (r: Option<Self>) {
        let body = match (get(fields, "type"), get(fields, "body")) {
            (Some(Json::Str(t)), Some(c)) => Body::from_tagged(t, c),
            _ => None,
        };
        match (get_str(fields, "id"), body) {
            (Some(id), Some(body_inner)) => Some(StreamingChannel { id, body_inner }),
            _ => None,
        }
    }

    proof fn lemma_round_trip(fields: Seq<(String, Json)>, x: Self) {
        reveal_strlit("id");
        reveal_strlit("type");
        reveal_strlit("body");
        assert("id"@.len() == 2 && "type"@.len() == 4 && "body"@.len() == 4);
        assert("type"@[0] != "body"@[0]);
        lemma_field_at(fields, "id"@, 0);
        lemma_field_at(fields, "type"@, 1);
        lemma_field_at(fields, "body"@, 2);
        if let Json::Str(t) = fields[1].1 {
            Body::lemma_round_trip(t@, fields[2].1, x.body_inner);
        }
    }
}

/// The envelope a client sends.
#[derive(PartialEq, Eq, Debug)]
pub enum StreamingMessageSend<Params, Body> {
    Connect(StreamingConnect<Params>),
    Channel(StreamingChannel<Body>),
    Disconnect(StreamingDisconnect),
}

impl<Params: JsonObject, Body: TaggedBody> TaggedBody for StreamingMessageSend<Params, Body> {
    open spec fn encodes(tag: Seq<char>, content: Json, x: Self) -> bool {
        match x {
            StreamingMessageSend::Connect(c) => tag == "connect"@ && encodes_object(content, c),
            StreamingMessageSend::Channel(c) => tag == "channel"@ && encodes_object(content, c),
            StreamingMessageSend::Disconnect(d) => tag == "disconnect"@ && encodes_object(content, d),
        }
    }

    open spec fn parse(tag: Seq<char>, content: Json) -> Option<Self> {
        if tag == "connect"@ {
            match parse_object::<StreamingConnect<Params>>(content) {
                Some(c) => Some(StreamingMessageSend::Connect(c)),
                None => None,
            }
        } else if tag == "channel"@ {
            match parse_object::<StreamingChannel<Body>>(content) {
                Some(c) => Some(StreamingMessageSend::Channel(c)),
                None => None,
            }
        } else if tag == "disconnect"@ {
            match parse_object::<StreamingDisconnect>(content) {
                Some(d) => Some(StreamingMessageSend::Disconnect(d)),
                None => None,
            }
        } else {
            None
        }
    }

    fn to_tagged(&self) -> (r: (String, Json)) {
        match self {
            StreamingMessageSend::Connect(c) => member("connect", Json::Object(c.to_fields())),
            StreamingMessageSend::Channel(c) => member("channel", Json::Object(c.to_fields())),
            StreamingMessageSend::Disconnect(d) => member("disconnect", Json::Object(d.to_fields())),
        }
    }

    fn from_tagged(tag: &String, content: &Json) -> (r: Option<Self>) {
        if is_text(tag, "connect") {
            match object_from_json::<StreamingConnect<Params>>(content) {
                Some(c) => Some(StreamingMessageSend::Connect(c)),
                None => None,
            }
        } else if is_text(tag, "channel") {
            match object_from_json::<StreamingChannel<Body>>(content) {
                Some(c) => Some(StreamingMessageSend::Channel(c)),
                None => None,
            }
        } else if is_text(tag, "disconnect") {
            match object_from_json::<StreamingDisconnect>(content) {
                Some(d) => Some(StreamingMessageSend::Disconnect(d)),
                None => None,
            }
        } else {
            None
        }
    }

    proof fn lemma_round_trip(tag: Seq<char>, content: Json, x: Self) {
        reveal_strlit("connect");
        reveal_strlit("channel");
        reveal_strlit("disconnect");
        assert("connect"@.len() == 7 && "channel"@.len() == 7 && "disconnect"@.len() == 10);
        assert("connect"@[1] != "channel"@[1]);
        match x {
            StreamingMessageSend::Connect(c) => lemma_object_round_trip(content, c),
            StreamingMessageSend::Channel(c) => lemma_object_round_trip(content, c),
            StreamingMessageSend::Disconnect(d) => lemma_object_round_trip(content, d),
        }
    }
}

/// The envelope a client receives: only channel events are understood.
#[derive(PartialEq, Eq, Debug)]
pub enum StreamingMessageRecv<Body> {
    Channel(StreamingChannel<Body>),
}

impl<Body: TaggedBody> TaggedBody for StreamingMessageRecv<Body> {
    open spec fn encodes(tag: Seq<char>, content: Json, x: Self) -> bool {
        match x {
            StreamingMessageRecv::Channel(c) => tag == "channel"@ && encodes_object(content, c),
        }
    }

    open spec fn parse(tag: Seq<char>, content: Json) -> Option<Self> {
        if tag == "channel"@ {
            match parse_object::<StreamingChannel<Body>>(content) {
                Some(c) => Some(StreamingMessageRecv::Channel(c)),
                None => None,
            }
        } else {
            None
        }
    }

    fn to_tagged(&self) -> (r: (String, Json)) {
        match self {
            StreamingMessageRecv::Channel(c) => member("channel", Json::Object(c.to_fields())),
        }
    }

    fn from_tagged(tag: &String, content: &Json) -> (r: Option<Self>) {
        if is_text(tag, "channel") {
            match object_from_json::<StreamingChannel<Body>>(content) {
                Some(c) => Some(StreamingMessageRecv::Channel(c)),
                None => None,
            }
        } else {
            None
        }
    }

    proof fn lemma_round_trip(tag: Seq<char>, content: Json, x: Self) {
        match x {
            StreamingMessageRecv::Channel(c) => lemma_object_round_trip(content, c),
        }
    }
}

/// The events of the `main` channel that are understood.
#[derive(PartialEq, Eq, Debug)]
pub enum StreamingBodyMain {
    Mention(Note),
}

impl TaggedBody for StreamingBodyMain {
    open spec fn encodes(tag: Seq<char>, content: Json, x: Self) -> bool {
        match x {
            StreamingBodyMain::Mention(n) => tag == "mention"@ && encodes_object(content, n),
        }
    }

    open spec fn parse(tag: Seq<char>, content: Json) -> Option<Self> {
        if tag == "mention"@ {
            match parse_object::<Note>(content) {
                Some(n) => Some(StreamingBodyMain::Mention(n)),
                None => None,
            }
        } else {
            None
        }
    }

    fn to_tagged(&self) -> (r: (String, Json)) {
        match self {
            StreamingBodyMain::Mention(n) => member("mention", Json::Object(n.to_fields())),
        }
    }

    fn from_tagged(tag: &String, content: &Json) -> (r: Option<Self>) {
        if is_text(tag, "mention") {
            match object_from_json::<Note>(content) {
                Some(n) => Some(StreamingBodyMain::Mention(n)),
                None => None,
            }
        } else {
            None
        }
    }

    proof fn lemma_round_trip(tag: Seq<char>, content: Json, x: Self) {
        match x {
            StreamingBodyMain::Mention(n) => lemma_object_round_trip(content, n),
        }
    }
}

/// The events of a timeline channel that are understood.
#[derive(PartialEq, Eq, Debug)]
pub enum StreamingBodyTimeline {
    Note(Note),
}

impl TaggedBody for StreamingBodyTimeline {
    open spec fn encodes(tag: Seq<char>, content: Json, x: Self) -> bool {
        match x {
            StreamingBodyTimeline::Note(n) => tag == "note"@ && encodes_object(content, n),
        }
    }

    open spec fn parse(tag: Seq<char>, content: Json) -> Option<Self> {
        if tag == "note"@ {
            match parse_object::<Note>(content) {
                Some(n) => Some(StreamingBodyTimeline::Note(n)),
                None => None,
            }
        } else {
            None
        }
    }

    fn to_tagged(&self) -> (r: (String, Json)) {
        match self {
            StreamingBodyTimeline::Note(n) => member("note", Json::Object(n.to_fields())),
        }
    }

    fn from_tagged(tag: &String, content: &Json) -> (r: Option<Self>) {
        if is_text(tag, "note") {
            match object_from_json::<Note>(content) {
                Some(n) => Some(StreamingBodyTimeline::Note(n)),
                None => None,
            }
        } else {
            None
        }
    }

    proof fn lemma_round_trip(tag: Seq<char>, content: Json, x: Self) {
        match x {
            StreamingBodyTimeline::Note(n) => lemma_object_round_trip(content, n),
        }
    }
}

/// `frame` is the object `{"type": tag, "body": content}` that writes `x`.
pub open spec fn frame_encodes<T: TaggedBody>(frame: Json, x: T) -> bool {
    match frame {
        Json::Object(v) => {
            &&& v@.len() == 2
            &&& v@[0].0@ == "type"@
            &&& v@[1].0@ == "body"@
            &&& match v@[0].1 {
                Json::Str(t) => T::encodes(t@, v@[1].1, x),
                _ => false,
            }
        },
        _ => false,
    }
}

/// What a frame reads as: an object whose `type` member is a string and whose
/// `body` member is present, read by the tag; `None` for anything else.
pub open spec fn frame_parse<T: TaggedBody>(frame: Json) -> Option<T> {
    match frame {
        Json::Object(v) => match (str_value(field(v@, "type"@)), field(v@, "body"@)) {
            (Some(t), Some(c)) => T::parse(t@, c),
            _ => None,
        },
        _ => None,
    }
}

/// Writes an envelope as a frame.
pub fn encode_frame<T: TaggedBody>(x: &T) -> (r: Json)
    ensures
        frame_encodes(r, *x),
{
    let (tag, content) = x.to_tagged();
    let mut v = Vec::new();
    v.push(member("type", Json::Str(tag)));
    v.push(member("body", content));
    Json::Object(v)
}

/// Reads a frame; `None` is a frame to drop.
pub fn decode_frame<T: TaggedBody>(frame: &Json) -> (r: Option<T>)
    ensures
        r == frame_parse::<T>(*frame),
{
    match frame {
        Json::Object(v) => match (get(v, "type"), get(v, "body")) {
            (Some(Json::Str(t)), Some(c)) => T::from_tagged(t, c),
            _ => None,
        },
        _ => None,
    }
}

/// Decoding an encoded envelope gives it back, for every kind of envelope.
pub proof fn lemma_frame_round_trip<T: TaggedBody>(frame: Json, x: T)
    requires
        frame_encodes(frame, x),
    ensures
        frame_parse::<T>(frame) == Some(x),
{
    reveal_strlit("type");
    reveal_strlit("body");
    assert("type"@[0] != "body"@[0]);
    if let Json::Object(v) = frame {
        lemma_field_at(v@, "type"@, 0);
        lemma_field_at(v@, "body"@, 1);
        if let Json::Str(t) = v@[0].1 {
            T::lemma_round_trip(t@, v@[1].1, x);
        }
    }
}

/// A channel envelope, once sent, is received as the same channel event.
pub proof fn lemma_channel_frame_received<Params: JsonObject, Body: TaggedBody>(
    frame: Json,
    ch: StreamingChannel<Body>,
)
    requires
        frame_encodes(frame, StreamingMessageSend::<Params, Body>::Channel(ch)),
    ensures
        frame_parse::<StreamingMessageRecv<Body>>(frame) == Some(StreamingMessageRecv::Channel(ch)),
{
    reveal_strlit("channel");
    if let Json::Object(v) = frame {
        if let Json::Str(t) = v@[0].1 {
            assert(StreamingMessageRecv::<Body>::encodes(t@, v@[1].1, StreamingMessageRecv::Channel(ch)));
        }
    }
    lemma_frame_round_trip(frame, StreamingMessageRecv::Channel(ch));
}

/// The tag of a frame: the `type` member of an object, when it is a string.
pub open spec fn frame_tag(frame: Json) -> Option<Seq<char>> {
    match frame {
        Json::Object(v) => match str_value(field(v@, "type"@)) {
            Some(t) => Some(t@),
            None => None,
        },
        _ => None,
    }
}

/// A frame that is not an object, or whose tag is not `channel`, is dropped
/// by the receiving side.
pub proof fn lemma_unknown_frame_dropped<Body: TaggedBody>(frame: Json)
    requires
        frame_tag(frame) != Some("channel"@),
    ensures
        frame_parse::<StreamingMessageRecv<Body>>(frame) is None,
{
}

} // verus!
