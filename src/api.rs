//! The remote service's data: notes, users, and the REST call's outcome.
use vstd::prelude::*;
use vstd::string::StringExecFns;
use crate::codec::{JsonObject, ToJsonFields};
use crate::json::{Json, field, get, get_str, get_opt_str, str_value, opt_str_value, opt_str_json,
    opt_str_to_json, member, lemma_field_at};

verus! {

/// The author of a note. `host` is `None` for a user of this server.
#[derive(PartialEq, Eq, Debug)]
pub struct User {
    pub id: String,
    pub username: String,
    pub host: Option<String>,
}

impl ToJsonFields for User {
    open spec fn encodes(fields: Seq<(String, Json)>, x: Self) -> bool {
        &&& fields.len() == 3
        &&& fields[0].0@ == "id"@ && fields[0].1 == Json::Str(x.id)
        &&& fields[1].0@ == "username"@ && fields[1].1 == Json::Str(x.username)
        &&& fields[2].0@ == "host"@ && fields[2].1 == opt_str_json(x.host)
    }

    fn to_fields(&self) -> (r: Vec<(String, Json)>) {
        let mut r = Vec::new();
        r.push(member("id", Json::Str(self.id.clone())));
        r.push(member("username", Json::Str(self.username.clone())));
        r.push(member("host", opt_str_to_json(&self.host)));
        r
    }
}

impl JsonObject for User {
    open spec fn parse(fields: Seq<(String, Json)>) -> Option<Self> {
        match (
            str_value(field(fields, "id"@)),
            str_value(field(fields, "username"@)),
            opt_str_value(field(fields, "host"@)),
        ) {
            (Some(id), Some(username), Some(host)) => Some(User { id, username, host }),
            _ => None,
        }
    }

    fn from_fields(fields: &Vec<(String, Json)>) -> (r: Option<Self>) {
        let id = get_str(fields, "id");
        let username = get_str(fields, "username");
        let host = get_opt_str(fields, "host");
        match (id, username, host) {
            (Some(id), Some(username), Some(host)) => Some(User { id, username, host }),
            _ => None,
        }
    }

    proof fn lemma_round_trip(fields: Seq<(String, Json)>, x: Self) {
        reveal_strlit("id");
        reveal_strlit("username");
        reveal_strlit("host");
        assert("id"@.len() == 2 && "username"@.len() == 8 && "host"@.len() == 4);
        lemma_field_at(fields, "id"@, 0);
        lemma_field_at(fields, "username"@, 1);
        lemma_field_at(fields, "host"@, 2);
    }
}

/// A post on the remote service.
#[derive(PartialEq, Eq, Debug)]
pub struct Note {
    pub id: String,
    pub text: Option<String>,
    pub user: User,
    pub reply_id: Option<String>,
}

impl ToJsonFields for Note {
    open spec fn encodes(fields: Seq<(String, Json)>, x: Self) -> bool {
        &&& fields.len() == 4
        &&& fields[0].0@ == "id"@ && fields[0].1 == Json::Str(x.id)
        &&& fields[1].0@ == "text"@ && fields[1].1 == opt_str_json(x.text)
        &&& fields[2].0@ == "user"@ && match fields[2].1 {
            Json::Object(v) => User::encodes(v@, x.user),
            _ => false,
        }
        &&& fields[3].0@ == "replyId"@ && fields[3].1 == opt_str_json(x.reply_id)
    }

    fn to_fields(&self) -> (r: Vec<(String, Json)>) {
        let mut r = Vec::new();
        r.push(member("id", Json::Str(self.id.clone())));
        r.push(member("text", opt_str_to_json(&self.text)));
        r.push(member("user", Json::Object(self.user.to_fields())));
        r.push(member("replyId", opt_str_to_json(&self.reply_id)));
        r
    }
}

impl JsonObject for Note {
    open spec fn parse(fields: Seq<(String, Json)>) -> Option<Self> {
        let user = match field(fields, "user"@) {
            Some(Json::Object(v)) => User::parse(v@),
            _ => None,
        };
        match (
            str_value(field(fields, "id"@)),
            opt_str_value(field(fields, "text"@)),
            user,
            opt_str_value(field(fields, "replyId"@)),
        ) {
            (Some(id), Some(text), Some(user), Some(reply_id)) => Some(Note { id, text, user, reply_id }),
            _ => None,
        }
    }

    fn from_fields(fields: &Vec<(String, Json)>) -> (r: Option<Self>) {
        let user = match get(fields, "user") {
            Some(Json::Object(v)) => User::from_fields(v),
            _ => None,
        };
        let id = get_str(fields, "id");
        let text = get_opt_str(fields, "text");
        let reply_id = get_opt_str(fields, "replyId");
        match (id, text, user, reply_id) {
            (Some(id), Some(text), Some(user), Some(reply_id)) => Some(Note { id, text, user, reply_id }),
            _ => None,
        }
    }

    proof fn lemma_round_trip(fields: Seq<(String, Json)>, x: Self) {
        reveal_strlit("id");
        reveal_strlit("text");
        reveal_strlit("user");
        reveal_strlit("replyId");
        assert("id"@.len() == 2 && "text"@.len() == 4 && "user"@.len() == 4 && "replyId"@.len() == 7);
        assert("text"@[0] != "user"@[0]);
        lemma_field_at(fields, "id"@, 0);
        lemma_field_at(fields, "text"@, 1);
        lemma_field_at(fields, "user"@, 2);
        lemma_field_at(fields, "replyId"@, 3);
        if let Json::Object(v) = fields[2].1 {
            User::lemma_round_trip(v@, x.user);
        }
    }
}

/// A failed REST call: the body the server answered with.
#[derive(Clone, Debug)]
pub struct Error {
    pub error_body: String,
}

impl Error {
    /// `Misskey Error: <body>`.
    pub fn message(&self) -> (r: String)
        ensures
            r@ == "Misskey Error: "@ + self.error_body@,
    {
        let mut m = "Misskey Error: ".to_owned();
        m.append(self.error_body.as_str());
        m
    }
}

/// The text that lossy UTF-8 decoding makes of `bytes`.
pub uninterp spec fn utf8_lossy(bytes: Seq<u8>) -> Seq<char>;

/// Relies on `String::from_utf8_lossy`: the text depends on the bytes alone,
/// and no bytes make no text.
#[verifier::external_body]
fn decode_utf8_lossy(bytes: &Vec<u8>) -> (r: String)
    ensures
        r@ == utf8_lossy(bytes@),
        bytes@.len() == 0 ==> r@.len() == 0,
{
    String::from_utf8_lossy(bytes.as_slice()).into_owned()
}

/// An HTTP status in the 2xx range.
pub open spec fn is_success_status(status: u16) -> bool {
    200 <= status <= 299
}

pub fn is_success(status: u16) -> (r: bool)
    ensures
        r == is_success_status(status),
{
    200 <= status && status <= 299
}

/// The outcome of a REST call whose answer had `status`, with the answer's
/// body already decoded to `error_body`.
pub fn error_result(status: u16, error_body: String) -> (r: Result<(), Error>)
    ensures
        is_success_status(status) ==> r is Ok,
        !is_success_status(status) ==> r == Err::<(), Error>(Error { error_body }),
{
    if is_success(status) {
        Ok(())
    } else {
        Err(Error { error_body })
    }
}

/// The outcome of a REST call whose answer had `status` and `body`: success
/// for a 2xx status, else an error that carries the body, decoded leniently.
pub fn response_result(status: u16, body: &Vec<u8>) -> (r: Result<(), Error>)
    ensures
        r is Ok <==> is_success_status(status),
        r matches Err(e) ==> e.error_body@ == utf8_lossy(body@),
{
    if is_success(status) {
        Ok(())
    } else {
        let text = decode_utf8_lossy(body);
        error_result(status, text)
    }
}

/// `https://<host>/api/<endpoint>`.
pub fn api_url(host: &String, endpoint: &str) -> (r: String)
    ensures
        r@ == "https://"@ + host@ + "/api/"@ + endpoint@,
{
    let mut url = "https://".to_owned();
    url.append(host.as_str());
    url.append("/api/");
    url.append(endpoint);
    url
}

/// A REST request body: the credential `i` beside the endpoint's own members.
#[derive(PartialEq, Eq, Debug)]
pub struct PostParams<T> {
    pub i: String,
    pub body: T,
}

impl<T: ToJsonFields> ToJsonFields for PostParams<T> {
    open spec fn encodes(fields: Seq<(String, Json)>, x: Self) -> bool {
        &&& fields.len() >= 1
        &&& fields[0].0@ == "i"@ && fields[0].1 == Json::Str(x.i)
        &&& T::encodes(fields.drop_first(), x.body)
    }

    fn to_fields(&self) -> (r: Vec<(String, Json)>) {
        let mut r = Vec::new();
        r.push(member("i", Json::Str(self.i.clone())));
        let mut rest = self.body.to_fields();
        let ghost body = rest@;
        r.append(&mut rest);
        assert(r@.drop_first() =~= body);
        r
    }
}

/// The parameters of a new note.
#[derive(PartialEq, Eq, Debug)]
pub struct NotesCreateParams {
    pub visibility: String,
    pub visible_user_ids: Vec<String>,
    pub text: Option<String>,
    pub local_only: bool,
    pub reply_id: Option<String>,
}

/// `j` is an array of the strings `items`, in order.
pub open spec fn str_array_json(j: Json, items: Seq<String>) -> bool {
    match j {
        Json::Array(v) => v@.len() == items.len() && forall|k: int|
            0 <= k < items.len() ==> #[trigger] v@[k] == Json::Str(items[k]),
        _ => false,
    }
}

fn str_array_to_json(items: &Vec<String>) -> (r: Json)
    ensures
        str_array_json(r, items@),
{
    let mut v: Vec<Json> = Vec::new();
    let mut k: usize = 0;
    while k < items.len()
        invariant
            k <= items@.len(),
            v@.len() == k,
            forall|m: int| 0 <= m < k ==> #[trigger] v@[m] == Json::Str(items@[m]),
        decreases items@.len() - k,
    {
        v.push(Json::Str(items[k].clone()));
        k = k + 1;
    }
    Json::Array(v)
}

impl ToJsonFields for NotesCreateParams {
    open spec fn encodes(fields: Seq<(String, Json)>, x: Self) -> bool {
        &&& fields.len() == 5
        &&& fields[0].0@ == "visibility"@ && fields[0].1 == Json::Str(x.visibility)
        &&& fields[1].0@ == "visibleUserIds"@ && str_array_json(fields[1].1, x.visible_user_ids@)
        &&& fields[2].0@ == "text"@ && fields[2].1 == opt_str_json(x.text)
        &&& fields[3].0@ == "localOnly"@ && fields[3].1 == Json::Bool(x.local_only)
        &&& fields[4].0@ == "replyId"@ && fields[4].1 == opt_str_json(x.reply_id)
    }

    fn to_fields(&self) -> (r: Vec<(String, Json)>) {
        let mut r = Vec::new();
        r.push(member("visibility", Json::Str(self.visibility.clone())));
        r.push(member("visibleUserIds", str_array_to_json(&self.visible_user_ids)));
        r.push(member("text", opt_str_to_json(&self.text)));
        r.push(member("localOnly", Json::Bool(self.local_only)));
        r.push(member("replyId", opt_str_to_json(&self.reply_id)));
        r
    }
}

/// The parameters of a reply to `reply_to` that only its author can see.
pub fn reply_dm_params(reply_to: &Note, message: String, local_only: bool) -> (r: NotesCreateParams)
    ensures
        r.visibility@ == "specified"@,
        r.visible_user_ids@ == seq![reply_to.user.id],
        r.text == Some(message),
        r.local_only == local_only,
        r.reply_id == Some(reply_to.id),
{
    let mut ids = Vec::new();
    ids.push(reply_to.user.id.clone());
    assert(ids@ =~= seq![reply_to.user.id]);
    NotesCreateParams {
        visibility: "specified".to_owned(),
        visible_user_ids: ids,
        text: Some(message),
        local_only,
        reply_id: Some(reply_to.id.clone()),
    }
}

/// The body of a `notes/create` request made with `token`.
pub fn notes_create_body(token: &String, params: NotesCreateParams) -> (r: Json)
    ensures
        r matches Json::Object(v) && PostParams::<NotesCreateParams>::encodes(
            v@,
            PostParams { i: *token, body: params },
        ),
{
    let with_token = PostParams { i: token.clone(), body: params };
    Json::Object(with_token.to_fields())
}

} // verus!
