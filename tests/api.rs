use misskey_bridge::api::{
    api_url, error_result, is_success, notes_create_body, reply_dm_params, response_result, Error, Note, User,
};
use misskey_bridge::bridge::{
    invite_reason, invite_reply, invite_url, mention_action, reject_reply, starts_with, MentionAction,
};
use misskey_bridge::json::Json;

fn s(x: &str) -> String {
    x.to_string()
}

fn note(text: Option<&str>, host: Option<&str>) -> Note {
    Note {
        id: s("n1"),
        text: text.map(s),
        user: User { id: s("u1"), username: s("alice"), host: host.map(s) },
        reply_id: None,
    }
}

#[test]
fn error_status_carries_body() {
    let body = br#"{"error":"..."}"#.to_vec();
    let r = response_result(400, &body);
    match r {
        Err(e) => {
            assert_eq!(e.error_body, r#"{"error":"..."}"#);
            assert!(e.message().contains(r#"{"error":"..."}"#));
            assert_eq!(e.message(), r#"Misskey Error: {"error":"..."}"#);
        }
        Ok(()) => panic!("400 taken for success"),
    }
}

#[test]
fn error_body_decoded_leniently() {
    let r = response_result(500, &vec![b'a', 0xff, b'b']);
    let e: Error = r.unwrap_err();
    assert_eq!(e.error_body, "a\u{fffd}b");
}

#[test]
fn success_statuses() {
    assert!(response_result(200, &vec![]).is_ok());
    assert!(response_result(204, &b"ignored".to_vec()).is_ok());
    assert!(response_result(299, &vec![]).is_ok());
    assert!(response_result(300, &vec![]).is_err());
    assert!(response_result(199, &vec![]).is_err());
    assert!(is_success(250));
    assert!(!is_success(404));
    assert!(error_result(200, s("x")).is_ok());
    assert_eq!(error_result(403, s("denied")).unwrap_err().error_body, "denied");
}

#[test]
fn rest_url_layout() {
    assert_eq!(api_url(&s("example.com"), "notes/create"), "https://example.com/api/notes/create");
}

#[test]
fn reply_params_and_body() {
    let n = note(Some("@bot hi"), None);
    let params = reply_dm_params(&n, s("hello"), true);
    assert_eq!(params.visibility, "specified");
    assert_eq!(params.visible_user_ids, vec![s("u1")]);
    assert_eq!(params.text, Some(s("hello")));
    assert!(params.local_only);
    assert_eq!(params.reply_id, Some(s("n1")));
    let body = notes_create_body(&s("tok"), params);
    let expected = Json::Object(vec![
        (s("i"), Json::Str(s("tok"))),
        (s("visibility"), Json::Str(s("specified"))),
        (s("visibleUserIds"), Json::Array(vec![Json::Str(s("u1"))])),
        (s("text"), Json::Str(s("hello"))),
        (s("localOnly"), Json::Bool(true)),
        (s("replyId"), Json::Str(s("n1"))),
    ]);
    assert_eq!(body, expected);
}

#[test]
fn mention_decisions() {
    let bot = s("@bot");
    assert_eq!(mention_action(&note(Some("@bot invite me"), None), &bot), MentionAction::Invite);
    assert_eq!(mention_action(&note(Some("@bot invite me"), Some("far.example")), &bot), MentionAction::RejectRemote);
    assert_eq!(mention_action(&note(Some("hi @bot"), None), &bot), MentionAction::Ignore);
    assert_eq!(mention_action(&note(None, None), &bot), MentionAction::Ignore);
    assert_eq!(mention_action(&note(Some("@bo"), None), &bot), MentionAction::Ignore);
    assert!(starts_with("héllo", "hé"));
    assert!(starts_with("x", ""));
    assert!(!starts_with("", "x"));
}

#[test]
fn reply_texts() {
    let n = note(Some("@bot"), None);
    assert_eq!(invite_reason(&n, &s("example.com")), "@alice@example.com (u1)");
    let url = invite_url(&s("AbCd"));
    assert_eq!(url, "https://discord.gg/AbCd");
    assert_eq!(invite_reply(&n, &s("welcome"), &url), "@alice welcome\nhttps://discord.gg/AbCd");
    assert_eq!(reject_reply(&n, &s("local users only")), "@alice local users only");
}
