use misskey_bridge::api::{Note, User};
use misskey_bridge::codec::{
    decode_frame, encode_frame, StreamingBodyMain, StreamingBodyTimeline, StreamingChannel,
    StreamingConnect, StreamingDisconnect, StreamingMessageRecv, StreamingMessageSend,
};
use misskey_bridge::json::Json;

fn s(x: &str) -> String {
    x.to_string()
}

fn sample_note(host: Option<&str>) -> Note {
    Note {
        id: s("note1"),
        text: Some(s("@bot hello")),
        user: User { id: s("user1"), username: s("alice"), host: host.map(s) },
        reply_id: None,
    }
}

fn obj(members: Vec<(&str, Json)>) -> Json {
    Json::Object(members.into_iter().map(|(k, v)| (s(k), v)).collect())
}

type Send = StreamingMessageSend<(), StreamingBodyMain>;

#[test]
fn connect_frame_layout() {
    let msg: Send = StreamingMessageSend::Connect(StreamingConnect {
        channel: s("main"),
        id: s("0"),
        params: (),
    });
    let frame = encode_frame(&msg);
    let expected = obj(vec![
        ("type", Json::Str(s("connect"))),
        (
            "body",
            obj(vec![
                ("channel", Json::Str(s("main"))),
                ("id", Json::Str(s("0"))),
                ("params", Json::Object(vec![])),
            ]),
        ),
    ]);
    assert_eq!(frame, expected);
    assert_eq!(decode_frame::<Send>(&frame), Some(msg));
}

#[test]
fn channel_frame_round_trip() {
    let ch = StreamingChannel { id: s("0"), body_inner: StreamingBodyMain::Mention(sample_note(Some("remote.example"))) };
    let sent: Send = StreamingMessageSend::Channel(ch);
    let frame = encode_frame(&sent);
    assert_eq!(decode_frame::<Send>(&frame), Some(sent));
    let received = decode_frame::<StreamingMessageRecv<StreamingBodyMain>>(&frame);
    let expected = StreamingMessageRecv::Channel(StreamingChannel {
        id: s("0"),
        body_inner: StreamingBodyMain::Mention(sample_note(Some("remote.example"))),
    });
    assert_eq!(received, Some(expected));
}

#[test]
fn disconnect_frame_round_trip() {
    let msg: Send = StreamingMessageSend::Disconnect(StreamingDisconnect { id: s("7") });
    let frame = encode_frame(&msg);
    assert_eq!(decode_frame::<Send>(&frame), Some(msg));
    assert_eq!(decode_frame::<StreamingMessageRecv<StreamingBodyMain>>(&frame), None);
}

#[test]
fn note_member_layout() {
    let body = StreamingBodyTimeline::Note(sample_note(None));
    let ch: StreamingMessageSend<(), StreamingBodyTimeline> =
        StreamingMessageSend::Channel(StreamingChannel { id: s("3"), body_inner: body });
    let frame = encode_frame(&ch);
    let user = obj(vec![
        ("id", Json::Str(s("user1"))),
        ("username", Json::Str(s("alice"))),
        ("host", Json::Null),
    ]);
    let note = obj(vec![
        ("id", Json::Str(s("note1"))),
        ("text", Json::Str(s("@bot hello"))),
        ("user", user),
        ("replyId", Json::Null),
    ]);
    let expected = obj(vec![
        ("type", Json::Str(s("channel"))),
        (
            "body",
            obj(vec![("id", Json::Str(s("3"))), ("type", Json::Str(s("note"))), ("body", note)]),
        ),
    ]);
    assert_eq!(frame, expected);
}

#[test]
fn received_frame_with_other_member_order_and_extras() {
    let note = obj(vec![
        ("createdAt", Json::Str(s("2023-01-01"))),
        ("user", obj(vec![("username", Json::Str(s("bob"))), ("id", Json::Str(s("u2")))])),
        ("id", Json::Str(s("n2"))),
    ]);
    let frame = obj(vec![
        ("body", obj(vec![("body", note), ("type", Json::Str(s("mention"))), ("id", Json::Str(s("0")))])),
        ("type", Json::Str(s("channel"))),
    ]);
    let got = decode_frame::<StreamingMessageRecv<StreamingBodyMain>>(&frame);
    let expected = StreamingMessageRecv::Channel(StreamingChannel {
        id: s("0"),
        body_inner: StreamingBodyMain::Mention(Note {
            id: s("n2"),
            text: None,
            user: User { id: s("u2"), username: s("bob"), host: None },
            reply_id: None,
        }),
    });
    assert_eq!(got, Some(expected));
}

#[test]
fn garbage_frames_are_dropped() {
    type Recv = StreamingMessageRecv<StreamingBodyMain>;
    assert_eq!(decode_frame::<Recv>(&Json::Null), None);
    assert_eq!(decode_frame::<Recv>(&Json::Str(s("hello"))), None);
    assert_eq!(decode_frame::<Recv>(&Json::Object(vec![])), None);
    let unknown_tag = obj(vec![("type", Json::Str(s("noteUpdated"))), ("body", Json::Object(vec![]))]);
    assert_eq!(decode_frame::<Recv>(&unknown_tag), None);
    let unknown_event = obj(vec![
        ("type", Json::Str(s("channel"))),
        (
            "body",
            obj(vec![
                ("id", Json::Str(s("0"))),
                ("type", Json::Str(s("notification"))),
                ("body", Json::Object(vec![])),
            ]),
        ),
    ]);
    assert_eq!(decode_frame::<Recv>(&unknown_event), None);
    let bad_text = obj(vec![
        ("type", Json::Str(s("channel"))),
        (
            "body",
            obj(vec![
                ("id", Json::Str(s("0"))),
                ("type", Json::Str(s("mention"))),
                (
                    "body",
                    obj(vec![
                        ("id", Json::Str(s("n"))),
                        ("text", Json::Number(s("5"))),
                        ("user", obj(vec![("id", Json::Str(s("u"))), ("username", Json::Str(s("c")))])),
                    ]),
                ),
            ]),
        ),
    ]);
    assert_eq!(decode_frame::<Recv>(&bad_text), None);
}
