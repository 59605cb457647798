use misskey_bridge::api::{Note, User};
use misskey_bridge::codec::{
    encode_frame, StreamingBodyMain, StreamingChannel, StreamingMessageRecv, StreamingMessageSend,
};
use misskey_bridge::json::Json;
use misskey_bridge::session::{
    HeartbeatAction, Inbound, MisskeyApiStream, Phase, Reaction, SessionEnd,
};

fn s(x: &str) -> String {
    x.to_string()
}

fn obj(members: Vec<(&str, Json)>) -> Json {
    Json::Object(members.into_iter().map(|(k, v)| (s(k), v)).collect())
}

fn mention_frame(note_id: &str) -> Json {
    let note = Note {
        id: s(note_id),
        text: Some(s("@bot hi")),
        user: User { id: s("u1"), username: s("alice"), host: None },
        reply_id: None,
    };
    let msg: StreamingMessageSend<(), StreamingBodyMain> =
        StreamingMessageSend::Channel(StreamingChannel { id: s("0"), body_inner: StreamingBodyMain::Mention(note) });
    encode_frame(&msg)
}

#[test]
fn streaming_url_layout() {
    let api = MisskeyApiStream::new(s("example.com"), s("tok"));
    assert_eq!(api.streaming_url(), "wss://example.com/streaming?i=tok");
}

#[test]
fn main_subscription_sent_before_any_event() {
    let api = MisskeyApiStream::new(s("example.com"), s("tok"));
    let mut session = api.main_session();

    // A data frame that arrives before the subscriptions are out is not handed over.
    assert!(matches!(session.on_inbound(Inbound::Data(mention_frame("early"))), Reaction::Ignore));

    let first = session.next_subscription();
    let expected = obj(vec![
        ("type", Json::Str(s("connect"))),
        (
            "body",
            obj(vec![
                ("channel", Json::Str(s("main"))),
                ("id", Json::Str(s("0"))),
                ("params", Json::Object(vec![])),
            ]),
        ),
    ]);
    assert_eq!(first, Some(expected));
    assert_eq!(session.liveness.phase, Phase::Subscribing);
    assert_eq!(session.next_subscription(), None);
    assert_eq!(session.liveness.phase, Phase::Active);
    assert_eq!(session.next_subscription(), None);

    match session.on_inbound(Inbound::Data(mention_frame("n1"))) {
        Reaction::Deliver(StreamingMessageRecv::Channel(ch)) => {
            assert_eq!(ch.id, "0");
            let StreamingBodyMain::Mention(note) = ch.body_inner;
            assert_eq!(note.id, "n1");
        }
        _ => panic!("event not delivered"),
    }
}

#[test]
fn hybrid_timeline_subscription() {
    let api = MisskeyApiStream::new(s("example.com"), s("tok"));
    let mut session = api.hybrid_timeline_session();
    let first = session.next_subscription().unwrap();
    let Json::Object(members) = first else { panic!("not an object") };
    let Json::Object(body) = &members[1].1 else { panic!("no body") };
    assert_eq!(body[0], (s("channel"), Json::Str(s("hybridTimeline"))));
}

fn active_session() -> misskey_bridge::session::StreamSession<(), StreamingBodyMain> {
    let api = MisskeyApiStream::new(s("h"), s("t"));
    let mut session = api.main_session();
    while session.next_subscription().is_some() {}
    session
}

#[test]
fn ping_answered_with_matching_pong() {
    let mut session = active_session();
    match session.on_inbound(Inbound::Ping(vec![1, 2, 3])) {
        Reaction::SendPong(d) => assert_eq!(d, vec![1, 2, 3]),
        _ => panic!("no pong"),
    }
    assert_eq!(session.liveness.phase, Phase::Active);
}

#[test]
fn pong_clears_probe_and_keeps_session() {
    let mut session = active_session();
    assert_eq!(session.on_heartbeat(), HeartbeatAction::SendProbe);
    assert!(session.liveness.probe_outstanding);
    assert!(matches!(session.on_inbound(Inbound::Pong(vec![])), Reaction::Ignore));
    assert!(!session.liveness.probe_outstanding);
    assert_eq!(session.on_heartbeat(), HeartbeatAction::SendProbe);
}

#[test]
fn unanswered_probe_ends_session() {
    let mut session = active_session();
    assert_eq!(session.on_heartbeat(), HeartbeatAction::SendProbe);
    assert!(matches!(session.on_inbound(Inbound::Ping(vec![])), Reaction::SendPong(_)));
    assert!(matches!(session.on_inbound(Inbound::Unreadable), Reaction::Ignore));
    assert_eq!(session.on_heartbeat(), HeartbeatAction::Stop(SessionEnd::HeartbeatTimeout));
    assert_eq!(session.liveness.phase, Phase::Terminated);
    assert_eq!(session.on_heartbeat(), HeartbeatAction::Idle);
}

#[test]
fn undecodable_frame_is_dropped_and_next_one_processed() {
    let mut session = active_session();
    assert!(matches!(session.on_inbound(Inbound::Data(Json::Str(s("junk")))), Reaction::Ignore));
    assert!(matches!(session.on_inbound(Inbound::Unreadable), Reaction::Ignore));
    assert!(matches!(session.on_inbound(Inbound::Data(mention_frame("n2"))), Reaction::Deliver(_)));
}

#[test]
fn stream_end_and_errors() {
    let mut session = active_session();
    assert!(matches!(session.on_inbound(Inbound::Closed), Reaction::Stop(SessionEnd::Closed)));
    assert!(matches!(session.on_inbound(Inbound::Data(mention_frame("late"))), Reaction::Ignore));

    let mut session = active_session();
    assert!(matches!(session.on_inbound(Inbound::Failed), Reaction::Stop(SessionEnd::TransportError)));
    assert!(SessionEnd::TransportError.is_error());
    assert!(!SessionEnd::Closed.is_error());

    let mut session = active_session();
    assert_eq!(session.on_send_failed(), SessionEnd::SendFailure);
    assert_eq!(session.liveness.phase, Phase::Terminated);
}
