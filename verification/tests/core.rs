use penview::hub::Hub;
use penview::inbound::ClientId;
use penview::inbound::WebsocketClientError;
use penview::inbound::WebsocketServerError;
use penview::intake::default_sync_scroll;
use penview::intake::intake_from_text;
use penview::intake::intake_update;
use penview::intake::scroll_ratio;
use penview::intake::IntakeUpdate;
use penview::numfmt::u64_to_string;
use penview::numfmt::u128_to_hex;
use penview::session::outbound_frame;
use penview::session::session_after_send;
use penview::session::session_step;
use penview::session::SessionAction;
use penview::session::SessionEvent;
use penview::session::SessionState;

fn ratio_value(num: usize, den: usize) -> f64 {
    let r = scroll_ratio(num, den);
    r.num as f64 / r.den as f64
}

#[test]
fn scroll_ratio_is_clamped() {
    assert_eq!(ratio_value(0, 0), 0.0);
    assert_eq!(ratio_value(50, 100), 0.5);
    assert_eq!(ratio_value(200, 100), 1.0);
    assert_eq!(ratio_value(3, 4), 0.75);
}

#[test]
fn legacy_fallback_reads_the_text() {
    let u = intake_from_text(String::from("# hi\nbye"));
    assert_eq!(u.cursor_line, 1);
    assert_eq!(u.total_lines, 2);
    assert_eq!(u.sync_scroll, false);
    assert_eq!(u.content, "# hi\nbye");

    let u = intake_from_text(String::new());
    assert_eq!(u.total_lines, 1);
}

#[test]
fn structured_intake_stands_as_it_is() {
    let parsed = IntakeUpdate {
        content: String::from("body"),
        cursor_line: 7,
        total_lines: 20,
        sync_scroll: true,
    };
    let u = intake_update(Some(parsed.clone()), String::from("raw"));
    assert_eq!(u, parsed);

    let u = intake_update(None, String::from("a\nb\nc"));
    assert_eq!(u.content, "a\nb\nc");
    assert_eq!(u.cursor_line, 1);
    assert_eq!(u.total_lines, 3);
    assert!(!u.sync_scroll);
}

#[test]
fn sync_scroll_defaults_on() {
    assert!(default_sync_scroll());
}

#[test]
fn hub_returns_the_same_channel() {
    let mut hub = Hub::new();
    let a = hub.get_or_create_channel("/doc/a.md");
    let b = hub.get_or_create_channel("/doc/b.md");
    let a2 = hub.get_or_create_channel("/doc/a.md");
    assert_eq!(a, a2);
    assert_ne!(a, b);
    assert_eq!(hub.entries.len(), 2);
}

#[test]
fn late_subscriber_misses_history() {
    let mut hub = Hub::new();
    let ch = hub.get_or_create_channel("/doc/a.md");
    hub.publish(ch, String::from("M1"));
    let mut sub = hub.subscribe(ch);
    hub.publish(ch, String::from("M2"));
    assert_eq!(hub.try_recv(ch, &mut sub), Some(String::from("M2")));
    assert_eq!(hub.try_recv(ch, &mut sub), None);
}

#[test]
fn every_subscriber_receives_in_order() {
    let mut hub = Hub::new();
    let ch = hub.get_or_create_channel("/doc/a.md");
    let mut subs = vec![hub.subscribe(ch), hub.subscribe(ch), hub.subscribe(ch)];
    hub.publish(ch, String::from("one"));
    hub.publish(ch, String::from("two"));
    hub.publish(ch, String::from("three"));
    for sub in subs.iter_mut() {
        assert_eq!(hub.try_recv(ch, sub), Some(String::from("one")));
        assert_eq!(hub.try_recv(ch, sub), Some(String::from("two")));
        assert_eq!(hub.try_recv(ch, sub), Some(String::from("three")));
        assert_eq!(hub.try_recv(ch, sub), None);
    }
}

#[test]
fn session_decisions() {
    assert_eq!(
        session_step(SessionEvent::PreviewHtml(String::from("<p>x</p>"))),
        SessionAction::Forward(String::from("<p>x</p>"))
    );
    assert_eq!(
        session_step(SessionEvent::FileChanged),
        SessionAction::SignalReload
    );
    assert_eq!(
        outbound_frame(SessionAction::Forward(String::from("payload"))),
        "payload"
    );
    assert_eq!(outbound_frame(SessionAction::SignalReload), "");
    assert_eq!(session_after_send(true), SessionState::Streaming);
    assert_eq!(session_after_send(false), SessionState::Closed);
}

#[test]
fn numbers_render_in_decimal_and_hex() {
    assert_eq!(u64_to_string(0), "0");
    assert_eq!(u64_to_string(10), "10");
    assert_eq!(u64_to_string(65535), "65535");
    assert_eq!(u128_to_hex(0xdead_beef, 8), "deadbeef");
    assert_eq!(u128_to_hex(0x1, 4), "0001");
}

#[test]
fn client_ids_render_hyphenated() {
    let id = ClientId {
        value: 0x123e4567_e89b_12d3_a456_426614174000,
    };
    assert_eq!(id.text(), "123e4567-e89b-12d3-a456-426614174000");
}

#[test]
fn client_error_fields() {
    let e = WebsocketClientError::Connection(String::from("broken pipe"));
    assert_eq!(e.message_text(), "broken pipe");
    let fields = e.lua_fields();
    assert_eq!(
        fields,
        vec![
            (String::from("type"), String::from("connection_error")),
            (String::from("message"), String::from("broken pipe")),
        ]
    );
    let e = WebsocketClientError::SendMessage(String::from("closed"));
    assert_eq!(e.lua_fields()[0].1, "send_message_error");
}

#[test]
fn server_error_fields() {
    let id = ClientId {
        value: 0x123e4567_e89b_12d3_a456_426614174000,
    };
    let e = WebsocketServerError::ReceiveMessage(id, String::from("bad frame"));
    assert_eq!(e.message_text(), "bad frame");
    let fields = e.lua_fields();
    assert_eq!(fields.len(), 3);
    assert_eq!(fields[0], (String::from("type"), String::from("receive_message_error")));
    assert_eq!(
        fields[1],
        (
            String::from("client_id"),
            String::from("123e4567-e89b-12d3-a456-426614174000")
        )
    );
    assert_eq!(fields[2], (String::from("message"), String::from("bad frame")));

    let e = WebsocketServerError::ServerTermination(String::from("shutting down"));
    let fields = e.lua_fields();
    assert_eq!(fields.len(), 2);
    assert_eq!(fields[0].1, "server_termination_error");
}
