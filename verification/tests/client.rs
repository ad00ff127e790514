use wasm_sync_ws_client::client::{WsClient, MAX_RESPONSE_BYTES, WAIT_SLOT};
use wasm_sync_ws_client::error::ClientError;
use wasm_sync_ws_client::types::WsStatus;
use wasm_sync_ws_client::utils::encode_byte_response;

fn client(timeout_millis: Option<u32>) -> WsClient {
    WsClient::new("ws://localhost:9000".to_string(), timeout_millis).0
}

fn slots_of(client: &WsClient) -> Vec<i32> {
    let buffer = client.response();
    (0..buffer.capacity()).map(|i| buffer.load(i)).collect()
}

fn respond(client: &mut WsClient, payload: &[u8]) {
    encode_byte_response(client.response_mut(), payload);
}

#[test]
fn new_client_is_connecting_with_a_clean_buffer() {
    let (client, connect) = WsClient::new("ws://localhost:9000".to_string(), Some(250));
    assert_eq!(client.status(), WsStatus::Connecting);
    assert_eq!(client.timeout_millis(), Some(250));
    assert_eq!(client.response().capacity(), 1024);
    assert_eq!(MAX_RESPONSE_BYTES, 1024);
    assert_eq!(slots_of(&client), vec![256; 1024]);
    assert_eq!(connect.connect(), Some("ws://localhost:9000".to_string()));
    assert!(connect.request().is_none());
    assert!(!connect.close());
}

#[test]
fn callers_wait_on_slot_zero() {
    assert_eq!(WAIT_SLOT, 0);
}

#[test]
fn status_is_open_only_after_connected() {
    let mut client = client(None);
    client.on_message(Some("hello"));
    assert_eq!(client.status(), WsStatus::Connecting);
    client.on_message(None);
    assert_eq!(client.status(), WsStatus::Connecting);
    client.on_message(Some("Connected"));
    assert_eq!(client.status(), WsStatus::Connecting);
    client.on_message(Some("connected"));
    assert_eq!(client.status(), WsStatus::Open);
    client.on_message(Some("anything else"));
    assert_eq!(client.status(), WsStatus::Open);
    client.on_message(Some("connected"));
    assert_eq!(client.status(), WsStatus::Open);
}

#[test]
fn closed_follows_open() {
    let mut client = client(None);
    client.on_message(Some("connected"));
    client.on_message(Some("closed"));
    assert_eq!(client.status(), WsStatus::Closed);
}

#[test]
fn closed_while_connecting_is_tolerated() {
    let mut client = client(None);
    client.on_message(Some("closed"));
    assert_eq!(client.status(), WsStatus::Closed);
}

#[test]
fn closed_is_never_left() {
    let mut client = client(None);
    client.on_message(Some("connected"));
    client.on_message(Some("closed"));
    client.on_message(Some("connected"));
    assert_eq!(client.status(), WsStatus::Closed);
    client.on_message(Some("closed"));
    assert_eq!(client.status(), WsStatus::Closed);
    client.on_message(None);
    assert_eq!(client.status(), WsStatus::Closed);
}

#[test]
fn signals_do_not_touch_the_buffer() {
    let mut client = client(None);
    respond(&mut client, b"pending");
    let before = slots_of(&client);
    client.on_message(Some("connected"));
    client.on_message(Some("closed"));
    assert_eq!(slots_of(&client), before);
}

#[test]
fn close_sends_close_and_keeps_the_status() {
    let mut client = client(None);
    client.on_message(Some("connected"));
    let message = client.close();
    assert!(message.close());
    assert_eq!(message.connect(), None);
    assert!(message.request().is_none());
    assert_eq!(client.status(), WsStatus::Open);
}

#[test]
fn send_text_builds_a_text_request() {
    let client = client(None);
    let message = client.send_text("ping".to_string());
    assert_eq!(message.request().unwrap().text(), Some("ping".to_string()));
    assert_eq!(message.request().unwrap().binary(), None);
    assert_eq!(message.connect(), None);
    assert!(!message.close());
}

#[test]
fn send_binary_builds_a_binary_request() {
    let client = client(None);
    let message = client.send_binary(vec![1, 2, 3]);
    assert_eq!(message.request().unwrap().binary(), Some(vec![1, 2, 3]));
    assert_eq!(message.request().unwrap().text(), None);
}

#[test]
fn send_does_not_flush() {
    let mut client = client(None);
    respond(&mut client, b"stale");
    let before = slots_of(&client);
    client.send_text("ping".to_string());
    client.send_binary(vec![9]);
    assert_eq!(slots_of(&client), before);
}

#[test]
fn flush_response_clears_the_buffer() {
    let mut client = client(None);
    respond(&mut client, b"stale");
    client.flush_response();
    assert_eq!(slots_of(&client), vec![256; 1024]);
    assert_eq!(client.recv("not-equal"), Ok(String::new()));
}

#[test]
fn call_text_flushes_and_builds_the_request() {
    let mut client = client(None);
    respond(&mut client, b"stale");
    let message = client.call_text("ping".to_string());
    assert_eq!(slots_of(&client), vec![256; 1024]);
    assert_eq!(message.request().unwrap().text(), Some("ping".to_string()));
}

#[test]
fn call_binary_flushes_and_builds_the_request() {
    let mut client = client(None);
    respond(&mut client, b"stale");
    let message = client.call_binary(vec![4, 5]);
    assert_eq!(slots_of(&client), vec![256; 1024]);
    assert_eq!(message.request().unwrap().binary(), Some(vec![4, 5]));
}

#[test]
fn recv_returns_the_response_and_cleans_up() {
    let mut client = client(Some(100));
    client.call_text("ping".to_string());
    respond(&mut client, b"pong");
    assert_eq!(client.recv("ok"), Ok("pong".to_string()));
    assert_eq!(slots_of(&client), vec![256; 1024]);
}

#[test]
fn recv_decodes_when_the_slot_had_already_changed() {
    let mut client = client(Some(100));
    client.call_text("ping".to_string());
    respond(&mut client, b"early");
    assert_eq!(client.recv("not-equal"), Ok("early".to_string()));
}

#[test]
fn recv_timeout_leaves_the_buffer_untouched() {
    let mut client = client(Some(10));
    client.call_text("slow".to_string());
    // The response arrives too late for the wait, but lands in the buffer.
    respond(&mut client, b"late");
    let before = slots_of(&client);
    assert_eq!(client.recv("timed-out"), Err(ClientError::TimedOut));
    assert_eq!(slots_of(&client), before);
    assert_eq!(client.response().load(0), 108);
    assert_eq!(client.status(), WsStatus::Connecting);
    assert_eq!(client.timeout_millis(), Some(10));
}

#[test]
fn recv_timeout_on_an_empty_buffer() {
    let mut client = client(Some(10));
    client.call_text("slow".to_string());
    assert_eq!(client.recv("timed-out"), Err(ClientError::TimedOut));
    assert_eq!(slots_of(&client), vec![256; 1024]);
}

#[test]
fn recv_without_timeout_never_times_out() {
    let mut client = client(None);
    client.call_text("ping".to_string());
    respond(&mut client, b"pong");
    assert_eq!(client.recv("timed-out"), Ok("pong".to_string()));
}

#[test]
fn recv_reports_invalid_encoding() {
    let mut client = client(None);
    client.call_binary(vec![1]);
    respond(&mut client, &[0x80]);
    assert_eq!(client.recv("ok"), Err(ClientError::InvalidEncoding));
    assert_eq!(slots_of(&client), vec![256; 1024]);
}

#[test]
fn sequential_calls_get_their_own_responses() {
    let mut client = client(Some(50));
    let first = client.call_text("first question".to_string());
    assert_eq!(first.request().unwrap().text(), Some("first question".to_string()));
    respond(&mut client, b"first answer, the longer one");
    assert_eq!(client.recv("ok"), Ok("first answer, the longer one".to_string()));

    let second = client.call_text("second".to_string());
    assert_eq!(second.request().unwrap().text(), Some("second".to_string()));
    respond(&mut client, b"2nd");
    assert_eq!(client.recv("ok"), Ok("2nd".to_string()));
}

#[test]
fn a_late_response_does_not_leak_into_the_next_call() {
    let mut client = client(Some(10));
    client.call_text("first".to_string());
    assert_eq!(client.recv("timed-out"), Err(ClientError::TimedOut));
    respond(&mut client, b"answer to first");

    client.call_text("second".to_string());
    assert_eq!(slots_of(&client), vec![256; 1024]);
    respond(&mut client, b"answer to second");
    assert_eq!(client.recv("ok"), Ok("answer to second".to_string()));
}

#[test]
fn without_a_flush_a_late_response_is_read_as_the_next_one() {
    let mut client = client(Some(10));
    client.call_text("first".to_string());
    assert_eq!(client.recv("timed-out"), Err(ClientError::TimedOut));
    respond(&mut client, b"answer to first");

    client.send_text("second".to_string());
    assert_eq!(client.recv("not-equal"), Ok("answer to first".to_string()));
}

#[test]
fn response_of_exactly_capacity_arrives_whole() {
    let payload = vec![b'x'; 1024];
    let mut client = client(None);
    client.call_text("big".to_string());
    respond(&mut client, &payload);
    assert_eq!(client.response().load(1023), 120);
    assert_eq!(client.recv("ok"), Ok("x".repeat(1024)));
    assert_eq!(slots_of(&client), vec![256; 1024]);
}

#[test]
fn response_beyond_capacity_is_truncated() {
    let mut payload = vec![b'x'; 1024];
    payload.push(b'y');
    let mut client = client(None);
    client.call_text("bigger".to_string());
    respond(&mut client, &payload);
    assert_eq!(client.recv("ok"), Ok("x".repeat(1024)));
}

#[test]
fn error_messages() {
    assert_eq!(ClientError::TimedOut.message(), "Request timed out");
    assert_eq!(ClientError::ChannelUnavailable.message(), "Worker channel unavailable");
    assert_eq!(ClientError::InvalidEncoding.message(), "Response is not valid UTF-8");
}

#[test]
fn a_rejected_hand_off_is_channel_unavailable() {
    let client = client(None);
    assert_eq!(client.handed_off(true), Ok(()));
    assert_eq!(client.handed_off(false), Err(ClientError::ChannelUnavailable));
}

#[test]
fn a_response_is_read_only_once() {
    let mut client = client(None);
    client.call_text("ping".to_string());
    respond(&mut client, b"pong");
    assert_eq!(client.recv("ok"), Ok("pong".to_string()));
    assert_eq!(client.recv("ok"), Ok(String::new()));
}

#[test]
fn timeout_then_late_response_can_still_be_received() {
    let mut client = client(Some(10));
    client.call_text("slow".to_string());
    assert_eq!(client.recv("timed-out"), Err(ClientError::TimedOut));
    respond(&mut client, b"finally");
    assert_eq!(client.recv("not-equal"), Ok("finally".to_string()));
    assert_eq!(slots_of(&client), vec![256; 1024]);
}

#[test]
fn timed_out_needs_a_timeout_and_the_outcome() {
    assert!(client(Some(5)).timed_out("timed-out"));
    assert!(!client(Some(5)).timed_out("ok"));
    assert!(!client(Some(5)).timed_out("not-equal"));
    assert!(!client(Some(5)).timed_out("timed-out "));
    assert!(!client(Some(5)).timed_out(""));
    assert!(!client(None).timed_out("timed-out"));
    assert!(client(Some(0)).timed_out("timed-out"));
}
