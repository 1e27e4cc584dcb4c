use rumax::api::auth::profile_user_id;
use rumax::api::telemetry::{
    sleep_bounds, sleep_weights, Telemetry, TelemetryAction, TelemetryEvent, TelemetryPhase,
};
use rumax::constants::Constants;
use rumax::errors::Error;
use rumax::json::to_json_text;
use rumax::models::{Request, Response};
use rumax::payload::Payload;
use rumax::{
    handshake_payload, ClientMode, MaxClient, PingAction, PingEvent, ReadAction, ReadEvent, SendPlan,
    WaitOutcome,
};

fn obj(entries: Vec<(&str, Payload)>) -> Payload {
    Payload::Object(entries.into_iter().map(|(k, v)| (k.to_string(), v)).collect())
}

fn text(s: &str) -> Payload {
    Payload::String(s.to_string())
}

fn response(seq: u64, opcode: u16, payload: Payload) -> Response {
    Response { ver: 10, cmd: 1, seq, opcode, payload }
}

fn json(p: &Payload) -> String {
    to_json_text(p).unwrap()
}

fn closed(seq: u64, detail: &str) -> (u64, Error) {
    (seq, Error::ConnectionClosed(detail.to_string()))
}

#[test]
fn client_mode_variants_differ() {
    assert!(ClientMode::Web != ClientMode::Mobile);
}

#[test]
fn constants_have_declared_values() {
    assert_eq!(Constants::WEBSOCKET_URI, "wss://ws-api.oneme.ru/websocket");
    assert_eq!(Constants::MOBILE_HOST, "api.oneme.ru");
    assert_eq!(Constants::MOBILE_PORT, 443);
    assert_eq!(Constants::ORIGIN_HEADER, "https://web.max.ru");
    assert_eq!(Constants::DEFAULT_TIMEOUT, 10_000);
    assert_eq!(Constants::PING_INTERVAL, 30);
    assert_eq!(Constants::EVENT_CAPACITY, 20);
    assert_eq!(Constants::MAX_DECOMPRESSED, 5 * 1024 * 1024);
}

#[test]
fn new_client_is_idle() {
    let c = MaxClient::new_at(1234);
    assert!(!c.is_connected());
    assert_eq!(c.seq(), 0);
    assert_eq!(c.get_token(), None);
    assert_eq!(c.get_temp_token(), None);
    assert_eq!(c.user_id(), None);
    assert_eq!(c.action_id(), 0);
    assert_eq!(c.session_id(), 1234);
    assert_eq!(c.current_screen(), "chats_list_tab");
    assert!(c.is_armed());
    assert_eq!(c.pending(), Vec::<u64>::new());
}

#[test]
fn new_client_takes_session_id_from_clock() {
    let c = MaxClient::new();
    assert!(c.session_id() > 1_600_000_000_000);
    assert_eq!(c.seq(), 0);
    assert!(!c.is_connected());
}

#[test]
fn accessors_store_values() {
    let mut c = MaxClient::new_at(0);
    c.set_user_id(42);
    c.set_token("T1".to_string());
    c.set_temp_token("T0".to_string());
    assert_eq!(c.user_id(), Some(42));
    assert_eq!(c.get_token(), Some("T1".to_string()));
    assert_eq!(c.get_temp_token(), Some("T0".to_string()));
}

#[test]
fn sequence_numbers_increase_by_one() {
    let mut c = MaxClient::new_at(0);
    let a = c.send_and_wait(49, Payload::Null, 0);
    let b = c.send_and_wait(64, text("x"), 3);
    let d = c.send_and_wait(1, Payload::Null, 0);
    assert_eq!(a, Request { ver: 11, cmd: 0, seq: 1, opcode: 49, payload: Payload::Null });
    assert_eq!(b, Request { ver: 11, cmd: 3, seq: 2, opcode: 64, payload: text("x") });
    assert_eq!(d.seq, 3);
    assert_eq!(c.seq(), 3);
    assert_eq!(c.pending(), vec![1, 2, 3]);
    assert!(c.is_pending(2));
    assert!(!c.is_pending(4));
}

#[test]
fn handshake_payload_of_each_mode() {
    assert_eq!(
        json(&handshake_payload("dev1", "mt1", true)),
        "{\"clientSessionId\":1,\"deviceId\":\"dev1\",\"mt_instanceid\":\"mt1\",\"userAgent\":{\"appVersion\":\"25.10.0\",\"buildNumber\":6401,\"deviceLocale\":\"ru\",\"deviceName\":\"unknown Generic Android-x86_64\",\"deviceType\":\"ANDROID\",\"locale\":\"ru\",\"osVersion\":\"Android 13\",\"pushDeviceType\":\"GCM\",\"screen\":\"130dpi 130dpi 600x874\",\"timezone\":\"GMT\"}}"
    );
    assert_eq!(
        json(&handshake_payload("dev1", "mt1", false)),
        "{\"deviceId\":\"dev1\",\"userAgent\":{\"appVersion\":\"25.10.13\",\"deviceLocale\":\"ru\",\"deviceName\":\"Chrome\",\"deviceType\":\"WEB\",\"headerUserAgent\":\"Mozilla/5.0 (X11; Linux x86_64) AppleWebKit/537.36 (KHTML, like Gecko) Chrome/141.0.0.0 Safari/537.36\",\"locale\":\"ru\",\"osVersion\":\"Linux\",\"screen\":\"1080x1920 1.0x\",\"timezone\":\"Europe/Moscow\"}}"
    );
}

#[test]
fn connect_installs_transport_and_registers_handshake() {
    let mut c = MaxClient::new_at(5);
    c.set_token("T".to_string());
    let req = c.connect_at("dev1".to_string(), "mt1".to_string(), true, 77);
    assert_eq!(req.opcode, 6);
    assert_eq!(req.seq, 1);
    assert_eq!(req.ver, 11);
    assert_eq!(req.cmd, 0);
    assert_eq!(req.payload, handshake_payload("dev1", "mt1", true));
    assert!(!json(&req.payload).contains("\"token\""));
    assert!(c.is_connected());
    assert!(c.is_armed());
    assert_eq!(c.session_id(), 77);
    assert_eq!(c.pending(), vec![1]);
    assert_eq!(c.get_token(), Some("T".to_string()));
}

#[test]
fn connect_takes_session_id_from_clock() {
    let mut c = MaxClient::new_at(5);
    let req = c.connect("dev1".to_string(), "mt1".to_string(), false);
    assert_eq!(req.payload, handshake_payload("dev1", "mt1", false));
    assert!(c.session_id() > 1_600_000_000_000);
}

#[test]
fn send_frame_plans() {
    let mut c = MaxClient::new_at(0);
    assert_eq!(c.send_frame(false), SendPlan::Fail(Error::NotConnected));
    assert_eq!(c.send_frame(true), SendPlan::Fail(Error::NotConnected));
    let _ = c.connect_at("dev1".to_string(), "mt1".to_string(), true, 1);
    assert_eq!(c.send_frame(false), SendPlan::Write);
    assert_eq!(c.send_frame(true), SendPlan::Write);
    let _ = c.read_task(ReadEvent::Message(Ok(None)));
    assert_eq!(
        c.send_frame(false),
        SendPlan::Reconnect { device_id: "dev1".to_string(), mt_instance: "mt1".to_string() }
    );
    assert_eq!(c.send_frame(true), SendPlan::Fail(Error::NotConnected));
}

#[test]
fn reader_completes_pending_and_publishes_the_rest() {
    let mut c = MaxClient::new_at(0);
    let _ = c.send_and_wait(49, Payload::Null, 0);
    let _ = c.send_and_wait(49, Payload::Null, 0);
    let r2 = response(2, 49, text("two"));
    assert_eq!(c.read_task(ReadEvent::Message(Ok(Some(r2.clone())))), ReadAction::Complete(r2.clone()));
    assert_eq!(c.pending(), vec![1]);
    assert_eq!(c.read_task(ReadEvent::Message(Ok(Some(r2.clone())))), ReadAction::Publish(r2));
    let unsolicited = response(100, 128, text("event"));
    assert_eq!(
        c.read_task(ReadEvent::Message(Ok(Some(unsolicited.clone())))),
        ReadAction::Publish(unsolicited)
    );
    assert_eq!(c.pending(), vec![1]);
}

#[test]
fn reader_end_of_stream_closes_all_pending() {
    let mut c = MaxClient::new_at(0);
    let _ = c.connect_at("dev1".to_string(), "mt1".to_string(), true, 1);
    let _ = c.send_and_wait(49, Payload::Null, 0);
    let _ = c.send_and_wait(64, Payload::Null, 0);
    let action = c.read_task(ReadEvent::Message(Ok(None)));
    assert_eq!(
        action,
        ReadAction::Close(vec![
            closed(1, "Соединение закрыто"),
            closed(2, "Соединение закрыто"),
            closed(3, "Соединение закрыто"),
        ])
    );
    assert!(!c.is_connected());
    assert_eq!(c.pending(), Vec::<u64>::new());
    assert_eq!(c.seq(), 3);
}

#[test]
fn reader_connection_error_closes_with_its_message() {
    let mut c = MaxClient::new_at(0);
    let _ = c.connect_at("dev1".to_string(), "mt1".to_string(), true, 1);
    let action = c.read_task(ReadEvent::Message(Err(Error::ConnectionFailed("reset".to_string()))));
    assert_eq!(action, ReadAction::Close(vec![closed(1, "Ошибка подключения: reset")]));
    assert!(!c.is_connected());
}

#[test]
fn reader_frame_error_does_not_end_session() {
    let mut c = MaxClient::new_at(0);
    let _ = c.connect_at("dev1".to_string(), "mt1".to_string(), true, 1);
    let e = Error::ApiResponse(obj(vec![("error", text("LZ4 error")), ("details", text("d"))]));
    assert_eq!(c.read_task(ReadEvent::Message(Err(e.clone()))), ReadAction::Skip(e));
    let p = Error::ParseError("bad".to_string());
    assert_eq!(c.read_task(ReadEvent::Message(Err(p.clone()))), ReadAction::Skip(p));
    assert!(c.is_connected());
    assert_eq!(c.pending(), vec![1]);
}

#[test]
fn reader_stops_on_shutdown_without_draining() {
    let mut c = MaxClient::new_at(0);
    let _ = c.connect_at("dev1".to_string(), "mt1".to_string(), true, 1);
    assert_eq!(c.read_task(ReadEvent::Shutdown), ReadAction::Stop);
    assert!(c.is_connected());
    assert_eq!(c.pending(), vec![1]);
}

#[test]
fn finish_request_outcomes() {
    let mut c = MaxClient::new_at(0);
    let _ = c.send_and_wait(49, Payload::Null, 0);
    let ok = response(1, 49, obj(vec![("messages", Payload::Array(vec![]))]));
    assert_eq!(c.finish_request(1, WaitOutcome::Completed(Ok(ok.clone()))), Ok(ok));
    let api = obj(vec![("error", text("token.invalid")), ("message", text("m"))]);
    assert_eq!(
        c.finish_request(1, WaitOutcome::Completed(Ok(response(1, 49, api.clone())))),
        Err(Error::ApiResponse(api.clone()))
    );
    assert_eq!(
        MaxClient::check_response(response(1, 49, obj(vec![("error", Payload::Null)]))),
        Err(Error::ApiResponse(obj(vec![("error", Payload::Null)])))
    );
    assert_eq!(
        c.finish_request(1, WaitOutcome::Completed(Err(Error::ConnectionClosed("x".to_string())))),
        Err(Error::ConnectionClosed("x".to_string()))
    );
    let _ = c.send_and_wait(49, Payload::Null, 0);
    assert_eq!(c.pending(), vec![2]);
    assert_eq!(c.finish_request(2, WaitOutcome::Dropped), Err(Error::OneshotRecvError));
    assert_eq!(c.pending(), Vec::<u64>::new());
}

#[test]
fn timeout_removes_slot_and_later_requests_work() {
    let mut c = MaxClient::new_at(0);
    let _ = c.connect_at("dev1".to_string(), "mt1".to_string(), true, 1);
    let handshake = response(1, 6, Payload::Null);
    assert_eq!(c.read_task(ReadEvent::Message(Ok(Some(handshake.clone())))), ReadAction::Complete(handshake));
    let req = c.fetch_history_at(5, Some(100), 0, 30, 0);
    assert_eq!(req.opcode, 49);
    assert_eq!(c.pending(), vec![2]);
    assert_eq!(c.finish_request(req.seq, WaitOutcome::TimedOut), Err(Error::RequestTimeout(10_000)));
    assert_eq!(c.pending(), Vec::<u64>::new());
    let late = response(2, 49, Payload::Null);
    assert_eq!(c.read_task(ReadEvent::Message(Ok(Some(late.clone())))), ReadAction::Publish(late));
    let next = c.send_and_wait(1, Payload::Null, 0);
    assert_eq!(next.seq, 3);
    let pong = response(3, 1, Payload::Null);
    assert_eq!(c.read_task(ReadEvent::Message(Ok(Some(pong.clone())))), ReadAction::Complete(pong.clone()));
    assert_eq!(c.finish_request(3, WaitOutcome::Completed(Ok(pong.clone()))), Ok(pong));
}

#[test]
fn failed_send_removes_slot() {
    let mut c = MaxClient::new_at(0);
    let req = c.send_and_wait(1, Payload::Null, 0);
    assert_eq!(
        c.finish_request(req.seq, WaitOutcome::SendFailed(Error::NotConnected)),
        Err(Error::NotConnected)
    );
    assert_eq!(c.pending(), Vec::<u64>::new());
}

#[test]
fn disconnect_resets_session() {
    let mut c = MaxClient::new_at(0);
    let _ = c.connect_at("dev1".to_string(), "mt1".to_string(), true, 1);
    c.set_token("T1".to_string());
    c.set_temp_token("T0".to_string());
    c.set_user_id(42);
    let _ = c.send_and_wait(49, Payload::Null, 0);
    let list = c.disconnect_at(99);
    assert_eq!(list, vec![closed(1, "Соединение закрыто"), closed(2, "Соединение закрыто")]);
    assert!(!c.is_connected());
    assert!(!c.is_armed());
    assert_eq!(c.pending(), Vec::<u64>::new());
    assert_eq!(c.get_token(), None);
    assert_eq!(c.get_temp_token(), None);
    assert_eq!(c.user_id(), None);
    assert_eq!(c.seq(), 0);
    assert_eq!(c.session_id(), 99);
    assert_eq!(
        c.send_frame(false),
        SendPlan::Reconnect { device_id: "dev1".to_string(), mt_instance: "mt1".to_string() }
    );
    assert!(c.spawn_telemetry_task().is_none());
}

#[test]
fn disconnect_takes_session_id_from_clock() {
    let mut c = MaxClient::new_at(0);
    let _ = c.send_and_wait(49, Payload::Null, 0);
    assert_eq!(c.disconnect(), vec![closed(1, "Соединение закрыто")]);
    assert!(c.session_id() > 1_600_000_000_000);
}

#[test]
fn drop_then_lazy_reconnect() {
    let mut c = MaxClient::new_at(0);
    let _ = c.connect_at("dev1".to_string(), "mt1".to_string(), true, 1);
    let _ = c.send_and_wait(49, Payload::Null, 0);
    let _ = c.send_and_wait(64, Payload::Null, 0);
    match c.read_task(ReadEvent::Message(Ok(None))) {
        ReadAction::Close(list) => {
            assert_eq!(list.len(), 3);
            assert!(list.iter().all(|(_, e)| matches!(e, Error::ConnectionClosed(_))));
        }
        other => panic!("unexpected: {:?}", other),
    }
    let req = c.send_and_wait(1, Payload::Null, 0);
    assert_eq!(req.seq, 4);
    match c.send_frame(false) {
        SendPlan::Reconnect { device_id, mt_instance } => {
            let handshake = c.connect_at(device_id, mt_instance, true, 2);
            assert_eq!(handshake.seq, 5);
            assert_eq!(handshake.payload, handshake_payload("dev1", "mt1", true));
        }
        other => panic!("unexpected: {:?}", other),
    }
    assert_eq!(c.send_frame(true), SendPlan::Write);
    assert_eq!(c.pending(), vec![4, 5]);
}

#[test]
fn ping_task_steps() {
    let mut c = MaxClient::new_at(0);
    match c.ping_task(PingEvent::Tick) {
        PingAction::Send(req) => {
            assert_eq!(req.opcode, 1);
            assert_eq!(req.seq, 1);
            assert_eq!(json(&req.payload), "{\"interactive\":true}");
        }
        other => panic!("unexpected: {:?}", other),
    }
    assert_eq!(c.ping_task(PingEvent::Answered(Ok(response(1, 1, Payload::Null)))), PingAction::Wait);
    assert_eq!(c.ping_task(PingEvent::Answered(Err(Error::RequestTimeout(10_000)))), PingAction::Stop);
    assert_eq!(c.ping_task(PingEvent::Shutdown), PingAction::Stop);
    assert_eq!(c.pending(), vec![1]);
}

#[test]
fn login_scenario() {
    let mut c = MaxClient::new_at(0);
    let handshake = c.connect_at("dev1".to_string(), "mt1".to_string(), true, 1);
    let ok = response(handshake.seq, 6, Payload::Null);
    assert_eq!(c.read_task(ReadEvent::Message(Ok(Some(ok.clone())))), ReadAction::Complete(ok.clone()));
    assert!(c.finish_request(handshake.seq, WaitOutcome::Completed(Ok(ok))).is_ok());

    let req = c.start_auth("+70000000000".to_string());
    assert_eq!(req.opcode, 17);
    assert_eq!(json(&req.payload), "{\"language\":\"ru\",\"phone\":\"+70000000000\",\"type\":\"START_AUTH\"}");
    let out = c.finish_request(req.seq, WaitOutcome::Completed(Ok(response(req.seq, 17, obj(vec![("token", text("T0"))])))));
    c.start_auth_done(&out);
    assert_eq!(c.get_temp_token(), Some("T0".to_string()));
    assert_eq!(c.get_token(), None);

    let req = c.check_code("1234".to_string()).unwrap();
    assert_eq!(req.opcode, 18);
    assert_eq!(json(&req.payload), "{\"authTokenType\":\"CHECK_CODE\",\"token\":\"T0\",\"verifyCode\":\"1234\"}");
    let login = obj(vec![
        ("tokenType", text("LOGIN")),
        ("token", text("T1")),
        ("tokenAttrs", obj(vec![("LOGIN", obj(vec![("token", text("T1"))]))])),
    ]);
    let out = c.finish_request(req.seq, WaitOutcome::Completed(Ok(response(req.seq, 18, login))));
    c.check_code_done(&out);
    assert_eq!(c.get_token(), Some("T1".to_string()));
    assert_eq!(c.get_temp_token(), Some("T0".to_string()));

    let req = c.sync().unwrap();
    assert_eq!(req.opcode, 19);
    assert_eq!(
        json(&req.payload),
        "{\"chatsCount\":40,\"chatsSync\":0,\"contactsSync\":0,\"draftsSync\":0,\"interactive\":true,\"presenceSync\":0,\"token\":\"T1\"}"
    );
    let profile = obj(vec![("profile", obj(vec![("contact", obj(vec![("id", Payload::PosInt(42))]))]))]);
    let out = c.finish_request(req.seq, WaitOutcome::Completed(Ok(response(req.seq, 19, profile))));
    c.sync_done(&out);
    assert_eq!(c.user_id(), Some(42));
}

#[test]
fn register_scenario() {
    let mut c = MaxClient::new_at(0);
    let _ = c.connect_at("dev1".to_string(), "mt1".to_string(), true, 1);
    let req = c.start_auth("+70000000000".to_string());
    let out = c.finish_request(req.seq, WaitOutcome::Completed(Ok(response(req.seq, 17, obj(vec![("token", text("T0"))])))));
    c.start_auth_done(&out);
    let req = c.check_code("1234".to_string()).unwrap();
    let reg = obj(vec![("tokenType", text("REGISTER")), ("token", text("R0"))]);
    let out = c.finish_request(req.seq, WaitOutcome::Completed(Ok(response(req.seq, 18, reg))));
    c.check_code_done(&out);
    assert_eq!(c.get_temp_token(), Some("R0".to_string()));
    assert_eq!(c.get_token(), None);

    let req = c.submit_register("Ann".to_string(), None);
    assert_eq!(req.opcode, 23);
    assert_eq!(
        json(&req.payload),
        "{\"avatarType\":\"PRESET_AVATAR\",\"firstName\":\"Ann\",\"lastName\":null,\"photoId\":2981369,\"tokenType\":\"REGISTER\"}"
    );
    let out = c.finish_request(req.seq, WaitOutcome::Completed(Ok(response(req.seq, 23, obj(vec![("token", text("T2"))])))));
    c.submit_register_done(&out);
    assert_eq!(c.get_token(), Some("T2".to_string()));
    assert_eq!(c.get_temp_token(), Some("R0".to_string()));

    let with_last = c.submit_register("Ann".to_string(), Some("Lee".to_string()));
    assert_eq!(with_last.payload.get("lastName"), Some(&text("Lee")));
}

#[test]
fn token_reuse_scenario() {
    let mut c = MaxClient::new_at(0);
    let _ = c.connect_at("dev1".to_string(), "mt1".to_string(), false, 1);
    c.set_token("T1".to_string());
    let req = c.sync().unwrap();
    assert_eq!(req.payload.get("token"), Some(&text("T1")));
    let profile = obj(vec![("profile", obj(vec![("contact", obj(vec![("id", Payload::PosInt(7))]))]))]);
    let out = c.finish_request(req.seq, WaitOutcome::Completed(Ok(response(req.seq, 19, profile))));
    c.sync_done(&out);
    assert_eq!(c.user_id(), Some(7));
    assert_eq!(c.get_temp_token(), None);
}

#[test]
fn auth_needs_tokens() {
    let mut c = MaxClient::new_at(0);
    assert_eq!(c.check_code("1".to_string()), Err(Error::Other("No temporary token found".to_string())));
    assert_eq!(c.sync(), Err(Error::Other("No token set".to_string())));
    assert_eq!(c.seq(), 0);
    assert_eq!(c.pending(), Vec::<u64>::new());
}

#[test]
fn api_error_does_not_advance_auth_state() {
    let mut c = MaxClient::new_at(0);
    c.set_temp_token("T0".to_string());
    let bad = obj(vec![("error", text("code.invalid")), ("token", text("X")), ("tokenType", text("LOGIN"))]);
    let req = c.check_code("0000".to_string()).unwrap();
    let out = c.finish_request(req.seq, WaitOutcome::Completed(Ok(response(req.seq, 18, bad.clone()))));
    assert_eq!(out, Err(Error::ApiResponse(bad.clone())));
    c.check_code_done(&out);
    c.start_auth_done(&out);
    c.submit_register_done(&out);
    c.sync_done(&out);
    assert_eq!(c.get_token(), None);
    assert_eq!(c.get_temp_token(), Some("T0".to_string()));
    assert_eq!(c.user_id(), None);
}

#[test]
fn check_code_without_token_type_stores_session_token() {
    let mut c = MaxClient::new_at(0);
    c.set_temp_token("T0".to_string());
    let out = Ok(response(1, 18, obj(vec![("token", text("T9"))])));
    c.check_code_done(&out);
    assert_eq!(c.get_token(), Some("T9".to_string()));
    let none = Ok(response(1, 18, obj(vec![("token", Payload::PosInt(5))])));
    c.check_code_done(&none);
    assert_eq!(c.get_token(), Some("T9".to_string()));
}

#[test]
fn profile_user_id_lookups() {
    assert_eq!(profile_user_id(&Payload::Null), None);
    assert_eq!(profile_user_id(&obj(vec![("profile", obj(vec![("contact", Payload::Null)]))])), None);
    assert_eq!(
        profile_user_id(&obj(vec![("profile", obj(vec![("contact", obj(vec![("id", text("42"))]))]))])),
        Some(42)
    );
    assert_eq!(
        profile_user_id(&obj(vec![("profile", obj(vec![("contact", obj(vec![("id", text("9007199254740993"))]))]))])),
        Some(9_007_199_254_740_993)
    );
    assert_eq!(
        profile_user_id(&obj(vec![("profile", obj(vec![("contact", obj(vec![("id", text("4x"))]))]))])),
        None
    );
    assert_eq!(
        profile_user_id(&obj(vec![("profile", obj(vec![("contact", obj(vec![("id", Payload::NegInt(-4))]))]))])),
        None
    );
    assert_eq!(
        profile_user_id(&obj(vec![("profile", obj(vec![("contact", obj(vec![("id", Payload::PosInt(u64::MAX))]))]))])),
        Some(u64::MAX)
    );
}

#[test]
fn contact_requests() {
    let mut c = MaxClient::new_at(0);
    let r = c.get_by_phone("+7".to_string());
    assert_eq!((r.opcode, json(&r.payload)), (46, "{\"phone\":\"+7\"}".to_string()));
    let r = c.fetch_contacts(vec![1, 2, 18_446_744_073_709_551_615]);
    assert_eq!((r.opcode, json(&r.payload)), (32, "{\"contactIds\":[1,2,18446744073709551615]}".to_string()));
    let r = c.fetch_contacts(vec![]);
    assert_eq!(json(&r.payload), "{\"contactIds\":[]}");
    let r = c.add_contact(5);
    assert_eq!((r.opcode, json(&r.payload)), (34, "{\"action\":\"ADD\",\"contactId\":5}".to_string()));
    let r = c.delete_contact(5);
    assert_eq!((r.opcode, json(&r.payload)), (34, "{\"action\":\"REMOVE\",\"contactId\":5}".to_string()));
    assert_eq!(r.seq, 5);
}

#[test]
fn messaging_requests() {
    let mut c = MaxClient::new_at(0);
    let r = c.send_message_at(-10, "hi".to_string(), None, 1700);
    assert_eq!(r.opcode, 64);
    assert_eq!(
        json(&r.payload),
        "{\"chatId\":-10,\"message\":{\"attaches\":[],\"cid\":1700,\"elements\":[],\"link\":null,\"text\":\"hi\"},\"notify\":true}"
    );
    let args = obj(vec![
        ("attaches", Payload::Array(vec![obj(vec![("_type", text("PHOTO"))])])),
        ("replyTo", Payload::PosInt(77)),
        ("notify", Payload::Bool(false)),
    ]);
    let r = c.send_message_at(3, "re".to_string(), Some(args), 5);
    assert_eq!(
        json(&r.payload),
        "{\"chatId\":3,\"message\":{\"attaches\":[{\"_type\":\"PHOTO\"}],\"cid\":5,\"elements\":[],\"link\":{\"messageId\":\"77\",\"type\":\"REPLY\"},\"text\":\"re\"},\"notify\":false}"
    );
    let r = c.send_message_at(3, "re".to_string(), Some(obj(vec![("replyTo", text("m1"))])), 5);
    assert_eq!(r.payload.get("message").and_then(|m| m.get("link")).and_then(|l| l.get("messageId")), Some(&text("\"m1\"")));
    let r = c.send_message(3, "now".to_string(), None);
    assert!(r.payload.get("message").and_then(|m| m.get("cid")).and_then(|t| t.as_u64()).unwrap() > 1_600_000_000_000);

    let r = c.fetch_history_at(-10, Some(123), 0, 30, 999);
    assert_eq!(
        (r.opcode, json(&r.payload)),
        (49, "{\"backward\":30,\"chatId\":-10,\"forward\":0,\"from\":123,\"getMessages\":true}".to_string())
    );
    let r = c.fetch_history_at(1, None, 1, 2, 999);
    assert_eq!(r.payload.get("from"), Some(&Payload::PosInt(999)));
    let r = c.fetch_history_at(1, None, 1, 2, -1);
    assert_eq!(r.payload.get("from"), Some(&Payload::PosInt(u64::MAX)));
    let r = c.fetch_history(1, None, 1, 2);
    assert!(r.payload.get("from").and_then(|t| t.as_u64()).unwrap() > 1_600_000_000_000);

    let r = c.add_reaction(4, "m1".to_string(), "👍".to_string());
    assert_eq!(
        (r.opcode, json(&r.payload)),
        (178, "{\"chatId\":4,\"messageId\":\"m1\",\"reaction\":{\"id\":\"👍\",\"reaction_type\":\"EMOJI\"}}".to_string())
    );
    let r = c.remove_reaction(4, "m1".to_string());
    assert_eq!((r.opcode, json(&r.payload)), (179, "{\"chatId\":4,\"messageId\":\"m1\"}".to_string()));
}

#[test]
fn telemetry_sleep_ranges_and_weights() {
    assert_eq!(sleep_weights(), [5, 10, 15, 20, 50]);
    assert_eq!(sleep_bounds(0), (1000, 3000));
    assert_eq!(sleep_bounds(1), (300, 1000));
    assert_eq!(sleep_bounds(2), (60, 300));
    assert_eq!(sleep_bounds(3), (5, 60));
    assert_eq!(sleep_bounds(4), (5, 20));
}

#[test]
fn telemetry_sleep_times_lie_in_declared_ranges() {
    let c = MaxClient::new_at(0);
    let mut seen_short = false;
    let mut seen_other = false;
    for _ in 0..2000 {
        let secs = c.get_random_sleep_time();
        assert!((5..=3000).contains(&secs));
        if secs <= 20 {
            seen_short = true;
        } else {
            seen_other = true;
        }
    }
    assert!(seen_short && seen_other);
}

#[test]
fn telemetry_cold_start_event() {
    let mut c = MaxClient::new_at(500);
    assert_eq!(c.send_cold_start_internal(1000, 9), None);
    assert_eq!(c.action_id(), 0);
    c.set_user_id(42);
    let req = c.send_cold_start_internal(1000, 9).unwrap();
    assert_eq!(req.opcode, 5);
    assert_eq!(
        json(&req.payload),
        "{\"events\":[{\"event\":\"COLD_START\",\"params\":{\"actionId\":0,\"screenFrom\":1,\"screenTo\":9,\"sessionId\":500,\"sourceId\":1},\"time\":1000,\"type\":\"NAV\",\"userId\":42}]}"
    );
    assert_eq!(c.action_id(), 1);
    assert_eq!(c.current_screen(), "chats_list_tab");
}

#[test]
fn telemetry_navigation_event() {
    let mut c = MaxClient::new_at(500);
    assert_eq!(c.send_random_navigation_internal(1000, "settings".to_string(), 9, 12), None);
    assert_eq!(c.current_screen(), "chats_list_tab");
    c.set_user_id(42);
    let req = c.send_random_navigation_internal(1000, "settings".to_string(), 9, 12).unwrap();
    assert_eq!(
        json(&req.payload),
        "{\"events\":[{\"event\":\"NAV\",\"params\":{\"actionId\":1,\"screenFrom\":9,\"screenTo\":12,\"sessionId\":500,\"sourceId\":1},\"time\":1000,\"type\":\"NAV\",\"userId\":42}]}"
    );
    assert_eq!(c.action_id(), 1);
    assert_eq!(c.current_screen(), "settings");
    let batch = c.send_navigation_event_internal(vec![Payload::Null, Payload::Bool(true)]);
    assert_eq!((batch.opcode, json(&batch.payload)), (5, "{\"events\":[null,true]}".to_string()));
}

#[test]
fn telemetry_scenario() {
    let mut c = MaxClient::new_at(500);
    let mut task = c.spawn_telemetry_task().unwrap();
    assert_eq!(task.phase, TelemetryPhase::Waiting);
    assert_eq!(task.step(&mut c, TelemetryEvent::Poll { now: 1, home: 9 }), TelemetryAction::Poll);
    let _ = c.connect_at("dev1".to_string(), "mt1".to_string(), true, 600);
    assert_eq!(task.step(&mut c, TelemetryEvent::Poll { now: 2, home: 9 }), TelemetryAction::Poll);
    c.set_user_id(42);
    let first = match task.step(&mut c, TelemetryEvent::Poll { now: 3, home: 9 }) {
        TelemetryAction::Send(req) => req,
        other => panic!("unexpected: {:?}", other),
    };
    assert_eq!(first.opcode, 5);
    let events = match first.payload.get("events") {
        Some(Payload::Array(items)) => items.clone(),
        other => panic!("unexpected: {:?}", other),
    };
    assert_eq!(events.len(), 1);
    assert_eq!(events[0].get("event"), Some(&text("COLD_START")));
    assert_eq!(events[0].get("params").and_then(|p| p.get("screenTo")), Some(&Payload::PosInt(9)));
    assert_eq!(task.phase, TelemetryPhase::Started);

    let mut previous_to = 9;
    let hops = [("contacts", 20u32), ("settings", 30u32), ("chats_list_tab", 9u32)];
    for (name, id) in hops {
        match task.step(&mut c, TelemetryEvent::Sent) {
            TelemetryAction::Sleep(secs) => assert!((5..=3000).contains(&secs)),
            other => panic!("unexpected: {:?}", other),
        }
        let woke = TelemetryEvent::Woke { now: 10, next: name.to_string(), from_id: previous_to, to_id: id };
        let req = match task.step(&mut c, woke) {
            TelemetryAction::Send(req) => req,
            other => panic!("unexpected: {:?}", other),
        };
        let event = match req.payload.get("events") {
            Some(Payload::Array(items)) => items[0].clone(),
            other => panic!("unexpected: {:?}", other),
        };
        assert_eq!(event.get("event"), Some(&text("NAV")));
        assert_eq!(
            event.get("params").and_then(|p| p.get("screenFrom")),
            Some(&Payload::PosInt(previous_to as u64))
        );
        assert_eq!(event.get("params").and_then(|p| p.get("screenTo")), Some(&Payload::PosInt(id as u64)));
        assert_eq!(c.current_screen(), name);
        previous_to = id;
    }
    assert_eq!(c.action_id(), 4);

    assert_eq!(task.step(&mut c, TelemetryEvent::Poll { now: 3, home: 9 }).eq(&TelemetryAction::Stop), false);
    assert_eq!(task.phase, TelemetryPhase::Started);
    let _ = c.read_task(ReadEvent::Message(Ok(None)));
    let woke = TelemetryEvent::Woke { now: 10, next: "x".to_string(), from_id: 1, to_id: 2 };
    assert_eq!(task.step(&mut c, woke), TelemetryAction::Stop);
    assert_eq!(task.phase, TelemetryPhase::Stopped);
    assert_eq!(task.step(&mut c, TelemetryEvent::Poll { now: 3, home: 9 }), TelemetryAction::Stop);
    assert_eq!(task.step(&mut c, TelemetryEvent::Sent), TelemetryAction::Stop);
}

#[test]
fn telemetry_stops_on_shutdown() {
    let mut c = MaxClient::new_at(500);
    let mut waiting = Telemetry { phase: TelemetryPhase::Waiting };
    assert_eq!(waiting.step(&mut c, TelemetryEvent::Shutdown), TelemetryAction::Stop);
    assert_eq!(waiting.phase, TelemetryPhase::Stopped);
    let mut started = Telemetry { phase: TelemetryPhase::Started };
    assert_eq!(started.step(&mut c, TelemetryEvent::Shutdown), TelemetryAction::Stop);
    assert_eq!(started.phase, TelemetryPhase::Stopped);
    assert_eq!(c.seq(), 0);
}

#[test]
fn telemetry_started_without_user_sleeps_again() {
    let mut c = MaxClient::new_at(500);
    let _ = c.connect_at("dev1".to_string(), "mt1".to_string(), true, 600);
    let mut started = Telemetry { phase: TelemetryPhase::Started };
    let woke = TelemetryEvent::Woke { now: 10, next: "x".to_string(), from_id: 1, to_id: 2 };
    match started.step(&mut c, woke) {
        TelemetryAction::Sleep(secs) => assert!((5..=3000).contains(&secs)),
        other => panic!("unexpected: {:?}", other),
    }
    assert_eq!(c.current_screen(), "chats_list_tab");
    assert_eq!(c.action_id(), 0);
}
