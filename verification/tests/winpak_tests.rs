use veda_logic::codes::ResultCode;
use veda_logic::winpak::{
    access_level_matches, access_level_uri, element_outcome, get_conn_string, needs_queue_info, progress_due,
    queue_batch_size, sql_error_code, AccessLevelInfo, CardData, CardQuery, ConnSettings, ElementOutcome, IndvEdit,
    Lang, NewState, QueueAction, QueueEvent, QueueJob, SqlErrorKind,
};
use v_onto::individual::Individual;
use v_onto::individual2msgpack::to_msgpack;

fn settings() -> ConnSettings {
    ConnSettings {
        transport: Some("mssql".to_string()),
        host: Some("10.0.0.5".to_string()),
        port: Some(1433),
        login: Some("DOMAIN\\\\user".to_string()),
        password: Some("secret".to_string()),
        sql_database: Some("WIN-PAK PRO".to_string()),
    }
}

#[test]
fn conn_string_from_settings() {
    assert_eq!(
        get_conn_string(Some(&settings())).unwrap(),
        "server=tcp:10.0.0.5,1433;integratedsecurity=true;database=WIN-PAK PRO;user=DOMAIN\\user;password=secret"
    );
    let mut s = settings();
    s.transport = None;
    s.port = Some(-1);
    assert!(get_conn_string(Some(&s)).unwrap().contains(",-1;"));
}

#[test]
fn conn_string_errors() {
    assert_eq!(get_conn_string(None).unwrap_err(), "not found [cfg:conn_winpak]");
    let mut s = settings();
    s.transport = Some("pgsql".to_string());
    assert_eq!(get_conn_string(Some(&s)).unwrap_err(), "invalid connect type, expect [mssql]");
    let mut s = settings();
    s.host = None;
    assert_eq!(get_conn_string(Some(&s)).unwrap_err(), "not found param [v-s:host] in cfg:conn_winpak");
    let mut s = settings();
    s.port = None;
    assert_eq!(get_conn_string(Some(&s)).unwrap_err(), "not found param [v-s:port] in cfg:conn_winpak");
    let mut s = settings();
    s.login = None;
    assert_eq!(get_conn_string(Some(&s)).unwrap_err(), "not found param [v-s:login] in cfg:conn_winpak");
    let mut s = settings();
    s.password = None;
    assert_eq!(get_conn_string(Some(&s)).unwrap_err(), "not found param [v-s:password] in cfg:conn_winpak");
    let mut s = settings();
    s.sql_database = None;
    assert_eq!(get_conn_string(Some(&s)).unwrap_err(), "not found param [v-s:sql_database] in cfg:conn_winpak");
}

#[test]
fn batch_sizes() {
    assert!(needs_queue_info(5, 5));
    assert!(!needs_queue_info(7, 5));
    assert_eq!(queue_batch_size(5, 5, 3, 3), 0);
    assert_eq!(queue_batch_size(5, 5, 4, 3), 1);
    assert_eq!(queue_batch_size(7, 5, 3, 3), 2);
    assert_eq!(queue_batch_size(7, 5, 4, 3), 1);
}

#[test]
fn outcome_of_an_element() {
    assert_eq!(element_outcome(Err(ResultCode::ConnectError)), ElementOutcome::Reconnect);
    assert_eq!(element_outcome(Err(ResultCode::UnprocessableEntity)), ElementOutcome::Commit);
    assert_eq!(element_outcome(Ok(())), ElementOutcome::Commit);
    assert!(progress_due(3000));
    assert!(!progress_due(3001));
}

#[test]
fn access_levels() {
    assert_eq!(access_level_uri(17), "d:winpak_accesslevel_17");
    assert_eq!(access_level_uri(-3), "d:winpak_accesslevel_-3");
    let info = AccessLevelInfo { uri: "d:winpak_accesslevel_17".to_string(), registration_number: Some("17".to_string()) };
    assert!(access_level_matches(&info, 17));
    assert!(!access_level_matches(&info, 18));
    let none = AccessLevelInfo { uri: "x".to_string(), registration_number: None };
    assert!(!access_level_matches(&none, 17));
    assert_eq!(sql_error_code(SqlErrorKind::Io), Some(ResultCode::ConnectError));
    assert_eq!(sql_error_code(SqlErrorKind::Server), Some(ResultCode::ConnectError));
    assert_eq!(sql_error_code(SqlErrorKind::Other), None);
}

const REMOVE: i64 = 51;

fn encode(indv: &Individual) -> Vec<u8> {
    let mut out = Vec::new();
    to_msgpack(indv, &mut out).unwrap();
    out
}

fn raw_new_state(editor: Option<&str>, card_number: Option<&str>) -> Vec<u8> {
    let mut ns = Individual::default();
    ns.set_id("d:request1");
    ns.add_uri("rdf:type", "v-s:Thing");
    ns.add_uri("rdf:type", "mnd-s:SourceDataRequestForPass");
    if let Some(e) = editor {
        ns.set_uri("v-s:editor", e);
    }
    if let Some(c) = card_number {
        ns.set_string("mnd-s:cardNumber", c, v_onto::datatype::Lang::NONE);
    }
    encode(&ns)
}

fn raw_message(cmd: Option<i64>, new_state: Option<Vec<u8>>) -> Vec<u8> {
    let mut msg = Individual::default();
    msg.set_id("d:msg1");
    if let Some(c) = cmd {
        msg.add_integer("cmd", c);
    }
    if let Some(b) = new_state {
        msg.add_binary("new_state", b);
    }
    encode(&msg)
}

fn new_state(editor: Option<&str>) -> NewState {
    NewState {
        types: Some(vec!["v-s:Thing".to_string(), "mnd-s:SourceDataRequestForPass".to_string()]),
        editor: editor.map(|s| s.to_string()),
        card_number: Some("4711".to_string()),
    }
}

fn card() -> CardData {
    CardData {
        activation: 100,
        expiration: 200,
        description: "Ivanov Ivan".to_string(),
        tab_number: "42".to_string(),
        birthday: "01.01.1970".to_string(),
        comment: "c".to_string(),
        equipment: "e".to_string(),
    }
}

#[test]
fn message_checks() {
    let (_, a, n) = QueueJob::prepare_queue_element(&[], 1);
    assert!(matches!(a, QueueAction::Done(Ok(()))));
    assert!(n.is_none());
    let (_, a, _) = QueueJob::prepare_queue_element(&[1, 2, 3], 1);
    assert!(matches!(a, QueueAction::Done(Ok(()))));
    let (_, a, _) = QueueJob::prepare_queue_element(&raw_message(None, Some(raw_new_state(None, Some("4711")))), REMOVE);
    assert!(matches!(a, QueueAction::Done(Err(ResultCode::UnprocessableEntity))));
    let (_, a, _) = QueueJob::prepare_queue_element(&raw_message(Some(1), None), REMOVE);
    assert!(matches!(a, QueueAction::Done(Err(ResultCode::UnprocessableEntity))));
    let (_, a, n) = QueueJob::prepare_queue_element(&raw_message(Some(REMOVE), None), REMOVE);
    assert!(matches!(a, QueueAction::Done(Ok(()))));
    assert!(n.is_none());
}

#[test]
fn raw_request_is_read() {
    let raw = raw_message(Some(1), Some(raw_new_state(None, Some("4711"))));
    let (_, a, n) = QueueJob::prepare_queue_element(&raw, REMOVE);
    assert!(matches!(a, QueueAction::QueryCard(ref c) if c == "4711"));
    assert!(n.is_some());
    let raw = raw_message(Some(1), Some(raw_new_state(Some("cfg:VedaSystem"), Some("4711"))));
    let (_, a, n) = QueueJob::prepare_queue_element(&raw, REMOVE);
    assert!(matches!(a, QueueAction::Done(Ok(()))));
    assert!(n.is_some());
    let raw = raw_message(Some(1), Some(raw_new_state(None, None)));
    let (j, a, _) = QueueJob::prepare_queue_element(&raw, REMOVE);
    assert!(matches!(a, QueueAction::Done(Ok(()))));
    assert_eq!(j.last_update_result(), ResultCode::UnprocessableEntity);
}

#[test]
fn request_answered_from_winpak() {
    let (mut j, a) = QueueJob::begin(Some(new_state(None)));
    assert!(matches!(a, QueueAction::QueryCard(ref c) if c == "4711"));
    let a = j.step(QueueEvent::Queried(CardQuery { card: Some(card()), levels: vec![5, 6], error: None }));
    assert!(matches!(a, QueueAction::ReadAccessLevel(ref u) if u == "d:winpak_accesslevel_5"));
    let a = j.step(QueueEvent::AccessLevel(Some(AccessLevelInfo {
        uri: "d:winpak_accesslevel_5".to_string(),
        registration_number: Some("5".to_string()),
    })));
    assert!(matches!(a, QueueAction::ReadAccessLevel(ref u) if u == "d:winpak_accesslevel_6"));
    let a = j.step(QueueEvent::AccessLevel(Some(AccessLevelInfo {
        uri: "d:winpak_accesslevel_6".to_string(),
        registration_number: Some("7".to_string()),
    })));
    let edits = match a {
        QueueAction::Update(e) => e,
        other => panic!("unexpected {:?}", other),
    };
    assert_eq!(edits.len(), 9);
    assert!(matches!(&edits[0], IndvEdit::SetDatetime(p, 100) if p == "v-s:dateFrom"));
    assert!(matches!(&edits[1], IndvEdit::SetDatetime(p, 200) if p == "v-s:dateTo"));
    assert!(matches!(&edits[2], IndvEdit::SetString(p, v, Lang::NONE) if p == "v-s:description" && v == "Ivanov Ivan"));
    assert!(matches!(&edits[3], IndvEdit::SetString(p, v, Lang::NONE) if p == "v-s:tabNumber" && v == "42"));
    assert!(matches!(&edits[7], IndvEdit::SetUris(p, v) if p == "mnd-s:hasAccessLevel" && v == &vec!["d:winpak_accesslevel_5".to_string()]));
    assert!(matches!(&edits[8], IndvEdit::SetUri(p, v) if p == "v-s:editor" && v == "cfg:VedaSystem"));
    let a = j.step(QueueEvent::Updated(true));
    assert!(matches!(a, QueueAction::Done(Ok(()))));
    assert_eq!(j.last_update_result(), ResultCode::Success);
}

#[test]
fn card_not_found_is_reported() {
    let (mut j, _) = QueueJob::begin(Some(new_state(None)));
    let a = j.step(QueueEvent::Queried(CardQuery { card: None, levels: vec![], error: Some(SqlErrorKind::Other) }));
    let edits = match a {
        QueueAction::Update(e) => e,
        other => panic!("unexpected {:?}", other),
    };
    assert_eq!(edits.len(), 4);
    assert!(matches!(&edits[0], IndvEdit::Clear(p) if p == "v-s:errorMessage"));
    assert!(matches!(&edits[1], IndvEdit::AddString(_, v, Lang::RU, 0) if v == "Карта не найдена"));
    assert!(matches!(&edits[2], IndvEdit::AddString(_, v, Lang::EN, 1) if v == "Card not found"));
    let a = j.step(QueueEvent::Updated(false));
    assert!(matches!(a, QueueAction::Done(Ok(()))));
    assert_eq!(j.last_update_result(), ResultCode::DatabaseModifiedError);
}

#[test]
fn unreachable_database_is_retried() {
    let (mut j, _) = QueueJob::begin(Some(new_state(None)));
    let a = j.step(QueueEvent::Queried(CardQuery { card: None, levels: vec![], error: Some(SqlErrorKind::Io) }));
    assert!(matches!(a, QueueAction::Done(Err(ResultCode::ConnectError))));
}

#[test]
fn answered_request_is_left_alone() {
    let (_, a) = QueueJob::begin(Some(new_state(Some("cfg:VedaSystem"))));
    assert!(matches!(a, QueueAction::Done(Ok(()))));
    let (_, a) = QueueJob::begin(Some(NewState { types: Some(vec!["v-s:Other".to_string()]), editor: None, card_number: None }));
    assert!(matches!(a, QueueAction::Done(Ok(()))));
    let (_, a) = QueueJob::begin(Some(NewState { types: None, editor: None, card_number: Some("1".to_string()) }));
    assert!(matches!(a, QueueAction::Done(Ok(()))));
    let (j, a) = QueueJob::begin(None);
    assert!(matches!(a, QueueAction::Done(Ok(()))));
    assert_eq!(j.last_update_result(), ResultCode::Success);
}

#[test]
fn request_without_card_number() {
    let (j, a) = QueueJob::begin(Some(NewState { card_number: None, ..new_state(None) }));
    assert!(matches!(a, QueueAction::Done(Ok(()))));
    assert_eq!(j.last_update_result(), ResultCode::UnprocessableEntity);
}

#[test]
fn request_with_two_matching_types_is_updated_once() {
    let ns = NewState {
        types: Some(vec!["mnd-s:SourceDataRequestForPass".to_string(), "mnd-s:SourceDataRequestForPass".to_string()]),
        editor: None,
        card_number: Some("1".to_string()),
    };
    let (mut j, a) = QueueJob::begin(Some(ns));
    assert!(matches!(a, QueueAction::QueryCard(_)));
    assert!(matches!(j.step(QueueEvent::Queried(CardQuery { card: Some(card()), levels: vec![], error: None })), QueueAction::Update(_)));
    assert!(matches!(j.step(QueueEvent::Updated(true)), QueueAction::Done(Ok(()))));
}

fn key(out: &mut Vec<u8>, s: &str) {
    out.push(0xa0 | s.len() as u8);
    out.extend_from_slice(s.as_bytes());
}

/// An individual whose first predicate carries a binary value that is not
/// a string, which the decoder cannot read, before a second predicate.
fn bad_binary_first(id: &str, bad: &str, then: &str, then_value: &[u8]) -> Vec<u8> {
    let mut out = vec![0x92];
    key(&mut out, id);
    out.push(0x82);
    key(&mut out, bad);
    out.extend_from_slice(&[0x91, 0x92, 0xcc, 0x80, 0x01]);
    key(&mut out, then);
    out.push(0x91);
    out.extend_from_slice(then_value);
    out
}

#[test]
fn unreadable_new_state_before_cmd_is_refused() {
    let raw = bad_binary_first("d:msg1", "new_state", "cmd", &[0x92, 0x04, 0x01]);
    let (_, a, n) = QueueJob::prepare_queue_element(&raw, REMOVE);
    assert!(matches!(a, QueueAction::Done(Err(ResultCode::UnprocessableEntity))));
    assert!(n.is_none());
}

#[test]
fn unreadable_editor_before_types_is_skipped() {
    let mut type_value = vec![0x92, 0x01];
    key(&mut type_value, "mnd-s:SourceDataRequestForPass");
    let state = bad_binary_first("d:request1", "v-s:editor", "rdf:type", &type_value);
    let raw = raw_message(Some(1), Some(state));
    let (_, a, _) = QueueJob::prepare_queue_element(&raw, REMOVE);
    assert!(matches!(a, QueueAction::Done(Ok(()))));
}
