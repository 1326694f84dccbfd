//! The WinPak connector: it answers requests for pass data by reading the
//! card holder from the WinPak database and writing it back into the
//! request individual.

use vstd::prelude::*;
use crate::codes::ResultCode;
use crate::text::{concat, decimal_string, decimal_text, replace, replaced, str_eq};
use v_onto::individual::{Individual, RawObj};
use v_onto::parser::parse_raw;
use v_onto::resource::Value;

verus! {

/// The id of the individual that holds the WinPak connection settings.
pub const CONN_WINPAK_ID: &'static str = "cfg:conn_winpak";

/// The connection settings, as read from `cfg:conn_winpak`; `None` where the
/// literal is absent.
#[derive(Clone, Debug)]
pub struct ConnSettings {
    /// `v-s:transport`.
    pub transport: Option<String>,
    /// `v-s:host`.
    pub host: Option<String>,
    /// `v-s:port`.
    pub port: Option<i64>,
    /// `v-s:login`.
    pub login: Option<String>,
    /// `v-s:password`.
    pub password: Option<String>,
    /// `v-s:sql_database`.
    pub sql_database: Option<String>,
}

/// The message for a missing parameter.
pub open spec fn missing_param_message(param: Seq<char>) -> Seq<char> {
    "not found param ["@ + param + "] in "@ + CONN_WINPAK_ID@
}

/// The login as the SQL server expects it: each doubled backslash made single.
pub open spec fn sql_login(login: Seq<char>) -> Seq<char> {
    replaced(login, "\\\\"@, "\\"@)
}

/// The connection string for the settings.
pub open spec fn conn_string_text(
    host: Seq<char>,
    port: i64,
    database: Seq<char>,
    login: Seq<char>,
    password: Seq<char>,
) -> Seq<char> {
    "server=tcp:"@ + host + ","@ + decimal_text(port as int) + ";integratedsecurity=true;database="@ + database
        + ";user="@ + sql_login(login) + ";password="@ + password
}

/// What `get_conn_string` answers for the settings.
pub open spec fn conn_string_result(conn: Option<ConnSettings>) -> Result<Seq<char>, Seq<char>> {
    match conn {
        None => Err("not found ["@ + CONN_WINPAK_ID@ + "]"@),
        Some(c) => if c.transport matches Some(t) && t@ != "mssql"@ {
            Err("invalid connect type, expect [mssql]"@)
        } else if c.host is None {
            Err(missing_param_message("v-s:host"@))
        } else if c.port is None {
            Err(missing_param_message("v-s:port"@))
        } else if c.login is None {
            Err(missing_param_message("v-s:login"@))
        } else if c.password is None {
            Err(missing_param_message("v-s:password"@))
        } else if c.sql_database is None {
            Err(missing_param_message("v-s:sql_database"@))
        } else {
            Ok(
                conn_string_text(
                    c.host->0@,
                    c.port->0,
                    c.sql_database->0@,
                    c.login->0@,
                    c.password->0@,
                ),
            )
        },
    }
}

/// The view of a result of texts.
pub open spec fn text_result(r: Result<String, String>) -> Result<Seq<char>, Seq<char>> {
    match r {
        Ok(s) => Ok(s@),
        Err(e) => Err(e@),
    }
}

fn missing_param(param: &str) -> (e: String)
    ensures
        e@ == missing_param_message(param@),
{
    let a = concat("not found param [", param);
    let b = concat(a.as_str(), "] in ");
    concat(b.as_str(), CONN_WINPAK_ID)
}

/// The connection string of the WinPak database, from the settings read from
/// `cfg:conn_winpak` (`None` when that individual is not stored).
pub fn get_conn_string(conn: Option<&ConnSettings>) -> (r: Result<String, String>)
    ensures
        text_result(r) == conn_string_result(
            match conn {
                Some(c) => Some(*c),
                None => None,
            },
        ),
{
    let c = match conn {
        Some(c) => c,
        None => {
            let a = concat("not found [", CONN_WINPAK_ID);
            return Err(concat(a.as_str(), "]"));
        },
    };
    if let Some(t) = &c.transport {
        if !str_eq(t.as_str(), "mssql") {
            return Err("invalid connect type, expect [mssql]".to_owned());
        }
    }
    let host = match &c.host {
        Some(v) => v,
        None => return Err(missing_param("v-s:host")),
    };
    let port = match c.port {
        Some(v) => v,
        None => return Err(missing_param("v-s:port")),
    };
    let login = match &c.login {
        Some(v) => {
            proof {
                reveal_strlit("\\\\");
            }
            replace(v.as_str(), "\\\\", "\\")
        },
        None => return Err(missing_param("v-s:login")),
    };
    let pass = match &c.password {
        Some(v) => v,
        None => return Err(missing_param("v-s:password")),
    };
    let database = match &c.sql_database {
        Some(v) => v,
        None => return Err(missing_param("v-s:sql_database")),
    };
    let port_text = decimal_string(port);
    let s = concat("server=tcp:", host.as_str());
    let s = concat(s.as_str(), ",");
    let s = concat(s.as_str(), port_text.as_str());
    let s = concat(s.as_str(), ";integratedsecurity=true;database=");
    let s = concat(s.as_str(), database.as_str());
    let s = concat(s.as_str(), ";user=");
    let s = concat(s.as_str(), login.as_str());
    let s = concat(s.as_str(), ";password=");
    let s = concat(s.as_str(), pass.as_str());
    Ok(s)
}

/// How many messages to take from the queue: the unread ones, or one to
/// move on to the next part of the queue, or none.
pub open spec fn batch_size(pushed: u32, popped: u32, queue_id: u32, consumer_id: u32) -> u32 {
    if pushed == popped {
        if queue_id > consumer_id { 1 } else { 0 }
    } else if queue_id != consumer_id {
        1
    } else {
        (pushed - popped) as u32
    }
}

/// Whether the queue's information must be read again before sizing a
/// batch: there is nothing new in the current part.
pub fn needs_queue_info(pushed: u32, popped: u32) -> (r: bool)
    requires
        popped <= pushed,
    ensures
        r == (pushed == popped),
{
    pushed - popped == 0
}

/// The size of the next batch, given the counts of the consumer's part and
/// the id of the queue's current part (read again when `needs_queue_info`).
pub fn queue_batch_size(pushed: u32, popped: u32, queue_id: u32, consumer_id: u32) -> (n: u32)
    requires
        popped <= pushed,
    ensures
        n == batch_size(pushed, popped, queue_id, consumer_id),
{
    let mut size_batch: u32 = 0;
    if pushed - popped == 0 {
        if queue_id > consumer_id {
            size_batch = 1;
        }
    } else if pushed - popped > 0 {
        if queue_id != consumer_id {
            size_batch = 1;
        } else {
            size_batch = pushed - popped;
        }
    }
    size_batch
}

/// What follows the handling of one queue message.
#[derive(PartialEq, Eq, Structural, Clone, Copy, Debug)]
pub enum ElementOutcome {
    /// Commit the message and count it.
    Commit,
    /// The database could not be reached: wait, forget the connection
    /// string, and go on without committing.
    Reconnect,
}

/// What follows the handling of one queue message.
pub fn element_outcome(res: Result<(), ResultCode>) -> (o: ElementOutcome)
    ensures
        o == (if res == Err::<(), ResultCode>(ResultCode::ConnectError) {
            ElementOutcome::Reconnect
        } else {
            ElementOutcome::Commit
        }),
{
    match res {
        Err(e) => if e == ResultCode::ConnectError {
            ElementOutcome::Reconnect
        } else {
            ElementOutcome::Commit
        },
        Ok(()) => ElementOutcome::Commit,
    }
}

/// Whether progress is reported after `total` messages: every thousandth.
pub fn progress_due(total: u64) -> (r: bool)
    ensures
        r == (total % 1000 == 0),
{
    total % 1000 == 0
}

/// The type of the individuals that request pass data.
pub const SOURCE_DATA_REQUEST: &'static str = "mnd-s:SourceDataRequestForPass";

/// The system user that writes the pass data back.
pub const VEDA_SYSTEM: &'static str = "cfg:VedaSystem";

/// The language of a string value.
#[allow(non_camel_case_types)]
#[derive(PartialEq, Eq, Structural, Clone, Copy, Debug)]
pub enum Lang {
    NONE,
    RU,
    EN,
}

/// A change to the request individual.
#[derive(Clone, Debug)]
pub enum IndvEdit {
    /// Replace the values of the predicate by a date-time.
    SetDatetime(String, i64),
    /// Replace the values of the predicate by a string.
    SetString(String, String, Lang),
    /// Replace the values of the predicate by these uris.
    SetUris(String, Vec<String>),
    /// Remove the values of the predicate.
    Clear(String),
    /// Add a string value at the given position.
    AddString(String, String, Lang, i32),
    /// Replace the values of the predicate by a uri.
    SetUri(String, String),
}

/// A change to the request individual, over texts.
pub enum EditView {
    SetDatetime(Seq<char>, i64),
    SetString(Seq<char>, Seq<char>, Lang),
    SetUris(Seq<char>, Seq<Seq<char>>),
    Clear(Seq<char>),
    AddString(Seq<char>, Seq<char>, Lang, i32),
    SetUri(Seq<char>, Seq<char>),
}

/// The texts of a list of strings.
pub open spec fn texts(v: Seq<String>) -> Seq<Seq<char>> {
    v.map_values(|s: String| s@)
}

impl View for IndvEdit {
    type V = EditView;

    open spec fn view(&self) -> EditView {
        match self {
            IndvEdit::SetDatetime(p, v) => EditView::SetDatetime(p@, *v),
            IndvEdit::SetString(p, v, l) => EditView::SetString(p@, v@, *l),
            IndvEdit::SetUris(p, v) => EditView::SetUris(p@, texts(v@)),
            IndvEdit::Clear(p) => EditView::Clear(p@),
            IndvEdit::AddString(p, v, l, o) => EditView::AddString(p@, v@, *l, *o),
            IndvEdit::SetUri(p, v) => EditView::SetUri(p@, v@),
        }
    }
}

/// The views of a list of changes.
pub open spec fn edit_views(v: Seq<IndvEdit>) -> Seq<EditView> {
    v.map_values(|e: IndvEdit| e@)
}

/// The card and its holder, as WinPak stores them.
#[derive(Clone, Debug)]
pub struct CardData {
    /// Activation and expiration, in seconds since the Unix epoch.
    pub activation: i64,
    pub expiration: i64,
    pub description: String,
    pub tab_number: String,
    pub birthday: String,
    pub comment: String,
    pub equipment: String,
}

/// The changes for a card that was found, with the uris of its access levels.
pub open spec fn found_edits(card: CardData, levels: Seq<Seq<char>>) -> Seq<EditView> {
    seq![
        EditView::SetDatetime("v-s:dateFrom"@, card.activation),
        EditView::SetDatetime("v-s:dateTo"@, card.expiration),
        EditView::SetString("v-s:description"@, card.description@, Lang::NONE),
        EditView::SetString("v-s:tabNumber"@, card.tab_number@, Lang::NONE),
        EditView::SetString("v-s:birthday"@, card.birthday@, Lang::NONE),
        EditView::SetString("rdfs:comment"@, card.comment@, Lang::NONE),
        EditView::SetString("mnd-s:passEquipment"@, card.equipment@, Lang::NONE),
        EditView::SetUris("mnd-s:hasAccessLevel"@, levels),
        EditView::SetUri("v-s:editor"@, VEDA_SYSTEM@),
    ]
}

/// The changes for a card that was not found.
pub open spec fn not_found_edits() -> Seq<EditView> {
    seq![
        EditView::Clear("v-s:errorMessage"@),
        EditView::AddString("v-s:errorMessage"@, "Карта не найдена"@, Lang::RU, 0),
        EditView::AddString("v-s:errorMessage"@, "Card not found"@, Lang::EN, 1),
        EditView::SetUri("v-s:editor"@, VEDA_SYSTEM@),
    ]
}

/// The changes for a card that was found.
pub fn card_found_edits(card: &CardData, levels: Vec<String>) -> (v: Vec<IndvEdit>)
    ensures
        edit_views(v@) == found_edits(*card, texts(levels@)),
{
    let mut v: Vec<IndvEdit> = Vec::new();
    v.push(IndvEdit::SetDatetime("v-s:dateFrom".to_owned(), card.activation));
    v.push(IndvEdit::SetDatetime("v-s:dateTo".to_owned(), card.expiration));
    v.push(IndvEdit::SetString("v-s:description".to_owned(), card.description.clone(), Lang::NONE));
    v.push(IndvEdit::SetString("v-s:tabNumber".to_owned(), card.tab_number.clone(), Lang::NONE));
    v.push(IndvEdit::SetString("v-s:birthday".to_owned(), card.birthday.clone(), Lang::NONE));
    v.push(IndvEdit::SetString("rdfs:comment".to_owned(), card.comment.clone(), Lang::NONE));
    v.push(IndvEdit::SetString("mnd-s:passEquipment".to_owned(), card.equipment.clone(), Lang::NONE));
    v.push(IndvEdit::SetUris("mnd-s:hasAccessLevel".to_owned(), levels));
    v.push(IndvEdit::SetUri("v-s:editor".to_owned(), VEDA_SYSTEM.to_owned()));
    assert(edit_views(v@) =~= found_edits(*card, texts(levels@)));
    v
}

/// The changes for a card that was not found.
pub fn card_not_found_edits() -> (v: Vec<IndvEdit>)
    ensures
        edit_views(v@) == not_found_edits(),
{
    let mut v: Vec<IndvEdit> = Vec::new();
    v.push(IndvEdit::Clear("v-s:errorMessage".to_owned()));
    v.push(IndvEdit::AddString("v-s:errorMessage".to_owned(), "Карта не найдена".to_owned(), Lang::RU, 0));
    v.push(IndvEdit::AddString("v-s:errorMessage".to_owned(), "Card not found".to_owned(), Lang::EN, 1));
    v.push(IndvEdit::SetUri("v-s:editor".to_owned(), VEDA_SYSTEM.to_owned()));
    assert(edit_views(v@) =~= not_found_edits());
    v
}

/// The id of the individual of a WinPak access level.
pub open spec fn access_level_id(level: i32) -> Seq<char> {
    "d:winpak_accesslevel_"@ + decimal_text(level as int)
}

/// The id of the individual of a WinPak access level.
pub fn access_level_uri(level: i32) -> (s: String)
    ensures
        s@ == access_level_id(level),
{
    let n = decimal_string(level as i64);
    concat("d:winpak_accesslevel_", n.as_str())
}

/// The access-level individual, as far as the connector reads it.
#[derive(Clone, Debug)]
pub struct AccessLevelInfo {
    pub uri: String,
    /// `v-s:registrationNumber`.
    pub registration_number: Option<String>,
}

/// The access-level individual stands for the level: its registration
/// number is the level's decimal text.
pub open spec fn level_confirmed(info: AccessLevelInfo, level: i32) -> bool {
    info.registration_number matches Some(r) && r@ == decimal_text(level as int)
}

/// Whether the access-level individual stands for the level.
pub fn access_level_matches(info: &AccessLevelInfo, level: i32) -> (r: bool)
    ensures
        r == level_confirmed(*info, level),
{
    match &info.registration_number {
        Some(r) => {
            let n = decimal_string(level as i64);
            str_eq(n.as_str(), r.as_str())
        },
        None => false,
    }
}

/// How the WinPak database failed.
#[derive(PartialEq, Eq, Structural, Clone, Copy, Debug)]
pub enum SqlErrorKind {
    /// The server reported an error.
    Server,
    /// The connection failed.
    Io,
    Other,
}

/// The code for a failure of the database, when it is one that stops the
/// update: a server or connection error.
pub fn sql_error_code(kind: SqlErrorKind) -> (r: Option<ResultCode>)
    ensures
        r == (if kind == SqlErrorKind::Other { None::<ResultCode> } else { Some(ResultCode::ConnectError) }),
{
    match kind {
        SqlErrorKind::Server => Some(ResultCode::ConnectError),
        SqlErrorKind::Io => Some(ResultCode::ConnectError),
        SqlErrorKind::Other => None,
    }
}

/// What the two queries for a card gave: the card, if a row was read, the
/// access levels read, and the error that stopped them, if any.
#[derive(Clone, Debug)]
pub struct CardQuery {
    pub card: Option<CardData>,
    pub levels: Vec<i32>,
    pub error: Option<SqlErrorKind>,
}

/// A queue message, as far as the connector reads it.
#[derive(Clone, Debug)]
pub struct QueueMessage {
    /// `cmd`.
    pub cmd: Option<i64>,
    /// `new_state`: the new state of the individual, encoded.
    pub new_state: Option<Vec<u8>>,
}

/// The view of optional bytes.
pub open spec fn opt_bytes(b: Option<Vec<u8>>) -> Option<Seq<u8>> {
    match b {
        Some(v) => Some(v@),
        None => None,
    }
}

/// The view of an optional text.
pub open spec fn opt_text(t: Option<String>) -> Option<Seq<char>> {
    match t {
        Some(s) => Some(s@),
        None => None,
    }
}

/// What the connector reads of a queue message: `None` when it cannot be
/// decoded, else its `cmd` and its `new_state`.
pub open spec fn message_fields(m: Option<QueueMessage>) -> Option<(Option<i64>, Option<Seq<u8>>)> {
    match m {
        Some(msg) => Some((msg.cmd, opt_bytes(msg.new_state))),
        None => None,
    }
}

/// What v_onto decodes of the bytes of a queue message, through several of
/// its calls in turn: `None` where `parse_raw` fails; else the first value
/// of `cmd` that `get_resources` lists, when it is an integer, and then the
/// first value of `new_state`, when it is binary.
pub uninterp spec fn queue_message_fields(raw: Seq<u8>) -> Option<(Option<i64>, Option<Seq<u8>>)>;

/// Decodes a queue message with v_onto's `parse_raw`, and reads the values
/// of `cmd` and of `new_state` with `get_resources`, which lists them
/// without indexing, so that a predicate left with no value reads as
/// absent. Claimed: the result is `queue_message_fields` of the bytes, and
/// empty bytes are refused (`parse_raw` fails on them). Left unsaid: the
/// decoder sizes a buffer by a length read from the bytes, so a message
/// that claims a huge value can exhaust memory.
#[verifier::external_body]
fn parse_queue_message(raw: &[u8]) -> (m: Option<QueueMessage>)
    ensures
        message_fields(m) == queue_message_fields(raw@),
        raw@.len() == 0 ==> m is None,
{
    let mut msg = Individual::new_raw(RawObj::new(raw.to_vec()));
    if parse_raw(&mut msg).is_err() {
        return None;
    }
    let mut first = |p: &str| msg.get_resources(p).and_then(|v| v.into_iter().next()).map(|r| r.value);
    let cmd = match first("cmd") {
        Some(Value::Int(i)) => Some(i),
        _ => None,
    };
    let new_state = match first("new_state") {
        Some(Value::Binary(b)) => Some(b),
        _ => None,
    };
    Some(QueueMessage { cmd, new_state })
}

/// The new state of an individual, as far as the connector reads it.
#[derive(Clone, Debug)]
pub struct NewState {
    /// `rdf:type`, `None` where the predicate is absent.
    pub types: Option<Vec<String>>,
    /// `v-s:editor`.
    pub editor: Option<String>,
    /// `mnd-s:cardNumber`.
    pub card_number: Option<String>,
}

/// What the connector reads of a new state: `None` when it cannot be
/// decoded, else its types, its editor and its card number.
pub open spec fn state_fields(ns: Option<NewState>) -> Option<
    (Option<Seq<Seq<char>>>, Option<Seq<char>>, Option<Seq<char>>),
> {
    match ns {
        Some(n) => Some(
            (
                match n.types {
                    Some(t) => Some(texts(t@)),
                    None => None,
                },
                opt_text(n.editor),
                opt_text(n.card_number),
            ),
        ),
        None => None,
    }
}

/// What v_onto decodes of the bytes of a new state, through several of its
/// calls in turn: `None` where `parse_raw` fails; else the literals of
/// `rdf:type` that `get_literals` gives, and then the first values of
/// `v-s:editor` and of `mnd-s:cardNumber` that `get_resources` lists, when
/// they are strings or uris.
pub uninterp spec fn new_state_fields(raw: Seq<u8>) -> Option<
    (Option<Seq<Seq<char>>>, Option<Seq<char>>, Option<Seq<char>>),
>;

/// Decodes a new state with v_onto's `parse_raw`, and reads its types with
/// `get_literals` and its editor and card number with `get_resources`,
/// which list values without indexing, so that a predicate left with no
/// value reads as absent; the decoded individual is handed out too, to be
/// changed and stored. Claimed: what is read is `new_state_fields` of the
/// bytes, and empty bytes are refused; nothing is claimed of the
/// individual. Left unsaid: the decoder sizes a buffer by a length read
/// from the bytes, so a state that claims a huge value can exhaust memory.
#[verifier::external_body]
fn parse_new_state(raw: &[u8]) -> (r: Option<(NewState, Individual)>)
    ensures
        state_fields(
            match r {
                Some(p) => Some(p.0),
                None => None,
            },
        ) == new_state_fields(raw@),
        raw@.len() == 0 ==> r is None,
{
    let mut indv = Individual::new_raw(RawObj::new(raw.to_vec()));
    if parse_raw(&mut indv).is_err() {
        return None;
    }
    let types = indv.get_literals("rdf:type");
    let mut text = |p: &str| match indv.get_resources(p).and_then(|v| v.into_iter().next()).map(|r| r.value) {
        Some(Value::Str(s, _)) => Some(s),
        Some(Value::Uri(s)) => Some(s),
        _ => None,
    };
    let editor = text("v-s:editor");
    let card_number = text("mnd-s:cardNumber");
    Some((NewState { types, editor, card_number }, indv))
}

/// What the caller does next for a queue message.
#[derive(Debug)]
pub enum QueueAction {
    /// Query WinPak for the card with this number; answer with `Queried`.
    QueryCard(String),
    /// Read the access-level individual; answer with `AccessLevel`.
    ReadAccessLevel(String),
    /// Apply the changes to the new state and store it; answer with `Updated`.
    Update(Vec<IndvEdit>),
    /// The message is handled.
    Done(Result<(), ResultCode>),
}

/// What the caller reports back.
#[derive(Clone, Debug)]
pub enum QueueEvent {
    Queried(CardQuery),
    /// The access-level individual, or `None` when it is not stored.
    AccessLevel(Option<AccessLevelInfo>),
    /// Whether the store succeeded.
    Updated(bool),
}

#[derive(PartialEq, Eq, Structural, Clone, Copy, Debug)]
pub enum QueuePhase {
    AwaitQuery,
    AwaitAccessLevel,
    AwaitUpdated,
    Done,
}

/// Whether the event answers the phase.
pub open spec fn queue_answers(phase: QueuePhase, e: QueueEvent) -> bool {
    match phase {
        QueuePhase::AwaitQuery => e is Queried,
        QueuePhase::AwaitAccessLevel => e is AccessLevel,
        QueuePhase::AwaitUpdated => e is Updated,
        QueuePhase::Done => false,
    }
}

/// The first type at or after `from` that requests pass data.
pub open spec fn next_request(types: Seq<Seq<char>>, from: int) -> Option<int>
    decreases types.len() - from,
{
    if from < 0 || from >= types.len() {
        None
    } else if types[from] == SOURCE_DATA_REQUEST@ {
        Some(from)
    } else {
        next_request(types, from + 1)
    }
}

proof fn lemma_next_request_skip(types: Seq<Seq<char>>, from: int, i: int)
    requires
        0 <= from <= i,
        forall|j: int| from <= j < i && j < types.len() ==> types[j] != SOURCE_DATA_REQUEST@,
    ensures
        next_request(types, from) == next_request(types, i),
    decreases i - from,
{
    if from < i && from < types.len() {
        lemma_next_request_skip(types, from + 1, i);
    }
}

/// The position of the first type at or after `from` that requests pass data.
fn find_request(types: &Vec<String>, from: usize) -> (r: Option<usize>)
    ensures
        match r {
            Some(i) => next_request(texts(types@), from as int) == Some(i as int) && i < types@.len(),
            None => next_request(texts(types@), from as int) is None,
        },
{
    let mut i = from;
    while i < types.len()
        invariant
            from <= i,
            next_request(texts(types@), from as int) == next_request(texts(types@), i as int),
        decreases types@.len() - i,
    {
        assert(texts(types@)[i as int] == types@[i as int]@);
        if str_eq(types[i].as_str(), SOURCE_DATA_REQUEST) {
            return Some(i);
        }
        proof {
            lemma_next_request_skip(texts(types@), i as int, i as int + 1);
        }
        i = i + 1;
    }
    None
}

/// Handling one queue message: a request for pass data is answered from WinPak.
pub struct QueueJob {
    types: Vec<String>,
    type_index: usize,
    editor_is_system: bool,
    card_number: Option<String>,
    card: Option<CardData>,
    levels: Vec<i32>,
    level_index: usize,
    level_uris: Vec<String>,
    last_update: ResultCode,
    phase: QueuePhase,
}

/// How a queue message is handled before its new state is read: the end
/// of the handling, or `None` when the new state is to be read. A message
/// that cannot be decoded is skipped; one without a command, or without a
/// new state where the command is not a removal, is refused.
pub open spec fn first_action(m: Option<(Option<i64>, Option<Seq<u8>>)>, remove_cmd: i64) -> Option<
    Result<(), ResultCode>,
> {
    match m {
        None => Some(Ok(())),
        Some((cmd, new_state)) => if cmd is None {
            Some(Err(ResultCode::UnprocessableEntity))
        } else if cmd != Some(remove_cmd) && new_state is None {
            Some(Err(ResultCode::UnprocessableEntity))
        } else {
            None
        },
    }
}

/// The bytes of the new state that are read: none where the message has none.
pub open spec fn new_state_bytes(m: Option<(Option<i64>, Option<Seq<u8>>)>) -> Seq<u8> {
    match m {
        Some((_, Some(b))) => b,
        _ => Seq::empty(),
    }
}

/// Whether the editor is the system user.
pub open spec fn is_system_editor(editor: Option<Seq<char>>) -> bool {
    editor == Some(VEDA_SYSTEM@)
}

impl QueueJob {
    pub closed spec fn phase(&self) -> QueuePhase {
        self.phase
    }

    /// The types of the new state.
    pub closed spec fn types(&self) -> Seq<Seq<char>> {
        texts(self.types@)
    }

    /// The position of the type being answered.
    pub closed spec fn type_index(&self) -> int {
        self.type_index as int
    }

    /// The editor of the new state is the system user.
    pub closed spec fn editor_is_system(&self) -> bool {
        self.editor_is_system
    }

    pub closed spec fn card_number(&self) -> Option<Seq<char>> {
        opt_text(self.card_number)
    }

    pub closed spec fn card(&self) -> Option<CardData> {
        self.card
    }

    pub closed spec fn levels(&self) -> Seq<i32> {
        self.levels@
    }

    /// The position of the access level being read.
    pub closed spec fn level_index(&self) -> int {
        self.level_index as int
    }

    /// The uris of the access levels confirmed so far.
    pub closed spec fn level_uris(&self) -> Seq<Seq<char>> {
        texts(self.level_uris@)
    }

    /// What the last update of the new state gave.
    pub closed spec fn last_update(&self) -> ResultCode {
        self.last_update
    }

    pub closed spec fn wf(&self) -> bool {
        &&& self.phase == QueuePhase::AwaitAccessLevel ==> self.level_index < self.levels@.len()
        &&& self.phase == QueuePhase::AwaitAccessLevel ==> self.card is Some
        &&& (self.phase == QueuePhase::AwaitQuery || self.phase == QueuePhase::AwaitAccessLevel || self.phase
            == QueuePhase::AwaitUpdated) ==> self.type_index < self.types@.len()
    }

    fn finished() -> (j: QueueJob)
        ensures
            j.wf(),
            j.phase() == QueuePhase::Done,
            j.last_update() == ResultCode::Success,
            j.type_index() == 0,
    {
        QueueJob {
            types: Vec::new(),
            type_index: 0,
            editor_is_system: false,
            card_number: None,
            card: None,
            levels: Vec::new(),
            level_index: 0,
            level_uris: Vec::new(),
            last_update: ResultCode::Success,
            phase: QueuePhase::Done,
        }
    }

    /// Whether a message that `first_action` lets through is handled, given
    /// what was read of its new state: one that cannot be decoded is
    /// skipped, else its first request for pass data is answered.
    pub open spec fn started(f: Option<(Option<Seq<Seq<char>>>, Option<Seq<char>>, Option<Seq<char>>)>, job: &QueueJob, a: QueueAction) -> bool {
        match f {
            None => a == QueueAction::Done(Ok(())) && job.phase() == QueuePhase::Done && job.last_update()
                == ResultCode::Success,
            Some((types, editor, card_number)) => {
                let ts = match types {
                    Some(t) => t,
                    None => Seq::empty(),
                };
                &&& job.types() == ts
                &&& job.card_number() == card_number
                &&& job.editor_is_system() == is_system_editor(editor)
                &&& job.last_update() == if card_number is None && next_request(ts, 0) is Some
                    && !is_system_editor(editor) {
                    ResultCode::UnprocessableEntity
                } else {
                    ResultCode::Success
                }
                &&& QueueJob::scan_result(ts, 0, is_system_editor(editor), card_number, job, a)
            },
        }
    }

    /// Starts answering a new state, as read (`None` when it could not be
    /// decoded).
    pub fn begin(found: Option<NewState>) -> (res: (QueueJob, QueueAction))
        ensures
            res.0.wf(),
            QueueJob::started(state_fields(found), &res.0, res.1),
    {
        let mut job = QueueJob::finished();
        match found {
            None => {
                (job, QueueAction::Done(Ok(())))
            },
            Some(ns) => {
                job.editor_is_system = match &ns.editor {
                    Some(ed) => str_eq(ed.as_str(), VEDA_SYSTEM),
                    None => false,
                };
                job.types = match ns.types {
                    Some(t) => t,
                    None => {
                        let v: Vec<String> = Vec::new();
                        assert(texts(v@) =~= Seq::<Seq<char>>::empty());
                        v
                    },
                };
                job.card_number = ns.card_number;
                let a = job.scan();
                (job, a)
            },
        }
    }

    /// How a queue message is started, from its bytes: what `first_action`
    /// decides, else how the answer to its new state starts.
    pub open spec fn prepared(raw: Seq<u8>, remove_cmd: i64, job: &QueueJob, a: QueueAction) -> bool {
        let m = queue_message_fields(raw);
        match first_action(m, remove_cmd) {
            Some(r) => a == QueueAction::Done(r) && job.phase() == QueuePhase::Done,
            None => QueueJob::started(new_state_fields(new_state_bytes(m)), job, a),
        }
    }

    /// Starts handling a queue message from its bytes; `remove_cmd` is the
    /// platform's code of the removal command. The decoded new state is
    /// handed out, to be changed and stored when the job asks for it.
    pub fn prepare_queue_element(raw: &[u8], remove_cmd: i64) -> (res: (QueueJob, QueueAction, Option<Individual>))
        ensures
            res.0.wf(),
            QueueJob::prepared(raw@, remove_cmd, &res.0, res.1),
            res.2 is Some <==> (first_action(queue_message_fields(raw@), remove_cmd) is None && new_state_fields(
                new_state_bytes(queue_message_fields(raw@)),
            ) is Some),
    {
        let m = parse_queue_message(raw);
        let msg = match m {
            None => return (QueueJob::finished(), QueueAction::Done(Ok(())), None),
            Some(msg) => msg,
        };
        let cmd = match msg.cmd {
            None => return (QueueJob::finished(), QueueAction::Done(Err(ResultCode::UnprocessableEntity)), None),
            Some(c) => c,
        };
        let bytes = match msg.new_state {
            Some(b) => b,
            None => {
                if cmd != remove_cmd {
                    return (QueueJob::finished(), QueueAction::Done(Err(ResultCode::UnprocessableEntity)), None);
                }
                Vec::new()
            },
        };
        proof {
            assert(bytes@ == new_state_bytes(queue_message_fields(raw@)));
        }
        match parse_new_state(bytes.as_slice()) {
            None => {
                let (job, a) = QueueJob::begin(None);
                (job, a, None)
            },
            Some((ns, indv)) => {
                let (job, a) = QueueJob::begin(Some(ns));
                (job, a, Some(indv))
            },
        }
    }

    /// Looks for the next request for pass data from `type_index` on, and
    /// starts answering it.
    fn scan(&mut self) -> (a: QueueAction)
        ensures
            final(self).wf(),
            final(self).types() == old(self).types(),
            final(self).card_number() == old(self).card_number(),
            final(self).editor_is_system() == old(self).editor_is_system(),
            final(self).last_update() == (if old(self).card_number() is None && next_request(
                old(self).types(),
                old(self).type_index(),
            ) is Some && !old(self).editor_is_system() {
                ResultCode::UnprocessableEntity
            } else {
                old(self).last_update()
            }),
            QueueJob::scanned(old(self), final(self), a),
    {
        match find_request(&self.types, self.type_index) {
            None => {
                self.phase = QueuePhase::Done;
                QueueAction::Done(Ok(()))
            },
            Some(i) => {
                self.type_index = i;
                if self.editor_is_system {
                    self.phase = QueuePhase::Done;
                    return QueueAction::Done(Ok(()));
                }
                match &self.card_number {
                    Some(c) => {
                        let c = c.clone();
                        self.phase = QueuePhase::AwaitQuery;
                        QueueAction::QueryCard(c)
                    },
                    None => {
                        self.last_update = ResultCode::UnprocessableEntity;
                        self.phase = QueuePhase::Done;
                        QueueAction::Done(Ok(()))
                    },
                }
            },
        }
    }

    /// How scanning for the next request, from position `from`, ends.
    pub open spec fn scan_result(
        types: Seq<Seq<char>>,
        from: int,
        editor_is_system: bool,
        card_number: Option<Seq<char>>,
        new: &QueueJob,
        a: QueueAction,
    ) -> bool {
        match next_request(types, from) {
            None => a == QueueAction::Done(Ok(())) && new.phase() == QueuePhase::Done,
            Some(i) => if editor_is_system || card_number is None {
                a == QueueAction::Done(Ok(())) && new.phase() == QueuePhase::Done
            } else {
                &&& a matches QueueAction::QueryCard(c) && c@ == card_number->0
                &&& new.phase() == QueuePhase::AwaitQuery
                &&& new.type_index() == i
            },
        }
    }

    /// How scanning for the next request ends.
    pub open spec fn scanned(old: &QueueJob, new: &QueueJob, a: QueueAction) -> bool {
        QueueJob::scan_result(old.types(), old.type_index(), old.editor_is_system(), old.card_number(), new, a)
    }

    /// Finishes an answer: store the changes.
    fn update(&mut self) -> (a: QueueAction)
        requires
            old(self).card is Some ==> old(self).level_index == old(self).levels@.len(),
            old(self).type_index < old(self).types@.len(),
        ensures
            final(self).wf(),
            final(self).phase() == QueuePhase::AwaitUpdated,
            final(self).types() == old(self).types(),
            final(self).type_index() == old(self).type_index(),
            final(self).card_number() == old(self).card_number(),
            final(self).editor_is_system() == old(self).editor_is_system(),
            final(self).last_update() == old(self).last_update(),
            final(self).card() == old(self).card(),
            final(self).levels() == old(self).levels(),
            final(self).level_index() == old(self).level_index(),
            final(self).level_uris() == old(self).level_uris(),
            a matches QueueAction::Update(edits) && edit_views(edits@) == match old(self).card() {
                Some(card) => found_edits(card, old(self).level_uris()),
                None => not_found_edits(),
            },
    {
        let edits = match &self.card {
            Some(card) => {
                let uris = self.level_uris.clone();
                card_found_edits(card, uris)
            },
            None => card_not_found_edits(),
        };
        self.phase = QueuePhase::AwaitUpdated;
        QueueAction::Update(edits)
    }

    /// Reads the next access level, or stores the changes when all are read.
    fn next_level(&mut self) -> (a: QueueAction)
        requires
            old(self).card is Some,
            old(self).level_index <= old(self).levels@.len(),
            old(self).type_index < old(self).types@.len(),
        ensures
            final(self).wf(),
            final(self).types() == old(self).types(),
            final(self).type_index() == old(self).type_index(),
            final(self).card_number() == old(self).card_number(),
            final(self).card() == old(self).card(),
            final(self).levels() == old(self).levels(),
            final(self).level_index() == old(self).level_index(),
            final(self).level_uris() == old(self).level_uris(),
            final(self).editor_is_system() == old(self).editor_is_system(),
            final(self).last_update() == old(self).last_update(),
            QueueJob::level_or_update(old(self), final(self), a),
    {
        if self.level_index < self.levels.len() {
            let level = self.levels[self.level_index];
            self.phase = QueuePhase::AwaitAccessLevel;
            QueueAction::ReadAccessLevel(access_level_uri(level))
        } else {
            self.update()
        }
    }

    /// The next access level is read, or the changes are stored.
    pub open spec fn level_or_update(old: &QueueJob, new: &QueueJob, a: QueueAction) -> bool {
        if old.level_index() < old.levels().len() {
            &&& a matches QueueAction::ReadAccessLevel(u) && u@ == access_level_id(old.levels()[old.level_index()])
            &&& new.phase() == QueuePhase::AwaitAccessLevel
        } else {
            &&& a matches QueueAction::Update(edits) && edit_views(edits@) == found_edits(
                old.card()->0,
                old.level_uris(),
            )
            &&& new.phase() == QueuePhase::AwaitUpdated
        }
    }

    /// How one answer moves the handling on.
    pub open spec fn transition(old: &QueueJob, new: &QueueJob, e: QueueEvent, a: QueueAction) -> bool {
        &&& new.types() == old.types()
        &&& new.card_number() == old.card_number()
        &&& match e {
            QueueEvent::Queried(q) => if q.error matches Some(k) && k != SqlErrorKind::Other {
                &&& a == QueueAction::Done(Err(ResultCode::ConnectError))
                &&& new.phase() == QueuePhase::Done
                &&& new.last_update() == ResultCode::ConnectError
            } else {
                &&& new.type_index() == old.type_index()
                &&& new.editor_is_system() == old.editor_is_system()
                &&& new.last_update() == old.last_update()
                &&& new.card() == q.card
                &&& new.levels() == q.levels@
                &&& new.level_index() == 0
                &&& new.level_uris() == Seq::<Seq<char>>::empty()
                &&& match q.card {
                    Some(card) => if q.levels@.len() > 0 {
                        &&& a matches QueueAction::ReadAccessLevel(u) && u@ == access_level_id(q.levels@[0])
                        &&& new.phase() == QueuePhase::AwaitAccessLevel
                    } else {
                        &&& a matches QueueAction::Update(edits) && edit_views(edits@) == found_edits(
                            card,
                            Seq::empty(),
                        )
                        &&& new.phase() == QueuePhase::AwaitUpdated
                    },
                    None => {
                        &&& a matches QueueAction::Update(edits) && edit_views(edits@) == not_found_edits()
                        &&& new.phase() == QueuePhase::AwaitUpdated
                    },
                }
            },
            QueueEvent::AccessLevel(found) => {
                let level = old.levels()[old.level_index()];
                let uris = if found matches Some(info) && level_confirmed(info, level) {
                    old.level_uris().push(found->0.uri@)
                } else {
                    old.level_uris()
                };
                &&& new.type_index() == old.type_index()
                &&& new.editor_is_system() == old.editor_is_system()
                &&& new.last_update() == old.last_update()
                &&& new.card() == old.card()
                &&& new.levels() == old.levels()
                &&& new.level_uris() == uris
                &&& new.level_index() == old.level_index() + 1
                &&& if old.level_index() + 1 < old.levels().len() {
                    &&& a matches QueueAction::ReadAccessLevel(u) && u@ == access_level_id(
                        old.levels()[old.level_index() + 1],
                    )
                    &&& new.phase() == QueuePhase::AwaitAccessLevel
                } else {
                    &&& a matches QueueAction::Update(edits) && edit_views(edits@) == found_edits(
                        old.card()->0,
                        uris,
                    )
                    &&& new.phase() == QueuePhase::AwaitUpdated
                }
            },
            QueueEvent::Updated(ok) => {
                &&& new.last_update() == if ok { ResultCode::Success } else { ResultCode::DatabaseModifiedError }
                &&& new.editor_is_system()
                &&& QueueJob::scan_result(old.types(), old.type_index() + 1, true, old.card_number(), new, a)
            },
        }
    }

    /// Takes the answer to the last action.
    pub fn step(&mut self, e: QueueEvent) -> (a: QueueAction)
        requires
            old(self).wf(),
            queue_answers(old(self).phase(), e),
        ensures
            final(self).wf(),
            a is Done <==> final(self).phase() == QueuePhase::Done,
            QueueJob::transition(old(self), final(self), e, a),
    {
        match e {
            QueueEvent::Queried(q) => {
                if let Some(k) = q.error {
                    if let Some(code) = sql_error_code(k) {
                        self.last_update = code;
                        self.phase = QueuePhase::Done;
                        return QueueAction::Done(Err(code));
                    }
                }
                self.card = q.card;
                self.levels = q.levels;
                self.level_index = 0;
                self.level_uris = Vec::new();
                proof {
                    assert(texts(self.level_uris@) =~= Seq::<Seq<char>>::empty());
                }
                if self.card.is_some() {
                    self.next_level()
                } else {
                    self.update()
                }
            },
            QueueEvent::AccessLevel(found) => {
                let level = self.levels[self.level_index];
                if let Some(info) = found {
                    if access_level_matches(&info, level) {
                        let ghost before = self.level_uris@;
                        self.level_uris.push(info.uri);
                        proof {
                            assert(texts(self.level_uris@) =~= texts(before).push(self.level_uris@.last()@));
                        }
                    }
                }
                let n = self.levels.len();
                assert(self.level_index < n);
                self.level_index = self.level_index + 1;
                self.next_level()
            },
            QueueEvent::Updated(ok) => {
                self.last_update = if ok { ResultCode::Success } else { ResultCode::DatabaseModifiedError };
                self.editor_is_system = true;
                let n = self.types.len();
                assert(self.type_index < n);
                self.type_index = self.type_index + 1;
                self.scan()
            },
        }
    }

    /// What the last update of the new state gave.
    pub fn last_update_result(&self) -> (r: ResultCode)
        ensures
            r == self.last_update(),
    {
        self.last_update
    }
}

/// A request that the system user already answered is not answered again:
/// its new state is left alone and the message is done with.
pub proof fn law_answered_request_left_alone(
    types: Option<Seq<Seq<char>>>,
    card_number: Option<Seq<char>>,
    job: QueueJob,
    a: QueueAction,
)
    requires
        QueueJob::started(Some((types, Some(VEDA_SYSTEM@), card_number)), &job, a),
    ensures
        a == QueueAction::Done(Ok(())),
        job.last_update() == ResultCode::Success,
{
}

/// The uris of the access levels confirmed among the first `k` levels,
/// given what was read for each (`None` where it is not stored), in order.
pub open spec fn confirmed_uris(levels: Seq<i32>, found: Seq<Option<AccessLevelInfo>>, k: int) -> Seq<Seq<char>>
    decreases k,
{
    if k <= 0 {
        Seq::empty()
    } else {
        let before = confirmed_uris(levels, found, k - 1);
        if found[k - 1] matches Some(info) && level_confirmed(info, levels[k - 1]) {
            before.push(found[k - 1]->0.uri@)
        } else {
            before
        }
    }
}

/// What is written back for a card that WinPak found is the row that the
/// query read and the access levels that it listed, in their order, of
/// which those whose stored individual carries the level's number: after
/// the query and one answer for each access level, the changes are
/// `found_edits` of exactly these.
pub proof fn law_update_writes_queried_card(
    before: QueueJob,
    q: CardQuery,
    a: QueueAction,
    jobs: Seq<QueueJob>,
    found: Seq<Option<AccessLevelInfo>>,
    actions: Seq<QueueAction>,
)
    requires
        QueueJob::transition(&before, &jobs[0], QueueEvent::Queried(q), a),
        !(q.error == Some(SqlErrorKind::Server) || q.error == Some(SqlErrorKind::Io)),
        q.card is Some,
        q.levels@.len() > 0,
        jobs.len() == q.levels@.len() + 1,
        found.len() == q.levels@.len(),
        actions.len() == q.levels@.len(),
        forall|i: int|
            0 <= i < found.len() ==> QueueJob::transition(
                &#[trigger] jobs[i],
                &jobs[i + 1],
                QueueEvent::AccessLevel(found[i]),
                actions[i],
            ),
    ensures
        forall|i: int|
            0 <= i < actions.len() - 1 ==> (#[trigger] actions[i] matches QueueAction::ReadAccessLevel(u) && u@
                == access_level_id(q.levels@[i + 1])),
        actions.last() matches QueueAction::Update(edits) && edit_views(edits@) == found_edits(
            q.card->0,
            confirmed_uris(q.levels@, found, found.len() as int),
        ),
{
    let n = found.len() as int;
    assert forall|i: int| 0 <= i <= n implies {
        &&& (#[trigger] jobs[i]).card() == q.card
        &&& jobs[i].levels() == q.levels@
        &&& jobs[i].level_index() == i
        &&& jobs[i].level_uris() == confirmed_uris(q.levels@, found, i)
    } by {
        lemma_levels_read(before, q, a, jobs, found, actions, i);
    }
    assert forall|i: int| 0 <= i < actions.len() - 1 implies (#[trigger] actions[i] matches QueueAction::ReadAccessLevel(
        u,
    ) && u@ == access_level_id(q.levels@[i + 1])) by {
        assert(jobs[i].level_index() == i);
        assert(QueueJob::transition(&jobs[i], &jobs[i + 1], QueueEvent::AccessLevel(found[i]), actions[i]));
    }
    assert(jobs[n - 1].level_index() == n - 1);
    assert(QueueJob::transition(&jobs[n - 1], &jobs[n - 1 + 1], QueueEvent::AccessLevel(found[n - 1]), actions[n - 1]));
}

proof fn lemma_levels_read(
    before: QueueJob,
    q: CardQuery,
    a: QueueAction,
    jobs: Seq<QueueJob>,
    found: Seq<Option<AccessLevelInfo>>,
    actions: Seq<QueueAction>,
    i: int,
)
    requires
        QueueJob::transition(&before, &jobs[0], QueueEvent::Queried(q), a),
        !(q.error == Some(SqlErrorKind::Server) || q.error == Some(SqlErrorKind::Io)),
        jobs.len() == q.levels@.len() + 1,
        found.len() == q.levels@.len(),
        actions.len() == q.levels@.len(),
        forall|j: int|
            0 <= j < found.len() ==> QueueJob::transition(
                &#[trigger] jobs[j],
                &jobs[j + 1],
                QueueEvent::AccessLevel(found[j]),
                actions[j],
            ),
        0 <= i <= found.len(),
    ensures
        jobs[i].card() == q.card,
        jobs[i].levels() == q.levels@,
        jobs[i].level_index() == i,
        jobs[i].level_uris() == confirmed_uris(q.levels@, found, i),
    decreases i,
{
    if i > 0 {
        lemma_levels_read(before, q, a, jobs, found, actions, i - 1);
        assert(QueueJob::transition(&jobs[i - 1], &jobs[i - 1 + 1], QueueEvent::AccessLevel(found[i - 1]), actions[i - 1]));
    } else {
        assert(q.error matches Some(k) ==> k == SqlErrorKind::Other);
    }
}

/// For a card that WinPak found, each field of its row goes to its own
/// predicate: the dates to `v-s:dateFrom` and `v-s:dateTo`, the holder's
/// description, tab number, birthday and comment, and the pass equipment,
/// each to its predicate, the confirmed access levels to
/// `mnd-s:hasAccessLevel`, and the system user becomes the editor.
pub proof fn law_card_fields_to_their_predicates(card: CardData, levels: Seq<Seq<char>>)
    ensures
        ({
            let e = found_edits(card, levels);
            &&& e.len() == 9
            &&& e[0] == EditView::SetDatetime("v-s:dateFrom"@, card.activation)
            &&& e[1] == EditView::SetDatetime("v-s:dateTo"@, card.expiration)
            &&& e[2] == EditView::SetString("v-s:description"@, card.description@, Lang::NONE)
            &&& e[3] == EditView::SetString("v-s:tabNumber"@, card.tab_number@, Lang::NONE)
            &&& e[4] == EditView::SetString("v-s:birthday"@, card.birthday@, Lang::NONE)
            &&& e[5] == EditView::SetString("rdfs:comment"@, card.comment@, Lang::NONE)
            &&& e[6] == EditView::SetString("mnd-s:passEquipment"@, card.equipment@, Lang::NONE)
            &&& e[7] == EditView::SetUris("mnd-s:hasAccessLevel"@, levels)
            &&& e[8] == EditView::SetUri("v-s:editor"@, VEDA_SYSTEM@)
        }),
{
}

/// A message is stored back at most once: after its update, handling ends
/// without an error.
pub proof fn law_one_update_per_message(old: QueueJob, new: QueueJob, ok: bool, a: QueueAction)
    requires
        QueueJob::transition(&old, &new, QueueEvent::Updated(ok), a),
    ensures
        a == QueueAction::Done(Ok(())),
{
}

/// A failure to reach the WinPak database ends the handling with
/// `ConnectError`, so that the message is not committed.
pub proof fn law_unreachable_database_retried(old: QueueJob, new: QueueJob, q: CardQuery, a: QueueAction)
    requires
        QueueJob::transition(&old, &new, QueueEvent::Queried(q), a),
        q.error == Some(SqlErrorKind::Server) || q.error == Some(SqlErrorKind::Io),
    ensures
        a == QueueAction::Done(Err(ResultCode::ConnectError)),
{
}

/// A batch never takes more messages than the consumer has not read.
pub proof fn law_batch_within_unread(pushed: u32, popped: u32, queue_id: u32, consumer_id: u32)
    requires
        popped <= pushed,
    ensures
        batch_size(pushed, popped, queue_id, consumer_id) <= if pushed == popped { 1 } else { pushed - popped },
{
}

} // verus!
