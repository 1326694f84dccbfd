//! Authentication by login and password, and the password change that a
//! secret code, sent by mail, allows.
//!
//! The reads and writes of individuals, the full-text search for accounts
//! and the issuing of tickets are done by the caller; `AuthSession` decides,
//! one event at a time, what is done next and how the request ends.

use vstd::prelude::*;
use crate::codes::ResultCode;
use crate::sources::{is_uuid_text, new_uuid_text, random_in_range, unix_now};
use crate::text::{byte_len, concat, decimal_digits, decimal_string, str_eq, to_lowercase, unicode_lowercase};
use crate::user_stats::{fresh_stat, SuspiciousUsers, UserStat};

verus! {

/// The SHA-256 hash of the empty text, which clients send for an empty password.
pub const EMPTY_SHA256_HASH: &'static str = "e3b0c44298fc1c149afbf4c8996fb92427ae41e4649b934ca495991b7852b855";

/// The limits and periods of authentication; periods are in seconds.
#[derive(Clone, Copy, Debug)]
pub struct AuthConf {
    pub failed_auth_attempts: i32,
    pub failed_change_pass_attempts: i32,
    pub failed_auth_lock_period: i64,
    pub failed_pass_change_lock_period: i64,
    pub success_pass_change_lock_period: i64,
    pub ticket_lifetime: i64,
    pub secret_lifetime: i64,
    pub pass_lifetime: i64,
}

/// What a request ends with.
#[derive(PartialEq, Eq, Structural, Clone, Copy, Debug)]
pub enum TicketOutcome {
    /// The empty ticket is returned as it is.
    Unchanged,
    /// No ticket is issued; the ticket carries this result.
    Denied(ResultCode),
    /// The ticket that was issued is returned.
    Issued,
}

/// An account individual, as far as authentication reads it; absent
/// literals read as empty texts.
#[derive(Clone, Debug)]
pub struct AccountInfo {
    /// `v-s:owner`: the person that the account belongs to.
    pub owner: String,
    /// `v-s:login`.
    pub login: String,
    /// `v-s:usesCredential`.
    pub uses_credential: Option<String>,
    /// `v-s:password`, kept on accounts that have no credential yet.
    pub password: String,
    /// `v-s:mailbox`.
    pub mailbox: String,
}

/// A credential individual, as far as authentication reads it; absent
/// literals read as empty texts and absent dates as 0.
#[derive(Clone, Debug)]
pub struct CredentialInfo {
    /// `v-s:password`.
    pub password: String,
    /// `v-s:dateFrom`: when the password was set.
    pub date_from: i64,
    /// `v-s:secret`.
    pub secret: String,
    /// `v-s:SecretDateFrom`: when the secret was sent.
    pub secret_date_from: i64,
}

/// The view of the empty-password hash.
pub open spec fn empty_password_hash() -> Seq<char> {
    EMPTY_SHA256_HASH@
}

/// A secret long enough to be a code (more than five bytes).
pub open spec fn is_code(secret: Seq<char>) -> bool {
    secret.len() > 0 && byte_len(secret) > 5
}

/// The answer to a request that is refused before any lookup, if it is.
pub open spec fn request_precheck(login: Seq<char>, password: Seq<char>, secret: Seq<char>) -> Option<TicketOutcome> {
    if login.len() == 0 || byte_len(login) < 3 {
        Some(TicketOutcome::Unchanged)
    } else if is_code(secret) && password == empty_password_hash() {
        Some(TicketOutcome::Denied(ResultCode::EmptyPassword))
    } else if secret.len() > 0 && secret != "?"@ && byte_len(secret) < 6 {
        Some(TicketOutcome::Denied(ResultCode::InvalidSecret))
    } else {
        None
    }
}

/// Checks a request before anything is looked up.
pub fn precheck(login: &str, password: &str, secret: &str) -> (r: Option<TicketOutcome>)
    ensures
        r == request_precheck(login@, password@, secret@),
{
    if login.is_empty() || login.len() < 3 {
        return Some(TicketOutcome::Unchanged);
    }
    if !secret.is_empty() && secret.len() > 5 && str_eq(password, EMPTY_SHA256_HASH) {
        return Some(TicketOutcome::Denied(ResultCode::EmptyPassword));
    }
    if secret.is_empty() && secret.len() > 5 && (password.is_empty() || password.len() < 64) {
        return Some(TicketOutcome::Denied(ResultCode::InvalidPassword));
    }
    if !secret.is_empty() && !str_eq(secret, "?") && secret.len() < 6 {
        return Some(TicketOutcome::Denied(ResultCode::InvalidSecret));
    }
    None
}

/// Too many failed logins, and the last one too recent: the login is locked.
pub open spec fn login_locked(conf: AuthConf, stat: UserStat, now: i64) -> bool {
    stat.wrong_count_login >= conf.failed_auth_attempts && now - stat.last_wrong_login_date < conf.failed_auth_lock_period
}

/// The statistics after the lock check: a lock that has run out is lifted.
pub open spec fn stat_after_lock_check(conf: AuthConf, stat: UserStat, now: i64) -> UserStat {
    if stat.wrong_count_login >= conf.failed_auth_attempts && !login_locked(conf, stat, now) {
        UserStat { wrong_count_login: 0, last_wrong_login_date: now, ..stat }
    } else {
        stat
    }
}

/// Applies the lock check to `stat` and tells whether the login is locked.
pub fn lock_check(conf: &AuthConf, stat: &mut UserStat, now: i64) -> (locked: bool)
    ensures
        locked == login_locked(*conf, *old(stat), now),
        *final(stat) == stat_after_lock_check(*conf, *old(stat), now),
{
    if stat.wrong_count_login >= conf.failed_auth_attempts {
        if (now as i128) - (stat.last_wrong_login_date as i128) < conf.failed_auth_lock_period as i128 {
            return true;
        } else {
            stat.wrong_count_login = 0;
            stat.last_wrong_login_date = now;
        }
    }
    false
}

/// The account belongs to a person and carries the requested login, up to case.
pub open spec fn login_matches(account: AccountInfo, login: Seq<char>) -> bool {
    &&& account.owner@.len() > 0
    &&& account.login@.len() > 0
    &&& unicode_lowercase(account.login@) == unicode_lowercase(login)
}

/// Tells whether an account may authenticate the requested login.
pub fn account_matches(account: &AccountInfo, login: &str) -> (r: bool)
    ensures
        r == login_matches(*account, login@),
{
    if account.owner.as_str().is_empty() {
        return false;
    }
    if account.login.as_str().is_empty() {
        return false;
    }
    let a = to_lowercase(account.login.as_str());
    let b = to_lowercase(login);
    a == b
}

/// What the stored credential makes of a request.
#[derive(PartialEq, Eq, Structural, Clone, Copy, Debug)]
pub enum Verdict {
    /// Refuse with the code, and remove the secret from the credential first.
    RejectAndRemoveSecret(ResultCode),
    /// Refuse with the code.
    Reject(ResultCode),
    /// Store the new password and issue a ticket.
    ChangePassword,
    /// Too many requests for a new password: lock the login.
    TooManyRenewals,
    /// Send a new secret code.
    Renew,
    /// The password is right: issue a ticket.
    Accept,
    /// The password is wrong: count the failure and try the next account.
    WrongPassword,
}

/// Time since `t`, when positive, is shorter than the period.
pub open spec fn within(now: i64, t: i64, period: i64) -> bool {
    now - t > 0 && now - t < period
}

/// The request asks for a new password: the stored one is too old, or the
/// secret is `?`.
pub open spec fn wants_renewal(conf: AuthConf, secret: Seq<char>, edited: i64, now: i64) -> bool {
    (conf.pass_lifetime > 0 && edited > 0 && now - edited > conf.pass_lifetime) || secret == "?"@
}

/// The verdict on a request, given the account's stored password `exist`,
/// the time `edited` that it was set, the credential and the time `now`.
pub open spec fn verdict(
    conf: AuthConf,
    secret: Seq<char>,
    password: Seq<char>,
    stat: UserStat,
    exist: Seq<char>,
    edited: i64,
    cred: CredentialInfo,
    now: i64,
) -> Verdict {
    if is_code(secret) {
        if cred.secret@.len() == 0 || secret != cred.secret@ {
            Verdict::RejectAndRemoveSecret(ResultCode::InvalidSecret)
        } else if now - cred.secret_date_from > conf.secret_lifetime {
            Verdict::Reject(ResultCode::SecretExpired)
        } else if exist == password {
            Verdict::RejectAndRemoveSecret(ResultCode::NewPasswordIsEqualToOld)
        } else if password == empty_password_hash() {
            Verdict::RejectAndRemoveSecret(ResultCode::EmptyPassword)
        } else if within(now, edited, conf.success_pass_change_lock_period) {
            Verdict::Reject(ResultCode::Locked)
        } else {
            Verdict::ChangePassword
        }
    } else if wants_renewal(conf, secret, edited, now) {
        if within(now, edited, conf.success_pass_change_lock_period) {
            Verdict::Reject(ResultCode::Locked)
        } else if stat.attempt_change_pass >= conf.failed_change_pass_attempts && (now - cred.secret_date_from
            < conf.failed_pass_change_lock_period || now - stat.last_attempt_change_pass_date
            < conf.failed_pass_change_lock_period) {
            Verdict::TooManyRenewals
        } else {
            Verdict::Renew
        }
    } else if exist.len() > 0 && password.len() > 0 && byte_len(password) > 63 && exist == password {
        Verdict::Accept
    } else {
        Verdict::WrongPassword
    }
}

fn time_within(now: i64, t: i64, period: i64) -> (r: bool)
    ensures
        r == within(now, t, period),
{
    let d = (now as i128) - (t as i128);
    d > 0 && d < period as i128
}

/// Decides a request against the stored credential.
pub fn credential_verdict(
    conf: &AuthConf,
    secret: &str,
    password: &str,
    stat: &UserStat,
    exist: &str,
    edited: i64,
    cred: &CredentialInfo,
    now: i64,
) -> (v: Verdict)
    ensures
        v == verdict(*conf, secret@, password@, *stat, exist@, edited, *cred, now),
{
    if !secret.is_empty() && secret.len() > 5 {
        let old_secret = cred.secret.as_str();
        if old_secret.is_empty() {
            return Verdict::RejectAndRemoveSecret(ResultCode::InvalidSecret);
        }
        if !str_eq(secret, old_secret) {
            return Verdict::RejectAndRemoveSecret(ResultCode::InvalidSecret);
        }
        if (now as i128) - (cred.secret_date_from as i128) > conf.secret_lifetime as i128 {
            return Verdict::Reject(ResultCode::SecretExpired);
        }
        if str_eq(exist, password) {
            return Verdict::RejectAndRemoveSecret(ResultCode::NewPasswordIsEqualToOld);
        }
        if str_eq(password, EMPTY_SHA256_HASH) {
            return Verdict::RejectAndRemoveSecret(ResultCode::EmptyPassword);
        }
        if time_within(now, edited, conf.success_pass_change_lock_period) {
            return Verdict::Reject(ResultCode::Locked);
        }
        Verdict::ChangePassword
    } else {
        let mut renew = conf.pass_lifetime > 0 && edited > 0 && (now as i128) - (edited as i128)
            > conf.pass_lifetime as i128;
        if str_eq(secret, "?") {
            renew = true;
        }
        if renew {
            if time_within(now, edited, conf.success_pass_change_lock_period) {
                return Verdict::Reject(ResultCode::Locked);
            }
            if stat.attempt_change_pass >= conf.failed_change_pass_attempts {
                if (now as i128) - (cred.secret_date_from as i128) < conf.failed_pass_change_lock_period as i128 {
                    return Verdict::TooManyRenewals;
                }
                if (now as i128) - (stat.last_attempt_change_pass_date as i128)
                    < conf.failed_pass_change_lock_period as i128 {
                    return Verdict::TooManyRenewals;
                }
            }
            return Verdict::Renew;
        }
        if !exist.is_empty() && !password.is_empty() && password.len() > 63 && str_eq(exist, password) {
            Verdict::Accept
        } else {
            Verdict::WrongPassword
        }
    }
}

/// The statistics after a verdict taken at time `now`.
pub open spec fn stat_after_verdict(conf: AuthConf, v: Verdict, stat: UserStat, now: i64) -> UserStat {
    match v {
        Verdict::TooManyRenewals => UserStat {
            wrong_count_login: (conf.failed_auth_attempts + 1) as i32,
            last_wrong_login_date: now,
            ..stat
        },
        Verdict::Renew => UserStat {
            attempt_change_pass: ((if stat.attempt_change_pass >= conf.failed_change_pass_attempts {
                0
            } else {
                stat.attempt_change_pass as int
            }) + 1) as i32,
            last_attempt_change_pass_date: now,
            ..stat
        },
        Verdict::WrongPassword => UserStat {
            wrong_count_login: (stat.wrong_count_login + 1) as i32,
            last_wrong_login_date: now,
            ..stat
        },
        _ => stat,
    }
}

/// Counting the verdict overflows the statistics: a wrong password when
/// the count of failed logins is at its greatest, or too many renewals when
/// the limit of failed logins is, so that one more does not fit.
pub open spec fn verdict_overflows(conf: AuthConf, v: Verdict, stat: UserStat) -> bool {
    ||| v == Verdict::WrongPassword && stat.wrong_count_login == i32::MAX
    ||| v == Verdict::TooManyRenewals && conf.failed_auth_attempts == i32::MAX
}

/// Updates the statistics after a verdict taken at time `now`.
pub fn count_verdict(conf: &AuthConf, v: Verdict, stat: &mut UserStat, now: i64)
    requires
        !verdict_overflows(*conf, v, *old(stat)),
    ensures
        *final(stat) == stat_after_verdict(*conf, v, *old(stat), now),
{
    match v {
        Verdict::TooManyRenewals => {
            stat.wrong_count_login = conf.failed_auth_attempts + 1;
            stat.last_wrong_login_date = now;
        },
        Verdict::Renew => {
            if stat.attempt_change_pass >= conf.failed_change_pass_attempts {
                stat.attempt_change_pass = 0;
            }
            stat.attempt_change_pass = stat.attempt_change_pass + 1;
            stat.last_attempt_change_pass_date = now;
        },
        Verdict::WrongPassword => {
            stat.wrong_count_login = stat.wrong_count_login + 1;
            stat.last_wrong_login_date = now;
        },
        _ => {},
    }
}

/// The six-digit text of a secret code.
pub open spec fn secret_code_text(n: u32) -> Seq<char> {
    decimal_digits(n as nat)
}

/// The text of the secret code `n`.
pub fn secret_code(n: u32) -> (s: String)
    ensures
        s@ == secret_code_text(n),
{
    decimal_string(n as i64)
}

/// A fresh random secret code, from 100000 to 999998.
pub fn new_secret_code() -> (s: String)
    ensures
        exists|n: u32| 100_000 <= n < 999_999 && s@ == secret_code_text(n),
{
    let n = random_in_range(100_000, 999_999);
    secret_code(n)
}

/// What the caller is asked to do next.
#[derive(Clone, Debug)]
pub enum AuthAction {
    /// Search the accounts that carry the login; answer with `Candidates`.
    FindCandidates { login: String },
    /// Read the account individual; answer with `Account`.
    ReadAccount { id: String },
    /// Read the person individual; answer with `Person`.
    ReadPerson { id: String },
    /// Read the credential individual; answer with `Credential`.
    ReadCredential { uri: String },
    /// Create a credential for the account; answer with `NewCredential`.
    CreateCredential,
    /// Remove the secret from the credential of the person; answer with `SecretRemoved`.
    RemoveSecret { person_id: String },
    /// Set the credential's password and its date, remove its secret and the
    /// secret's date, and store it; answer with `Stored`.
    StorePassword { password: String, date_from: i64 },
    /// Set the credential's secret and the secret's date, and store it;
    /// answer with `Stored`.
    StoreSecret { secret: String, date_from: i64 },
    /// Store an e-mail to the mailbox with this id, creation time and body;
    /// answer with `Stored`.
    StoreMail { id: String, mailbox: String, created: i64, body: String },
    /// Issue a ticket to the user; answer with `TicketIssued`.
    IssueTicket { login: String, user_id: String, lifetime: i64 },
    /// The request is over.
    Finish(TicketOutcome),
}

/// What the caller reports back.
#[derive(Clone, Debug)]
pub enum AuthEvent {
    /// The ids of the accounts found, or `None` when the search failed or found none.
    Candidates(Option<Vec<String>>),
    /// The account, or `None` when it could not be read.
    Account(Option<AccountInfo>),
    /// Whether the person could be read.
    Person(bool),
    /// The credential, or `None` when it could not be read.
    Credential(Option<CredentialInfo>),
    /// The credential that was created.
    NewCredential(CredentialInfo),
    SecretRemoved,
    /// Whether the store succeeded.
    Stored(bool),
    TicketIssued,
}

/// Where a request stands.
#[derive(PartialEq, Eq, Structural, Clone, Copy, Debug)]
pub enum AuthPhase {
    AwaitCandidates,
    AwaitAccount,
    AwaitPerson,
    AwaitCredential,
    AwaitNewCredential,
    AwaitSecretRemoved,
    AwaitPasswordStored,
    AwaitChangeTicket,
    AwaitSecretStored,
    AwaitMailStored,
    AwaitLoginTicket,
    Done,
}

/// Whether the event is the answer that the phase waits for.
pub open spec fn answers(phase: AuthPhase, event: AuthEvent) -> bool {
    match phase {
        AuthPhase::AwaitCandidates => event is Candidates,
        AuthPhase::AwaitAccount => event is Account,
        AuthPhase::AwaitPerson => event is Person,
        AuthPhase::AwaitCredential => event is Credential,
        AuthPhase::AwaitNewCredential => event is NewCredential,
        AuthPhase::AwaitSecretRemoved => event is SecretRemoved,
        AuthPhase::AwaitPasswordStored => event is Stored,
        AuthPhase::AwaitChangeTicket => event is TicketIssued,
        AuthPhase::AwaitSecretStored => event is Stored,
        AuthPhase::AwaitMailStored => event is Stored,
        AuthPhase::AwaitLoginTicket => event is TicketIssued,
        AuthPhase::Done => false,
    }
}

/// The text of the mail that carries a secret code.
pub open spec fn mail_body(secret: Seq<char>) -> Seq<char> {
    "your secret code is "@ + secret
}

/// A mailbox long enough to send to (more than three bytes).
pub open spec fn is_mailbox(mailbox: Seq<char>) -> bool {
    mailbox.len() > 0 && byte_len(mailbox) > 3
}

/// One authentication request, from the first lookup to its answer.
pub struct AuthSession {
    conf: AuthConf,
    login: String,
    password: String,
    secret: String,
    stat: UserStat,
    candidates: Vec<String>,
    current: usize,
    account: AccountInfo,
    account_now: i64,
    exist_password: String,
    edited: i64,
    new_secret: String,
    pending: ResultCode,
    phase: AuthPhase,
}

impl AuthSession {
    pub closed spec fn phase(&self) -> AuthPhase {
        self.phase
    }

    pub closed spec fn conf(&self) -> AuthConf {
        self.conf
    }

    pub closed spec fn login(&self) -> Seq<char> {
        self.login@
    }

    pub closed spec fn password(&self) -> Seq<char> {
        self.password@
    }

    pub closed spec fn secret(&self) -> Seq<char> {
        self.secret@
    }

    /// The statistics of the login, as the request leaves them so far.
    pub closed spec fn stat(&self) -> UserStat {
        self.stat
    }

    /// The ids of the accounts that are tried.
    pub closed spec fn candidates(&self) -> Seq<String> {
        self.candidates@
    }

    /// The position of the account being tried.
    pub closed spec fn current(&self) -> int {
        self.current as int
    }

    /// The account being tried.
    pub closed spec fn account(&self) -> AccountInfo {
        self.account
    }

    /// The time at which the account's person was found.
    pub closed spec fn account_now(&self) -> i64 {
        self.account_now
    }

    /// The password that the account had.
    pub closed spec fn exist_password(&self) -> Seq<char> {
        self.exist_password@
    }

    /// The time that the account's password was set.
    pub closed spec fn edited(&self) -> i64 {
        self.edited
    }

    /// The secret code sent last.
    pub closed spec fn new_secret(&self) -> Seq<char> {
        self.new_secret@
    }

    /// The code that the request ends with once the secret is removed.
    pub closed spec fn pending(&self) -> ResultCode {
        self.pending
    }

    /// The session is consistent: while an account is being tried, its
    /// position is among the candidates.
    #[verifier::type_invariant]
    spec fn wf(&self) -> bool {
        &&& (self.phase == AuthPhase::AwaitAccount || self.phase == AuthPhase::AwaitPerson || self.phase
            == AuthPhase::AwaitCredential || self.phase == AuthPhase::AwaitNewCredential) ==> self.current
            < self.candidates@.len()
    }

    /// The request itself is kept.
    pub open spec fn same_request(&self, other: &AuthSession) -> bool {
        &&& self.conf() == other.conf()
        &&& self.login() == other.login()
        &&& self.password() == other.password()
        &&& self.secret() == other.secret()
    }

    /// After the account at `current` failed, the next one is read, or the
    /// request fails when there is none.
    pub open spec fn moves_on(old: &AuthSession, new: &AuthSession, a: AuthAction) -> bool {
        if old.current() + 1 < old.candidates().len() {
            &&& a matches AuthAction::ReadAccount { id } && id@ == old.candidates()[old.current() + 1]@
            &&& new.phase() == AuthPhase::AwaitAccount
            &&& new.current() == old.current() + 1
            &&& new.candidates() == old.candidates()
        } else {
            &&& a == AuthAction::Finish(TicketOutcome::Denied(ResultCode::AuthenticationFailed))
            &&& new.phase() == AuthPhase::Done
        }
    }

    /// The verdict on a credential event, with the stored password and its
    /// date that the event brings or that were kept.
    pub open spec fn event_verdict(&self, event: AuthEvent) -> Option<Verdict> {
        match event {
            AuthEvent::Credential(Some(cred)) => Some(
                verdict(
                    self.conf(),
                    self.secret(),
                    self.password(),
                    self.stat(),
                    cred.password@,
                    cred.date_from,
                    cred,
                    self.account_now(),
                ),
            ),
            AuthEvent::NewCredential(cred) => Some(
                verdict(
                    self.conf(),
                    self.secret(),
                    self.password(),
                    self.stat(),
                    self.exist_password(),
                    self.edited(),
                    cred,
                    self.account_now(),
                ),
            ),
            _ => None,
        }
    }

    /// Taking the event would overflow the login's statistics.
    pub open spec fn overflows(&self, event: AuthEvent) -> bool {
        self.event_verdict(event) matches Some(v) && verdict_overflows(self.conf(), v, self.stat())
    }

    /// Starts a request at time `now`: refuses it at once, or asks for the
    /// accounts of the login. The login's statistics are kept in
    /// `suspicious` once the request passes the first checks.
    pub fn start(
        conf: AuthConf,
        login: Option<&str>,
        password: Option<&str>,
        secret: Option<&str>,
        suspicious: &mut SuspiciousUsers,
        now: i64,
    ) -> (res: (AuthSession, AuthAction))
        requires
            old(suspicious).wf(),
        ensures
            ({
                let (s, a) = res;
                let l = match login { Some(x) => x@, None => Seq::<char>::empty() };
                let p = match password { Some(x) => x@, None => Seq::<char>::empty() };
                let t = match secret { Some(x) => x@, None => Seq::<char>::empty() };
                let st0 = if old(suspicious)@.contains_key(l) { old(suspicious)@[l] } else { fresh_stat() };
                &&& final(suspicious).wf()
                &&& s.conf() == conf
                &&& s.login() == l
                &&& s.password() == p
                &&& s.secret() == t
                &&& request_precheck(l, p, t) matches Some(o) ==> {
                    &&& a == AuthAction::Finish(o)
                    &&& s.phase() == AuthPhase::Done
                    &&& final(suspicious)@ == old(suspicious)@
                }
                &&& request_precheck(l, p, t) is None ==> {
                    &&& s.stat() == stat_after_lock_check(conf, st0, now)
                    &&& final(suspicious)@ == old(suspicious)@.insert(l, s.stat())
                    &&& login_locked(conf, st0, now) ==> a == AuthAction::Finish(
                        TicketOutcome::Denied(ResultCode::TooManyRequests),
                    ) && s.phase() == AuthPhase::Done
                    &&& !login_locked(conf, st0, now) ==> (a matches AuthAction::FindCandidates { login: x }
                        && x@ == l) && s.phase() == AuthPhase::AwaitCandidates
                }
            }),
    {
        let login = match login { Some(x) => x.to_owned(), None => String::new() };
        let password = match password { Some(x) => x.to_owned(), None => String::new() };
        let secret = match secret { Some(x) => x.to_owned(), None => String::new() };
        let mut session = AuthSession {
            conf,
            login,
            password,
            secret,
            stat: UserStat::default(),
            candidates: Vec::new(),
            current: 0,
            account: AccountInfo {
                owner: String::new(),
                login: String::new(),
                uses_credential: None,
                password: String::new(),
                mailbox: String::new(),
            },
            account_now: 0,
            exist_password: String::new(),
            edited: 0,
            new_secret: String::new(),
            pending: ResultCode::AuthenticationFailed,
            phase: AuthPhase::Done,
        };
        if let Some(o) = precheck(session.login.as_str(), session.password.as_str(), session.secret.as_str()) {
            return (session, AuthAction::Finish(o));
        }
        let mut stat = suspicious.entry_or_default(session.login.as_str());
        let locked = lock_check(&session.conf, &mut stat, now);
        suspicious.set(session.login.as_str(), stat);
        session.stat = stat;
        if locked {
            return (session, AuthAction::Finish(TicketOutcome::Denied(ResultCode::TooManyRequests)));
        }
        session.phase = AuthPhase::AwaitCandidates;
        let l = session.login.clone();
        (session, AuthAction::FindCandidates { login: l })
    }

    /// The answer to a credential: what the verdict asks for, with the
    /// statistics counted at time `now`.
    pub open spec fn decided(
        old: &AuthSession,
        new: &AuthSession,
        a: AuthAction,
        cred: CredentialInfo,
        exist: Seq<char>,
        edited: i64,
        now: i64,
    ) -> bool {
        let v = verdict(old.conf(), old.secret(), old.password(), old.stat(), exist, edited, cred, old.account_now());
        &&& new.stat() == stat_after_verdict(old.conf(), v, old.stat(), now)
        &&& new.account() == old.account()
        &&& new.account_now() == old.account_now()
        &&& match v {
            Verdict::RejectAndRemoveSecret(code) => {
                &&& a matches AuthAction::RemoveSecret { person_id } && person_id@ == old.account().owner@
                &&& new.phase() == AuthPhase::AwaitSecretRemoved
                &&& new.pending() == code
            },
            Verdict::Reject(code) => a == AuthAction::Finish(TicketOutcome::Denied(code)) && new.phase()
                == AuthPhase::Done,
            Verdict::ChangePassword => {
                &&& a matches AuthAction::StorePassword { password, date_from } && password@ == old.password()
                    && date_from == old.account_now()
                &&& new.phase() == AuthPhase::AwaitPasswordStored
            },
            Verdict::TooManyRenewals => a == AuthAction::Finish(
                TicketOutcome::Denied(ResultCode::TooManyRequestsChangePassword),
            ) && new.phase() == AuthPhase::Done,
            Verdict::Renew => {
                &&& a matches AuthAction::StoreSecret { secret, date_from } && secret@ == new.new_secret()
                    && date_from == old.account_now()
                &&& exists|n: u32| 100_000 <= n < 999_999 && new.new_secret() == secret_code_text(n)
                &&& new.phase() == AuthPhase::AwaitSecretStored
            },
            Verdict::Accept => {
                &&& a matches AuthAction::IssueTicket { login, user_id, lifetime } && login@ == old.login()
                    && user_id@ == old.account().owner@ && lifetime == old.conf().ticket_lifetime
                &&& new.phase() == AuthPhase::AwaitLoginTicket
            },
            Verdict::WrongPassword => AuthSession::moves_on(old, new, a),
        }
    }

    /// How one answer moves the request on.
    pub open spec fn transition(old: &AuthSession, new: &AuthSession, event: AuthEvent, now: i64, a: AuthAction) -> bool {
        match event {
            AuthEvent::Candidates(found) => {
                &&& new.stat() == old.stat()
                &&& match found {
                    Some(ids) => if ids@.len() > 0 {
                        &&& a matches AuthAction::ReadAccount { id } && id@ == ids@[0]@
                        &&& new.phase() == AuthPhase::AwaitAccount
                        &&& new.candidates() == ids@
                        &&& new.current() == 0
                    } else {
                        a == AuthAction::Finish(TicketOutcome::Denied(ResultCode::AuthenticationFailed))
                    },
                    None => a == AuthAction::Finish(TicketOutcome::Denied(ResultCode::AuthenticationFailed)),
                }
            },
            AuthEvent::Account(found) => {
                &&& new.stat() == old.stat()
                &&& match found {
                    Some(acc) => if login_matches(acc, old.login()) {
                        &&& a matches AuthAction::ReadPerson { id } && id@ == acc.owner@
                        &&& new.phase() == AuthPhase::AwaitPerson
                        &&& new.account() == acc
                        &&& new.current() == old.current()
                        &&& new.candidates() == old.candidates()
                    } else {
                        AuthSession::moves_on(old, new, a)
                    },
                    None => AuthSession::moves_on(old, new, a),
                }
            },
            AuthEvent::Person(found) => {
                &&& new.stat() == old.stat()
                &&& if found {
                    &&& new.account() == old.account()
                    &&& new.account_now() == now
                    &&& new.current() == old.current()
                    &&& new.candidates() == old.candidates()
                    &&& match old.account().uses_credential {
                        Some(uri) => {
                            &&& a matches AuthAction::ReadCredential { uri: u } && u@ == uri@
                            &&& new.phase() == AuthPhase::AwaitCredential
                        },
                        None => {
                            &&& a matches AuthAction::CreateCredential
                            &&& new.phase() == AuthPhase::AwaitNewCredential
                            &&& new.exist_password() == old.account().password@
                            &&& new.edited() == 0
                        },
                    }
                } else {
                    AuthSession::moves_on(old, new, a)
                }
            },
            AuthEvent::Credential(found) => match found {
                Some(cred) => AuthSession::decided(old, new, a, cred, cred.password@, cred.date_from, now),
                None => {
                    &&& a matches AuthAction::CreateCredential
                    &&& new.phase() == AuthPhase::AwaitNewCredential
                    &&& new.stat() == old.stat()
                    &&& new.exist_password() == Seq::<char>::empty()
                    &&& new.edited() == 0
                    &&& new.account() == old.account()
                    &&& new.account_now() == old.account_now()
                    &&& new.current() == old.current()
                    &&& new.candidates() == old.candidates()
                },
            },
            AuthEvent::NewCredential(cred) => AuthSession::decided(
                old,
                new,
                a,
                cred,
                old.exist_password(),
                old.edited(),
                now,
            ),
            AuthEvent::SecretRemoved => {
                &&& a == AuthAction::Finish(TicketOutcome::Denied(old.pending()))
                &&& new.stat() == old.stat()
            },
            AuthEvent::Stored(ok) => {
                &&& new.stat() == old.stat()
                &&& if old.phase() == AuthPhase::AwaitPasswordStored {
                    if ok {
                        &&& a matches AuthAction::IssueTicket { login, user_id, lifetime } && login@ == old.login()
                            && user_id@ == old.account().owner@ && lifetime == old.conf().ticket_lifetime
                        &&& new.phase() == AuthPhase::AwaitChangeTicket
                    } else {
                        a == AuthAction::Finish(TicketOutcome::Denied(ResultCode::AuthenticationFailed))
                    }
                } else if old.phase() == AuthPhase::AwaitSecretStored {
                    if !ok {
                        a == AuthAction::Finish(TicketOutcome::Denied(ResultCode::InternalServerError))
                    } else if is_mailbox(old.account().mailbox@) {
                        &&& a matches AuthAction::StoreMail { id, mailbox, created, body } && mailbox@
                            == old.account().mailbox@ && created == old.account_now() && body@ == mail_body(
                            old.new_secret(),
                        ) && exists|u: Seq<char>| is_uuid_text(u) && id@ == "d:mail_"@ + u
                        &&& new.phase() == AuthPhase::AwaitMailStored
                    } else {
                        a == AuthAction::Finish(TicketOutcome::Denied(ResultCode::PasswordExpired))
                    }
                } else {
                    if ok {
                        a == AuthAction::Finish(TicketOutcome::Denied(ResultCode::PasswordExpired))
                    } else {
                        a == AuthAction::Finish(TicketOutcome::Denied(ResultCode::AuthenticationFailed))
                    }
                }
            },
            AuthEvent::TicketIssued => {
                &&& a == AuthAction::Finish(TicketOutcome::Issued)
                &&& if old.phase() == AuthPhase::AwaitChangeTicket {
                    new.stat() == UserStat { attempt_change_pass: 0, ..old.stat() }
                } else {
                    new.stat() == UserStat { wrong_count_login: 0, last_wrong_login_date: 0, ..old.stat() }
                }
            },
        }
    }

    fn move_on(&mut self) -> (a: AuthAction)
        requires
            old(self).current < old(self).candidates@.len(),
        ensures
            final(self).same_request(old(self)),
            final(self).stat() == old(self).stat(),
            final(self).account() == old(self).account(),
            final(self).account_now() == old(self).account_now(),
            AuthSession::moves_on(old(self), final(self), a),
    {
        proof {
            use_type_invariant(&*self);
        }
        if self.current < self.candidates.len() - 1 {
            self.current = self.current + 1;
            self.phase = AuthPhase::AwaitAccount;
            AuthAction::ReadAccount { id: self.candidates[self.current].clone() }
        } else {
            self.phase = AuthPhase::Done;
            AuthAction::Finish(TicketOutcome::Denied(ResultCode::AuthenticationFailed))
        }
    }

    fn decide(&mut self, cred: CredentialInfo, now: i64) -> (a: AuthAction)
        requires
            old(self).current < old(self).candidates@.len(),
            !verdict_overflows(
                old(self).conf,
                verdict(
                    old(self).conf,
                    old(self).secret@,
                    old(self).password@,
                    old(self).stat,
                    old(self).exist_password@,
                    old(self).edited,
                    cred,
                    old(self).account_now,
                ),
                old(self).stat,
            ),
        ensures
            final(self).same_request(old(self)),
            AuthSession::decided(old(self), final(self), a, cred, old(self).exist_password(), old(self).edited(), now),
    {
        let v = credential_verdict(
            &self.conf,
            self.secret.as_str(),
            self.password.as_str(),
            &self.stat,
            self.exist_password.as_str(),
            self.edited,
            &cred,
            self.account_now,
        );
        let mut stat = self.stat;
        count_verdict(&self.conf, v, &mut stat, now);
        self.stat = stat;
        match v {
            Verdict::RejectAndRemoveSecret(code) => {
                self.pending = code;
                self.phase = AuthPhase::AwaitSecretRemoved;
                AuthAction::RemoveSecret { person_id: self.account.owner.clone() }
            },
            Verdict::Reject(code) => {
                self.phase = AuthPhase::Done;
                AuthAction::Finish(TicketOutcome::Denied(code))
            },
            Verdict::ChangePassword => {
                self.phase = AuthPhase::AwaitPasswordStored;
                AuthAction::StorePassword { password: self.password.clone(), date_from: self.account_now }
            },
            Verdict::TooManyRenewals => {
                self.phase = AuthPhase::Done;
                AuthAction::Finish(TicketOutcome::Denied(ResultCode::TooManyRequestsChangePassword))
            },
            Verdict::Renew => {
                self.new_secret = new_secret_code();
                self.phase = AuthPhase::AwaitSecretStored;
                AuthAction::StoreSecret { secret: self.new_secret.clone(), date_from: self.account_now }
            },
            Verdict::Accept => {
                self.phase = AuthPhase::AwaitLoginTicket;
                AuthAction::IssueTicket {
                    login: self.login.clone(),
                    user_id: self.account.owner.clone(),
                    lifetime: self.conf.ticket_lifetime,
                }
            },
            Verdict::WrongPassword => self.move_on(),
        }
    }

    /// Takes the answer to the last action, at time `now`, and tells what is
    /// done next. The login's statistics are kept in `suspicious`.
    pub fn step(&mut self, event: AuthEvent, now: i64, suspicious: &mut SuspiciousUsers) -> (a: AuthAction)
        requires
            old(suspicious).wf(),
            answers(old(self).phase(), event),
            !old(self).overflows(event),
        ensures
            final(suspicious).wf(),
            final(self).same_request(old(self)),
            final(suspicious)@ == old(suspicious)@.insert(old(self).login(), final(self).stat()),
            a is Finish <==> final(self).phase() == AuthPhase::Done,
            AuthSession::transition(old(self), final(self), event, now, a),
    {
        let a = self.advance(event, now);
        suspicious.set(self.login.as_str(), self.stat);
        a
    }

    fn advance(&mut self, event: AuthEvent, now: i64) -> (a: AuthAction)
        requires
            answers(old(self).phase(), event),
            !old(self).overflows(event),
        ensures
            final(self).same_request(old(self)),
            a is Finish <==> final(self).phase() == AuthPhase::Done,
            AuthSession::transition(old(self), final(self), event, now, a),
    {
        proof {
            use_type_invariant(&*self);
        }
        let phase = self.phase;
        match event {
            AuthEvent::Candidates(found) => {
                match found {
                    Some(ids) => {
                        if ids.len() > 0 {
                            self.candidates = ids;
                            self.current = 0;
                            self.phase = AuthPhase::AwaitAccount;
                            AuthAction::ReadAccount { id: self.candidates[0].clone() }
                        } else {
                            self.phase = AuthPhase::Done;
                            AuthAction::Finish(TicketOutcome::Denied(ResultCode::AuthenticationFailed))
                        }
                    },
                    None => {
                        self.phase = AuthPhase::Done;
                        AuthAction::Finish(TicketOutcome::Denied(ResultCode::AuthenticationFailed))
                    },
                }
            },
            AuthEvent::Account(found) => {
                match found {
                    Some(acc) => {
                        if account_matches(&acc, self.login.as_str()) {
                            let id = acc.owner.clone();
                            self.account = acc;
                            self.phase = AuthPhase::AwaitPerson;
                            AuthAction::ReadPerson { id }
                        } else {
                            self.move_on()
                        }
                    },
                    None => self.move_on(),
                }
            },
            AuthEvent::Person(found) => {
                if !found {
                    return self.move_on();
                }
                self.account_now = now;
                match &self.account.uses_credential {
                    Some(uri) => {
                        let u = uri.clone();
                        self.phase = AuthPhase::AwaitCredential;
                        AuthAction::ReadCredential { uri: u }
                    },
                    None => {
                        self.exist_password = self.account.password.clone();
                        self.edited = 0;
                        self.phase = AuthPhase::AwaitNewCredential;
                        AuthAction::CreateCredential
                    },
                }
            },
            AuthEvent::Credential(found) => {
                match found {
                    Some(cred) => {
                        self.exist_password = cred.password.clone();
                        self.edited = cred.date_from;
                        self.decide(cred, now)
                    },
                    None => {
                        self.exist_password = String::new();
                        self.edited = 0;
                        self.phase = AuthPhase::AwaitNewCredential;
                        AuthAction::CreateCredential
                    },
                }
            },
            AuthEvent::NewCredential(cred) => self.decide(cred, now),
            AuthEvent::SecretRemoved => {
                self.phase = AuthPhase::Done;
                AuthAction::Finish(TicketOutcome::Denied(self.pending))
            },
            AuthEvent::Stored(ok) => {
                if phase == AuthPhase::AwaitPasswordStored {
                    if !ok {
                        self.phase = AuthPhase::Done;
                        return AuthAction::Finish(TicketOutcome::Denied(ResultCode::AuthenticationFailed));
                    }
                    self.phase = AuthPhase::AwaitChangeTicket;
                    AuthAction::IssueTicket {
                        login: self.login.clone(),
                        user_id: self.account.owner.clone(),
                        lifetime: self.conf.ticket_lifetime,
                    }
                } else if phase == AuthPhase::AwaitSecretStored {
                    if !ok {
                        self.phase = AuthPhase::Done;
                        return AuthAction::Finish(TicketOutcome::Denied(ResultCode::InternalServerError));
                    }
                    let mailbox = self.account.mailbox.as_str();
                    if !mailbox.is_empty() && mailbox.len() > 3 {
                        let uuid = new_uuid_text();
                        let id = concat("d:mail_", uuid.as_str());
                        let body = concat("your secret code is ", self.new_secret.as_str());
                        let mb = self.account.mailbox.clone();
                        self.phase = AuthPhase::AwaitMailStored;
                        AuthAction::StoreMail { id, mailbox: mb, created: self.account_now, body }
                    } else {
                        self.phase = AuthPhase::Done;
                        AuthAction::Finish(TicketOutcome::Denied(ResultCode::PasswordExpired))
                    }
                } else {
                    self.phase = AuthPhase::Done;
                    if !ok {
                        AuthAction::Finish(TicketOutcome::Denied(ResultCode::AuthenticationFailed))
                    } else {
                        AuthAction::Finish(TicketOutcome::Denied(ResultCode::PasswordExpired))
                    }
                }
            },
            AuthEvent::TicketIssued => {
                if phase == AuthPhase::AwaitChangeTicket {
                    self.stat.attempt_change_pass = 0;
                } else {
                    self.stat.wrong_count_login = 0;
                    self.stat.last_wrong_login_date = 0;
                }
                self.phase = AuthPhase::Done;
                AuthAction::Finish(TicketOutcome::Issued)
            },
        }
    }

    /// Takes the answer to the last action at the current time.
    pub fn step_now(&mut self, event: AuthEvent, suspicious: &mut SuspiciousUsers) -> (a: AuthAction)
        requires
            old(suspicious).wf(),
            answers(old(self).phase(), event),
            !old(self).overflows(event),
        ensures
            final(suspicious).wf(),
            final(self).same_request(old(self)),
            final(suspicious)@ == old(suspicious)@.insert(old(self).login(), final(self).stat()),
            a is Finish <==> final(self).phase() == AuthPhase::Done,
            exists|now: i64| #[trigger] AuthSession::transition(old(self), final(self), event, now, a),
    {
        let now = unix_now();
        let a = self.step(event, now, suspicious);
        assert(AuthSession::transition(old(self), self, event, now, a));
        a
    }

    /// The phase of the request.
    pub fn current_phase(&self) -> (p: AuthPhase)
        ensures
            p == self.phase(),
    {
        self.phase
    }

    /// Whether taking the event would overflow the login's statistics.
    pub fn step_overflows(&self, event: &AuthEvent) -> (r: bool)
        ensures
            r == self.overflows(*event),
    {
        let v = match event {
            AuthEvent::Credential(Some(cred)) => credential_verdict(
                &self.conf,
                self.secret.as_str(),
                self.password.as_str(),
                &self.stat,
                cred.password.as_str(),
                cred.date_from,
                cred,
                self.account_now,
            ),
            AuthEvent::NewCredential(cred) => credential_verdict(
                &self.conf,
                self.secret.as_str(),
                self.password.as_str(),
                &self.stat,
                self.exist_password.as_str(),
                self.edited,
                cred,
                self.account_now,
            ),
            _ => return false,
        };
        match v {
            Verdict::WrongPassword => self.stat.wrong_count_login == i32::MAX,
            Verdict::TooManyRenewals => self.conf.failed_auth_attempts == i32::MAX,
            _ => false,
        }
    }
}

/// A login is accepted only with the account's stored password, when that
/// password is not empty, the supplied one is at least 64 bytes long, and no
/// secret code or renewal is asked for.
pub proof fn law_login_needs_stored_password(
    conf: AuthConf,
    secret: Seq<char>,
    password: Seq<char>,
    stat: UserStat,
    exist: Seq<char>,
    edited: i64,
    cred: CredentialInfo,
    now: i64,
)
    ensures
        verdict(conf, secret, password, stat, exist, edited, cred, now) == Verdict::Accept ==> {
            &&& exist == password
            &&& exist.len() > 0
            &&& byte_len(password) >= 64
            &&& !is_code(secret)
            &&& !wants_renewal(conf, secret, edited, now)
        },
{
}

/// A password is changed only with the secret code that was sent, while it
/// is fresh, and only to a password that differs from the old one and is not
/// the empty one.
pub proof fn law_change_needs_valid_code(
    conf: AuthConf,
    secret: Seq<char>,
    password: Seq<char>,
    stat: UserStat,
    exist: Seq<char>,
    edited: i64,
    cred: CredentialInfo,
    now: i64,
)
    ensures
        verdict(conf, secret, password, stat, exist, edited, cred, now) == Verdict::ChangePassword ==> {
            &&& is_code(secret)
            &&& secret == cred.secret@
            &&& now - cred.secret_date_from <= conf.secret_lifetime
            &&& password != exist
            &&& password != empty_password_hash()
            &&& !within(now, edited, conf.success_pass_change_lock_period)
        },
{
}

/// Each wrong password counts one more failed login, dated now; nothing else
/// in the statistics changes.
pub proof fn law_wrong_password_counted(conf: AuthConf, stat: UserStat, now: i64)
    requires
        stat.wrong_count_login < i32::MAX,
    ensures
        stat_after_verdict(conf, Verdict::WrongPassword, stat, now) == (UserStat {
            wrong_count_login: (stat.wrong_count_login + 1) as i32,
            last_wrong_login_date: now,
            ..stat
        }),
        stat_after_verdict(conf, Verdict::WrongPassword, stat, now).wrong_count_login == stat.wrong_count_login + 1,
{
}

/// A locked login stays locked: the lock check leaves its statistics as
/// they are, so the next request within the period is refused again.
pub proof fn law_lock_persists(conf: AuthConf, stat: UserStat, now: i64, later: i64)
    requires
        login_locked(conf, stat, now),
        now <= later,
        later - stat.last_wrong_login_date < conf.failed_auth_lock_period,
    ensures
        stat_after_lock_check(conf, stat, now) == stat,
        login_locked(conf, stat_after_lock_check(conf, stat, now), later),
{
}

/// A ticket is asked for only when the credential's verdict accepts the
/// password, or when a password changed by a valid code has been stored.
pub proof fn law_ticket_only_when_earned(old: AuthSession, new: AuthSession, e: AuthEvent, now: i64, a: AuthAction)
    requires
        answers(old.phase(), e),
        AuthSession::transition(&old, &new, e, now, a),
        a is IssueTicket,
    ensures
        match e {
            AuthEvent::Credential(Some(cred)) => verdict(
                old.conf(),
                old.secret(),
                old.password(),
                old.stat(),
                cred.password@,
                cred.date_from,
                cred,
                old.account_now(),
            ) == Verdict::Accept,
            AuthEvent::NewCredential(cred) => verdict(
                old.conf(),
                old.secret(),
                old.password(),
                old.stat(),
                old.exist_password(),
                old.edited(),
                cred,
                old.account_now(),
            ) == Verdict::Accept,
            AuthEvent::Stored(ok) => ok && old.phase() == AuthPhase::AwaitPasswordStored,
            _ => false,
        },
{
}

/// A successful login clears the count of failed logins.
pub proof fn law_login_clears_failures(old: AuthSession, new: AuthSession, now: i64, a: AuthAction)
    requires
        old.phase() == AuthPhase::AwaitLoginTicket,
        AuthSession::transition(&old, &new, AuthEvent::TicketIssued, now, a),
    ensures
        new.stat().wrong_count_login == 0,
        new.stat().last_wrong_login_date == 0,
        a == AuthAction::Finish(TicketOutcome::Issued),
{
}

/// The suspicious-user table after each of the steps of one request: a
/// step leaves it as it was (`None`) or sets the entry of the request's
/// login (`Some`), which is what `start` and `step` promise of it.
pub open spec fn exchange_tables(first: Map<Seq<char>, UserStat>, login: Seq<char>, sets: Seq<Option<UserStat>>) -> Seq<
    Map<Seq<char>, UserStat>,
>
    decreases sets.len(),
{
    if sets.len() == 0 {
        seq![first]
    } else {
        let before = exchange_tables(first, login, sets.drop_last());
        let last = before.last();
        before.push(
            match sets.last() {
                Some(st) => last.insert(login, st),
                None => last,
            },
        )
    }
}

proof fn lemma_exchange_tables(first: Map<Seq<char>, UserStat>, login: Seq<char>, sets: Seq<Option<UserStat>>)
    ensures
        exchange_tables(first, login, sets).len() == sets.len() + 1,
        exchange_tables(first, login, sets)[0] == first,
        exchange_tables(first, login, sets).last().remove(login) == first.remove(login),
        exchange_tables(first, login, sets).last().dom().subset_of(first.dom().insert(login)),
    decreases sets.len(),
{
    if sets.len() > 0 {
        lemma_exchange_tables(first, login, sets.drop_last());
        let before = exchange_tables(first, login, sets.drop_last());
        let last = before.last();
        let next = match sets.last() {
            Some(st) => last.insert(login, st),
            None => last,
        };
        assert(next.remove(login) =~= last.remove(login));
        assert(exchange_tables(first, login, sets) == before.push(next));
    }
}

/// Over a whole request only the entry of the request's login, as given,
/// changes in the suspicious-user table: every other login keeps its entry
/// or its absence, and the table gains at most that one login.
pub proof fn law_exchange_touches_only_login(table: SuspiciousUsers, login: Seq<char>, sets: Seq<Option<UserStat>>)
    ensures
        ({
            let first = table@;
            let last = exchange_tables(first, login, sets).last();
            &&& forall|k: Seq<char>| k != login ==> (#[trigger] last.contains_key(k) == first.contains_key(k))
            &&& forall|k: Seq<char>| k != login && first.contains_key(k) ==> #[trigger] last[k] == first[k]
            &&& last.dom().subset_of(first.dom().insert(login))
            &&& last.len() <= first.len() + 1
        }),
{
    let first = table@;
    table.lemma_finite();
    lemma_exchange_tables(first, login, sets);
    let last = exchange_tables(first, login, sets).last();
    assert forall|k: Seq<char>| k != login implies (#[trigger] last.contains_key(k) == first.contains_key(k)) by {
        assert(last.remove(login).contains_key(k) == last.contains_key(k));
        assert(first.remove(login).contains_key(k) == first.contains_key(k));
    }
    assert forall|k: Seq<char>| k != login && first.contains_key(k) implies #[trigger] last[k] == first[k] by {
        assert(last.remove(login)[k] == last[k]);
        assert(first.remove(login)[k] == first[k]);
    }
    vstd::set_lib::lemma_len_subset(last.dom(), first.dom().insert(login));
}

/// An account without a credential is checked against its own stored
/// password: once its person is found a credential is created, and a login
/// whose password equals the account's stored password (not empty, at least
/// 64 bytes, no secret) is issued a ticket for the account's owner.
pub proof fn law_account_password_checked_without_credential(
    s0: AuthSession,
    s1: AuthSession,
    s2: AuthSession,
    cred: CredentialInfo,
    now1: i64,
    now2: i64,
    a1: AuthAction,
    a2: AuthAction,
)
    requires
        s0.account().uses_credential is None,
        AuthSession::transition(&s0, &s1, AuthEvent::Person(true), now1, a1),
        s1.same_request(&s0),
        AuthSession::transition(&s1, &s2, AuthEvent::NewCredential(cred), now2, a2),
        s0.secret().len() == 0,
        s0.password() == s0.account().password@,
        s0.password().len() > 0,
        byte_len(s0.password()) >= 64,
    ensures
        a1 is CreateCredential,
        s1.exist_password() == s0.account().password@,
        a2 matches AuthAction::IssueTicket { login, user_id, lifetime } && login@ == s0.login() && user_id@
            == s0.account().owner@ && lifetime == s0.conf().ticket_lifetime,
{
    assert(s0.secret() != "?"@) by {
        reveal_strlit("?");
    }
}

/// A login whose count of failed logins has reached the limit or gone past
/// it (a refused renewal sets it one past), and whose last failure is within
/// the lock period, is locked, and the lock check leaves its statistics as
/// they are; a login under the limit is never locked.
pub proof fn law_lock_at_or_past_limit(conf: AuthConf, stat: UserStat, now: i64)
    ensures
        stat.wrong_count_login >= conf.failed_auth_attempts && now - stat.last_wrong_login_date
            < conf.failed_auth_lock_period ==> login_locked(conf, stat, now) && stat_after_lock_check(conf, stat, now)
            == stat,
        stat.wrong_count_login >= conf.failed_auth_attempts && now - stat.last_wrong_login_date
            >= conf.failed_auth_lock_period ==> !login_locked(conf, stat, now) && stat_after_lock_check(
            conf,
            stat,
            now,
        ) == (UserStat { wrong_count_login: 0, last_wrong_login_date: now, ..stat }),
        stat.wrong_count_login < conf.failed_auth_attempts ==> !login_locked(conf, stat, now)
            && stat_after_lock_check(conf, stat, now) == stat,
{
}

/// A refusal that removes the secret ends with its own code: after the
/// secret is removed, the request is denied with the code that the verdict
/// gave, so that a valid, fresh code that comes with the old password is
/// answered `NewPasswordIsEqualToOld`.
pub proof fn law_removed_secret_keeps_code(
    s0: AuthSession,
    s1: AuthSession,
    s2: AuthSession,
    cred: CredentialInfo,
    now1: i64,
    now2: i64,
    a1: AuthAction,
    a2: AuthAction,
)
    requires
        AuthSession::transition(&s0, &s1, AuthEvent::Credential(Some(cred)), now1, a1),
        AuthSession::transition(&s1, &s2, AuthEvent::SecretRemoved, now2, a2),
    ensures
        verdict(
            s0.conf(),
            s0.secret(),
            s0.password(),
            s0.stat(),
            cred.password@,
            cred.date_from,
            cred,
            s0.account_now(),
        ) matches Verdict::RejectAndRemoveSecret(code) ==> a1 is RemoveSecret && a2 == AuthAction::Finish(
            TicketOutcome::Denied(code),
        ),
        is_code(s0.secret()) && cred.secret@ == s0.secret() && s0.account_now() - cred.secret_date_from
            <= s0.conf().secret_lifetime && cred.password@ == s0.password() ==> a2 == AuthAction::Finish(
            TicketOutcome::Denied(ResultCode::NewPasswordIsEqualToOld),
        ),
{
}

} // verus!
