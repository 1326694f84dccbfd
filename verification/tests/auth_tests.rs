use veda_logic::auth::{
    account_matches, credential_verdict, lock_check, precheck, secret_code, AccountInfo, AuthAction, AuthConf,
    AuthEvent, AuthPhase, AuthSession, CredentialInfo, TicketOutcome, Verdict, EMPTY_SHA256_HASH,
};
use veda_logic::codes::ResultCode;
use veda_logic::user_stats::{SuspiciousUsers, UserStat};

fn conf() -> AuthConf {
    AuthConf {
        failed_auth_attempts: 3,
        failed_change_pass_attempts: 2,
        failed_auth_lock_period: 1800,
        failed_pass_change_lock_period: 86400,
        success_pass_change_lock_period: 86400,
        ticket_lifetime: 36000,
        secret_lifetime: 43200,
        pass_lifetime: 7776000,
    }
}

fn pw(c: char) -> String {
    std::iter::repeat(c).take(64).collect()
}

fn account(uses_credential: Option<&str>) -> AccountInfo {
    AccountInfo {
        owner: "td:User1".to_string(),
        login: "Karpovr".to_string(),
        uses_credential: uses_credential.map(|s| s.to_string()),
        password: pw('a'),
        mailbox: "karpovr@example.org".to_string(),
    }
}

fn cred(password: &str, date_from: i64, secret: &str, secret_date_from: i64) -> CredentialInfo {
    CredentialInfo {
        password: password.to_string(),
        date_from,
        secret: secret.to_string(),
        secret_date_from,
    }
}

#[test]
fn precheck_refuses_short_login() {
    assert_eq!(precheck("ab", "", ""), Some(TicketOutcome::Unchanged));
    assert_eq!(precheck("", "", ""), Some(TicketOutcome::Unchanged));
    // Three bytes but two characters: the length is counted in bytes.
    assert_eq!(precheck("жa", "", ""), None);
}

#[test]
fn precheck_refuses_empty_new_password() {
    assert_eq!(
        precheck("karpovr", EMPTY_SHA256_HASH, "123456"),
        Some(TicketOutcome::Denied(ResultCode::EmptyPassword))
    );
}

#[test]
fn precheck_refuses_short_secret() {
    assert_eq!(precheck("karpovr", &pw('a'), "12345"), Some(TicketOutcome::Denied(ResultCode::InvalidSecret)));
    assert_eq!(precheck("karpovr", &pw('a'), "?"), None);
    assert_eq!(precheck("karpovr", &pw('a'), ""), None);
}

#[test]
fn lock_check_locks_and_lifts() {
    let c = conf();
    let mut s = UserStat { wrong_count_login: 3, last_wrong_login_date: 1000, attempt_change_pass: 0, last_attempt_change_pass_date: 0 };
    assert!(lock_check(&c, &mut s, 1500));
    assert_eq!(s.wrong_count_login, 3);
    assert!(!lock_check(&c, &mut s, 1000 + 1800));
    assert_eq!(s.wrong_count_login, 0);
    assert_eq!(s.last_wrong_login_date, 2800);
}

#[test]
fn account_login_compared_without_case() {
    assert!(account_matches(&account(None), "KARPOVR"));
    assert!(account_matches(&account(None), "karpovr"));
    assert!(!account_matches(&account(None), "karpov"));
    let mut a = account(None);
    a.owner = String::new();
    assert!(!account_matches(&a, "karpovr"));
}

#[test]
fn verdict_accepts_stored_password() {
    let s = UserStat::default();
    let p = pw('b');
    let c = cred(&p, 100, "", 0);
    assert_eq!(credential_verdict(&conf(), "", &p, &s, &p, 100, &c, 200), Verdict::Accept);
    assert_eq!(credential_verdict(&conf(), "", &pw('c'), &s, &p, 100, &c, 200), Verdict::WrongPassword);
    // Passwords shorter than 64 bytes are never accepted.
    assert_eq!(credential_verdict(&conf(), "", "short", &s, "short", 100, &c, 200), Verdict::WrongPassword);
}

#[test]
fn verdict_on_secret_codes() {
    let s = UserStat::default();
    let old = pw('o');
    let new = pw('n');
    let now = 10_000_000;
    let c = cred(&old, 100, "654321", now - 10);
    assert_eq!(credential_verdict(&conf(), "654321", &new, &s, &old, 100, &c, now), Verdict::ChangePassword);
    assert_eq!(
        credential_verdict(&conf(), "111111", &new, &s, &old, 100, &c, now),
        Verdict::RejectAndRemoveSecret(ResultCode::InvalidSecret)
    );
    assert_eq!(
        credential_verdict(&conf(), "654321", &old, &s, &old, 100, &c, now),
        Verdict::RejectAndRemoveSecret(ResultCode::NewPasswordIsEqualToOld)
    );
    assert_eq!(
        credential_verdict(&conf(), "654321", EMPTY_SHA256_HASH, &s, &old, 100, &c, now),
        Verdict::RejectAndRemoveSecret(ResultCode::EmptyPassword)
    );
    let expired = cred(&old, 100, "654321", now - 50_000);
    assert_eq!(
        credential_verdict(&conf(), "654321", &new, &s, &old, 100, &expired, now),
        Verdict::Reject(ResultCode::SecretExpired)
    );
    assert_eq!(
        credential_verdict(&conf(), "654321", &new, &s, &old, now - 10, &c, now),
        Verdict::Reject(ResultCode::Locked)
    );
    let no_secret = cred(&old, 100, "", 0);
    assert_eq!(
        credential_verdict(&conf(), "654321", &new, &s, &old, 100, &no_secret, now),
        Verdict::RejectAndRemoveSecret(ResultCode::InvalidSecret)
    );
}

#[test]
fn verdict_on_renewal() {
    let now = 100_000_000;
    let old = pw('o');
    let c = cred(&old, 1000, "", 0);
    let s = UserStat::default();
    assert_eq!(credential_verdict(&conf(), "?", "", &s, &old, 1000, &c, now), Verdict::Renew);
    // An old password asks for renewal.
    assert_eq!(credential_verdict(&conf(), "", &old, &s, &old, 1000, &c, now), Verdict::Renew);
    let many = UserStat { attempt_change_pass: 2, last_attempt_change_pass_date: now - 100, ..UserStat::default() };
    assert_eq!(credential_verdict(&conf(), "?", "", &many, &old, 1000, &c, now), Verdict::TooManyRenewals);
    let recent = cred(&old, now - 100, "", 0);
    assert_eq!(credential_verdict(&conf(), "?", "", &s, &old, now - 100, &recent, now), Verdict::Reject(ResultCode::Locked));
}

#[test]
fn secret_code_is_decimal() {
    assert_eq!(secret_code(123456), "123456");
    assert_eq!(secret_code(999998), "999998");
}

fn start(login: &str, password: &str, secret: &str, m: &mut SuspiciousUsers, now: i64) -> (AuthSession, AuthAction) {
    AuthSession::start(conf(), Some(login), Some(password), Some(secret), m, now)
}

#[test]
fn login_with_right_password_issues_ticket() {
    let mut m = SuspiciousUsers::new();
    m.set("Karpovr", UserStat { wrong_count_login: 2, last_wrong_login_date: 50, ..UserStat::default() });
    let p = pw('p');
    let (mut s, a) = start("Karpovr", &p, "", &mut m, 1000);
    assert!(matches!(a, AuthAction::FindCandidates { ref login } if login == "Karpovr"));
    let a = s.step(AuthEvent::Candidates(Some(vec!["d:acc1".to_string()])), 1001, &mut m);
    assert!(matches!(a, AuthAction::ReadAccount { ref id } if id == "d:acc1"));
    let a = s.step(AuthEvent::Account(Some(account(Some("d:cred1")))), 1002, &mut m);
    assert!(matches!(a, AuthAction::ReadPerson { ref id } if id == "td:User1"));
    let a = s.step(AuthEvent::Person(true), 1003, &mut m);
    assert!(matches!(a, AuthAction::ReadCredential { ref uri } if uri == "d:cred1"));
    let a = s.step(AuthEvent::Credential(Some(cred(&p, 900, "", 0))), 1004, &mut m);
    assert!(matches!(a, AuthAction::IssueTicket { ref login, ref user_id, lifetime: 36000 } if login == "Karpovr" && user_id == "td:User1"));
    let a = s.step(AuthEvent::TicketIssued, 1005, &mut m);
    assert!(matches!(a, AuthAction::Finish(TicketOutcome::Issued)));
    assert_eq!(s.current_phase(), AuthPhase::Done);
    let st = m.get("Karpovr").unwrap();
    assert_eq!(st.wrong_count_login, 0);
    assert_eq!(st.last_wrong_login_date, 0);
}

#[test]
fn wrong_password_counts_and_fails() {
    let mut m = SuspiciousUsers::new();
    let (mut s, _) = start("karpovr", &pw('x'), "", &mut m, 1000);
    assert_eq!(m.get("karpovr"), Some(UserStat::default()));
    s.step(AuthEvent::Candidates(Some(vec!["d:acc1".to_string(), "d:acc2".to_string()])), 1000, &mut m);
    s.step(AuthEvent::Account(Some(account(Some("d:cred1")))), 1000, &mut m);
    s.step(AuthEvent::Person(true), 1000, &mut m);
    let a = s.step(AuthEvent::Credential(Some(cred(&pw('p'), 900, "", 0))), 1010, &mut m);
    // The next candidate is tried.
    assert!(matches!(a, AuthAction::ReadAccount { ref id } if id == "d:acc2"));
    assert_eq!(m.get("karpovr").unwrap().wrong_count_login, 1);
    assert_eq!(m.get("karpovr").unwrap().last_wrong_login_date, 1010);
    let a = s.step(AuthEvent::Account(None), 1011, &mut m);
    assert!(matches!(a, AuthAction::Finish(TicketOutcome::Denied(ResultCode::AuthenticationFailed))));
}

#[test]
fn locked_login_is_refused() {
    let mut m = SuspiciousUsers::new();
    m.set("karpovr", UserStat { wrong_count_login: 3, last_wrong_login_date: 1000, ..UserStat::default() });
    let (_, a) = start("karpovr", &pw('x'), "", &mut m, 1500);
    assert!(matches!(a, AuthAction::Finish(TicketOutcome::Denied(ResultCode::TooManyRequests))));
}

#[test]
fn no_candidates_fails() {
    let mut m = SuspiciousUsers::new();
    let (mut s, _) = start("karpovr", &pw('x'), "", &mut m, 1500);
    let a = s.step(AuthEvent::Candidates(None), 1500, &mut m);
    assert!(matches!(a, AuthAction::Finish(TicketOutcome::Denied(ResultCode::AuthenticationFailed))));
}

#[test]
fn renewal_sends_secret_by_mail() {
    let mut m = SuspiciousUsers::new();
    let (mut s, _) = start("karpovr", "", "?", &mut m, 1000);
    s.step(AuthEvent::Candidates(Some(vec!["d:acc1".to_string()])), 1000, &mut m);
    s.step(AuthEvent::Account(Some(account(None))), 1000, &mut m);
    let a = s.step(AuthEvent::Person(true), 100_000_000, &mut m);
    assert!(matches!(a, AuthAction::CreateCredential));
    let a = s.step(AuthEvent::NewCredential(cred("", 0, "", 0)), 100_000_001, &mut m);
    let secret = match a {
        AuthAction::StoreSecret { secret, date_from } => {
            assert_eq!(date_from, 100_000_000);
            secret
        },
        other => panic!("unexpected {:?}", other),
    };
    assert_eq!(secret.len(), 6);
    let n: u32 = secret.parse().unwrap();
    assert!((100_000..999_999).contains(&n));
    assert_eq!(m.get("karpovr").unwrap().attempt_change_pass, 1);
    assert_eq!(m.get("karpovr").unwrap().last_attempt_change_pass_date, 100_000_001);
    let a = s.step(AuthEvent::Stored(true), 100_000_002, &mut m);
    match a {
        AuthAction::StoreMail { id, mailbox, created, body } => {
            assert!(id.starts_with("d:mail_"));
            let u = &id["d:mail_".len()..];
            assert_eq!(u.len(), 36);
            assert_eq!(&u[8..9], "-");
            assert!(u.chars().all(|c| c == '-' || c.is_ascii_digit() || ('a'..='f').contains(&c)));
            assert_eq!(mailbox, "karpovr@example.org");
            assert_eq!(created, 100_000_000);
            assert_eq!(body, format!("your secret code is {}", secret));
        },
        other => panic!("unexpected {:?}", other),
    }
    let a = s.step(AuthEvent::Stored(true), 100_000_003, &mut m);
    assert!(matches!(a, AuthAction::Finish(TicketOutcome::Denied(ResultCode::PasswordExpired))));
}

#[test]
fn change_password_with_code() {
    let mut m = SuspiciousUsers::new();
    let now = 10_000_000;
    let new = pw('n');
    let (mut s, _) = start("karpovr", &new, "654321", &mut m, now);
    s.step(AuthEvent::Candidates(Some(vec!["d:acc1".to_string()])), now, &mut m);
    s.step(AuthEvent::Account(Some(account(Some("d:cred1")))), now, &mut m);
    s.step(AuthEvent::Person(true), now, &mut m);
    let a = s.step(AuthEvent::Credential(Some(cred(&pw('o'), 100, "654321", now - 5))), now, &mut m);
    assert!(matches!(a, AuthAction::StorePassword { ref password, date_from } if *password == new && date_from == now));
    let a = s.step(AuthEvent::Stored(true), now, &mut m);
    assert!(matches!(a, AuthAction::IssueTicket { .. }));
    let a = s.step(AuthEvent::TicketIssued, now, &mut m);
    assert!(matches!(a, AuthAction::Finish(TicketOutcome::Issued)));
}

#[test]
fn wrong_code_removes_secret() {
    let mut m = SuspiciousUsers::new();
    let now = 10_000_000;
    let (mut s, _) = start("karpovr", &pw('n'), "111111", &mut m, now);
    s.step(AuthEvent::Candidates(Some(vec!["d:acc1".to_string()])), now, &mut m);
    s.step(AuthEvent::Account(Some(account(Some("d:cred1")))), now, &mut m);
    s.step(AuthEvent::Person(true), now, &mut m);
    let a = s.step(AuthEvent::Credential(Some(cred(&pw('o'), 100, "654321", now - 5))), now, &mut m);
    assert!(matches!(a, AuthAction::RemoveSecret { ref person_id } if person_id == "td:User1"));
    let a = s.step(AuthEvent::SecretRemoved, now, &mut m);
    assert!(matches!(a, AuthAction::Finish(TicketOutcome::Denied(ResultCode::InvalidSecret))));
}

#[test]
fn failed_store_of_password_fails() {
    let mut m = SuspiciousUsers::new();
    let now = 10_000_000;
    let (mut s, _) = start("karpovr", &pw('n'), "654321", &mut m, now);
    s.step(AuthEvent::Candidates(Some(vec!["d:acc1".to_string()])), now, &mut m);
    s.step(AuthEvent::Account(Some(account(Some("d:cred1")))), now, &mut m);
    s.step(AuthEvent::Person(true), now, &mut m);
    s.step(AuthEvent::Credential(Some(cred(&pw('o'), 100, "654321", now - 5))), now, &mut m);
    let a = s.step(AuthEvent::Stored(false), now, &mut m);
    assert!(matches!(a, AuthAction::Finish(TicketOutcome::Denied(ResultCode::AuthenticationFailed))));
}

#[test]
fn failed_store_of_secret_is_internal_error() {
    let mut m = SuspiciousUsers::new();
    let (mut s, _) = start("karpovr", "", "?", &mut m, 1000);
    s.step(AuthEvent::Candidates(Some(vec!["d:acc1".to_string()])), 1000, &mut m);
    s.step(AuthEvent::Account(Some(account(Some("d:cred1")))), 1000, &mut m);
    s.step(AuthEvent::Person(true), 100_000_000, &mut m);
    s.step(AuthEvent::Credential(None), 100_000_000, &mut m);
    let a = s.step(AuthEvent::NewCredential(cred("", 0, "", 0)), 100_000_000, &mut m);
    assert!(matches!(a, AuthAction::StoreSecret { .. }));
    let a = s.step(AuthEvent::Stored(false), 100_000_000, &mut m);
    assert!(matches!(a, AuthAction::Finish(TicketOutcome::Denied(ResultCode::InternalServerError))));
}

#[test]
fn too_many_renewals_lock_the_login() {
    let mut m = SuspiciousUsers::new();
    let now = 100_000_000;
    m.set("karpovr", UserStat { attempt_change_pass: 2, last_attempt_change_pass_date: now - 10, ..UserStat::default() });
    let (mut s, _) = start("karpovr", "", "?", &mut m, now);
    s.step(AuthEvent::Candidates(Some(vec!["d:acc1".to_string()])), now, &mut m);
    s.step(AuthEvent::Account(Some(account(Some("d:cred1")))), now, &mut m);
    s.step(AuthEvent::Person(true), now, &mut m);
    let a = s.step(AuthEvent::Credential(Some(cred(&pw('o'), 1000, "", 0))), now + 1, &mut m);
    assert!(matches!(a, AuthAction::Finish(TicketOutcome::Denied(ResultCode::TooManyRequestsChangePassword))));
    let st = m.get("karpovr").unwrap();
    assert_eq!(st.wrong_count_login, 4);
    assert_eq!(st.last_wrong_login_date, now + 1);
}

#[test]
fn step_now_uses_the_clock() {
    let mut m = SuspiciousUsers::new();
    let (mut s, _) = start("karpovr", &pw('x'), "", &mut m, 1000);
    s.step_now(AuthEvent::Candidates(Some(vec!["d:acc1".to_string()])), &mut m);
    s.step_now(AuthEvent::Account(Some(account(Some("d:cred1")))), &mut m);
    s.step_now(AuthEvent::Person(true), &mut m);
    assert!(!s.step_overflows(&AuthEvent::Credential(Some(cred(&pw('p'), 0, "", 0)))));
    s.step_now(AuthEvent::Credential(Some(cred(&pw('p'), 0, "", 0))), &mut m);
    let st = m.get("karpovr").unwrap();
    assert_eq!(st.wrong_count_login, 1);
    assert!(st.last_wrong_login_date > 1_600_000_000);
}

#[test]
fn suspicious_users_read_back() {
    let mut m = SuspiciousUsers::new();
    assert_eq!(m.get("a"), None);
    let s1 = UserStat { wrong_count_login: 5, ..UserStat::default() };
    m.set("a", s1);
    m.set("b", UserStat::default());
    assert_eq!(m.get("a"), Some(s1));
    let s2 = UserStat { wrong_count_login: 6, ..UserStat::default() };
    m.set("a", s2);
    assert_eq!(m.get("a"), Some(s2));
    assert_eq!(m.get("b"), Some(UserStat::default()));
    assert_eq!(m.entry_or_default("c"), UserStat::default());
    assert_eq!(m.entry_or_default("a"), s2);
}

#[test]
fn renewal_refusal_overflows_only_at_the_greatest_limit() {
    let now = 100_000_000;
    for (limit, overflows) in [(i32::MAX, true), (3, false)] {
        let mut m = SuspiciousUsers::new();
        m.set("karpovr", UserStat { attempt_change_pass: 2, last_attempt_change_pass_date: now - 10, ..UserStat::default() });
        let c = AuthConf { failed_auth_attempts: limit, ..conf() };
        let (mut s, a) = AuthSession::start(c, Some("karpovr"), Some(""), Some("?"), &mut m, now);
        assert!(matches!(a, AuthAction::FindCandidates { .. }));
        s.step(AuthEvent::Candidates(Some(vec!["d:acc1".to_string()])), now, &mut m);
        s.step(AuthEvent::Account(Some(account(Some("d:cred1")))), now, &mut m);
        s.step(AuthEvent::Person(true), now, &mut m);
        let renewal = AuthEvent::Credential(Some(cred(&pw('o'), 1000, "", 0)));
        assert_eq!(s.step_overflows(&renewal), overflows);
        assert!(!s.step_overflows(&AuthEvent::Person(true)));
        if !overflows {
            let a = s.step(renewal, now, &mut m);
            assert!(matches!(a, AuthAction::Finish(TicketOutcome::Denied(ResultCode::TooManyRequestsChangePassword))));
        }
    }
}

#[test]
fn exchange_touches_only_the_login() {
    let mut m = SuspiciousUsers::new();
    let other = UserStat { wrong_count_login: 2, last_wrong_login_date: 5, ..UserStat::default() };
    m.set("someone", other);
    let now = 100_000_000;
    let (mut s, _) = start("Karpovr", &pw('x'), "", &mut m, now);
    s.step(AuthEvent::Candidates(Some(vec!["d:acc1".to_string()])), now, &mut m);
    s.step(AuthEvent::Account(Some(account(Some("d:cred1")))), now, &mut m);
    s.step(AuthEvent::Person(true), now, &mut m);
    s.step(AuthEvent::Credential(Some(cred(&pw('p'), now - 10, "", 0))), now, &mut m);
    assert_eq!(m.get("someone"), Some(other));
    assert_eq!(m.get("Karpovr").unwrap().wrong_count_login, 1);
    // The login is kept as given, not in lower case.
    assert_eq!(m.get("karpovr"), None);
}
