use glalby::identity::credentials_from_outcome;
use glalby::{recover, register, GreenlightCredentials, Identity, SchedulerGateway, SdkError};

const PHRASE: &str = "abandon abandon abandon abandon abandon abandon abandon abandon abandon abandon abandon about";

/// A scheduler double that counts its calls and answers with a fixed outcome.
struct FakeScheduler {
    calls: usize,
    last_secret: Vec<u8>,
    last_invite: Option<String>,
    answer: Result<Vec<u8>, String>,
}

impl FakeScheduler {
    fn answering(answer: Result<Vec<u8>, String>) -> Self {
        FakeScheduler { calls: 0, last_secret: Vec::new(), last_invite: None, answer }
    }
}

impl SchedulerGateway for FakeScheduler {
    fn recover(&mut self, identity: &Identity) -> Result<Vec<u8>, String> {
        self.calls += 1;
        self.last_secret = identity.secret().clone();
        self.answer.clone()
    }

    fn register(&mut self, identity: &Identity, invite_code: &str) -> Result<Vec<u8>, String> {
        self.calls += 1;
        self.last_secret = identity.secret().clone();
        self.last_invite = Some(invite_code.to_string());
        self.answer.clone()
    }
}

#[test]
fn identity_is_first_half_of_seed() {
    let id = Identity::from_phrase(PHRASE).ok().unwrap();
    assert_eq!(
        GreenlightCredentials::from_creds(id.secret()).gl_creds,
        "5eb00bbddcf069084889a8ab9155568165f5c453ccb85e70811aaed6f6da5fc1"
    );
}

#[test]
fn identity_rejects_malformed_phrase() {
    match Identity::from_phrase("not a mnemonic at all") {
        Err(SdkError::InvalidArgument(m)) => assert!(m.starts_with("failed to parse mnemonic: ")),
        Err(e) => panic!("wrong kind: {:?}", e),
        Ok(_) => panic!("accepted a malformed phrase"),
    }
}

#[test]
fn recover_yields_hex_of_blob() {
    let mut gw = FakeScheduler::answering(Ok(vec![0xab, 0xc1, 0x23]));
    let creds = recover(PHRASE.to_string(), &mut gw).unwrap();
    assert_eq!(creds.gl_creds, "abc123");
    assert_eq!(gw.calls, 1);
    assert_eq!(gw.last_secret.len(), 32);
}

#[test]
fn register_passes_invite_code() {
    let mut gw = FakeScheduler::answering(Ok(vec![1, 2]));
    let creds = register(PHRASE.to_string(), "invite-1".to_string(), &mut gw).unwrap();
    assert_eq!(creds.gl_creds, "0102");
    assert_eq!(gw.last_invite.as_deref(), Some("invite-1"));
}

#[test]
fn malformed_phrase_never_reaches_scheduler() {
    for phrase in ["", "abandon", "hello world foo bar", "abandon abandon abandon abandon abandon abandon abandon abandon abandon abandon abandon abandon"] {
        let mut gw = FakeScheduler::answering(Ok(vec![1]));
        assert!(matches!(recover(phrase.to_string(), &mut gw), Err(SdkError::InvalidArgument(_))));
        assert!(matches!(
            register(phrase.to_string(), "code".to_string(), &mut gw),
            Err(SdkError::InvalidArgument(_))
        ));
        assert_eq!(gw.calls, 0);
    }
}

#[test]
fn scheduler_failure_is_api_error() {
    let mut gw = FakeScheduler::answering(Err("failed to recover credentials: denied".to_string()));
    match recover(PHRASE.to_string(), &mut gw) {
        Err(SdkError::GreenlightApi(m)) => assert_eq!(m, "failed to recover credentials: denied"),
        other => panic!("unexpected: {:?}", other),
    }
}

#[test]
fn credentials_from_outcome_maps_both_sides() {
    assert_eq!(credentials_from_outcome(Ok(vec![0xff, 0])).unwrap().gl_creds, "ff00");
    assert!(matches!(credentials_from_outcome(Err("x".to_string())), Err(SdkError::GreenlightApi(_))));
}

#[test]
fn credentials_decode() {
    let c = GreenlightCredentials::from_creds(&[0xab, 0xc1, 0x23]);
    assert_eq!(c.gl_creds, "abc123");
    assert_eq!(c.decode().unwrap(), vec![0xab, 0xc1, 0x23]);
    let bad = GreenlightCredentials { gl_creds: "xyz".to_string() };
    match bad.decode() {
        Err(SdkError::InvalidArgument(m)) => assert!(m.starts_with("failed to decode credentials: ")),
        other => panic!("unexpected: {:?}", other),
    }
}
