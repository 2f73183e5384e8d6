use glalby::shutdown::{CANCEL_SETTLE_MS, MAX_POLLS, POLL_INTERVAL_MS};
use glalby::{
    recover, EstablishStep, GetInfoResponse, GreenlightCredentials, Identity, SchedulerGateway,
    SdkError, Session, SessionEstablisher, ShutdownCoordinator, ShutdownOutcome, ShutdownStep,
    SignerState,
};

const PHRASE: &str = "abandon abandon abandon abandon abandon abandon abandon abandon abandon abandon abandon about";

struct BlobScheduler(Vec<u8>);

impl SchedulerGateway for BlobScheduler {
    fn recover(&mut self, _identity: &Identity) -> Result<Vec<u8>, String> {
        Ok(self.0.clone())
    }

    fn register(&mut self, _identity: &Identity, _invite: &str) -> Result<Vec<u8>, String> {
        Ok(self.0.clone())
    }
}

/// Drives establishment through every outside step with success.
fn establish(phrase: &str, creds: &GreenlightCredentials, log: &mut Vec<&'static str>) -> Result<Session, SdkError> {
    let mut e = SessionEstablisher::start(phrase, creds)?;
    while e.step() != EstablishStep::StartSigner {
        log.push("step");
        e = e.advance(Ok(()))?;
    }
    log.push("spawn");
    Ok(e.signer_spawned())
}

/// A node double that records the order of events and refuses calls made
/// before the signer was spawned.
struct FakeNode<'a> {
    log: &'a mut Vec<&'static str>,
}

impl<'a> FakeNode<'a> {
    fn get_info(&mut self, session: &Session) -> Result<GetInfoResponse, SdkError> {
        assert!(self.log.contains(&"spawn"), "rpc issued before the signer was spawned");
        assert!(session.rpc_permitted());
        self.log.push("rpc");
        Ok(GetInfoResponse::from_node_info(&[2, 0xaa], Some("test".to_string()), &[1, 2, 3], "bitcoin".to_string(), 100))
    }
}

#[test]
fn start_checks_credentials_then_phrase() {
    let good = GreenlightCredentials { gl_creds: "abc123".to_string() };
    let bad = GreenlightCredentials { gl_creds: "abc12".to_string() };
    let e = SessionEstablisher::start(PHRASE, &good).ok().unwrap();
    assert_eq!(e.step(), EstablishStep::ParseCredentials);
    assert_eq!(e.credentials(), &vec![0xab, 0xc1, 0x23]);
    assert_eq!(e.identity().secret().len(), 32);
    match SessionEstablisher::start(PHRASE, &bad) {
        Err(SdkError::InvalidArgument(m)) => assert!(m.starts_with("failed to decode credentials: ")),
        _ => panic!("expected InvalidArgument"),
    }
    match SessionEstablisher::start("twelve bogus words", &good) {
        Err(SdkError::InvalidArgument(m)) => assert!(m.starts_with("failed to parse mnemonic: ")),
        _ => panic!("expected InvalidArgument"),
    }
}

#[test]
fn establish_rejects_malformed_phrase_locally() {
    let creds = GreenlightCredentials { gl_creds: "00".to_string() };
    for phrase in ["", "abandon", "about about about"] {
        assert!(matches!(SessionEstablisher::start(phrase, &creds), Err(SdkError::InvalidArgument(_))));
    }
}

#[test]
fn advance_walks_the_steps_in_order() {
    let creds = GreenlightCredentials { gl_creds: "00".to_string() };
    let mut e = SessionEstablisher::start(PHRASE, &creds).ok().unwrap();
    let expected = [
        EstablishStep::ParseCredentials,
        EstablishStep::BuildCredentials,
        EstablishStep::DeriveTransport,
        EstablishStep::CreateSigner,
        EstablishStep::ConnectScheduler,
        EstablishStep::ResolveNode,
        EstablishStep::StartSigner,
    ];
    for (i, s) in expected.iter().enumerate() {
        assert_eq!(e.step(), *s);
        if i + 1 < expected.len() {
            e = e.advance(Ok(())).ok().unwrap();
        }
    }
}

#[test]
fn failed_credential_parse_is_invalid_argument() {
    let creds = GreenlightCredentials { gl_creds: "00".to_string() };
    let e = SessionEstablisher::start(PHRASE, &creds).ok().unwrap();
    match e.advance(Err("bad blob".to_string())) {
        Err(SdkError::InvalidArgument(m)) => assert_eq!(m, "failed to parse credentials: bad blob"),
        _ => panic!("expected InvalidArgument"),
    }
}

#[test]
fn failed_remote_steps_are_api_errors() {
    let creds = GreenlightCredentials { gl_creds: "00".to_string() };
    let e = SessionEstablisher::start(PHRASE, &creds).ok().unwrap();
    let mut e = e.advance(Ok(())).ok().unwrap();
    while e.step() != EstablishStep::ResolveNode {
        e = e.advance(Ok(())).ok().unwrap();
    }
    match e.advance(Err("unreachable".to_string())) {
        Err(SdkError::GreenlightApi(m)) => assert_eq!(m, "failed to create node: unreachable"),
        _ => panic!("expected GreenlightApi"),
    }
}

#[test]
fn no_rpc_before_signer_spawn() {
    let mut log = Vec::new();
    let creds = GreenlightCredentials { gl_creds: "abc123".to_string() };
    let session = establish(PHRASE, &creds, &mut log).ok().unwrap();
    let mut node = FakeNode { log: &mut log };
    node.get_info(&session).unwrap();
    let spawn = log.iter().position(|e| *e == "spawn").unwrap();
    let rpc = log.iter().position(|e| *e == "rpc").unwrap();
    assert!(spawn < rpc);
}

#[test]
fn recover_then_establish_scenario() {
    let mut gw = BlobScheduler(vec![0xab, 0xc1, 0x23]);
    let creds = recover(PHRASE.to_string(), &mut gw).unwrap();
    assert_eq!(creds.gl_creds, "abc123");
    let mut log = Vec::new();
    let session = establish(PHRASE, &creds, &mut log).ok().unwrap();
    assert_eq!(session.signer(), SignerState::Running);
    let mut node = FakeNode { log: &mut log };
    let info = node.get_info(&session).unwrap();
    assert_eq!(info.alias, "test");
    assert_eq!(info.block_height, 100);
}

#[test]
fn repeated_get_info_on_one_session() {
    let mut log = Vec::new();
    let creds = GreenlightCredentials { gl_creds: "abc123".to_string() };
    let session = establish(PHRASE, &creds, &mut log).ok().unwrap();
    let mut node = FakeNode { log: &mut log };
    for _ in 0..64 {
        let info = node.get_info(&session).unwrap();
        assert_eq!(info.pubkey, "02aa");
    }
    assert!(session.rpc_permitted());
}

#[test]
fn shutdown_twice_sends_one_signal() {
    let mut log = Vec::new();
    let creds = GreenlightCredentials { gl_creds: "00".to_string() };
    let mut session = establish(PHRASE, &creds, &mut log).ok().unwrap();
    assert!(session.rpc_permitted());
    assert!(session.request_shutdown());
    assert_eq!(session.signer(), SignerState::Stopping);
    assert!(!session.rpc_permitted());
    assert!(!session.request_shutdown());
    assert_eq!(session.signer(), SignerState::Stopping);
    session.signer_ended();
    assert_eq!(session.signer(), SignerState::Stopped);
    assert!(!session.request_shutdown());
    assert_eq!(session.signer(), SignerState::Stopped);
}

fn run_coordinator(finished_after: Option<usize>) -> (Vec<ShutdownStep>, u64) {
    let mut c = ShutdownCoordinator::new();
    let mut steps = Vec::new();
    let mut slept = 0u64;
    let mut observed = 0usize;
    let mut aborted = false;
    loop {
        let finished = aborted || finished_after.map_or(false, |k| observed >= k);
        observed += 1;
        let step = c.next(finished);
        steps.push(step);
        match step {
            ShutdownStep::Sleep(ms) => slept += ms,
            ShutdownStep::Abort => aborted = true,
            ShutdownStep::Finish(_) => break,
        }
        assert!(steps.len() <= 20, "coordinator did not finish");
    }
    (steps, slept)
}

#[test]
fn shutdown_is_bounded_when_signer_never_stops() {
    let (steps, slept) = run_coordinator(None);
    let mut expected = vec![ShutdownStep::Sleep(POLL_INTERVAL_MS); MAX_POLLS as usize];
    expected.push(ShutdownStep::Abort);
    expected.push(ShutdownStep::Sleep(CANCEL_SETTLE_MS));
    expected.push(ShutdownStep::Finish(ShutdownOutcome::Forced));
    assert_eq!(steps, expected);
    assert_eq!(slept, 6000);
}

#[test]
fn shutdown_is_graceful_when_signer_stops_at_once() {
    let (steps, slept) = run_coordinator(Some(0));
    assert_eq!(steps, vec![ShutdownStep::Finish(ShutdownOutcome::Graceful)]);
    assert_eq!(slept, 0);
}

#[test]
fn shutdown_waits_for_signer_within_grace() {
    let (steps, slept) = run_coordinator(Some(3));
    assert_eq!(steps.len(), 4);
    assert_eq!(steps[3], ShutdownStep::Finish(ShutdownOutcome::Graceful));
    assert!(!steps.contains(&ShutdownStep::Abort));
    assert_eq!(slept, 3000);
}

#[test]
fn shutdown_on_last_poll_is_still_graceful() {
    let (steps, slept) = run_coordinator(Some(5));
    assert_eq!(*steps.last().unwrap(), ShutdownStep::Finish(ShutdownOutcome::Graceful));
    assert!(!steps.contains(&ShutdownStep::Abort));
    assert_eq!(slept, 5000);
}

#[test]
fn finished_coordinator_keeps_answering() {
    let mut c = ShutdownCoordinator::new();
    assert_eq!(c.next(true), ShutdownStep::Finish(ShutdownOutcome::Graceful));
    assert_eq!(c.next(false), ShutdownStep::Finish(ShutdownOutcome::Graceful));
}
