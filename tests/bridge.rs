use libbwt_jni::config::{load_config, parse_config};
use libbwt_jni::fault::{classify_outcome, fmt_error, fmt_panic, Failure, PanicPayload};
use libbwt_jni::relay::{host_int, relay_all, HostCall, ProgressEvent, Relay};
use libbwt_jni::sequencer::{ready_list, Action, Event, Phase, ReadyCall, Sequencer};
use libbwt_jni::shutdown::{HandleTable, ShutdownHandler};

fn strings(parts: &[&str]) -> Vec<String> {
    parts.iter().map(|p| p.to_string()).collect()
}

#[test]
fn fmt_error_joins_causes_outermost_first() {
    let causes = strings(&["Invalid config", "expected value at line 1 column 1"]);
    assert_eq!(fmt_error(&causes), "Invalid config: expected value at line 1 column 1");
}

#[test]
fn fmt_error_single_and_empty() {
    assert_eq!(fmt_error(&strings(&["boom"])), "boom");
    assert_eq!(fmt_error(&strings(&[])), "");
    assert_eq!(fmt_error(&strings(&["a", "b", "c"])), "a: b: c");
}

#[test]
fn fmt_panic_text_and_unknown() {
    assert_eq!(fmt_panic(&PanicPayload::Text("index out of bounds".to_string())), "index out of bounds");
    assert_eq!(fmt_panic(&PanicPayload::Opaque), "unknown panic");
}

#[test]
fn classify_absorbs_only_cancellation() {
    assert_eq!(classify_outcome(&Ok(())), Ok(()));
    assert_eq!(classify_outcome(&Err(Failure::Canceled)), Ok(()));
    assert_eq!(
        classify_outcome(&Err(Failure::Causes(strings(&["boot failed", "connection refused"])))),
        Err("boot failed: connection refused".to_string())
    );
    assert_eq!(
        classify_outcome(&Err(Failure::Panic(PanicPayload::Opaque))),
        Err("unknown panic".to_string())
    );
}

#[test]
fn engine_fault_message_is_not_cancellation() {
    let r = classify_outcome(&Err(Failure::Panic(PanicPayload::Text("engine fault".to_string()))));
    assert_eq!(r, Err("engine fault".to_string()));
    assert_ne!(r, Err("The operation was canceled".to_string()));
}

#[test]
fn malformed_config_is_invalid_config() {
    let r = load_config("not json");
    let msg = r.err().unwrap();
    assert!(msg.starts_with("Invalid config: "), "{}", msg);
    assert!(msg.len() > "Invalid config: ".len());
}

#[test]
fn unknown_field_is_invalid_config() {
    let msg = load_config("{\"no_such_option\": 1}").err().unwrap();
    assert!(msg.starts_with("Invalid config: "), "{}", msg);
    let causes = parse_config("{\"no_such_option\": 1}").err().unwrap();
    assert_eq!(causes.len(), 2);
    assert_eq!(causes[0], "Invalid config");
}

#[test]
fn valid_config_parses() {
    assert!(load_config("{}").is_ok());
    assert!(load_config("{\"network\": \"regtest\", \"verbose\": 2}").is_ok());
}

#[test]
fn malformed_config_makes_no_run() {
    assert!(Sequencer::begin("{\"verbose\": ").is_err());
    let msg = Sequencer::begin("[1, 2").err().unwrap();
    assert!(msg.starts_with("Invalid config: "));
}

#[test]
fn host_int_wraps_like_a_cast() {
    assert_eq!(host_int(0), 0);
    assert_eq!(host_int(700_000), 700_000);
    assert_eq!(host_int(0x7fff_ffff), i32::MAX);
    assert_eq!(host_int(0x8000_0000), i32::MIN);
    assert_eq!(host_int(0xffff_ffff), -1);
    assert_eq!(host_int(0x1_0000_0005), 5);
    assert_eq!(host_int(u64::MAX), -1);
}

#[test]
fn relay_forwards_in_order_and_stops_at_done() {
    let events = vec![
        ProgressEvent::Sync { progress: 0.25f32, tip: 100 },
        ProgressEvent::Scan { progress: 0.5f32, eta: 30 },
        ProgressEvent::Sync { progress: 0.75f32, tip: 101 },
        ProgressEvent::Done,
        ProgressEvent::Sync { progress: 1.0f32, tip: 102 },
    ];
    let calls = relay_all(&events);
    assert_eq!(calls.len(), 3);
    assert!(matches!(calls[0], HostCall::SyncProgress { progress, tip: 100 } if progress == 0.25));
    assert!(matches!(calls[1], HostCall::ScanProgress { progress, eta: 30 } if progress == 0.5));
    assert!(matches!(calls[2], HostCall::SyncProgress { progress, tip: 101 } if progress == 0.75));
}

#[test]
fn relay_with_no_events_or_immediate_done() {
    let none: Vec<ProgressEvent<f32>> = vec![];
    assert_eq!(relay_all(&none).len(), 0);
    let done_first = vec![ProgressEvent::Done, ProgressEvent::Scan { progress: 0.1f32, eta: 9 }];
    assert_eq!(relay_all(&done_first).len(), 0);
}

#[test]
fn relay_stops_on_disconnect() {
    let mut relay = Relay::new();
    assert!(relay.receive(Some(ProgressEvent::Scan { progress: 0.1f32, eta: 5 })).is_some());
    assert!(relay.receive::<f32>(None).is_none());
    assert!(relay.stopped());
    assert!(relay.receive(Some(ProgressEvent::Sync { progress: 0.2f32, tip: 1 })).is_none());
}

#[test]
fn shutdown_token_taken_twice() {
    let mut table: HandleTable<ShutdownHandler<u8>> = HandleTable::new();
    assert!(table.has_room());
    let token = ShutdownHandler(7u8).into_raw(&mut table);
    assert_eq!(token, 1);
    let second = ShutdownHandler(9u8).into_raw(&mut table);
    assert_eq!(second, 2);
    assert_eq!(table.take(token).map(|h| h.0), Some(7));
    assert!(table.take(token).is_none());
    assert!(table.take(0).is_none());
    assert!(table.take(99).is_none());
    assert_eq!(table.take(second).map(|h| h.0), Some(9));
}

#[test]
fn ready_calls_in_order() {
    let calls = ready_list(Some("127.0.0.1:50001".to_string()), Some("127.0.0.1:3060".to_string()));
    assert_eq!(calls.len(), 3);
    assert!(matches!(&calls[0], ReadyCall::ElectrumReady(a) if a == "127.0.0.1:50001"));
    assert!(matches!(&calls[1], ReadyCall::HttpReady(a) if a == "127.0.0.1:3060"));
    assert!(matches!(calls[2], ReadyCall::Ready));
    let only_ready = ready_list(None, None);
    assert_eq!(only_ready.len(), 1);
    assert!(matches!(only_ready[0], ReadyCall::Ready));
}

#[test]
fn end_to_end_run_order() {
    let (mut seq, _config) = Sequencer::begin("{}").ok().unwrap();
    assert!(seq.phase() == Phase::StartingRelay);
    assert!(matches!(seq.step(Event::RelayStarted), Action::HandOverShutdown));
    assert!(matches!(seq.step(Event::HandedOver(1)), Action::Boot));
    assert!(matches!(seq.step(Event::Booted(Ok(()))), Action::ProbeShutdown));
    let probe = Event::Probed { requested: false, electrum: None, http: None };
    match seq.step(probe) {
        Action::Announce(calls) => {
            assert_eq!(calls.len(), 1);
            assert!(matches!(calls[0], ReadyCall::Ready));
        }
        _ => panic!("expected readiness to be announced"),
    }
    assert!(matches!(seq.step(Event::Announced), Action::Sync));
    assert!(matches!(seq.step(Event::SyncReturned), Action::Finish { message: None, release: None }));
    assert!(seq.phase() == Phase::Finished);
}

#[test]
fn shutdown_during_boot_skips_readiness() {
    let (mut seq, _config) = Sequencer::begin("{}").ok().unwrap();
    seq.step(Event::RelayStarted);
    seq.step(Event::HandedOver(1));
    seq.step(Event::Booted(Ok(())));
    let probe = Event::Probed { requested: true, electrum: Some("127.0.0.1:50001".to_string()), http: None };
    assert!(matches!(seq.step(probe), Action::Finish { message: None, release: None }));
    assert!(matches!(seq.step(Event::Announced), Action::Wait));
    assert!(matches!(seq.step(Event::SyncReturned), Action::Wait));
    assert!(seq.phase() == Phase::Finished);
}

#[test]
fn boot_failure_is_reported() {
    let (mut seq, _config) = Sequencer::begin("{}").ok().unwrap();
    seq.step(Event::RelayStarted);
    seq.step(Event::HandedOver(1));
    let failure = Failure::Causes(strings(&["failed to connect", "connection refused"]));
    match seq.step(Event::Booted(Err(failure))) {
        Action::Finish { message: Some(m), release: Some(1) } => {
            assert_eq!(m, "failed to connect: connection refused")
        }
        _ => panic!("expected a failure message"),
    }
    assert!(seq.phase() == Phase::Finished);
}

#[test]
fn boot_canceled_returns_normally() {
    let (mut seq, _config) = Sequencer::begin("{}").ok().unwrap();
    seq.step(Event::RelayStarted);
    seq.step(Event::HandedOver(1));
    assert!(matches!(
        seq.step(Event::Booted(Err(Failure::Canceled))),
        Action::Finish { message: None, release: Some(1) }
    ));
}

#[test]
fn out_of_order_event_waits() {
    let (mut seq, _config) = Sequencer::begin("{}").ok().unwrap();
    assert!(matches!(seq.step(Event::SyncReturned), Action::Wait));
    assert!(seq.phase() == Phase::StartingRelay);
}

#[test]
fn engine_cancellation_is_recognized() {
    let e: bwt::Error = bwt::error::BwtError::Canceled.into();
    assert!(matches!(libbwt_jni::fault::failure_of_error(&e), Failure::Canceled));
    assert_eq!(classify_outcome(&Err(libbwt_jni::fault::failure_of_error(&e))), Ok(()));
}

#[test]
fn engine_error_chain_is_rendered() {
    let e = bwt::Error::msg("connection refused").context("failed to reach bitcoind");
    match libbwt_jni::fault::failure_of_error(&e) {
        Failure::Causes(c) => assert_eq!(c, strings(&["failed to reach bitcoind", "connection refused"])),
        _ => panic!("expected an error chain"),
    }
    let other: bwt::Error = bwt::error::BwtError::PrunedBlocks.into();
    assert_eq!(
        classify_outcome(&Err(libbwt_jni::fault::failure_of_error(&other))),
        Err("Blocks unavailable due to pruning".to_string())
    );
}

#[test]
fn boot_failure_releases_the_handed_over_token() {
    let (mut seq, _config) = Sequencer::begin("{}").ok().unwrap();
    seq.step(Event::RelayStarted);
    assert!(matches!(seq.step(Event::HandedOver(42)), Action::Boot));
    let failure = Failure::Panic(PanicPayload::Text("engine fault".to_string()));
    match seq.step(Event::Booted(Err(failure))) {
        Action::Finish { message: Some(m), release: Some(42) } => assert_eq!(m, "engine fault"),
        _ => panic!("expected the failure and the token to release"),
    }
}

#[test]
fn config_error_detail_follows_context() {
    let msg = load_config("{").err().unwrap();
    let causes = parse_config("{").err().unwrap();
    assert_eq!(msg, format!("Invalid config: {}", causes[1]));
    assert!(!causes[1].is_empty());
}
