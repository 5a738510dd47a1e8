use subc_daemon::control::breaker::{
    BreakerOpened, RouteBindAdmission, RouteBindBreakers, DEFAULT_ROUTE_BIND_BREAKER_THRESHOLD,
};
use subc_daemon::control::concurrency::RouteBindConcurrency;
use subc_daemon::control::fault::{ForwardingError, ForwardingFailure, RouterError};
use subc_daemon::control::route_open::{
    abandoned_bind_goodbye, admit_relay, settle_relay, BreakerPolicy, RefusalCounter, RelayAdmission, RelayAnswer,
    RelayEnd, RelaySettlement,
};
use subc_daemon::control::wire::{module_request_header, FrameType};
use subc_daemon::span::Span;

const SECOND: u128 = 1_000_000_000;

fn cooldown() -> Span {
    Span::from_secs(20)
}

fn opened(breakers: &mut RouteBindBreakers, module_id: &str, now: u128) {
    for _ in 1..DEFAULT_ROUTE_BIND_BREAKER_THRESHOLD {
        assert_eq!(breakers.record_timeout(module_id, 3, &cooldown(), now), None);
    }
    assert_eq!(
        breakers.record_timeout(module_id, 3, &cooldown(), now),
        Some(BreakerOpened { consecutive_timeouts: 3, reopened_after_probe: false })
    );
}

fn admitted(breakers: &mut RouteBindBreakers, module_id: &str, now: u128) -> Option<bool> {
    match breakers.admit_open(module_id, now) {
        RouteBindAdmission::Admitted { probe } => Some(probe),
        RouteBindAdmission::Refused { .. } => None,
    }
}

#[test]
fn a_breaker_opens_at_the_threshold_and_lets_one_probe_through() {
    let mut breakers = RouteBindBreakers::new();
    assert_eq!(admitted(&mut breakers, "aft", 0), Some(false));
    opened(&mut breakers, "aft", 0);
    match breakers.admit_open("aft", 5 * SECOND) {
        RouteBindAdmission::Refused { consecutive_timeouts, retry_in, probe_in_flight } => {
            assert_eq!(consecutive_timeouts, 3);
            assert_eq!(retry_in, Span::from_secs(15));
            assert!(!probe_in_flight);
        }
        other => panic!("{other:?}"),
    }
    assert_eq!(admitted(&mut breakers, "aft", 20 * SECOND), Some(true));
    match breakers.admit_open("aft", 21 * SECOND) {
        RouteBindAdmission::Refused { probe_in_flight, retry_in, .. } => {
            assert!(probe_in_flight);
            assert_eq!(retry_in, Span::zero());
        }
        other => panic!("{other:?}"),
    }
    breakers.record_inconclusive("aft");
    assert_eq!(admitted(&mut breakers, "aft", 21 * SECOND), Some(true));
    assert_eq!(
        breakers.record_timeout("aft", 3, &cooldown(), 22 * SECOND),
        Some(BreakerOpened { consecutive_timeouts: 4, reopened_after_probe: true })
    );
    assert_eq!(admitted(&mut breakers, "aft", 41 * SECOND), None);
    assert_eq!(admitted(&mut breakers, "aft", 42 * SECOND), Some(true));
    assert!(breakers.record_accepted("aft"));
    assert!(!breakers.record_accepted("aft"));
    assert_eq!(admitted(&mut breakers, "aft", 42 * SECOND), Some(false));
}

#[test]
fn modules_do_not_share_a_breaker() {
    let mut breakers = RouteBindBreakers::new();
    opened(&mut breakers, "slow", 0);
    assert_eq!(admitted(&mut breakers, "fast", 0), Some(false));
    assert_eq!(admitted(&mut breakers, "slow", 0), None);
}

#[test]
fn an_accepted_bind_breaks_a_row_of_timeouts() {
    let mut breakers = RouteBindBreakers::new();
    breakers.record_timeout("aft", 3, &cooldown(), 0);
    breakers.record_timeout("aft", 3, &cooldown(), 0);
    assert!(!breakers.record_accepted("aft"));
    opened(&mut breakers, "aft", 0);
}

#[test]
fn open_breakers_are_listed_in_order() {
    let mut breakers = RouteBindBreakers::new();
    assert!(breakers.open_snapshot(0).is_none());
    breakers.record_timeout("counted", 3, &cooldown(), 0);
    assert!(breakers.open_snapshot(0).is_none());
    opened(&mut breakers, "b", 0);
    opened(&mut breakers, "a", SECOND);
    let rows = breakers.open_snapshot(2 * SECOND).expect("two are open");
    assert_eq!(rows.len(), 2);
    assert_eq!((rows[0].module_id.as_str(), rows[0].cooldown_remaining_ms), ("a", 19_000));
    assert_eq!((rows[1].module_id.as_str(), rows[1].cooldown_remaining_ms), ("b", 18_000));
    assert_eq!(rows[0].consecutive_timeouts, 3);
}

#[test]
fn a_new_connection_starts_with_a_closed_breaker() {
    let mut breakers = RouteBindBreakers::new();
    assert_eq!(breakers.reset_for_new_module_connection("aft"), None);
    opened(&mut breakers, "aft", 0);
    assert_eq!(breakers.reset_for_new_module_connection("aft"), Some(3));
    assert_eq!(admitted(&mut breakers, "aft", 0), Some(false));
}

#[test]
fn a_released_slot_can_be_taken_again() {
    let mut concurrency = RouteBindConcurrency::new();
    assert_eq!(concurrency.try_admit("aft", 2), Ok(()));
    assert_eq!(concurrency.try_admit("aft", 2), Ok(()));
    assert_eq!(concurrency.try_admit("aft", 2), Err(2));
    assert_eq!(concurrency.try_admit("other", 2), Ok(()));
    concurrency.release("aft");
    assert_eq!(concurrency.try_admit("aft", 2), Ok(()));
    assert_eq!(concurrency.try_admit("none", 0), Err(0));
}

#[test]
fn a_full_target_is_refused_before_its_breaker_is_asked() {
    let mut concurrency = RouteBindConcurrency::new();
    let mut breakers = RouteBindBreakers::new();
    assert!(matches!(
        admit_relay(&mut concurrency, &mut breakers, "aft", 1, 0),
        RelayAdmission::Admitted { probe: false }
    ));
    match admit_relay(&mut concurrency, &mut breakers, "aft", 1, 0) {
        RelayAdmission::Refused(refusal) => {
            assert_eq!(refusal.body.code, "target_unavailable");
            assert_eq!(
                refusal.body.message,
                "module_id 'aft' already has 1 route.bind relays in flight; retry after one settles"
            );
        }
        other => panic!("{other:?}"),
    }
}

#[test]
fn a_refused_open_takes_no_slot() {
    let mut concurrency = RouteBindConcurrency::new();
    let mut breakers = RouteBindBreakers::new();
    opened(&mut breakers, "aft", 0);
    for _ in 0..3 {
        match admit_relay(&mut concurrency, &mut breakers, "aft", 1, 5 * SECOND) {
            RelayAdmission::Refused(refusal) => {
                assert_eq!(refusal.counter, RefusalCounter::BreakerOpen);
                assert_eq!(
                    refusal.body.message,
                    "module_id 'aft' failed 3 consecutive route.bind relays; not relaying for \
                     another 15s"
                );
            }
            other => panic!("{other:?}"),
        }
    }
    assert!(matches!(
        admit_relay(&mut concurrency, &mut breakers, "aft", 1, 20 * SECOND),
        RelayAdmission::Admitted { probe: true }
    ));
}

fn settled(breakers: &mut RouteBindBreakers, end: RelayEnd) -> RelaySettlement {
    let mut concurrency = RouteBindConcurrency::new();
    assert_eq!(concurrency.try_admit("aft", 1), Ok(()));
    let settlement = settle_relay(
        &mut concurrency,
        breakers,
        "aft",
        end,
        &BreakerPolicy { threshold: 3, cooldown: cooldown() },
        &Span::from_secs(12),
        77,
        0,
    );
    assert_eq!(concurrency.try_admit("aft", 1), Ok(()));
    settlement
}

fn refused(settlement: &RelaySettlement) -> (&str, &str) {
    match &settlement.answer {
        RelayAnswer::Refused(refusal) => {
            (refusal.body.code.as_str(), refusal.body.message.as_str())
        }
        other => panic!("{other:?}"),
    }
}

#[test]
fn only_timeouts_count_against_a_module() {
    let mut breakers = RouteBindBreakers::new();
    for _ in 0..5 {
        let gone = settled(&mut breakers, RelayEnd::ModuleGone("gone".to_string()));
        assert_eq!(refused(&gone), ("target_unavailable", "gone"));
        assert!(gone.breaker_opened.is_none());
        settled(&mut breakers, RelayEnd::WaiterCanceled);
        settled(&mut breakers, RelayEnd::HandlerDropped);
    }
    assert_eq!(admitted(&mut breakers, "aft", 0), Some(false));
    let first = settled(&mut breakers, RelayEnd::TimedOut);
    assert_eq!(
        refused(&first),
        ("module_timeout", "module_id 'aft' did not answer route.bind within 12s")
    );
    assert!(first.breaker_opened.is_none());
    settled(&mut breakers, RelayEnd::TimedOut);
    let third = settled(&mut breakers, RelayEnd::TimedOut);
    assert_eq!(third.breaker_opened.map(|opened| opened.consecutive_timeouts), Some(3));
    assert!(settled(&mut breakers, RelayEnd::Accepted).breaker_closed);
    assert_eq!(admitted(&mut breakers, "aft", 0), Some(false));
}

#[test]
fn every_end_of_a_relay_has_its_answer() {
    let mut breakers = RouteBindBreakers::new();
    assert!(matches!(settled(&mut breakers, RelayEnd::Accepted).answer, RelayAnswer::Silent));
    assert!(matches!(
        settled(&mut breakers, RelayEnd::HandlerDropped).answer,
        RelayAnswer::Silent
    ));
    let begin = settled(
        &mut breakers,
        RelayEnd::BeginFailed(ForwardingFailure {
            error: ForwardingError::ClientRouteChannelExhausted { connection_id: 1 },
            text: "no channel left".to_string(),
        }),
    );
    assert_eq!(refused(&begin), ("route_limit", "no channel left"));
    let sent = settled(&mut breakers, RelayEnd::SendFailed("closed".to_string()));
    assert_eq!(refused(&sent), ("target_unavailable", "closed"));
    let canceled = settled(&mut breakers, RelayEnd::WaiterCanceled);
    assert_eq!(
        refused(&canceled).1,
        "route.bind relay waiter was canceled before the module responded"
    );
    assert!(matches!(
        settled(&mut breakers, RelayEnd::EncodeFailed("bad".to_string())).answer,
        RelayAnswer::Fault(RouterError::Backend { corr: 77, message, .. })
            if message == "failed to encode route.bind request: bad"
    ));
    assert!(matches!(
        settled(&mut breakers, RelayEnd::BuildFailed("too large".to_string())).answer,
        RelayAnswer::Fault(RouterError::FrameBuild(text)) if text == "too large"
    ));
    assert!(matches!(
        settled(&mut breakers, RelayEnd::MarkFailed(ForwardingError::Poisoned)).answer,
        RelayAnswer::Fault(RouterError::Forwarding(ForwardingError::Poisoned))
    ));
}

#[test]
fn a_bind_given_up_while_it_was_sent_is_taken_back() {
    assert!(abandoned_bind_goodbye(true, 2, 5, 6).is_none());
    let header = abandoned_bind_goodbye(false, 2, 5, 6).expect("a goodbye");
    assert_eq!((header.ty, header.channel, header.epoch), (FrameType::Goodbye, 5, 6));
    let bind = module_request_header(2, 9);
    assert_eq!((bind.ty, bind.channel, bind.corr), (FrameType::Request, 0, 9));
}
