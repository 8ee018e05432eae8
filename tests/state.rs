use dhcp_client::address::Ipv4Address;
use dhcp_client::message::Response;
use dhcp_client::state::{legal_transition, DhcpState, State, TransitionError};
use dhcp_client::timer::{Backoff, Deadline, Forthon};

const ALL: [DhcpState; 8] = [
    DhcpState::Init,
    DhcpState::Selecting,
    DhcpState::Requesting,
    DhcpState::InitReboot,
    DhcpState::Rebooting,
    DhcpState::Bound,
    DhcpState::Renewing,
    DhcpState::Rebinding,
];

fn server() -> Ipv4Address {
    Ipv4Address::new(10, 0, 0, 1)
}

fn response(xid: u32, lease: Option<u32>) -> Response {
    Response {
        transaction_id: xid,
        your_ip_address: Ipv4Address::new(10, 0, 0, 5),
        dhcp_server_id: Some(server()),
        address_time: lease,
        renewal_time: None,
        rebinding_time: None,
    }
}

/// A state bound to 10.0.0.5 for 3600 s, acknowledged 1 s after the request.
fn bound_state() -> State {
    let mut s = State::with_transaction_id(DhcpState::Init, None, true, 42);
    s.transcend_at(DhcpState::Init, DhcpState::Selecting, None, 1000, 42).unwrap();
    let offer = response(42, Some(3600));
    s.transcend_at(DhcpState::Selecting, DhcpState::Requesting, Some(&offer), 1000, 42)
        .unwrap();
    s.mark_request_sent_at(1000).unwrap();
    s.transcend_at(DhcpState::Requesting, DhcpState::Bound, Some(&offer), 1001, 42)
        .unwrap();
    s
}

#[test]
fn discovery_to_bound() {
    let mut s = State::with_transaction_id(DhcpState::Init, None, true, 42);
    assert_eq!(s.transcend_at(DhcpState::Init, DhcpState::Selecting, None, 1000, 42), Ok(()));
    assert_eq!(s.dhcp_state(), DhcpState::Selecting);
    assert_eq!(s.timer_offer(), Some(Backoff::new(4, 64)));
    assert_eq!(s.destination(), Ipv4Address::broadcast());

    let mut offer = response(42, Some(3600));
    offer.dhcp_server_id = None;
    assert_eq!(
        s.transcend_at(DhcpState::Selecting, DhcpState::Requesting, Some(&offer), 1000, 42),
        Ok(())
    );
    assert_eq!(s.dhcp_state(), DhcpState::Requesting);
    assert_eq!(s.offered_address(), Ipv4Address::new(10, 0, 0, 5));
    assert_eq!(s.offered_time(), 3600);
    assert_eq!(s.timer_offer(), None);
    assert_eq!(s.timer_ack(), Some(Backoff::new(4, 64)));
    assert!(s.is_request_pending());
    assert_eq!(s.destination(), Ipv4Address::broadcast());

    assert_eq!(s.mark_request_sent_at(1000), Ok(()));
    assert!(!s.is_request_pending());
    assert_eq!(s.requested_at(), 1000);

    let ack = response(42, Some(3600));
    assert_eq!(
        s.transcend_at(DhcpState::Requesting, DhcpState::Bound, Some(&ack), 1001, 42),
        Ok(())
    );
    assert_eq!(s.dhcp_state(), DhcpState::Bound);
    assert_eq!(s.assigned_address(), Ipv4Address::new(10, 0, 0, 5));
    assert_eq!(s.renewal_after(), 1799);
    assert_eq!(s.rebinding_after(), 1350);
    assert_eq!(s.expiration_after(), 450);
    assert!(!s.is_broadcast());
    assert_eq!(s.timer_ack(), None);
    assert_eq!(s.timer_renewal(), Some(Deadline::new(1799)));
    assert_eq!(s.dhcp_server_id(), Some(server()));
    assert_eq!(s.destination(), server());
}

#[test]
fn discovery_draws_new_transaction() {
    let mut s = State::with_transaction_id(DhcpState::Init, None, true, 1);
    s.transcend_at(DhcpState::Init, DhcpState::Selecting, None, 0, 77).unwrap();
    assert_eq!(s.xid(), 77);
    s.transcend_at(DhcpState::Selecting, DhcpState::Selecting, None, 4, 78).unwrap();
    assert_eq!(s.xid(), 77);
    let offer = response(1, Some(3600));
    assert_eq!(
        s.transcend_at(DhcpState::Selecting, DhcpState::Requesting, Some(&offer), 5, 79),
        Err(TransitionError::TransactionMismatch)
    );
}

#[test]
fn offer_wait_restarts_doubled() {
    let mut s = State::with_transaction_id(DhcpState::Init, None, true, 1);
    s.transcend_at(DhcpState::Init, DhcpState::Selecting, None, 0, 1).unwrap();
    s.transcend_at(DhcpState::Selecting, DhcpState::Selecting, None, 4, 1).unwrap();
    assert_eq!(s.timer_offer().unwrap().timeout(), 8);
    s.transcend_at(DhcpState::Selecting, DhcpState::Selecting, None, 12, 1).unwrap();
    assert_eq!(s.timer_offer().unwrap().timeout(), 16);
    assert_eq!(s.dhcp_state(), DhcpState::Selecting);
}

#[test]
fn renewal_cycle() {
    let mut s = bound_state();
    assert_eq!(s.transcend_at(DhcpState::Bound, DhcpState::Renewing, None, 2800, 42), Ok(()));
    assert_eq!(s.dhcp_state(), DhcpState::Renewing);
    assert!(s.is_request_pending());
    assert_eq!(s.timer_rebinding(), Some(Forthon::new(1350, 60)));
    assert_eq!(s.timer_renewal(), None);
    assert_eq!(s.destination(), server());

    s.mark_request_sent_at(2800).unwrap();
    let ack = response(42, Some(3600));
    assert_eq!(
        s.transcend_at(DhcpState::Renewing, DhcpState::Bound, Some(&ack), 2800, 42),
        Ok(())
    );
    assert_eq!(s.dhcp_state(), DhcpState::Bound);
    assert!(!s.is_request_pending());
    assert_eq!(s.timer_renewal(), Some(Deadline::new(1800)));
    assert_eq!(s.timer_rebinding(), None);
}

#[test]
fn renewal_ack_clears_pending_request() {
    let mut s = bound_state();
    s.transcend_at(DhcpState::Bound, DhcpState::Renewing, None, 2800, 42).unwrap();
    let ack = response(42, Some(3600));
    s.transcend_at(DhcpState::Renewing, DhcpState::Bound, Some(&ack), 2801, 42).unwrap();
    assert!(!s.is_request_pending());
    // The latency runs from the last request marked sent, at 1000 s: it
    // exceeds T1, which then comes at once.
    assert_eq!(s.timer_renewal(), Some(Deadline::new(0)));
    assert_eq!(s.rebinding_after(), 1350);
}

#[test]
fn rebinding_expires_to_init() {
    let mut s = bound_state();
    s.transcend_at(DhcpState::Bound, DhcpState::Renewing, None, 2800, 42).unwrap();
    s.mark_request_sent_at(2800).unwrap();
    assert_eq!(s.transcend_at(DhcpState::Renewing, DhcpState::Rebinding, None, 4150, 42), Ok(()));
    assert_eq!(s.dhcp_state(), DhcpState::Rebinding);
    assert_eq!(s.dhcp_server_id(), None);
    assert_eq!(s.destination(), Ipv4Address::broadcast());
    assert_eq!(s.timer_expiration(), Some(Forthon::new(450, 60)));
    assert!(s.is_request_pending());
    s.mark_request_sent_at(4150).unwrap();

    assert_eq!(s.transcend_at(DhcpState::Rebinding, DhcpState::Init, None, 4600, 42), Ok(()));
    assert_eq!(s.dhcp_state(), DhcpState::Init);
    assert!(s.is_broadcast());
    assert_eq!(s.dhcp_server_id(), None);
    assert_eq!(s.assigned_address(), Ipv4Address::new(10, 0, 0, 5));
    assert!(!s.is_request_pending());
    assert_eq!(s.timer_expiration(), None);
}

#[test]
fn rebinding_ack_rebinds() {
    let mut s = bound_state();
    s.transcend_at(DhcpState::Bound, DhcpState::Renewing, None, 2800, 42).unwrap();
    s.mark_request_sent_at(2800).unwrap();
    s.transcend_at(DhcpState::Renewing, DhcpState::Rebinding, None, 4150, 42).unwrap();
    s.mark_request_sent_at(4150).unwrap();
    let ack = response(42, Some(600));
    s.transcend_at(DhcpState::Rebinding, DhcpState::Bound, Some(&ack), 4152, 42).unwrap();
    assert_eq!(s.dhcp_state(), DhcpState::Bound);
    assert_eq!(s.dhcp_server_id(), Some(server()));
    assert_eq!(s.renewal_after(), 298);
    assert_eq!(s.rebinding_after(), 225);
    assert_eq!(s.expiration_after(), 75);
}

#[test]
fn retransmission_keeps_deadline_timer() {
    let mut s = bound_state();
    s.transcend_at(DhcpState::Bound, DhcpState::Renewing, None, 2800, 42).unwrap();
    s.mark_request_sent_at(2800).unwrap();
    assert_eq!(s.transcend_at(DhcpState::Renewing, DhcpState::Renewing, None, 3400, 42), Ok(()));
    assert!(s.is_request_pending());
    assert_eq!(s.timer_rebinding(), Some(Forthon::new(1350, 60)));
}

#[test]
fn second_send_is_refused_until_sent() {
    let mut s = bound_state();
    s.transcend_at(DhcpState::Bound, DhcpState::Renewing, None, 2800, 42).unwrap();
    assert_eq!(
        s.transcend_at(DhcpState::Renewing, DhcpState::Renewing, None, 2801, 42),
        Err(TransitionError::RequestPending)
    );
    assert_eq!(
        s.transcend_at(DhcpState::Renewing, DhcpState::Rebinding, None, 2801, 42),
        Err(TransitionError::RequestPending)
    );
    assert_eq!(s.dhcp_state(), DhcpState::Renewing);
    assert_eq!(s.mark_request_sent_at(2802), Ok(()));
    assert_eq!(s.transcend_at(DhcpState::Renewing, DhcpState::Renewing, None, 2803, 42), Ok(()));
}

#[test]
fn mark_sent_without_request_is_refused() {
    let mut s = State::with_transaction_id(DhcpState::Init, None, true, 3);
    assert_eq!(s.mark_request_sent_at(5), Err(TransitionError::NoRequestPending));
    assert_eq!(s.requested_at(), 0);
}

#[test]
fn only_table_edges_are_legal() {
    let legal = [
        (DhcpState::Init, DhcpState::Selecting),
        (DhcpState::Selecting, DhcpState::Selecting),
        (DhcpState::Selecting, DhcpState::Requesting),
        (DhcpState::Requesting, DhcpState::Init),
        (DhcpState::Requesting, DhcpState::Bound),
        (DhcpState::InitReboot, DhcpState::Rebooting),
        (DhcpState::Rebooting, DhcpState::Init),
        (DhcpState::Rebooting, DhcpState::Bound),
        (DhcpState::Bound, DhcpState::Renewing),
        (DhcpState::Renewing, DhcpState::Bound),
        (DhcpState::Renewing, DhcpState::Renewing),
        (DhcpState::Renewing, DhcpState::Rebinding),
        (DhcpState::Rebinding, DhcpState::Bound),
        (DhcpState::Rebinding, DhcpState::Rebinding),
        (DhcpState::Rebinding, DhcpState::Init),
    ];
    for from in ALL {
        for to in ALL {
            assert_eq!(legal_transition(from, to), legal.contains(&(from, to)));
            if !legal.contains(&(from, to)) {
                let mut s = State::with_transaction_id(from, None, true, 9);
                let ack = response(9, Some(3600));
                assert_eq!(
                    s.transcend_at(from, to, Some(&ack), 10, 9),
                    Err(TransitionError::IllegalTransition)
                );
                assert_eq!(s.dhcp_state(), from);
            }
        }
    }
}

#[test]
fn ack_while_selecting_is_refused() {
    let mut s = State::with_transaction_id(DhcpState::Init, None, true, 9);
    s.transcend_at(DhcpState::Init, DhcpState::Selecting, None, 0, 9).unwrap();
    let ack = response(9, Some(3600));
    assert_eq!(
        s.transcend_at(DhcpState::Selecting, DhcpState::Bound, Some(&ack), 1, 9),
        Err(TransitionError::IllegalTransition)
    );
    assert_eq!(s.dhcp_state(), DhcpState::Selecting);
}

#[test]
fn transition_from_other_state_is_refused() {
    let mut s = State::with_transaction_id(DhcpState::Init, None, true, 9);
    assert_eq!(
        s.transcend_at(DhcpState::Bound, DhcpState::Renewing, None, 0, 9),
        Err(TransitionError::WrongState)
    );
    assert_eq!(s.dhcp_state(), DhcpState::Init);
}

#[test]
fn faulty_responses_are_refused() {
    let mut s = State::with_transaction_id(DhcpState::Init, None, true, 9);
    s.transcend_at(DhcpState::Init, DhcpState::Selecting, None, 0, 9).unwrap();
    assert_eq!(
        s.transcend_at(DhcpState::Selecting, DhcpState::Requesting, None, 1, 9),
        Err(TransitionError::MissingResponse)
    );
    let other = response(10, Some(3600));
    assert_eq!(
        s.transcend_at(DhcpState::Selecting, DhcpState::Requesting, Some(&other), 1, 9),
        Err(TransitionError::TransactionMismatch)
    );
    let no_lease = response(9, None);
    assert_eq!(
        s.transcend_at(DhcpState::Selecting, DhcpState::Requesting, Some(&no_lease), 1, 9),
        Err(TransitionError::MissingLeaseTime)
    );
    assert_eq!(s.dhcp_state(), DhcpState::Selecting);
    assert_eq!(s.timer_offer(), Some(Backoff::new(4, 64)));
}

#[test]
fn nak_while_requesting_returns_to_init() {
    let mut s = State::with_transaction_id(DhcpState::Init, None, true, 9);
    s.transcend_at(DhcpState::Init, DhcpState::Selecting, None, 0, 9).unwrap();
    let offer = response(9, Some(3600));
    s.transcend_at(DhcpState::Selecting, DhcpState::Requesting, Some(&offer), 1, 9).unwrap();
    s.mark_request_sent_at(1).unwrap();
    assert_eq!(s.transcend_at(DhcpState::Requesting, DhcpState::Init, None, 70, 9), Ok(()));
    assert_eq!(s.dhcp_state(), DhcpState::Init);
    assert_eq!(s.dhcp_server_id(), None);
    assert_eq!(s.timer_ack(), None);
}

#[test]
fn reboot_reconfirms_cached_lease() {
    let mut s = State::with_transaction_id(DhcpState::InitReboot, None, true, 5);
    assert_eq!(s.transcend_at(DhcpState::InitReboot, DhcpState::Rebooting, None, 100, 5), Ok(()));
    assert!(s.is_request_pending());
    assert_eq!(s.requested_at(), 100);
    assert_eq!(s.timer_ack(), Some(Backoff::new(4, 64)));
    s.mark_request_sent_at(100).unwrap();
    let mut ack = response(5, Some(1000));
    ack.renewal_time = Some(400);
    ack.rebinding_time = Some(800);
    s.transcend_at(DhcpState::Rebooting, DhcpState::Bound, Some(&ack), 102, 5).unwrap();
    assert_eq!(s.dhcp_server_id(), Some(server()));
    assert_eq!(s.renewal_after(), 398);
    assert_eq!(s.rebinding_after(), 400);
    assert_eq!(s.expiration_after(), 200);
}

#[test]
fn clock_driven_transitions() {
    let mut s = State::new(DhcpState::Init, Some(server()), true);
    assert_eq!(s.dhcp_server_id(), Some(server()));
    assert_eq!(s.transcend(DhcpState::Init, DhcpState::Selecting, None), Ok(()));
    let offer = response(s.xid(), Some(3600));
    assert_eq!(s.transcend(DhcpState::Selecting, DhcpState::Requesting, Some(&offer)), Ok(()));
    assert!(s.requested_at() > 0);
    assert_eq!(s.mark_request_sent(), Ok(()));
    assert_eq!(s.mark_request_sent(), Err(TransitionError::NoRequestPending));
    assert_eq!(s.transcend(DhcpState::Requesting, DhcpState::Bound, Some(&offer)), Ok(()));
    assert!(s.renewal_after() <= 1800);
    assert_eq!(s.expiration_after(), 450);
}

#[test]
fn state_names() {
    assert_eq!(DhcpState::Init.name(), "INIT");
    assert_eq!(DhcpState::InitReboot.name(), "INITREBOOT");
    assert_eq!(DhcpState::Rebinding.name(), "REBINDING");
}

#[test]
fn expiry_with_unsent_request_owes_nothing() {
    let mut s = bound_state();
    s.transcend_at(DhcpState::Bound, DhcpState::Renewing, None, 2800, 42).unwrap();
    s.mark_request_sent_at(2800).unwrap();
    s.transcend_at(DhcpState::Renewing, DhcpState::Rebinding, None, 4150, 42).unwrap();
    assert!(s.is_request_pending());
    assert_eq!(s.transcend_at(DhcpState::Rebinding, DhcpState::Init, None, 4600, 42), Ok(()));
    assert!(!s.is_request_pending());
    assert_eq!(s.assigned_address(), Ipv4Address::new(10, 0, 0, 5));
    assert_eq!(s.mark_request_sent_at(4601), Err(TransitionError::NoRequestPending));
}
