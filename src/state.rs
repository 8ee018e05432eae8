//! The DHCP client state: the current RFC 2131 state, what was learned
//! from the server, the lease countdowns and the armed timers, and the
//! transitions between the states.
use vstd::prelude::*;

use crate::address::Ipv4Address;
use crate::clock::now_timestamp;
use crate::lease::{
    derive_intervals, renewal_after_spec, rebinding_after_spec, expiration_after_spec,
    renewal_time_or_default,
};
use crate::message::Response;
use crate::timer::{Backoff, Deadline, Forthon, doubled_capped};

verus! {

/// Initial timeout in seconds of the backoff timers.
pub const BACKOFF_TIMEOUT_INITIAL: u64 = 4;

/// Maximal timeout in seconds of the backoff timers.
pub const BACKOFF_TIMEOUT_MAXIMUM: u64 = 64;

/// Minimal timeout in seconds of the floor-guarded timers.
pub const FORTHON_TIMEOUT_MINIMAL: u64 = 60;

/// RFC 2131 client states.
#[derive(Clone, Copy, Debug, PartialEq, Eq, Structural)]
pub enum DhcpState {
    Init,
    Selecting,
    Requesting,
    InitReboot,
    Rebooting,
    Bound,
    Renewing,
    Rebinding,
}

/// The name RFC 2131 gives a state.
pub open spec fn state_name(s: DhcpState) -> Seq<char> {
    match s {
        DhcpState::Init => "INIT"@,
        DhcpState::Selecting => "SELECTING"@,
        DhcpState::Requesting => "REQUESTING"@,
        DhcpState::InitReboot => "INITREBOOT"@,
        DhcpState::Rebooting => "REBOOTING"@,
        DhcpState::Bound => "BOUND"@,
        DhcpState::Renewing => "RENEWING"@,
        DhcpState::Rebinding => "REBINDING"@,
    }
}

impl DhcpState {
    /// The state's name, as RFC 2131 writes it.
    pub fn name(&self) -> (r: &'static str)
        ensures
            r@ == state_name(*self),
    {
        match self {
            DhcpState::Init => "INIT",
            DhcpState::Selecting => "SELECTING",
            DhcpState::Requesting => "REQUESTING",
            DhcpState::InitReboot => "INITREBOOT",
            DhcpState::Rebooting => "REBOOTING",
            DhcpState::Bound => "BOUND",
            DhcpState::Renewing => "RENEWING",
            DhcpState::Rebinding => "REBINDING",
        }
    }
}

/// Why a transition was refused. Each one leaves the state as it was.
#[derive(Clone, Copy, Debug, PartialEq, Eq, Structural)]
pub enum TransitionError {
    /// The transition starts from a state other than the current one.
    WrongState,
    /// RFC 2131 has no such edge between the two states.
    IllegalTransition,
    /// The transition would send a request while one is still unsent.
    RequestPending,
    /// `mark_request_sent` was called with no request unsent.
    NoRequestPending,
    /// The transition needs the server's offer or acknowledgement.
    MissingResponse,
    /// The response belongs to another transaction.
    TransactionMismatch,
    /// The response carries no address lease time.
    MissingLeaseTime,
}

/// The edges of the RFC 2131 client state diagram.
pub open spec fn is_legal(from: DhcpState, to: DhcpState) -> bool {
    match from {
        DhcpState::Init => to == DhcpState::Selecting,
        DhcpState::Selecting => to == DhcpState::Selecting || to == DhcpState::Requesting,
        DhcpState::Requesting => to == DhcpState::Init || to == DhcpState::Bound,
        DhcpState::InitReboot => to == DhcpState::Rebooting,
        DhcpState::Rebooting => to == DhcpState::Init || to == DhcpState::Bound,
        DhcpState::Bound => to == DhcpState::Renewing,
        DhcpState::Renewing => to == DhcpState::Bound || to == DhcpState::Renewing || to
            == DhcpState::Rebinding,
        DhcpState::Rebinding => to == DhcpState::Bound || to == DhcpState::Rebinding || to
            == DhcpState::Init,
    }
}

/// The edges after which a request is owed to a server.
pub open spec fn sends_request(from: DhcpState, to: DhcpState) -> bool {
    (from == DhcpState::Selecting && to == DhcpState::Requesting) || (from
        == DhcpState::InitReboot && to == DhcpState::Rebooting) || (from == DhcpState::Bound
        && to == DhcpState::Renewing) || (from == DhcpState::Renewing && (to
        == DhcpState::Renewing || to == DhcpState::Rebinding)) || (from == DhcpState::Rebinding
        && to == DhcpState::Rebinding)
}

/// The edges taken on a server's offer or acknowledgement.
pub open spec fn takes_response(from: DhcpState, to: DhcpState) -> bool {
    (from == DhcpState::Selecting && to == DhcpState::Requesting) || to == DhcpState::Bound
}

/// What the lease state holds.
#[derive(Clone, Copy, Debug, PartialEq, Eq, Structural)]
pub struct LeaseView {
    pub dhcp_state: DhcpState,
    pub is_broadcast: bool,
    pub transaction_id: u32,
    pub offered_address: Ipv4Address,
    pub offered_time: u32,
    pub dhcp_server_id: Option<Ipv4Address>,
    pub assigned_address: Ipv4Address,
    pub request_pending: bool,
    pub requested_at: i64,
    pub renewal_after: u64,
    pub rebinding_after: u64,
    pub expiration_after: u64,
    pub timer_offer: Option<Backoff>,
    pub timer_ack: Option<Backoff>,
    pub timer_renewal: Option<Deadline>,
    pub timer_rebinding: Option<Forthon>,
    pub timer_expiration: Option<Forthon>,
}

/// The error a transition meets in `v`, if any.
pub open spec fn transition_error(
    v: LeaseView,
    from: DhcpState,
    to: DhcpState,
    response: Option<Response>,
) -> Option<TransitionError> {
    if from != v.dhcp_state {
        Some(TransitionError::WrongState)
    } else if !is_legal(from, to) {
        Some(TransitionError::IllegalTransition)
    } else if sends_request(from, to) && v.request_pending {
        Some(TransitionError::RequestPending)
    } else if takes_response(from, to) {
        match response {
            None => Some(TransitionError::MissingResponse),
            Some(m) => if m.transaction_id != v.transaction_id {
                Some(TransitionError::TransactionMismatch)
            } else if m.address_time is None {
                Some(TransitionError::MissingLeaseTime)
            } else {
                None
            },
        }
    } else {
        None
    }
}

/// A fresh backoff timer of the offer and acknowledgement waits.
pub open spec fn fresh_backoff() -> Backoff {
    Backoff {
        initial: BACKOFF_TIMEOUT_INITIAL,
        interval: BACKOFF_TIMEOUT_INITIAL,
        ceiling: BACKOFF_TIMEOUT_MAXIMUM,
    }
}

/// `t` restarted, or a fresh backoff timer where none was armed.
pub open spec fn restarted(t: Option<Backoff>) -> Backoff {
    match t {
        Some(b) => Backoff {
            interval: doubled_capped(b.interval as int, b.ceiling as int) as u64,
            ..b
        },
        None => fresh_backoff(),
    }
}

/// `v` with exactly the given timers armed.
pub open spec fn with_timers(
    v: LeaseView,
    offer: Option<Backoff>,
    ack: Option<Backoff>,
    renewal: Option<Deadline>,
    rebinding: Option<Forthon>,
    expiration: Option<Forthon>,
) -> LeaseView {
    LeaseView {
        timer_offer: offer,
        timer_ack: ack,
        timer_renewal: renewal,
        timer_rebinding: rebinding,
        timer_expiration: expiration,
        ..v
    }
}

/// Seconds since the request was sent, zero if the clock went back.
pub open spec fn elapsed_since(requested_at: i64, now: i64) -> int {
    if now > requested_at {
        now - requested_at
    } else {
        0
    }
}

/// `v` bound by the acknowledgement `m` received at `now`: the address is
/// assigned, the server learned where the acknowledgement names it, the
/// countdowns derived, broadcast replies no longer needed, and only T1
/// armed.
pub open spec fn bound_by(v: LeaseView, m: Response, now: i64) -> LeaseView {
    let lease = m.address_time->Some_0;
    let renewal_after = renewal_after_spec(
        m.renewal_time,
        lease,
        elapsed_since(v.requested_at, now),
    ) as u64;
    with_timers(
        LeaseView {
            dhcp_state: DhcpState::Bound,
            assigned_address: m.your_ip_address,
            dhcp_server_id: match m.dhcp_server_id {
                Some(id) => Some(id),
                None => v.dhcp_server_id,
            },
            renewal_after: renewal_after,
            rebinding_after: rebinding_after_spec(m.renewal_time, m.rebinding_time, lease) as u64,
            expiration_after: expiration_after_spec(m.rebinding_time, lease) as u64,
            is_broadcast: false,
            request_pending: false,
            ..v
        },
        None,
        None,
        Some(Deadline { after: renewal_after }),
        None,
        None,
    )
}

/// The rebinding (T2) timer armed on entering RENEWING.
pub open spec fn rebinding_timer(v: LeaseView) -> Forthon {
    Forthon { duration: v.rebinding_after, floor: FORTHON_TIMEOUT_MINIMAL }
}

/// The expiration timer armed on entering REBINDING.
pub open spec fn expiration_timer(v: LeaseView) -> Forthon {
    Forthon { duration: v.expiration_after, floor: FORTHON_TIMEOUT_MINIMAL }
}

/// The state after a transition that meets no error, taken at `now`;
/// a new discovery runs under the transaction id `fresh_xid`.
pub open spec fn step(
    v: LeaseView,
    from: DhcpState,
    to: DhcpState,
    response: Option<Response>,
    now: i64,
    fresh_xid: u32,
) -> LeaseView {
    match (from, to) {
        (DhcpState::Init, DhcpState::Selecting) => with_timers(
            LeaseView {
                dhcp_state: DhcpState::Selecting,
                transaction_id: fresh_xid,
                dhcp_server_id: None,
                request_pending: false,
                ..v
            },
            Some(fresh_backoff()),
            None,
            None,
            None,
            None,
        ),
        (DhcpState::Selecting, DhcpState::Selecting) => with_timers(
            v,
            Some(restarted(v.timer_offer)),
            None,
            None,
            None,
            None,
        ),
        (DhcpState::Selecting, DhcpState::Requesting) => {
            let m = response->Some_0;
            with_timers(
                LeaseView {
                    dhcp_state: DhcpState::Requesting,
                    dhcp_server_id: m.dhcp_server_id,
                    offered_address: m.your_ip_address,
                    offered_time: m.address_time->Some_0,
                    request_pending: true,
                    requested_at: now,
                    ..v
                },
                None,
                Some(fresh_backoff()),
                None,
                None,
                None,
            )
        },
        (DhcpState::InitReboot, DhcpState::Rebooting) => with_timers(
            LeaseView {
                dhcp_state: DhcpState::Rebooting,
                request_pending: true,
                requested_at: now,
                ..v
            },
            None,
            Some(fresh_backoff()),
            None,
            None,
            None,
        ),
        (DhcpState::Bound, DhcpState::Renewing) => with_timers(
            LeaseView { dhcp_state: DhcpState::Renewing, request_pending: true, ..v },
            None,
            None,
            None,
            Some(rebinding_timer(v)),
            None,
        ),
        (DhcpState::Renewing, DhcpState::Renewing) => with_timers(
            LeaseView { request_pending: true, ..v },
            None,
            None,
            None,
            Some(
                match v.timer_rebinding {
                    Some(t) => t,
                    None => rebinding_timer(v),
                },
            ),
            None,
        ),
        (DhcpState::Renewing, DhcpState::Rebinding) => with_timers(
            LeaseView {
                dhcp_state: DhcpState::Rebinding,
                dhcp_server_id: None,
                request_pending: true,
                ..v
            },
            None,
            None,
            None,
            None,
            Some(expiration_timer(v)),
        ),
        (DhcpState::Rebinding, DhcpState::Rebinding) => with_timers(
            LeaseView { request_pending: true, ..v },
            None,
            None,
            None,
            None,
            Some(
                match v.timer_expiration {
                    Some(t) => t,
                    None => expiration_timer(v),
                },
            ),
        ),
        (DhcpState::Rebinding, DhcpState::Init) => with_timers(
            LeaseView {
                dhcp_state: DhcpState::Init,
                dhcp_server_id: None,
                is_broadcast: true,
                request_pending: false,
                ..v
            },
            None,
            None,
            None,
            None,
            None,
        ),
        (_, DhcpState::Init) => with_timers(
            LeaseView {
                dhcp_state: DhcpState::Init,
                dhcp_server_id: None,
                request_pending: false,
                ..v
            },
            None,
            None,
            None,
            None,
            None,
        ),
        (_, DhcpState::Bound) => bound_by(v, response->Some_0, now),
        _ => v,
    }
}

/// What a transition attempted in `v` at `now`, with `fresh_xid` at hand,
/// does: it is refused with
/// the error it meets and changes nothing, or it succeeds and moves to its
/// step.
pub open spec fn transition_outcome(
    v: LeaseView,
    from: DhcpState,
    to: DhcpState,
    response: Option<Response>,
    now: i64,
    fresh_xid: u32,
    next: LeaseView,
    r: Result<(), TransitionError>,
) -> bool {
    match transition_error(v, from, to, response) {
        Some(e) => r == Err::<(), TransitionError>(e) && next == v,
        None => r == Ok::<(), TransitionError>(()) && next == step(v, from, to, response, now, fresh_xid),
    }
}

/// Each state armed with exactly the timer that ends its wait: the offer
/// wait in SELECTING, the acknowledgement wait in REQUESTING and REBOOTING,
/// T1 in BOUND, T2 in RENEWING, the lease expiration in REBINDING, and none
/// in INIT and INIT-REBOOT.
pub open spec fn owning_timers_armed(v: LeaseView) -> bool {
    &&& (v.timer_offer is Some <==> v.dhcp_state == DhcpState::Selecting)
    &&& (v.timer_ack is Some <==> (v.dhcp_state == DhcpState::Requesting || v.dhcp_state
        == DhcpState::Rebooting))
    &&& (v.timer_renewal is Some <==> v.dhcp_state == DhcpState::Bound)
    &&& (v.timer_rebinding is Some <==> v.dhcp_state == DhcpState::Renewing)
    &&& (v.timer_expiration is Some <==> v.dhcp_state == DhcpState::Rebinding)
}

/// The response behind a borrowed one.
pub open spec fn copied(response: Option<&Response>) -> Option<Response> {
    match response {
        Some(m) => Some(*m),
        None => None,
    }
}

/// Whether RFC 2131 has an edge from `from` to `to`.
pub fn legal_transition(from: DhcpState, to: DhcpState) -> (r: bool)
    ensures
        r == is_legal(from, to),
{
    match from {
        DhcpState::Init => to == DhcpState::Selecting,
        DhcpState::Selecting => to == DhcpState::Selecting || to == DhcpState::Requesting,
        DhcpState::Requesting => to == DhcpState::Init || to == DhcpState::Bound,
        DhcpState::InitReboot => to == DhcpState::Rebooting,
        DhcpState::Rebooting => to == DhcpState::Init || to == DhcpState::Bound,
        DhcpState::Bound => to == DhcpState::Renewing,
        DhcpState::Renewing => to == DhcpState::Bound || to == DhcpState::Renewing || to
            == DhcpState::Rebinding,
        DhcpState::Rebinding => to == DhcpState::Bound || to == DhcpState::Rebinding || to
            == DhcpState::Init,
    }
}

fn sends_request_exec(from: DhcpState, to: DhcpState) -> (r: bool)
    ensures
        r == sends_request(from, to),
{
    (from == DhcpState::Selecting && to == DhcpState::Requesting) || (from
        == DhcpState::InitReboot && to == DhcpState::Rebooting) || (from == DhcpState::Bound
        && to == DhcpState::Renewing) || (from == DhcpState::Renewing && (to
        == DhcpState::Renewing || to == DhcpState::Rebinding)) || (from == DhcpState::Rebinding
        && to == DhcpState::Rebinding)
}

/// Mutable client data: the lease state.
pub struct State {
    /// Current DHCP client state (RFC 2131).
    dhcp_state: DhcpState,
    /// If the client requires broadcast responses (it is not configured yet).
    is_broadcast: bool,
    /// Generated by the client for each session.
    transaction_id: u32,
    /// Recorded from the selected DHCPOFFER.
    offered_address: Ipv4Address,
    /// Recorded from the selected DHCPOFFER.
    offered_time: u32,
    /// The address of the selected server, if known.
    dhcp_server_id: Option<Ipv4Address>,
    /// Recorded from the DHCPACK.
    assigned_address: Ipv4Address,
    /// A request is owed to the server and has not been sent yet.
    request_pending: bool,
    /// Seconds since the Unix epoch at which the last request was sent.
    requested_at: i64,
    /// Seconds from BOUND till RENEWING.
    renewal_after: u64,
    /// Seconds from RENEWING till REBINDING.
    rebinding_after: u64,
    /// Seconds from REBINDING till the lease expires.
    expiration_after: u64,
    /// DHCPOFFER receive deadline.
    timer_offer: Option<Backoff>,
    /// DHCPACK or DHCPNAK receive deadline.
    timer_ack: Option<Backoff>,
    /// Renewal timer (T1).
    timer_renewal: Option<Deadline>,
    /// Rebinding timer (T2).
    timer_rebinding: Option<Forthon>,
    /// Lease expiration timer.
    timer_expiration: Option<Forthon>,
}

impl View for State {
    type V = LeaseView;

    closed spec fn view(&self) -> LeaseView {
        LeaseView {
            dhcp_state: self.dhcp_state,
            is_broadcast: self.is_broadcast,
            transaction_id: self.transaction_id,
            offered_address: self.offered_address,
            offered_time: self.offered_time,
            dhcp_server_id: self.dhcp_server_id,
            assigned_address: self.assigned_address,
            request_pending: self.request_pending,
            requested_at: self.requested_at,
            renewal_after: self.renewal_after,
            rebinding_after: self.rebinding_after,
            expiration_after: self.expiration_after,
            timer_offer: self.timer_offer,
            timer_ack: self.timer_ack,
            timer_renewal: self.timer_renewal,
            timer_rebinding: self.timer_rebinding,
            timer_expiration: self.timer_expiration,
        }
    }
}

/// The state a session starts in: nothing offered or assigned, no request
/// owed, no countdown and no timer armed.
pub open spec fn initial_view(
    dhcp_state: DhcpState,
    server_address: Option<Ipv4Address>,
    is_broadcast: bool,
    transaction_id: u32,
) -> LeaseView {
    LeaseView {
        dhcp_state,
        is_broadcast,
        transaction_id,
        offered_address: Ipv4Address { bits: 0 },
        offered_time: 0,
        dhcp_server_id: server_address,
        assigned_address: Ipv4Address { bits: 0 },
        request_pending: false,
        requested_at: 0,
        renewal_after: 0,
        rebinding_after: 0,
        expiration_after: 0,
        timer_offer: None,
        timer_ack: None,
        timer_renewal: None,
        timer_rebinding: None,
        timer_expiration: None,
    }
}

impl State {
    /// Constructs a state with a random transaction id.
    pub fn new(dhcp_state: DhcpState, server_address: Option<Ipv4Address>, is_broadcast: bool) -> (r:
        State)
        ensures
            r@ == initial_view(dhcp_state, server_address, is_broadcast, r@.transaction_id),
    {
        let transaction_id: u32 = rand::random::<u32>();
        State::with_transaction_id(dhcp_state, server_address, is_broadcast, transaction_id)
    }

    /// Constructs a state with the given transaction id.
    pub fn with_transaction_id(
        dhcp_state: DhcpState,
        server_address: Option<Ipv4Address>,
        is_broadcast: bool,
        transaction_id: u32,
    ) -> (r: State)
        ensures
            r@ == initial_view(dhcp_state, server_address, is_broadcast, transaction_id),
    {
        State {
            dhcp_state,
            is_broadcast,
            transaction_id,
            offered_address: Ipv4Address::unspecified(),
            offered_time: 0,
            dhcp_server_id: server_address,
            assigned_address: Ipv4Address::unspecified(),
            request_pending: false,
            requested_at: 0,
            renewal_after: 0,
            rebinding_after: 0,
            expiration_after: 0,
            timer_offer: None,
            timer_ack: None,
            timer_renewal: None,
            timer_rebinding: None,
            timer_expiration: None,
        }
    }

    /// Arms exactly the given timers.
    fn set_timers(
        &mut self,
        offer: Option<Backoff>,
        ack: Option<Backoff>,
        renewal: Option<Deadline>,
        rebinding: Option<Forthon>,
        expiration: Option<Forthon>,
    )
        ensures
            final(self)@ == with_timers(old(self)@, offer, ack, renewal, rebinding, expiration),
    {
        self.timer_offer = offer;
        self.timer_ack = ack;
        self.timer_renewal = renewal;
        self.timer_rebinding = rebinding;
        self.timer_expiration = expiration;
    }

    fn run_timer_backoff() -> (r: Backoff)
        ensures
            r == fresh_backoff(),
    {
        Backoff::new(BACKOFF_TIMEOUT_INITIAL, BACKOFF_TIMEOUT_MAXIMUM)
    }

    fn run_timer_rebinding(&self) -> (r: Forthon)
        ensures
            r == rebinding_timer(self@),
    {
        Forthon::new(self.rebinding_after, FORTHON_TIMEOUT_MINIMAL)
    }

    fn run_timer_expiration(&self) -> (r: Forthon)
        ensures
            r == expiration_timer(self@),
    {
        Forthon::new(self.expiration_after, FORTHON_TIMEOUT_MINIMAL)
    }

    /// Derives the countdowns from an acknowledgement received at `now`.
    fn set_times(
        &mut self,
        renewal_time: Option<u32>,
        rebinding_time: Option<u32>,
        expiration_time: u32,
        now: i64,
    )
        ensures
            final(self)@ == (LeaseView {
                renewal_after: renewal_after_spec(
                    renewal_time,
                    expiration_time,
                    elapsed_since(old(self)@.requested_at, now),
                ) as u64,
                rebinding_after: rebinding_after_spec(
                    renewal_time,
                    rebinding_time,
                    expiration_time,
                ) as u64,
                expiration_after: expiration_after_spec(rebinding_time, expiration_time) as u64,
                ..old(self)@
            }),
    {
        let elapsed: u64 = if now > self.requested_at {
            (now as i128 - self.requested_at as i128) as u64
        } else {
            0
        };
        let (renewal_after, rebinding_after, expiration_after) = derive_intervals(
            renewal_time,
            rebinding_time,
            expiration_time,
            elapsed,
        );
        self.renewal_after = renewal_after;
        self.rebinding_after = rebinding_after;
        self.expiration_after = expiration_after;
    }

    /// Enters BOUND on the acknowledgement `ack` received at `now`.
    fn bind(&mut self, ack: &Response, expiration_time: u32, now: i64)
        requires
            ack.address_time == Some(expiration_time),
        ensures
            final(self)@ == bound_by(old(self)@, *ack, now),
    {
        self.set_times(ack.renewal_time, ack.rebinding_time, expiration_time, now);
        self.dhcp_state = DhcpState::Bound;
        self.assigned_address = ack.your_ip_address;
        if let Some(id) = ack.dhcp_server_id {
            self.dhcp_server_id = Some(id);
        }
        self.is_broadcast = false;
        self.request_pending = false;
        let renewal = Deadline::new(self.renewal_after);
        self.set_timers(None, None, Some(renewal), None, None);
    }

    /// Moves the client from `from` to `to`, the transition taken at `now`
    /// seconds since the Unix epoch. `response` is the offer or
    /// acknowledgement that the transition rests on, where it rests on one.
    /// `fresh_xid` becomes the transaction id where a new discovery starts
    /// (INIT to SELECTING); other transitions keep the current one.
    ///
    /// Refused, with the state left as it was: a transition from a state
    /// other than the current one, one that RFC 2131 does not have, one
    /// that would send a request while another is unsent, and one on a
    /// response that is missing, belongs to another transaction or has no
    /// lease time.
    ///
    /// The retransmissions of RENEWING and REBINDING are the self
    /// transitions `Renewing -> Renewing` and `Rebinding -> Rebinding`; they
    /// keep the T2 or expiration timer armed. The wait before each of them
    /// is the caller's: it arms `Forthon::retransmission` with the seconds
    /// left until T2 (RENEWING) or until the lease expires (REBINDING),
    /// which gives half of that time and never less than a minute
    /// (RFC 2131, section 4.4.5).
    pub fn transcend_at(
        &mut self,
        from: DhcpState,
        to: DhcpState,
        response: Option<&Response>,
        now: i64,
        fresh_xid: u32,
    ) -> (r: Result<(), TransitionError>)
        ensures
            transition_outcome(
                old(self)@,
                from,
                to,
                copied(response),
                now,
                fresh_xid,
                final(self)@,
                r,
            ),
    {
        if from != self.dhcp_state {
            return Err(TransitionError::WrongState);
        }
        if !legal_transition(from, to) {
            return Err(TransitionError::IllegalTransition);
        }
        if sends_request_exec(from, to) && self.request_pending {
            return Err(TransitionError::RequestPending);
        }
        let takes = (from == DhcpState::Selecting && to == DhcpState::Requesting) || to
            == DhcpState::Bound;
        let mut lease_time: u32 = 0;
        if takes {
            match response {
                None => {
                    return Err(TransitionError::MissingResponse);
                },
                Some(m) => {
                    if m.transaction_id != self.transaction_id {
                        return Err(TransitionError::TransactionMismatch);
                    }
                    match m.address_time {
                        None => {
                            return Err(TransitionError::MissingLeaseTime);
                        },
                        Some(t) => {
                            lease_time = t;
                        },
                    }
                },
            }
        }
        match (from, to) {
            (DhcpState::Init, DhcpState::Selecting) => {
                self.dhcp_state = DhcpState::Selecting;
                self.transaction_id = fresh_xid;
                self.dhcp_server_id = None;
                self.request_pending = false;
                self.set_timers(Some(State::run_timer_backoff()), None, None, None, None);
            },
            (DhcpState::Selecting, DhcpState::Selecting) => {
                let offer = match self.timer_offer {
                    Some(t) => {
                        let mut t = t;
                        t.restart();
                        t
                    },
                    None => State::run_timer_backoff(),
                };
                self.set_timers(Some(offer), None, None, None, None);
            },
            (DhcpState::Selecting, DhcpState::Requesting) => {
                if let Some(m) = response {
                    self.dhcp_state = DhcpState::Requesting;
                    self.dhcp_server_id = m.dhcp_server_id;
                    self.offered_address = m.your_ip_address;
                    self.offered_time = lease_time;
                    self.request_pending = true;
                    self.requested_at = now;
                    self.set_timers(None, Some(State::run_timer_backoff()), None, None, None);
                }
            },
            (DhcpState::InitReboot, DhcpState::Rebooting) => {
                self.dhcp_state = DhcpState::Rebooting;
                self.request_pending = true;
                self.requested_at = now;
                self.set_timers(None, Some(State::run_timer_backoff()), None, None, None);
            },
            (DhcpState::Bound, DhcpState::Renewing) => {
                let rebinding = self.run_timer_rebinding();
                self.dhcp_state = DhcpState::Renewing;
                self.request_pending = true;
                self.set_timers(None, None, None, Some(rebinding), None);
            },
            (DhcpState::Renewing, DhcpState::Renewing) => {
                let rebinding = match self.timer_rebinding {
                    Some(t) => t,
                    None => self.run_timer_rebinding(),
                };
                self.request_pending = true;
                self.set_timers(None, None, None, Some(rebinding), None);
            },
            (DhcpState::Renewing, DhcpState::Rebinding) => {
                let expiration = self.run_timer_expiration();
                self.dhcp_state = DhcpState::Rebinding;
                self.dhcp_server_id = None;
                self.request_pending = true;
                self.set_timers(None, None, None, None, Some(expiration));
            },
            (DhcpState::Rebinding, DhcpState::Rebinding) => {
                let expiration = match self.timer_expiration {
                    Some(t) => t,
                    None => self.run_timer_expiration(),
                };
                self.request_pending = true;
                self.set_timers(None, None, None, None, Some(expiration));
            },
            (DhcpState::Rebinding, DhcpState::Init) => {
                self.dhcp_state = DhcpState::Init;
                self.dhcp_server_id = None;
                self.is_broadcast = true;
                self.request_pending = false;
                self.set_timers(None, None, None, None, None);
            },
            (_, DhcpState::Init) => {
                self.dhcp_state = DhcpState::Init;
                self.dhcp_server_id = None;
                self.request_pending = false;
                self.set_timers(None, None, None, None, None);
            },
            (_, DhcpState::Bound) => {
                if let Some(m) = response {
                    self.bind(m, lease_time, now);
                }
            },
            _ => {},
        }
        Ok(())
    }

    /// Moves the client from `from` to `to` at the current time, as
    /// `transcend_at` does, with a random transaction id for a new
    /// discovery.
    pub fn transcend(&mut self, from: DhcpState, to: DhcpState, response: Option<&Response>) -> (r:
        Result<(), TransitionError>)
        ensures
            exists|now: i64, fresh_xid: u32|
                transition_outcome(
                    old(self)@,
                    from,
                    to,
                    copied(response),
                    now,
                    fresh_xid,
                    final(self)@,
                    r,
                ),
            r is Err <==> transition_error(old(self)@, from, to, copied(response)) is Some,
    {
        let now = now_timestamp();
        let fresh_xid: u32 = rand::random::<u32>();
        let r = self.transcend_at(from, to, response, now, fresh_xid);
        assert(transition_outcome(old(self)@, from, to, copied(response), now, fresh_xid, self@, r));
        r
    }

    /// Records that the owed request was sent at `now` seconds since the
    /// Unix epoch. Refused, with the state left as it was, where no
    /// request is owed.
    pub fn mark_request_sent_at(&mut self, now: i64) -> (r: Result<(), TransitionError>)
        ensures
            old(self)@.request_pending ==> r is Ok && final(self)@ == (LeaseView {
                request_pending: false,
                requested_at: now,
                ..old(self)@
            }),
            !old(self)@.request_pending ==> r == Err::<(), TransitionError>(
                TransitionError::NoRequestPending,
            ) && final(self)@ == old(self)@,
    {
        if !self.request_pending {
            return Err(TransitionError::NoRequestPending);
        }
        self.request_pending = false;
        self.requested_at = now;
        Ok(())
    }

    /// Records that the owed request was sent now.
    pub fn mark_request_sent(&mut self) -> (r: Result<(), TransitionError>)
        ensures
            old(self)@.request_pending ==> r is Ok && final(self)@ == (LeaseView {
                request_pending: false,
                requested_at: final(self)@.requested_at,
                ..old(self)@
            }),
            !old(self)@.request_pending ==> r == Err::<(), TransitionError>(
                TransitionError::NoRequestPending,
            ) && final(self)@ == old(self)@,
    {
        let now = now_timestamp();
        self.mark_request_sent_at(now)
    }

    /// Current DHCP client state.
    pub fn dhcp_state(&self) -> (r: DhcpState)
        ensures
            r == self@.dhcp_state,
    {
        self.dhcp_state
    }

    /// Whether responses must be requested as broadcasts.
    pub fn is_broadcast(&self) -> (r: bool)
        ensures
            r == self@.is_broadcast,
    {
        self.is_broadcast
    }

    /// The transaction id to stamp on outbound messages.
    pub fn xid(&self) -> (r: u32)
        ensures
            r == self@.transaction_id,
    {
        self.transaction_id
    }

    /// The address of the selected offer.
    pub fn offered_address(&self) -> (r: Ipv4Address)
        ensures
            r == self@.offered_address,
    {
        self.offered_address
    }

    /// The lease time of the selected offer.
    pub fn offered_time(&self) -> (r: u32)
        ensures
            r == self@.offered_time,
    {
        self.offered_time
    }

    /// The selected server, if known.
    pub fn dhcp_server_id(&self) -> (r: Option<Ipv4Address>)
        ensures
            r == self@.dhcp_server_id,
    {
        self.dhcp_server_id
    }

    /// The address of the current lease.
    pub fn assigned_address(&self) -> (r: Ipv4Address)
        ensures
            r == self@.assigned_address,
    {
        self.assigned_address
    }

    /// Whether a request is owed and not yet sent.
    pub fn is_request_pending(&self) -> (r: bool)
        ensures
            r == self@.request_pending,
    {
        self.request_pending
    }

    /// Seconds since the Unix epoch at which the last request was sent.
    pub fn requested_at(&self) -> (r: i64)
        ensures
            r == self@.requested_at,
    {
        self.requested_at
    }

    /// Seconds from BOUND till RENEWING.
    pub fn renewal_after(&self) -> (r: u64)
        ensures
            r == self@.renewal_after,
    {
        self.renewal_after
    }

    /// Seconds from RENEWING till REBINDING.
    pub fn rebinding_after(&self) -> (r: u64)
        ensures
            r == self@.rebinding_after,
    {
        self.rebinding_after
    }

    /// Seconds from REBINDING till the lease expires.
    pub fn expiration_after(&self) -> (r: u64)
        ensures
            r == self@.expiration_after,
    {
        self.expiration_after
    }

    /// The offer wait, if armed.
    pub fn timer_offer(&self) -> (r: Option<Backoff>)
        ensures
            r == self@.timer_offer,
    {
        self.timer_offer
    }

    /// The acknowledgement wait, if armed.
    pub fn timer_ack(&self) -> (r: Option<Backoff>)
        ensures
            r == self@.timer_ack,
    {
        self.timer_ack
    }

    /// The renewal timer (T1), if armed.
    pub fn timer_renewal(&self) -> (r: Option<Deadline>)
        ensures
            r == self@.timer_renewal,
    {
        self.timer_renewal
    }

    /// The rebinding timer (T2), if armed.
    pub fn timer_rebinding(&self) -> (r: Option<Forthon>)
        ensures
            r == self@.timer_rebinding,
    {
        self.timer_rebinding
    }

    /// The lease expiration timer, if armed.
    pub fn timer_expiration(&self) -> (r: Option<Forthon>)
        ensures
            r == self@.timer_expiration,
    {
        self.timer_expiration
    }

    /// Where the next message goes: the known server, or the broadcast
    /// address where none is known.
    pub fn destination(&self) -> (r: Ipv4Address)
        ensures
            r == destination_of(self@),
    {
        match self.dhcp_server_id {
            Some(id) => id,
            None => Ipv4Address::broadcast(),
        }
    }
}

/// The destination of the next message in `v`.
pub open spec fn destination_of(v: LeaseView) -> Ipv4Address {
    match v.dhcp_server_id {
        Some(id) => id,
        None => Ipv4Address { bits: 0xffff_ffff },
    }
}

/// Only the edges of the RFC 2131 state diagram are ever taken: a
/// transition that succeeds leaves its current state along such an edge and
/// lands in its target, and any other is refused and changes nothing.
pub proof fn lemma_only_legal_transitions(
    v: LeaseView,
    from: DhcpState,
    to: DhcpState,
    response: Option<Response>,
    now: i64,
    fresh_xid: u32,
    next: LeaseView,
    r: Result<(), TransitionError>,
)
    requires
        transition_outcome(v, from, to, response, now, fresh_xid, next, r),
    ensures
        r is Ok ==> is_legal(v.dhcp_state, to) && from == v.dhcp_state && next.dhcp_state == to,
        !is_legal(v.dhcp_state, to) ==> r is Err && next == v,
{
}

/// A transition that owes a request leaves it pending, and while it is
/// pending no transition that sends a request is taken: a second attempt is
/// refused and changes nothing, until the request is marked sent.
pub proof fn lemma_no_second_send(
    v: LeaseView,
    from: DhcpState,
    to: DhcpState,
    response: Option<Response>,
    now: i64,
    fresh_xid: u32,
    next: LeaseView,
    r: Result<(), TransitionError>,
    from2: DhcpState,
    to2: DhcpState,
    response2: Option<Response>,
    now2: i64,
    fresh_xid2: u32,
    next2: LeaseView,
    r2: Result<(), TransitionError>,
)
    requires
        transition_outcome(v, from, to, response, now, fresh_xid, next, r),
        r is Ok,
        sends_request(from, to),
        transition_outcome(next, from2, to2, response2, now2, fresh_xid2, next2, r2),
        sends_request(from2, to2),
    ensures
        next.request_pending,
        r2 is Err,
        next2 == next,
{
}

/// After every transition that succeeds, the new state has exactly the
/// timer that ends its wait armed.
pub proof fn lemma_owning_timer_armed(
    v: LeaseView,
    from: DhcpState,
    to: DhcpState,
    response: Option<Response>,
    now: i64,
    fresh_xid: u32,
    next: LeaseView,
    r: Result<(), TransitionError>,
)
    requires
        transition_outcome(v, from, to, response, now, fresh_xid, next, r),
        r is Ok,
    ensures
        owning_timers_armed(next),
{
}

/// A renewal acknowledgement of the session's transaction, with a lease
/// time, always binds again: no request is then owed, the countdowns are
/// derived afresh from that acknowledgement, and T1 alone is armed, for the
/// new renewal countdown. Where the latency since the last request sent
/// does not exceed T1, that countdown is T1 less the latency.
pub proof fn lemma_renewal_ack_rebinds(
    v: LeaseView,
    ack: Response,
    now: i64,
    fresh_xid: u32,
    next: LeaseView,
    r: Result<(), TransitionError>,
)
    requires
        v.dhcp_state == DhcpState::Renewing,
        ack.transaction_id == v.transaction_id,
        ack.address_time is Some,
        transition_outcome(
            v,
            DhcpState::Renewing,
            DhcpState::Bound,
            Some(ack),
            now,
            fresh_xid,
            next,
            r,
        ),
    ensures
        r is Ok,
        next.dhcp_state == DhcpState::Bound,
        !next.request_pending,
        next.assigned_address == ack.your_ip_address,
        next.renewal_after == renewal_after_spec(
            ack.renewal_time,
            ack.address_time->Some_0,
            elapsed_since(v.requested_at, now),
        ),
        next.rebinding_after == rebinding_after_spec(
            ack.renewal_time,
            ack.rebinding_time,
            ack.address_time->Some_0,
        ),
        next.expiration_after == expiration_after_spec(
            ack.rebinding_time,
            ack.address_time->Some_0,
        ),
        next.timer_renewal == Some(Deadline { after: next.renewal_after }),
        next.timer_offer is None && next.timer_ack is None && next.timer_rebinding is None
            && next.timer_expiration is None,
        0 <= now - v.requested_at <= renewal_time_or_default(
            ack.renewal_time,
            ack.address_time->Some_0,
        ) ==> next.renewal_after == renewal_time_or_default(
            ack.renewal_time,
            ack.address_time->Some_0,
        ) - (now - v.requested_at),
{
}

} // verus!
