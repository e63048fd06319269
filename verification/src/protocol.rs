//! The order-placement protocol: submit a bid, validate the payment demand
//! the service answers with, drive payment, and cancel the placed order
//! whenever payment cannot complete, so that no unpaid order is left
//! standing.
//!
//! The protocol is a state machine. The caller performs the outside work —
//! sending the upload, paying the invoice, cancelling the order — and feeds
//! the outcome of each action back in as an event; `Placement::step` decides
//! every transition and is verified against `spec_step`.

use vstd::prelude::*;
use crate::invoice::amount_matches;
use crate::invoice::invoice_amount_msat;
use crate::invoice::parse_invoice_amount;
use crate::invoice::spec_amount_matches;

verus! {

/// Bid handle needed to manipulate bids after placing them.
///
/// An `Order` is only ever handed out on the path where payment succeeded:
/// it is proof of intent-to-pay-succeeded, not merely of placement.
#[derive(Debug, Eq, PartialEq, Hash, Ord, PartialOrd)]
pub struct Order {
    pub uuid: String,
    pub auth_token: String,
}

/// The broadcast service's answer to an order request.
#[derive(Debug, Eq, PartialEq)]
pub enum PaymentDemand {
    /// The service placed the order and demands payment of the embedded
    /// invoice before it broadcasts anything. The auth token is the
    /// credential for cancelling the order later.
    Accepted { auth_token: String, uuid: String, payreq: String },
    /// The service refused the request; no order exists.
    Rejected { message: String, errors: Vec<String> },
}

/// Why a placed order is being compensated for.
#[derive(Debug, Eq, PartialEq)]
pub enum PaymentFailure {
    /// The demand was invalid: the payment request did not parse, or its
    /// embedded amount differed from the bid.
    InvalidDemand,
    /// The local payment attempt failed, with its cause.
    PayFailed(String),
}

/// One tagged error per way a client operation can fail.
#[derive(Debug, Eq, PartialEq)]
pub enum Error {
    /// HTTP transport failure.
    ApiError(String),
    /// A response body that matches no known shape.
    DecodeError,
    /// The service explicitly rejected the request: its message and the
    /// field-level errors. No order exists, nothing was compensated.
    ApiUsageError(String, Vec<String>),
    /// The service accepted the order but returned an invalid or
    /// inconsistent payment demand; the order was cancelled again.
    ApiResponseError,
    /// The upload source has no representable file name.
    FileNameError,
    /// The upload source could not be opened.
    FileOpenError(String),
    /// The local payment node failed; the order was cancelled again.
    LightningError(String),
    /// The configured base address is not a well-formed absolute URL.
    InvalidEndpoint,
    /// Payment failed and the compensating cancellation failed too: the
    /// order may still be outstanding on the remote side although no funds
    /// moved. Requires operator attention.
    CompensationFailed { payment_cause: PaymentFailure, cancellation_cause: String },
}

/// The protocol states of one placement attempt.
#[derive(Debug, Eq, PartialEq)]
pub enum PlacementState {
    /// The order request is being built and sent.
    Requesting,
    /// A valid demand arrived; the invoice is being paid. `order` is the
    /// handle that a success will return and a failure must cancel.
    Paying { order: Order },
    /// Payment cannot complete; the order is being cancelled.
    Compensating { cause: PaymentFailure },
    /// Terminal: the invoice was paid and the order handle returned.
    Settled,
    /// Terminal: the attempt failed and its error was returned.
    Failed,
}

/// What the caller reports back into the state machine.
#[derive(Debug, Eq, PartialEq)]
pub enum PlacementEvent {
    /// Sending the order request failed.
    TransportFailed { cause: String },
    /// The order request was answered, but the body matched neither the
    /// accepted nor the rejected shape.
    DemandUndecodable,
    /// The order request was answered with a decoded payment demand.
    DemandReceived { demand: PaymentDemand },
    /// The local payment node paid the invoice.
    PaySucceeded,
    /// The local payment node could not pay the invoice.
    PayFailed { cause: String },
    /// The cancellation request went through.
    CancelSucceeded,
    /// The cancellation request itself failed.
    CancelFailed { cause: String },
}

/// What the caller must do next.
#[derive(Debug, Eq, PartialEq)]
pub enum PlacementAction {
    /// Send the order request: the bid and the upload, whose source is read
    /// exactly once. Issued only by `Placement::new`, never by a step.
    SendOrder,
    /// Pay this invoice through the local payment node.
    PayInvoice { payreq: String },
    /// Cancel this order with the service, presenting its auth token.
    CancelOrder { order: Order },
    /// The attempt is over; hand this result to the caller.
    Finish { result: Result<Order, Error> },
}

/// Which events may arrive in which state: each state waits for the outcome
/// of exactly one outside action.
pub open spec fn spec_event_fits(s: PlacementState, e: PlacementEvent) -> bool {
    match (s, e) {
        (PlacementState::Requesting, PlacementEvent::TransportFailed { .. }) => true,
        (PlacementState::Requesting, PlacementEvent::DemandUndecodable) => true,
        (PlacementState::Requesting, PlacementEvent::DemandReceived { .. }) => true,
        (PlacementState::Paying { .. }, PlacementEvent::PaySucceeded) => true,
        (PlacementState::Paying { .. }, PlacementEvent::PayFailed { .. }) => true,
        (PlacementState::Compensating { .. }, PlacementEvent::CancelSucceeded) => true,
        (PlacementState::Compensating { .. }, PlacementEvent::CancelFailed { .. }) => true,
        _ => false,
    }
}

/// The error surfaced after a successful compensation: the original
/// failure, never the compensation's own success.
pub open spec fn spec_surfaced(cause: PaymentFailure) -> Error {
    match cause {
        PaymentFailure::InvalidDemand => Error::ApiResponseError,
        PaymentFailure::PayFailed(c) => Error::LightningError(c),
    }
}

/// The whole transition relation of the placement protocol: from the bid,
/// the current state and an event to the next state and the action the
/// caller must take. `None` exactly where the event does not fit the state.
pub open spec fn spec_step(bid_msat: u64, s: PlacementState, e: PlacementEvent) -> Option<
    (PlacementState, PlacementAction),
> {
    match (s, e) {
        (PlacementState::Requesting, PlacementEvent::TransportFailed { cause }) => Some(
            (
                PlacementState::Failed,
                PlacementAction::Finish { result: Err(Error::ApiError(cause)) },
            ),
        ),
        (PlacementState::Requesting, PlacementEvent::DemandUndecodable) => Some(
            (
                PlacementState::Failed,
                PlacementAction::Finish { result: Err(Error::DecodeError) },
            ),
        ),
        (PlacementState::Requesting, PlacementEvent::DemandReceived { demand }) => match demand {
            PaymentDemand::Rejected { message, errors } => Some(
                (
                    PlacementState::Failed,
                    PlacementAction::Finish { result: Err(Error::ApiUsageError(message, errors)) },
                ),
            ),
            PaymentDemand::Accepted { auth_token, uuid, payreq } => if spec_amount_matches(
                invoice_amount_msat(payreq@),
                bid_msat,
            ) {
                Some(
                    (
                        PlacementState::Paying { order: Order { uuid, auth_token } },
                        PlacementAction::PayInvoice { payreq },
                    ),
                )
            } else {
                Some(
                    (
                        PlacementState::Compensating { cause: PaymentFailure::InvalidDemand },
                        PlacementAction::CancelOrder { order: Order { uuid, auth_token } },
                    ),
                )
            },
        },
        (PlacementState::Paying { order }, PlacementEvent::PaySucceeded) => Some(
            (PlacementState::Settled, PlacementAction::Finish { result: Ok(order) }),
        ),
        (PlacementState::Paying { order }, PlacementEvent::PayFailed { cause }) => Some(
            (
                PlacementState::Compensating { cause: PaymentFailure::PayFailed(cause) },
                PlacementAction::CancelOrder { order },
            ),
        ),
        (PlacementState::Compensating { cause }, PlacementEvent::CancelSucceeded) => Some(
            (
                PlacementState::Failed,
                PlacementAction::Finish { result: Err(spec_surfaced(cause)) },
            ),
        ),
        (PlacementState::Compensating { cause }, PlacementEvent::CancelFailed { cause: c }) => Some(
            (
                PlacementState::Failed,
                PlacementAction::Finish {
                    result: Err(
                        Error::CompensationFailed { payment_cause: cause, cancellation_cause: c },
                    ),
                },
            ),
        ),
        _ => None,
    }
}

/// One placement attempt: the bid it was started with, and where in the
/// protocol it stands.
pub struct Placement {
    pub bid_msat: u64,
    pub state: PlacementState,
}

impl Placement {
    /// Starts a placement attempt for one bid. The returned action is the
    /// only `SendOrder` the whole attempt ever issues: the upload source is
    /// read once, on this action, whatever happens afterwards.
    pub fn new(bid_msat: u64) -> (r: (Placement, PlacementAction))
        ensures
            r.0.bid_msat == bid_msat,
            r.0.state == PlacementState::Requesting,
            r.1 == PlacementAction::SendOrder,
    {
        (Placement { bid_msat, state: PlacementState::Requesting }, PlacementAction::SendOrder)
    }

    /// Feeds the outcome of the last action back in and decides the next
    /// one, exactly as `spec_step` says.
    pub fn step(&mut self, event: PlacementEvent) -> (action: PlacementAction)
        requires
            spec_event_fits(old(self).state, event),
        ensures
            final(self).bid_msat == old(self).bid_msat,
            spec_step(old(self).bid_msat, old(self).state, event) == Some(
                (final(self).state, action),
            ),
    {
        let mut prev = PlacementState::Failed;
        core::mem::swap(&mut prev, &mut self.state);
        match (prev, event) {
            (PlacementState::Requesting, PlacementEvent::TransportFailed { cause }) => {
                self.state = PlacementState::Failed;
                PlacementAction::Finish { result: Err(Error::ApiError(cause)) }
            },
            (PlacementState::Requesting, PlacementEvent::DemandUndecodable) => {
                self.state = PlacementState::Failed;
                PlacementAction::Finish { result: Err(Error::DecodeError) }
            },
            (PlacementState::Requesting, PlacementEvent::DemandReceived { demand }) => match demand {
                PaymentDemand::Rejected { message, errors } => {
                    self.state = PlacementState::Failed;
                    PlacementAction::Finish { result: Err(Error::ApiUsageError(message, errors)) }
                },
                PaymentDemand::Accepted { auth_token, uuid, payreq } => {
                    let parsed = parse_invoice_amount(payreq.as_str());
                    if amount_matches(parsed, self.bid_msat) {
                        self.state = PlacementState::Paying { order: Order { uuid, auth_token } };
                        PlacementAction::PayInvoice { payreq }
                    } else {
                        self.state = PlacementState::Compensating {
                            cause: PaymentFailure::InvalidDemand,
                        };
                        PlacementAction::CancelOrder { order: Order { uuid, auth_token } }
                    }
                },
            },
            (PlacementState::Paying { order }, PlacementEvent::PaySucceeded) => {
                self.state = PlacementState::Settled;
                PlacementAction::Finish { result: Ok(order) }
            },
            (PlacementState::Paying { order }, PlacementEvent::PayFailed { cause }) => {
                self.state = PlacementState::Compensating {
                    cause: PaymentFailure::PayFailed(cause),
                };
                PlacementAction::CancelOrder { order }
            },
            (PlacementState::Compensating { cause }, PlacementEvent::CancelSucceeded) => {
                self.state = PlacementState::Failed;
                PlacementAction::Finish { result: Err(surfaced(cause)) }
            },
            (PlacementState::Compensating { cause }, PlacementEvent::CancelFailed {
                cause: cancellation,
            }) => {
                self.state = PlacementState::Failed;
                PlacementAction::Finish {
                    result: Err(
                        Error::CompensationFailed {
                            payment_cause: cause,
                            cancellation_cause: cancellation,
                        },
                    ),
                }
            },
            (s, _) => {
                // The precondition rules every other pairing out.
                self.state = s;
                proof {
                    assert(false);
                }
                PlacementAction::SendOrder
            },
        }
    }
}

/// Amount binding: from an accepted demand, the protocol moves on to paying
/// exactly when the embedded invoice amount equals the bid; any mismatch —
/// or an unparseable or amountless invoice — yields a cancellation of the
/// just-issued order and surfaces as an invalid demand.
pub proof fn lemma_amount_binding(bid_msat: u64, auth_token: String, uuid: String, payreq: String)
    ensures
        spec_amount_matches(invoice_amount_msat(payreq@), bid_msat) ==> spec_step(
            bid_msat,
            PlacementState::Requesting,
            PlacementEvent::DemandReceived {
                demand: PaymentDemand::Accepted { auth_token, uuid, payreq },
            },
        ) == Some(
            (
                PlacementState::Paying { order: Order { uuid, auth_token } },
                PlacementAction::PayInvoice { payreq },
            ),
        ),
        !spec_amount_matches(invoice_amount_msat(payreq@), bid_msat) ==> spec_step(
            bid_msat,
            PlacementState::Requesting,
            PlacementEvent::DemandReceived {
                demand: PaymentDemand::Accepted { auth_token, uuid, payreq },
            },
        ) == Some(
            (
                PlacementState::Compensating { cause: PaymentFailure::InvalidDemand },
                PlacementAction::CancelOrder { order: Order { uuid, auth_token } },
            ),
        ),
{
}

/// No orphaned liability: when payment fails, the very next action is a
/// cancellation carrying the exact order handle — identifier and auth token
/// — that the demand issued, and the attempt is not over until that
/// cancellation has an outcome.
pub proof fn lemma_no_orphan_liability(bid_msat: u64, order: Order, cause: String)
    ensures
        spec_step(bid_msat, PlacementState::Paying { order }, PlacementEvent::PayFailed { cause })
            == Some(
            (
                PlacementState::Compensating { cause: PaymentFailure::PayFailed(cause) },
                PlacementAction::CancelOrder { order },
            ),
        ),
{
}

/// Compensation completes before the caller sees anything: from the
/// compensating state, every transition finishes the attempt with an error
/// — the original failure when the cancellation went through, a combined
/// degraded-state error when it did not.
pub proof fn lemma_compensation_surfaces_failure(
    bid_msat: u64,
    cause: PaymentFailure,
    e: PlacementEvent,
)
    ensures
        spec_step(bid_msat, PlacementState::Compensating { cause }, e) matches Some((s2, a))
            ==> s2 == PlacementState::Failed && (a matches PlacementAction::Finish { result }
            && result is Err),
        spec_step(
            bid_msat,
            PlacementState::Compensating { cause },
            PlacementEvent::CancelSucceeded,
        ) == Some(
            (
                PlacementState::Failed,
                PlacementAction::Finish {
                    result: Err::<Order, Error>(spec_surfaced(cause)),
                },
            ),
        ),
{
}

/// Settled implies paid: a transition hands an order out if and only if the
/// machine was paying for exactly that order and the payment node reported
/// success.
pub proof fn lemma_settled_implies_paid(
    bid_msat: u64,
    s: PlacementState,
    e: PlacementEvent,
    s2: PlacementState,
    a: PlacementAction,
    order: Order,
)
    requires
        spec_step(bid_msat, s, e) == Some((s2, a)),
        a == (PlacementAction::Finish { result: Ok::<Order, Error>(order) }),
    ensures
        s == (PlacementState::Paying { order }),
        e == PlacementEvent::PaySucceeded,
        s2 == PlacementState::Settled,
{
}

/// Single read: no step ever issues the send-order action again, and the
/// requesting state is never re-entered — the upload source is read exactly
/// once per attempt, on the action `Placement::new` returns.
pub proof fn lemma_source_read_once(bid_msat: u64, s: PlacementState, e: PlacementEvent)
    ensures
        spec_step(bid_msat, s, e) matches Some((s2, a)) ==> a != PlacementAction::SendOrder && s2
            != PlacementState::Requesting,
{
}

/// Rejection short-circuits: a rejected demand finishes the attempt at once
/// with the service's message and field errors; no payment is attempted and
/// nothing is cancelled, since no order exists.
pub proof fn lemma_rejection_short_circuits(bid_msat: u64, message: String, errors: Vec<String>)
    ensures
        spec_step(
            bid_msat,
            PlacementState::Requesting,
            PlacementEvent::DemandReceived {
                demand: PaymentDemand::Rejected { message, errors },
            },
        ) == Some(
            (
                PlacementState::Failed,
                PlacementAction::Finish {
                    result: Err::<Order, Error>(Error::ApiUsageError(message, errors)),
                },
            ),
        ),
{
}

/// The machine is complete for its protocol: a transition is defined
/// exactly for the events that fit the state.
pub proof fn lemma_step_total(bid_msat: u64, s: PlacementState, e: PlacementEvent)
    ensures
        spec_event_fits(s, e) <==> spec_step(bid_msat, s, e) is Some,
{
}

/// Turns a compensation cause into the error the caller sees.
fn surfaced(cause: PaymentFailure) -> (r: Error)
    ensures
        r == spec_surfaced(cause),
{
    match cause {
        PaymentFailure::InvalidDemand => Error::ApiResponseError,
        PaymentFailure::PayFailed(c) => Error::LightningError(c),
    }
}

} // verus!
