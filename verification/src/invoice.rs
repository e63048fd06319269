//! Validation of the payment request that the broadcast service returns:
//! the embedded invoice amount must equal the bid exactly.

use vstd::prelude::*;

verus! {

/// The amount embedded in a serialized lightning invoice, in milli-satoshi.
///
/// The value is a function of the string alone:
/// - `None`: the string is not a well-formed, semantically valid invoice;
/// - `Some(None)`: a valid invoice that carries no amount;
/// - `Some(Some(a))`: a valid invoice demanding exactly `a` milli-satoshi.
pub uninterp spec fn invoice_amount_msat(payreq: Seq<char>) -> Option<Option<u64>>;

/// Relies on `lightning_invoice::Bolt11Invoice`: parsing (`FromStr`) and
/// `amount_milli_satoshis` both depend on the characters of the string alone,
/// so together they are one function of it, named `invoice_amount_msat`.
#[verifier::external_body]
pub(crate) fn parse_invoice_amount(payreq: &str) -> (r: Option<Option<u64>>)
    ensures
        r == invoice_amount_msat(payreq@),
{
    match payreq.parse::<lightning_invoice::Bolt11Invoice>() {
        Ok(inv) => Some(inv.amount_milli_satoshis()),
        Err(_) => None,
    }
}

/// A parsed payment request is acceptable for a bid exactly when it is a
/// valid invoice whose embedded amount equals the bid, in the same unit.
pub open spec fn spec_amount_matches(parsed: Option<Option<u64>>, bid_msat: u64) -> bool {
    parsed == Some(Some(bid_msat))
}

/// Decides whether a parsed invoice amount binds the demand to the bid.
///
/// Takes the parsed amount as a plain value, so the decision itself is
/// checked for every possible outcome of the parser.
pub fn amount_matches(parsed: Option<Option<u64>>, bid_msat: u64) -> (r: bool)
    ensures
        r == spec_amount_matches(parsed, bid_msat),
{
    match parsed {
        Some(Some(a)) => a == bid_msat,
        _ => false,
    }
}

/// Parses a payment request and checks its embedded amount against the bid.
pub fn check_invoice_amount(payreq: &str, bid_msat: u64) -> (r: bool)
    ensures
        r == spec_amount_matches(invoice_amount_msat(payreq@), bid_msat),
{
    let parsed = parse_invoice_amount(payreq);
    amount_matches(parsed, bid_msat)
}

} // verus!
