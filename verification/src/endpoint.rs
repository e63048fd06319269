//! Resolution of the broadcast service's resource addresses from one base
//! address: node-info, order-collection, and order-by-id.

use vstd::prelude::*;
use crate::protocol::Error;

verus! {

/// Blockstream's satellite API endpoint
pub const BLOCKSTREAM_ENDPOINT: &'static str = "https://satellite.blockstream.com/api/";

/// Whether a string is a well-formed absolute URL. A function of the string
/// alone, defined by `url::Url::parse`.
pub uninterp spec fn spec_is_url(s: Seq<char>) -> bool;

/// The address that joining `rel` onto `base` yields under hierarchical
/// URL-join rules, serialized back to a string; `None` when `base` is no
/// well-formed absolute URL or the join fails. A function of the two strings
/// alone, defined by `url::Url::parse`, `Url::join` and `Url::as_str`.
pub uninterp spec fn spec_url_join(base: Seq<char>, rel: Seq<char>) -> Option<Seq<char>>;

/// Relies on `url::Url::parse`: whether it accepts a string depends on the
/// characters of the string alone.
#[verifier::external_body]
fn parse_url_ok(s: &str) -> (r: bool)
    ensures
        r == spec_is_url(s@),
{
    url::Url::parse(s).is_ok()
}

/// Relies on `url::Url::parse`, `Url::join` and `Url::as_str`: the joined,
/// reserialized address is one function of the two strings, named
/// `spec_url_join`.
#[verifier::external_body]
fn join_url(base: &str, rel: &str) -> (r: Option<String>)
    ensures
        match r {
            Some(u) => spec_url_join(base@, rel@) == Some(u@),
            None => spec_url_join(base@, rel@) is None,
        },
{
    match url::Url::parse(base) {
        Ok(b) => match b.join(rel) {
            Ok(u) => Some(u.as_str().to_owned()),
            Err(_) => None,
        },
        Err(_) => None,
    }
}

/// The address of one placed order: `order/` joined onto the base, then the
/// order identifier joined onto that.
pub open spec fn spec_order_id_url(base: Seq<char>, uuid: Seq<char>) -> Option<Seq<char>> {
    match spec_url_join(base, "order/"@) {
        Some(collection) => spec_url_join(collection, uuid),
        None => None,
    }
}

/// The base address of a broadcast-ordering service, checked once to be a
/// well-formed absolute URL; every resource address is derived from it.
#[derive(Debug)]
pub struct Endpoint {
    base: String,
}

impl Endpoint {
    /// The base address this endpoint was built from.
    pub closed spec fn base_spec(&self) -> Seq<char> {
        self.base@
    }

    /// An endpoint is well formed when its base is an absolute URL.
    pub open spec fn wf(&self) -> bool {
        spec_is_url(self.base_spec())
    }

    /// Accepts the base address exactly when it is a well-formed absolute
    /// URL; anything else is a configuration error.
    pub fn new(base: String) -> (r: Result<Endpoint, Error>)
        ensures
            match r {
                Ok(ep) => spec_is_url(base@) && ep.base_spec() == base@ && ep.wf(),
                Err(e) => e == Error::InvalidEndpoint && !spec_is_url(base@),
            },
    {
        if parse_url_ok(base.as_str()) {
            Ok(Endpoint { base })
        } else {
            Err(Error::InvalidEndpoint)
        }
    }

    /// The address of the service's node-info resource.
    pub fn info_url(&self) -> (r: Result<String, Error>)
        ensures
            match r {
                Ok(u) => spec_url_join(self.base_spec(), "info"@) == Some(u@),
                Err(e) => e == Error::InvalidEndpoint
                    && spec_url_join(self.base_spec(), "info"@) is None,
            },
    {
        match join_url(self.base.as_str(), "info") {
            Some(u) => Ok(u),
            None => Err(Error::InvalidEndpoint),
        }
    }

    /// The address of the order-collection resource, where new orders are
    /// placed.
    pub fn order_url(&self) -> (r: Result<String, Error>)
        ensures
            match r {
                Ok(u) => spec_url_join(self.base_spec(), "order"@) == Some(u@),
                Err(e) => e == Error::InvalidEndpoint
                    && spec_url_join(self.base_spec(), "order"@) is None,
            },
    {
        match join_url(self.base.as_str(), "order") {
            Some(u) => Ok(u),
            None => Err(Error::InvalidEndpoint),
        }
    }

    /// The address of one placed order, used to cancel it.
    pub fn order_id_url(&self, uuid: &str) -> (r: Result<String, Error>)
        ensures
            match r {
                Ok(u) => spec_order_id_url(self.base_spec(), uuid@) == Some(u@),
                Err(e) => e == Error::InvalidEndpoint
                    && spec_order_id_url(self.base_spec(), uuid@) is None,
            },
    {
        match join_url(self.base.as_str(), "order/") {
            Some(collection) => match join_url(collection.as_str(), uuid) {
                Some(u) => Ok(u),
                None => Err(Error::InvalidEndpoint),
            },
            None => Err(Error::InvalidEndpoint),
        }
    }
}

} // verus!
