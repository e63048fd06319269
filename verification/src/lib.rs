//! Client-side core of a pay-to-broadcast protocol: a broadcast-ordering
//! service accepts a file upload together with a bid and answers with a
//! payment demand; a local lightning node pays the demanded invoice; if the
//! payment cannot complete, the placed order is cancelled again so that no
//! order is left standing that was never paid for.
//!
//! The crate holds the decision logic of that protocol — endpoint resolution,
//! demand validation and the placement state machine — with its contracts.
//! The transports (HTTP, node RPC, file reading) are the caller's concern.

pub mod decimal;
pub mod endpoint;
pub mod invoice;
pub mod node;
pub mod protocol;

pub use endpoint::Endpoint;
pub use endpoint::BLOCKSTREAM_ENDPOINT;
pub use node::BitcoinNetwork;
pub use node::LightningNode;
pub use node::NodeAddress;
pub use protocol::Error;
pub use protocol::Order;
pub use protocol::PaymentDemand;
pub use protocol::PaymentFailure;
pub use protocol::Placement;
pub use protocol::PlacementAction;
pub use protocol::PlacementEvent;
pub use protocol::PlacementState;
