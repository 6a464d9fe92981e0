//! Verified core of a node of a decentralized computing marketplace.
//!
//! The heart of it is the typed message bus and the chunked transfer
//! pipeline built on it:
//!
//! - [`registry`], [`bus`], [`endpoint`] and [`message`]: which handler
//!   serves which address, where a call goes, how a call in flight is
//!   resolved exactly once, and what a message type declares of its
//!   operation;
//! - [`chunk`], [`data`], [`source`], [`destination`] and [`gftp`]: how a
//!   resource is cut into chunks, fetched with a bounded window and handed on
//!   in order, and how pushed data is sent to a peer one chunk at a time.
//!
//! Around it stand the decisions of the services that use the bus:
//! [`payment`], [`payment_flows`] and [`routes`] for the provider's payment
//! interface, [`agreement`], [`market`] and [`rest_api`] for the market, and
//! [`supervisor`] for the processes of a provider.
//!
//! Nothing here performs I/O. Whatever alternates between work outside and
//! decisions is a state machine: it is told what happened and says what to do
//! next. The modules whose names end in `_laws` state and prove what holds of
//! these machines over every run of events.

pub mod agreement;
pub mod assoc;
pub mod bus;
pub mod bus_laws;
pub mod chunk;
pub mod data;
pub mod destination;
pub mod destination_laws;
pub mod endpoint;
pub mod error;
pub mod gftp;
pub mod market;
pub mod message;
pub mod payment;
pub mod payment_flows;
pub mod registry;
pub mod rest_api;
pub mod routes;
pub mod source;
pub mod source_laws;
pub mod supervisor;
pub mod transfer_laws;
