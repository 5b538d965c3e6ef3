//! Typed requests and replies for route queries over rtnetlink.
//!
//! A query is prepared with one of two builders, [`RouteGetRequest`] for a
//! general query and [`RouteGetResolve`] for the route to one IPv4 address.
//! A terminal operation ends the builder and gives the request to put on the
//! wire, with the flags that make it a dump or a lookup. What the transport
//! delivers in answer is narrowed, message by message, to route records or
//! typed errors.
//!
//! The library sends and receives nothing itself. A caller hands the request
//! of a [`Submission`] to its transport, once, and feeds what comes back to
//! [`reply::try_route`] as it comes, or to [`reply::request_results`] as a
//! whole.

pub mod codes;
pub mod get;
pub mod message;
pub mod reply;
pub mod request;

pub use get::{IpVersion, RouteGetRequest, RouteGetResolve};
pub use message::{AddressFamily, RouteAttribute, RouteHeader, RouteMessage};
pub use reply::{Error, RouteReply, RouteResult};
pub use request::{QueryMode, RouteRequest, Submission};
