//! Typed requests and responses for the customer endpoints of the Stripe API.
//!
//! A request type collects the parameters of one endpoint, each unset until its setter is
//! called, and builds a [`params::RequestBuilder`]: a method, a path with the ids in place,
//! and an ordered parameter set that holds exactly the fields that are set. Nothing is
//! validated on the way; limits and formats are the server's business.
//!
//! A response type is decoded from a [`json::JsonValue`]. Where an endpoint answers with
//! one of several shapes, the shape is chosen by what the object holds, once all of it is
//! there: see [`customer::retrieve::RetrieveCustomerReturned`].
//!
//! Every enumeration has a wire name for each value and reads a value back from its name.
//! A closed enumeration refuses a name that it does not know; an open one reads it as
//! `Unknown`.
pub mod currency;
pub mod customer;
pub mod error;
pub mod ids;
pub mod json;
pub mod login_link;
pub mod params;
pub mod portal_flows;
pub mod range_query;
pub mod setup_attempt;
pub mod text;
pub mod treasury;
