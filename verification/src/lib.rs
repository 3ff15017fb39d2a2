//! Typed access to a budgeting service, with what it takes to keep a local
//! replica of a budget in step with the service.
//!
//! A call has three parts. [`client`] builds the request: the endpoint of the
//! operation, its query and its credentials. The caller sends it and hands
//! back the status and the body as a [`envelope::Reply`]. [`envelope`] then
//! says which shape the body has to be decoded as and turns the decoded
//! value into the one result of the call: the payload, the failure that the
//! service reported, or a protocol violation.
//!
//! [`models`] holds the entities and payloads, [`wire`] the names under which
//! their enumerations travel. [`sync`] reads a listing as a delta and merges
//! it into a replica, [`hierarchy`] relates transactions to their splits, and
//! [`integrity`] says what holds of a payload that is well formed.

pub mod client;
pub mod envelope;
pub mod hierarchy;
pub mod integrity;
pub mod models;
pub mod sync;
pub mod text;
pub mod wire;
