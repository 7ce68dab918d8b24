//! A client for a REST service that publishes "moments" for four fixed
//! regions. The library states, and proves, how requests are formed, how the
//! region and limit parameters are spelled on the wire, and how the outcome of
//! an exchange becomes a typed result. Sending requests and decoding JSON is
//! left to the caller's HTTP stack.

pub mod client;
pub mod model;
pub mod region;

pub use client::{settle, BerealClient, ClientError, Exchange, Request};
pub use model::{AllMoments, LatestMoments, LookupResult, LookupResultTimeUTC, Moment, Regions, Time};
pub use region::{Limit, Region};
