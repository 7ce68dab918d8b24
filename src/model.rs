//! The records the service returns. Each is built afresh from one response
//! and never changed afterwards.
use vstd::prelude::*;
use crate::region::Region;

verus! {

/// A point in time, as the server gives it: unix seconds and a readable UTC
/// form. The two are kept as received.
#[derive(Debug, Clone)]
pub struct Time {
    pub ts: i64,
    pub utc: String,
}

/// One region's snapshot event.
#[derive(Debug, Clone)]
pub struct Moment {
    pub id: String,
    pub ts: i64,
    pub utc: String,
}

/// One value for each of the four regions. Every region is present: a
/// response that lacks one cannot be read into this shape.
#[derive(Debug, Clone)]
pub struct Regions<T> {
    pub us_central: T,
    pub europe_west: T,
    pub asia_west: T,
    pub asia_east: T,
}

/// The latest moment of every region, with the server's current time.
#[derive(Debug, Clone)]
pub struct LatestMoments {
    pub regions: Regions<Moment>,
    pub now: Time,
}

/// Past moments of every region, newest first, in the order the server sent
/// them.
#[derive(Debug, Clone)]
pub struct AllMoments {
    pub regions: Regions<Vec<Moment>>,
}

/// The UTC time of a looked-up moment.
#[derive(Debug, Clone)]
pub struct LookupResultTimeUTC {
    pub unix: i64,
    pub timestamp: String,
}

/// The moment that was active in one region at a given date. The region is
/// the one the server names, not the one asked for.
#[derive(Debug, Clone)]
pub struct LookupResult {
    pub region: Region,
    pub id: String,
    pub utc: LookupResultTimeUTC,
}

} // verus!
