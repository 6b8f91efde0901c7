//! Water-level readings as the ingestion side keeps them.

use vstd::prelude::*;

verus! {

/// One reading of a site's water level.
#[derive(Debug)]
pub struct FloodData {
    /// The key of the site.
    pub location: String,
    /// The water level, in hundredths of a foot.
    pub water_level: i64,
    /// When the reading was fetched, in nanoseconds since the epoch.
    pub timestamp: u64,
    /// Who measured it.
    pub source: String,
    /// The site's name, as the provider gives it.
    pub site_name: String,
}

/// What a reading says.
pub struct FloodDataView {
    pub location: Seq<char>,
    pub water_level: i64,
    pub timestamp: u64,
    pub source: Seq<char>,
    pub site_name: Seq<char>,
}

impl View for FloodData {
    type V = FloodDataView;

    open spec fn view(&self) -> FloodDataView {
        FloodDataView {
            location: self.location@,
            water_level: self.water_level,
            timestamp: self.timestamp,
            source: self.source@,
            site_name: self.site_name@,
        }
    }
}

impl Clone for FloodData {
    fn clone(&self) -> (r: FloodData)
        ensures
            r@ == self@,
    {
        FloodData {
            location: self.location.clone(),
            water_level: self.water_level,
            timestamp: self.timestamp,
            source: self.source.clone(),
            site_name: self.site_name.clone(),
        }
    }
}

/// A reading in the cache, with the time at which it was put there.
#[derive(Debug)]
pub struct CachedData {
    pub data: FloodData,
    /// Nanoseconds since the epoch.
    pub cached_at: u64,
}

/// What a cached reading says.
pub struct CachedDataView {
    pub data: FloodDataView,
    pub cached_at: u64,
}

impl View for CachedData {
    type V = CachedDataView;

    open spec fn view(&self) -> CachedDataView {
        CachedDataView { data: self.data@, cached_at: self.cached_at }
    }
}

impl Clone for CachedData {
    fn clone(&self) -> (r: CachedData)
        ensures
            r@ == self@,
    {
        CachedData { data: self.data.clone(), cached_at: self.cached_at }
    }
}

} // verus!
