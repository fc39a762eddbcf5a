//! What is counted of a database.

use vstd::prelude::*;

verus! {

/// The file of a database and how many records of each kind it holds.
#[derive(Debug, Clone)]
pub struct DatabaseStats {
    pub path: String,
    pub service_count: u64,
    pub mapping_count: u64,
    pub history_count: u64,
    pub provider_count: u64,
    pub feature_count: u64,
}

/// A count as it is kept: nothing below zero.
pub open spec fn counted(count: i64) -> u64 {
    if count < 0 {
        0
    } else {
        count as u64
    }
}

impl DatabaseStats {
    /// The statistics of the database at `path`. A count below zero, which
    /// no table has, is taken as zero.
    pub fn new(
        path: String,
        services: i64,
        mappings: i64,
        history: i64,
        providers: i64,
        features: i64,
    ) -> (stats: Self)
        ensures
            stats.path == path,
            stats.service_count == counted(services),
            stats.mapping_count == counted(mappings),
            stats.history_count == counted(history),
            stats.provider_count == counted(providers),
            stats.feature_count == counted(features),
    {
        Self {
            path,
            service_count: Self::count(services),
            mapping_count: Self::count(mappings),
            history_count: Self::count(history),
            provider_count: Self::count(providers),
            feature_count: Self::count(features),
        }
    }

    /// A count as it is kept.
    pub fn count(count: i64) -> (kept: u64)
        ensures
            kept == counted(count),
    {
        if count < 0 {
            0
        } else {
            count as u64
        }
    }
}

} // verus!
