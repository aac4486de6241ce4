//! Payload types the pipeline moves between the remote API, the retry
//! logic and the durable store.
//!
//! Popularity scores arrive from the remote API as fractional numbers; the
//! pipeline never computes on them, it only carries them into the store's
//! mutable fields. Each `popularity` field below holds the score as the
//! raw bit pattern of the wire value, converted at the process boundary,
//! so that the verified core handles it as a plain integer.

use vstd::prelude::*;

verus! {

/// One line of the item catalog file.
pub struct MovieIdEntry {
    pub adult: bool,
    pub id: u32,
    pub original_title: String,
    /// Popularity score, carried as its raw bit pattern.
    pub popularity: u32,
    pub video: bool,
}

/// One line of the related-people catalog file.
pub struct PersonIdEntry {
    pub adult: bool,
    pub id: u32,
    pub name: String,
    /// Popularity score, carried as its raw bit pattern.
    pub popularity: u32,
}

/// One line of the series catalog file.
pub struct TvSeriesIdEntry {
    pub id: u32,
    pub title: String,
    /// Popularity score, carried as its raw bit pattern.
    pub popularity: u32,
}

/// Primary resource: the item's own metadata.
pub struct MovieDetailsResponse {
    pub backdrop_path: Option<String>,
    pub id: i32,
    pub imdb_id: Option<String>,
    /// Popularity score, carried as its raw bit pattern.
    pub popularity: u32,
    pub poster_path: Option<String>,
    pub title: String,
}

/// Secondary resource: the people related to the item, with role labels.
pub struct MovieCreditsResponse {
    pub id: i32,
    pub cast: Vec<CastMember>,
    pub crew: Vec<CrewMember>,
}

/// A performer credited on the item.
pub struct CastMember {
    pub id: i32,
    pub name: String,
    /// Popularity score, carried as its raw bit pattern.
    pub popularity: u32,
    pub profile_path: Option<String>,
    pub character: String,
}

/// A crew member credited on the item.
pub struct CrewMember {
    pub id: i32,
    pub name: String,
    /// Popularity score, carried as its raw bit pattern.
    pub popularity: u32,
    pub profile_path: Option<String>,
    pub job: String,
}

} // verus!
