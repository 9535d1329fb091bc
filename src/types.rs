//! The response envelope and the enums shared by response payloads.
use vstd::prelude::*;

verus! {

/// The envelope every response comes in: the payload and, for list
/// endpoints, where the page stands.
#[derive(Debug, Clone, PartialEq)]
pub struct Root<T> {
    /// The payload.
    pub data: T,
    /// Paging details, absent for single resources.
    pub pagination: Option<Pagination>,
}

/// Paging details of a list response.
#[derive(Debug, Clone, Copy, PartialEq, Eq, Structural)]
pub struct Pagination {
    /// The last page the server shows; informational only.
    pub last_visible_page: u64,
    /// Whether another page follows; the only signal that ends paging.
    pub has_next_page: bool,
    /// Counts of items, when the server gives them.
    pub items: Option<PaginationItems>,
}

/// Item counts of a list response.
#[derive(Debug, Clone, Copy, PartialEq, Eq, Structural)]
pub struct PaginationItems {
    /// Items on this page.
    pub count: u64,
    /// Items over all pages.
    pub total: u64,
    /// Items per page.
    pub per_page: u64,
}

impl Default for Pagination {
    /// No page follows and nothing is counted.
    fn default() -> (r: Self)
        ensures
            r.last_visible_page == 0,
            !r.has_next_page,
            r.items is None,
    {
        Pagination { last_visible_page: 0, has_next_page: false, items: None }
    }
}

impl Default for PaginationItems {
    fn default() -> (r: Self)
        ensures
            r.count == 0 && r.total == 0 && r.per_page == 0,
    {
        PaginationItems { count: 0, total: 0, per_page: 0 }
    }
}

/// The kind of an anime entry.
#[derive(Debug, Clone, Copy, PartialEq, Eq, Structural)]
pub enum AnimeType {
    Tv,
    Ova,
    Ona,
    Movie,
    Special,
    Music,
}

/// The airing status of an anime entry.
#[derive(Debug, Clone, Copy, PartialEq, Eq, Structural)]
pub enum AnimeStatus {
    Airing,
    Complete,
    Upcoming,
}

/// The audience rating of an anime entry.
#[derive(Debug, Clone, Copy, PartialEq, Eq, Structural)]
pub enum AnimeRating {
    G,
    Pg,
    Pg13,
    R17,
    R,
    Rx,
}

/// The season in which an anime aired.
#[derive(Debug, Clone, Copy, PartialEq, Eq, Structural)]
pub enum AnimeSeason {
    Summer,
    Winter,
    Spring,
    Fall,
}

impl AnimeType {
    /// The text that stands for this kind in a response body.
    pub fn wire_name(&self) -> (r: &'static str)
        ensures
            r@ == match *self {
                AnimeType::Tv => "TV"@,
                AnimeType::Ova => "OVA"@,
                AnimeType::Ona => "ONA"@,
                AnimeType::Movie => "Movie"@,
                AnimeType::Special => "Special"@,
                AnimeType::Music => "Music"@,
            },
    {
        match self {
            AnimeType::Tv => "TV",
            AnimeType::Ova => "OVA",
            AnimeType::Ona => "ONA",
            AnimeType::Movie => "Movie",
            AnimeType::Special => "Special",
            AnimeType::Music => "Music",
        }
    }
}

impl AnimeStatus {
    /// The text that stands for this status in a response body.
    pub fn wire_name(&self) -> (r: &'static str)
        ensures
            r@ == match *self {
                AnimeStatus::Airing => "Currently Airing"@,
                AnimeStatus::Complete => "Finished Airing"@,
                AnimeStatus::Upcoming => "Not yet aired"@,
            },
    {
        match self {
            AnimeStatus::Airing => "Currently Airing",
            AnimeStatus::Complete => "Finished Airing",
            AnimeStatus::Upcoming => "Not yet aired",
        }
    }
}

impl AnimeRating {
    /// The text that stands for this rating in a response body.
    pub fn wire_name(&self) -> (r: &'static str)
        ensures
            r@ == match *self {
                AnimeRating::G => "G - All Ages"@,
                AnimeRating::Pg => "PG - Children"@,
                AnimeRating::Pg13 => "PG-13 - Teens 13 or older"@,
                AnimeRating::R17 => "R - 17+ (violence & profanity)"@,
                AnimeRating::R => "R+ - Mild Nudity"@,
                AnimeRating::Rx => "Rx - Hentai"@,
            },
    {
        match self {
            AnimeRating::G => "G - All Ages",
            AnimeRating::Pg => "PG - Children",
            AnimeRating::Pg13 => "PG-13 - Teens 13 or older",
            AnimeRating::R17 => "R - 17+ (violence & profanity)",
            AnimeRating::R => "R+ - Mild Nudity",
            AnimeRating::Rx => "Rx - Hentai",
        }
    }
}

impl AnimeSeason {
    /// The text that stands for this season in a response body.
    pub fn wire_name(&self) -> (r: &'static str)
        ensures
            r@ == match *self {
                AnimeSeason::Summer => "summer"@,
                AnimeSeason::Winter => "winter"@,
                AnimeSeason::Spring => "spring"@,
                AnimeSeason::Fall => "fall"@,
            },
    {
        match self {
            AnimeSeason::Summer => "summer",
            AnimeSeason::Winter => "winter",
            AnimeSeason::Spring => "spring",
            AnimeSeason::Fall => "fall",
        }
    }
}

} // verus!
