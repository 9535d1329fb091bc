//! The `/anime` endpoints: one descriptor per resource, each built with a
//! builder.
use vstd::prelude::*;
use crate::client::Method;
use crate::endpoint::{anime_path, decimal, push_decimal, Endpoint, Pageable};
use crate::error::BodyError;
use crate::query_params::{
    bool_str, bool_text, decode_pairs, encode_pairs, form_safe, has_key, lemma_query_round_trip,
    opt_pair, parse_bool_text, QueryParams,
};

verus! {

/// A builder was asked for an endpoint before a required field was set.
#[derive(Debug, Clone, Copy, PartialEq, Eq)]
pub enum BuilderError {
    /// The named field was not set.
    UninitializedField(&'static str),
}

/// Retrieves anime resource data.
#[derive(Debug, Clone, Copy, PartialEq, Eq, Structural)]
pub struct Anime {
    /// `ID` of the anime.
    pub id: u32,
}

/// Builds a [`Anime`].
#[derive(Debug, Clone, Copy, PartialEq, Eq, Structural)]
pub struct AnimeBuilder {
    /// `ID` of the anime, once set.
    pub id: Option<u32>,
}

impl Anime {
    /// A builder with no field set.
    pub fn builder() -> (r: AnimeBuilder)
        ensures
            r.id is None,
    {
        AnimeBuilder { id: None }
    }
}

impl AnimeBuilder {
    /// Sets the anime's `ID`.
    pub fn id(self, value: u32) -> (r: Self)
        ensures
            r.id == Some(value),
    {
        AnimeBuilder { id: Some(value) }
    }

    /// The endpoint, or an error naming the field that was not set.
    pub fn build(&self) -> (r: Result<Anime, BuilderError>)
        ensures
            match self.id {
                Some(id) => r == Ok::<Anime, BuilderError>(Anime { id }),
                None => r == Err::<Anime, BuilderError>(BuilderError::UninitializedField("id")),
            },
    {
        match self.id {
            Some(id) => Ok(Anime { id }),
            None => Err(BuilderError::UninitializedField("id")),
        }
    }
}

impl Endpoint for Anime {
    open spec fn spec_method(&self) -> Method {
        Method::Get
    }

    open spec fn spec_path(&self) -> Seq<char> {
        "/anime/"@ + decimal(self.id as nat) + ""@
    }

    open spec fn spec_params(&self) -> Option<Seq<(Seq<char>, Seq<char>)>> {
        Some(Seq::empty())
    }

    open spec fn spec_body(&self) -> Option<Option<(Seq<char>, Seq<u8>)>> {
        Some(None)
    }

    fn method(&self) -> (r: Method) {
        Method::Get
    }

    fn endpoint(&self) -> (r: String) {
        anime_path(self.id, "")
    }

    fn query_params(&self) -> (r: Result<QueryParams, BodyError>) {
        Ok(QueryParams::new())
    }

    fn body(&self) -> (r: Result<Option<(&'static str, Vec<u8>)>, BodyError>) {
        Ok(None)
    }
}

/// Retrieves complete anime resource data.
#[derive(Debug, Clone, Copy, PartialEq, Eq, Structural)]
pub struct AnimeFull {
    /// `ID` of the anime.
    pub id: u32,
}

/// Builds a [`AnimeFull`].
#[derive(Debug, Clone, Copy, PartialEq, Eq, Structural)]
pub struct AnimeFullBuilder {
    /// `ID` of the anime, once set.
    pub id: Option<u32>,
}

impl AnimeFull {
    /// A builder with no field set.
    pub fn builder() -> (r: AnimeFullBuilder)
        ensures
            r.id is None,
    {
        AnimeFullBuilder { id: None }
    }
}

impl AnimeFullBuilder {
    /// Sets the anime's `ID`.
    pub fn id(self, value: u32) -> (r: Self)
        ensures
            r.id == Some(value),
    {
        AnimeFullBuilder { id: Some(value) }
    }

    /// The endpoint, or an error naming the field that was not set.
    pub fn build(&self) -> (r: Result<AnimeFull, BuilderError>)
        ensures
            match self.id {
                Some(id) => r == Ok::<AnimeFull, BuilderError>(AnimeFull { id }),
                None => r == Err::<AnimeFull, BuilderError>(BuilderError::UninitializedField("id")),
            },
    {
        match self.id {
            Some(id) => Ok(AnimeFull { id }),
            None => Err(BuilderError::UninitializedField("id")),
        }
    }
}

impl Endpoint for AnimeFull {
    open spec fn spec_method(&self) -> Method {
        Method::Get
    }

    open spec fn spec_path(&self) -> Seq<char> {
        "/anime/"@ + decimal(self.id as nat) + "/full"@
    }

    open spec fn spec_params(&self) -> Option<Seq<(Seq<char>, Seq<char>)>> {
        Some(Seq::empty())
    }

    open spec fn spec_body(&self) -> Option<Option<(Seq<char>, Seq<u8>)>> {
        Some(None)
    }

    fn method(&self) -> (r: Method) {
        Method::Get
    }

    fn endpoint(&self) -> (r: String) {
        anime_path(self.id, "/full")
    }

    fn query_params(&self) -> (r: Result<QueryParams, BodyError>) {
        Ok(QueryParams::new())
    }

    fn body(&self) -> (r: Result<Option<(&'static str, Vec<u8>)>, BodyError>) {
        Ok(None)
    }
}

/// Retrieves anime characters resource.
#[derive(Debug, Clone, Copy, PartialEq, Eq, Structural)]
pub struct Characters {
    /// `ID` of the anime.
    pub id: u32,
}

/// Builds a [`Characters`].
#[derive(Debug, Clone, Copy, PartialEq, Eq, Structural)]
pub struct CharactersBuilder {
    /// `ID` of the anime, once set.
    pub id: Option<u32>,
}

impl Characters {
    /// A builder with no field set.
    pub fn builder() -> (r: CharactersBuilder)
        ensures
            r.id is None,
    {
        CharactersBuilder { id: None }
    }
}

impl CharactersBuilder {
    /// Sets the anime's `ID`.
    pub fn id(self, value: u32) -> (r: Self)
        ensures
            r.id == Some(value),
    {
        CharactersBuilder { id: Some(value) }
    }

    /// The endpoint, or an error naming the field that was not set.
    pub fn build(&self) -> (r: Result<Characters, BuilderError>)
        ensures
            match self.id {
                Some(id) => r == Ok::<Characters, BuilderError>(Characters { id }),
                None => r == Err::<Characters, BuilderError>(BuilderError::UninitializedField("id")),
            },
    {
        match self.id {
            Some(id) => Ok(Characters { id }),
            None => Err(BuilderError::UninitializedField("id")),
        }
    }
}

impl Endpoint for Characters {
    open spec fn spec_method(&self) -> Method {
        Method::Get
    }

    open spec fn spec_path(&self) -> Seq<char> {
        "/anime/"@ + decimal(self.id as nat) + "/characters"@
    }

    open spec fn spec_params(&self) -> Option<Seq<(Seq<char>, Seq<char>)>> {
        Some(Seq::empty())
    }

    open spec fn spec_body(&self) -> Option<Option<(Seq<char>, Seq<u8>)>> {
        Some(None)
    }

    fn method(&self) -> (r: Method) {
        Method::Get
    }

    fn endpoint(&self) -> (r: String) {
        anime_path(self.id, "/characters")
    }

    fn query_params(&self) -> (r: Result<QueryParams, BodyError>) {
        Ok(QueryParams::new())
    }

    fn body(&self) -> (r: Result<Option<(&'static str, Vec<u8>)>, BodyError>) {
        Ok(None)
    }
}

/// Retrieves a list of anime episodes.
#[derive(Debug, Clone, Copy, PartialEq, Eq, Structural)]
pub struct Episodes {
    /// `ID` of the anime.
    pub id: u32,
}

/// Builds a [`Episodes`].
#[derive(Debug, Clone, Copy, PartialEq, Eq, Structural)]
pub struct EpisodesBuilder {
    /// `ID` of the anime, once set.
    pub id: Option<u32>,
}

impl Episodes {
    /// A builder with no field set.
    pub fn builder() -> (r: EpisodesBuilder)
        ensures
            r.id is None,
    {
        EpisodesBuilder { id: None }
    }
}

impl EpisodesBuilder {
    /// Sets the anime's `ID`.
    pub fn id(self, value: u32) -> (r: Self)
        ensures
            r.id == Some(value),
    {
        EpisodesBuilder { id: Some(value) }
    }

    /// The endpoint, or an error naming the field that was not set.
    pub fn build(&self) -> (r: Result<Episodes, BuilderError>)
        ensures
            match self.id {
                Some(id) => r == Ok::<Episodes, BuilderError>(Episodes { id }),
                None => r == Err::<Episodes, BuilderError>(BuilderError::UninitializedField("id")),
            },
    {
        match self.id {
            Some(id) => Ok(Episodes { id }),
            None => Err(BuilderError::UninitializedField("id")),
        }
    }
}

impl Endpoint for Episodes {
    open spec fn spec_method(&self) -> Method {
        Method::Get
    }

    open spec fn spec_path(&self) -> Seq<char> {
        "/anime/"@ + decimal(self.id as nat) + "/episodes"@
    }

    open spec fn spec_params(&self) -> Option<Seq<(Seq<char>, Seq<char>)>> {
        Some(Seq::empty())
    }

    open spec fn spec_body(&self) -> Option<Option<(Seq<char>, Seq<u8>)>> {
        Some(None)
    }

    fn method(&self) -> (r: Method) {
        Method::Get
    }

    fn endpoint(&self) -> (r: String) {
        anime_path(self.id, "/episodes")
    }

    fn query_params(&self) -> (r: Result<QueryParams, BodyError>) {
        Ok(QueryParams::new())
    }

    fn body(&self) -> (r: Result<Option<(&'static str, Vec<u8>)>, BodyError>) {
        Ok(None)
    }
}

impl Pageable for Episodes {}

/// Retrieves anime external links.
#[derive(Debug, Clone, Copy, PartialEq, Eq, Structural)]
pub struct External {
    /// `ID` of the anime.
    pub id: u32,
}

/// Builds a [`External`].
#[derive(Debug, Clone, Copy, PartialEq, Eq, Structural)]
pub struct ExternalBuilder {
    /// `ID` of the anime, once set.
    pub id: Option<u32>,
}

impl External {
    /// A builder with no field set.
    pub fn builder() -> (r: ExternalBuilder)
        ensures
            r.id is None,
    {
        ExternalBuilder { id: None }
    }
}

impl ExternalBuilder {
    /// Sets the anime's `ID`.
    pub fn id(self, value: u32) -> (r: Self)
        ensures
            r.id == Some(value),
    {
        ExternalBuilder { id: Some(value) }
    }

    /// The endpoint, or an error naming the field that was not set.
    pub fn build(&self) -> (r: Result<External, BuilderError>)
        ensures
            match self.id {
                Some(id) => r == Ok::<External, BuilderError>(External { id }),
                None => r == Err::<External, BuilderError>(BuilderError::UninitializedField("id")),
            },
    {
        match self.id {
            Some(id) => Ok(External { id }),
            None => Err(BuilderError::UninitializedField("id")),
        }
    }
}

impl Endpoint for External {
    open spec fn spec_method(&self) -> Method {
        Method::Get
    }

    open spec fn spec_path(&self) -> Seq<char> {
        "/anime/"@ + decimal(self.id as nat) + "/external"@
    }

    open spec fn spec_params(&self) -> Option<Seq<(Seq<char>, Seq<char>)>> {
        Some(Seq::empty())
    }

    open spec fn spec_body(&self) -> Option<Option<(Seq<char>, Seq<u8>)>> {
        Some(None)
    }

    fn method(&self) -> (r: Method) {
        Method::Get
    }

    fn endpoint(&self) -> (r: String) {
        anime_path(self.id, "/external")
    }

    fn query_params(&self) -> (r: Result<QueryParams, BodyError>) {
        Ok(QueryParams::new())
    }

    fn body(&self) -> (r: Result<Option<(&'static str, Vec<u8>)>, BodyError>) {
        Ok(None)
    }
}

/// Retrieves additional information about the anime.
#[derive(Debug, Clone, Copy, PartialEq, Eq, Structural)]
pub struct MoreInfo {
    /// `ID` of the anime.
    pub id: u32,
}

/// Builds a [`MoreInfo`].
#[derive(Debug, Clone, Copy, PartialEq, Eq, Structural)]
pub struct MoreInfoBuilder {
    /// `ID` of the anime, once set.
    pub id: Option<u32>,
}

impl MoreInfo {
    /// A builder with no field set.
    pub fn builder() -> (r: MoreInfoBuilder)
        ensures
            r.id is None,
    {
        MoreInfoBuilder { id: None }
    }
}

impl MoreInfoBuilder {
    /// Sets the anime's `ID`.
    pub fn id(self, value: u32) -> (r: Self)
        ensures
            r.id == Some(value),
    {
        MoreInfoBuilder { id: Some(value) }
    }

    /// The endpoint, or an error naming the field that was not set.
    pub fn build(&self) -> (r: Result<MoreInfo, BuilderError>)
        ensures
            match self.id {
                Some(id) => r == Ok::<MoreInfo, BuilderError>(MoreInfo { id }),
                None => r == Err::<MoreInfo, BuilderError>(BuilderError::UninitializedField("id")),
            },
    {
        match self.id {
            Some(id) => Ok(MoreInfo { id }),
            None => Err(BuilderError::UninitializedField("id")),
        }
    }
}

impl Endpoint for MoreInfo {
    open spec fn spec_method(&self) -> Method {
        Method::Get
    }

    open spec fn spec_path(&self) -> Seq<char> {
        "/anime/"@ + decimal(self.id as nat) + "/moreinfo"@
    }

    open spec fn spec_params(&self) -> Option<Seq<(Seq<char>, Seq<char>)>> {
        Some(Seq::empty())
    }

    open spec fn spec_body(&self) -> Option<Option<(Seq<char>, Seq<u8>)>> {
        Some(None)
    }

    fn method(&self) -> (r: Method) {
        Method::Get
    }

    fn endpoint(&self) -> (r: String) {
        anime_path(self.id, "/moreinfo")
    }

    fn query_params(&self) -> (r: Result<QueryParams, BodyError>) {
        Ok(QueryParams::new())
    }

    fn body(&self) -> (r: Result<Option<(&'static str, Vec<u8>)>, BodyError>) {
        Ok(None)
    }
}

/// Retrieves a list of news articles related to the entry.
#[derive(Debug, Clone, Copy, PartialEq, Eq, Structural)]
pub struct News {
    /// `ID` of the anime.
    pub id: u32,
}

/// Builds a [`News`].
#[derive(Debug, Clone, Copy, PartialEq, Eq, Structural)]
pub struct NewsBuilder {
    /// `ID` of the anime, once set.
    pub id: Option<u32>,
}

impl News {
    /// A builder with no field set.
    pub fn builder() -> (r: NewsBuilder)
        ensures
            r.id is None,
    {
        NewsBuilder { id: None }
    }
}

impl NewsBuilder {
    /// Sets the anime's `ID`.
    pub fn id(self, value: u32) -> (r: Self)
        ensures
            r.id == Some(value),
    {
        NewsBuilder { id: Some(value) }
    }

    /// The endpoint, or an error naming the field that was not set.
    pub fn build(&self) -> (r: Result<News, BuilderError>)
        ensures
            match self.id {
                Some(id) => r == Ok::<News, BuilderError>(News { id }),
                None => r == Err::<News, BuilderError>(BuilderError::UninitializedField("id")),
            },
    {
        match self.id {
            Some(id) => Ok(News { id }),
            None => Err(BuilderError::UninitializedField("id")),
        }
    }
}

impl Endpoint for News {
    open spec fn spec_method(&self) -> Method {
        Method::Get
    }

    open spec fn spec_path(&self) -> Seq<char> {
        "/anime/"@ + decimal(self.id as nat) + "/news"@
    }

    open spec fn spec_params(&self) -> Option<Seq<(Seq<char>, Seq<char>)>> {
        Some(Seq::empty())
    }

    open spec fn spec_body(&self) -> Option<Option<(Seq<char>, Seq<u8>)>> {
        Some(None)
    }

    fn method(&self) -> (r: Method) {
        Method::Get
    }

    fn endpoint(&self) -> (r: String) {
        anime_path(self.id, "/news")
    }

    fn query_params(&self) -> (r: Result<QueryParams, BodyError>) {
        Ok(QueryParams::new())
    }

    fn body(&self) -> (r: Result<Option<(&'static str, Vec<u8>)>, BodyError>) {
        Ok(None)
    }
}

impl Pageable for News {}

/// Retrieves pictures related to the entry.
#[derive(Debug, Clone, Copy, PartialEq, Eq, Structural)]
pub struct Pictures {
    /// `ID` of the anime.
    pub id: u32,
}

/// Builds a [`Pictures`].
#[derive(Debug, Clone, Copy, PartialEq, Eq, Structural)]
pub struct PicturesBuilder {
    /// `ID` of the anime, once set.
    pub id: Option<u32>,
}

impl Pictures {
    /// A builder with no field set.
    pub fn builder() -> (r: PicturesBuilder)
        ensures
            r.id is None,
    {
        PicturesBuilder { id: None }
    }
}

impl PicturesBuilder {
    /// Sets the anime's `ID`.
    pub fn id(self, value: u32) -> (r: Self)
        ensures
            r.id == Some(value),
    {
        PicturesBuilder { id: Some(value) }
    }

    /// The endpoint, or an error naming the field that was not set.
    pub fn build(&self) -> (r: Result<Pictures, BuilderError>)
        ensures
            match self.id {
                Some(id) => r == Ok::<Pictures, BuilderError>(Pictures { id }),
                None => r == Err::<Pictures, BuilderError>(BuilderError::UninitializedField("id")),
            },
    {
        match self.id {
            Some(id) => Ok(Pictures { id }),
            None => Err(BuilderError::UninitializedField("id")),
        }
    }
}

impl Endpoint for Pictures {
    open spec fn spec_method(&self) -> Method {
        Method::Get
    }

    open spec fn spec_path(&self) -> Seq<char> {
        "/anime/"@ + decimal(self.id as nat) + "/pictures"@
    }

    open spec fn spec_params(&self) -> Option<Seq<(Seq<char>, Seq<char>)>> {
        Some(Seq::empty())
    }

    open spec fn spec_body(&self) -> Option<Option<(Seq<char>, Seq<u8>)>> {
        Some(None)
    }

    fn method(&self) -> (r: Method) {
        Method::Get
    }

    fn endpoint(&self) -> (r: String) {
        anime_path(self.id, "/pictures")
    }

    fn query_params(&self) -> (r: Result<QueryParams, BodyError>) {
        Ok(QueryParams::new())
    }

    fn body(&self) -> (r: Result<Option<(&'static str, Vec<u8>)>, BodyError>) {
        Ok(None)
    }
}

/// Retrieves anime recommendations.
#[derive(Debug, Clone, Copy, PartialEq, Eq, Structural)]
pub struct Recommendations {
    /// `ID` of the anime.
    pub id: u32,
}

/// Builds a [`Recommendations`].
#[derive(Debug, Clone, Copy, PartialEq, Eq, Structural)]
pub struct RecommendationsBuilder {
    /// `ID` of the anime, once set.
    pub id: Option<u32>,
}

impl Recommendations {
    /// A builder with no field set.
    pub fn builder() -> (r: RecommendationsBuilder)
        ensures
            r.id is None,
    {
        RecommendationsBuilder { id: None }
    }
}

impl RecommendationsBuilder {
    /// Sets the anime's `ID`.
    pub fn id(self, value: u32) -> (r: Self)
        ensures
            r.id == Some(value),
    {
        RecommendationsBuilder { id: Some(value) }
    }

    /// The endpoint, or an error naming the field that was not set.
    pub fn build(&self) -> (r: Result<Recommendations, BuilderError>)
        ensures
            match self.id {
                Some(id) => r == Ok::<Recommendations, BuilderError>(Recommendations { id }),
                None => r == Err::<Recommendations, BuilderError>(BuilderError::UninitializedField("id")),
            },
    {
        match self.id {
            Some(id) => Ok(Recommendations { id }),
            None => Err(BuilderError::UninitializedField("id")),
        }
    }
}

impl Endpoint for Recommendations {
    open spec fn spec_method(&self) -> Method {
        Method::Get
    }

    open spec fn spec_path(&self) -> Seq<char> {
        "/anime/"@ + decimal(self.id as nat) + "/recommendations"@
    }

    open spec fn spec_params(&self) -> Option<Seq<(Seq<char>, Seq<char>)>> {
        Some(Seq::empty())
    }

    open spec fn spec_body(&self) -> Option<Option<(Seq<char>, Seq<u8>)>> {
        Some(None)
    }

    fn method(&self) -> (r: Method) {
        Method::Get
    }

    fn endpoint(&self) -> (r: String) {
        anime_path(self.id, "/recommendations")
    }

    fn query_params(&self) -> (r: Result<QueryParams, BodyError>) {
        Ok(QueryParams::new())
    }

    fn body(&self) -> (r: Result<Option<(&'static str, Vec<u8>)>, BodyError>) {
        Ok(None)
    }
}

/// Retrieves anime relations.
#[derive(Debug, Clone, Copy, PartialEq, Eq, Structural)]
pub struct Relations {
    /// `ID` of the anime.
    pub id: u32,
}

/// Builds a [`Relations`].
#[derive(Debug, Clone, Copy, PartialEq, Eq, Structural)]
pub struct RelationsBuilder {
    /// `ID` of the anime, once set.
    pub id: Option<u32>,
}

impl Relations {
    /// A builder with no field set.
    pub fn builder() -> (r: RelationsBuilder)
        ensures
            r.id is None,
    {
        RelationsBuilder { id: None }
    }
}

impl RelationsBuilder {
    /// Sets the anime's `ID`.
    pub fn id(self, value: u32) -> (r: Self)
        ensures
            r.id == Some(value),
    {
        RelationsBuilder { id: Some(value) }
    }

    /// The endpoint, or an error naming the field that was not set.
    pub fn build(&self) -> (r: Result<Relations, BuilderError>)
        ensures
            match self.id {
                Some(id) => r == Ok::<Relations, BuilderError>(Relations { id }),
                None => r == Err::<Relations, BuilderError>(BuilderError::UninitializedField("id")),
            },
    {
        match self.id {
            Some(id) => Ok(Relations { id }),
            None => Err(BuilderError::UninitializedField("id")),
        }
    }
}

impl Endpoint for Relations {
    open spec fn spec_method(&self) -> Method {
        Method::Get
    }

    open spec fn spec_path(&self) -> Seq<char> {
        "/anime/"@ + decimal(self.id as nat) + "/relations"@
    }

    open spec fn spec_params(&self) -> Option<Seq<(Seq<char>, Seq<char>)>> {
        Some(Seq::empty())
    }

    open spec fn spec_body(&self) -> Option<Option<(Seq<char>, Seq<u8>)>> {
        Some(None)
    }

    fn method(&self) -> (r: Method) {
        Method::Get
    }

    fn endpoint(&self) -> (r: String) {
        anime_path(self.id, "/relations")
    }

    fn query_params(&self) -> (r: Result<QueryParams, BodyError>) {
        Ok(QueryParams::new())
    }

    fn body(&self) -> (r: Result<Option<(&'static str, Vec<u8>)>, BodyError>) {
        Ok(None)
    }
}

/// Retrieves anime staff resource.
#[derive(Debug, Clone, Copy, PartialEq, Eq, Structural)]
pub struct Staff {
    /// `ID` of the anime.
    pub id: u32,
}

/// Builds a [`Staff`].
#[derive(Debug, Clone, Copy, PartialEq, Eq, Structural)]
pub struct StaffBuilder {
    /// `ID` of the anime, once set.
    pub id: Option<u32>,
}

impl Staff {
    /// A builder with no field set.
    pub fn builder() -> (r: StaffBuilder)
        ensures
            r.id is None,
    {
        StaffBuilder { id: None }
    }
}

impl StaffBuilder {
    /// Sets the anime's `ID`.
    pub fn id(self, value: u32) -> (r: Self)
        ensures
            r.id == Some(value),
    {
        StaffBuilder { id: Some(value) }
    }

    /// The endpoint, or an error naming the field that was not set.
    pub fn build(&self) -> (r: Result<Staff, BuilderError>)
        ensures
            match self.id {
                Some(id) => r == Ok::<Staff, BuilderError>(Staff { id }),
                None => r == Err::<Staff, BuilderError>(BuilderError::UninitializedField("id")),
            },
    {
        match self.id {
            Some(id) => Ok(Staff { id }),
            None => Err(BuilderError::UninitializedField("id")),
        }
    }
}

impl Endpoint for Staff {
    open spec fn spec_method(&self) -> Method {
        Method::Get
    }

    open spec fn spec_path(&self) -> Seq<char> {
        "/anime/"@ + decimal(self.id as nat) + "/staff"@
    }

    open spec fn spec_params(&self) -> Option<Seq<(Seq<char>, Seq<char>)>> {
        Some(Seq::empty())
    }

    open spec fn spec_body(&self) -> Option<Option<(Seq<char>, Seq<u8>)>> {
        Some(None)
    }

    fn method(&self) -> (r: Method) {
        Method::Get
    }

    fn endpoint(&self) -> (r: String) {
        anime_path(self.id, "/staff")
    }

    fn query_params(&self) -> (r: Result<QueryParams, BodyError>) {
        Ok(QueryParams::new())
    }

    fn body(&self) -> (r: Result<Option<(&'static str, Vec<u8>)>, BodyError>) {
        Ok(None)
    }
}

/// Retrieves anime statistics.
#[derive(Debug, Clone, Copy, PartialEq, Eq, Structural)]
pub struct Statistics {
    /// `ID` of the anime.
    pub id: u32,
}

/// Builds a [`Statistics`].
#[derive(Debug, Clone, Copy, PartialEq, Eq, Structural)]
pub struct StatisticsBuilder {
    /// `ID` of the anime, once set.
    pub id: Option<u32>,
}

impl Statistics {
    /// A builder with no field set.
    pub fn builder() -> (r: StatisticsBuilder)
        ensures
            r.id is None,
    {
        StatisticsBuilder { id: None }
    }
}

impl StatisticsBuilder {
    /// Sets the anime's `ID`.
    pub fn id(self, value: u32) -> (r: Self)
        ensures
            r.id == Some(value),
    {
        StatisticsBuilder { id: Some(value) }
    }

    /// The endpoint, or an error naming the field that was not set.
    pub fn build(&self) -> (r: Result<Statistics, BuilderError>)
        ensures
            match self.id {
                Some(id) => r == Ok::<Statistics, BuilderError>(Statistics { id }),
                None => r == Err::<Statistics, BuilderError>(BuilderError::UninitializedField("id")),
            },
    {
        match self.id {
            Some(id) => Ok(Statistics { id }),
            None => Err(BuilderError::UninitializedField("id")),
        }
    }
}

impl Endpoint for Statistics {
    open spec fn spec_method(&self) -> Method {
        Method::Get
    }

    open spec fn spec_path(&self) -> Seq<char> {
        "/anime/"@ + decimal(self.id as nat) + "/statistics"@
    }

    open spec fn spec_params(&self) -> Option<Seq<(Seq<char>, Seq<char>)>> {
        Some(Seq::empty())
    }

    open spec fn spec_body(&self) -> Option<Option<(Seq<char>, Seq<u8>)>> {
        Some(None)
    }

    fn method(&self) -> (r: Method) {
        Method::Get
    }

    fn endpoint(&self) -> (r: String) {
        anime_path(self.id, "/statistics")
    }

    fn query_params(&self) -> (r: Result<QueryParams, BodyError>) {
        Ok(QueryParams::new())
    }

    fn body(&self) -> (r: Result<Option<(&'static str, Vec<u8>)>, BodyError>) {
        Ok(None)
    }
}

/// Retrieves anime streaming links.
#[derive(Debug, Clone, Copy, PartialEq, Eq, Structural)]
pub struct Streaming {
    /// `ID` of the anime.
    pub id: u32,
}

/// Builds a [`Streaming`].
#[derive(Debug, Clone, Copy, PartialEq, Eq, Structural)]
pub struct StreamingBuilder {
    /// `ID` of the anime, once set.
    pub id: Option<u32>,
}

impl Streaming {
    /// A builder with no field set.
    pub fn builder() -> (r: StreamingBuilder)
        ensures
            r.id is None,
    {
        StreamingBuilder { id: None }
    }
}

impl StreamingBuilder {
    /// Sets the anime's `ID`.
    pub fn id(self, value: u32) -> (r: Self)
        ensures
            r.id == Some(value),
    {
        StreamingBuilder { id: Some(value) }
    }

    /// The endpoint, or an error naming the field that was not set.
    pub fn build(&self) -> (r: Result<Streaming, BuilderError>)
        ensures
            match self.id {
                Some(id) => r == Ok::<Streaming, BuilderError>(Streaming { id }),
                None => r == Err::<Streaming, BuilderError>(BuilderError::UninitializedField("id")),
            },
    {
        match self.id {
            Some(id) => Ok(Streaming { id }),
            None => Err(BuilderError::UninitializedField("id")),
        }
    }
}

impl Endpoint for Streaming {
    open spec fn spec_method(&self) -> Method {
        Method::Get
    }

    open spec fn spec_path(&self) -> Seq<char> {
        "/anime/"@ + decimal(self.id as nat) + "/streaming"@
    }

    open spec fn spec_params(&self) -> Option<Seq<(Seq<char>, Seq<char>)>> {
        Some(Seq::empty())
    }

    open spec fn spec_body(&self) -> Option<Option<(Seq<char>, Seq<u8>)>> {
        Some(None)
    }

    fn method(&self) -> (r: Method) {
        Method::Get
    }

    fn endpoint(&self) -> (r: String) {
        anime_path(self.id, "/streaming")
    }

    fn query_params(&self) -> (r: Result<QueryParams, BodyError>) {
        Ok(QueryParams::new())
    }

    fn body(&self) -> (r: Result<Option<(&'static str, Vec<u8>)>, BodyError>) {
        Ok(None)
    }
}

/// Retrieves anime themes.
#[derive(Debug, Clone, Copy, PartialEq, Eq, Structural)]
pub struct Themes {
    /// `ID` of the anime.
    pub id: u32,
}

/// Builds a [`Themes`].
#[derive(Debug, Clone, Copy, PartialEq, Eq, Structural)]
pub struct ThemesBuilder {
    /// `ID` of the anime, once set.
    pub id: Option<u32>,
}

impl Themes {
    /// A builder with no field set.
    pub fn builder() -> (r: ThemesBuilder)
        ensures
            r.id is None,
    {
        ThemesBuilder { id: None }
    }
}

impl ThemesBuilder {
    /// Sets the anime's `ID`.
    pub fn id(self, value: u32) -> (r: Self)
        ensures
            r.id == Some(value),
    {
        ThemesBuilder { id: Some(value) }
    }

    /// The endpoint, or an error naming the field that was not set.
    pub fn build(&self) -> (r: Result<Themes, BuilderError>)
        ensures
            match self.id {
                Some(id) => r == Ok::<Themes, BuilderError>(Themes { id }),
                None => r == Err::<Themes, BuilderError>(BuilderError::UninitializedField("id")),
            },
    {
        match self.id {
            Some(id) => Ok(Themes { id }),
            None => Err(BuilderError::UninitializedField("id")),
        }
    }
}

impl Endpoint for Themes {
    open spec fn spec_method(&self) -> Method {
        Method::Get
    }

    open spec fn spec_path(&self) -> Seq<char> {
        "/anime/"@ + decimal(self.id as nat) + "/themes"@
    }

    open spec fn spec_params(&self) -> Option<Seq<(Seq<char>, Seq<char>)>> {
        Some(Seq::empty())
    }

    open spec fn spec_body(&self) -> Option<Option<(Seq<char>, Seq<u8>)>> {
        Some(None)
    }

    fn method(&self) -> (r: Method) {
        Method::Get
    }

    fn endpoint(&self) -> (r: String) {
        anime_path(self.id, "/themes")
    }

    fn query_params(&self) -> (r: Result<QueryParams, BodyError>) {
        Ok(QueryParams::new())
    }

    fn body(&self) -> (r: Result<Option<(&'static str, Vec<u8>)>, BodyError>) {
        Ok(None)
    }
}

/// Retrieves the users who have added, updated or removed the entry on their list.
#[derive(Debug, Clone, Copy, PartialEq, Eq, Structural)]
pub struct UserUpdates {
    /// `ID` of the anime.
    pub id: u32,
}

/// Builds a [`UserUpdates`].
#[derive(Debug, Clone, Copy, PartialEq, Eq, Structural)]
pub struct UserUpdatesBuilder {
    /// `ID` of the anime, once set.
    pub id: Option<u32>,
}

impl UserUpdates {
    /// A builder with no field set.
    pub fn builder() -> (r: UserUpdatesBuilder)
        ensures
            r.id is None,
    {
        UserUpdatesBuilder { id: None }
    }
}

impl UserUpdatesBuilder {
    /// Sets the anime's `ID`.
    pub fn id(self, value: u32) -> (r: Self)
        ensures
            r.id == Some(value),
    {
        UserUpdatesBuilder { id: Some(value) }
    }

    /// The endpoint, or an error naming the field that was not set.
    pub fn build(&self) -> (r: Result<UserUpdates, BuilderError>)
        ensures
            match self.id {
                Some(id) => r == Ok::<UserUpdates, BuilderError>(UserUpdates { id }),
                None => r == Err::<UserUpdates, BuilderError>(BuilderError::UninitializedField("id")),
            },
    {
        match self.id {
            Some(id) => Ok(UserUpdates { id }),
            None => Err(BuilderError::UninitializedField("id")),
        }
    }
}

impl Endpoint for UserUpdates {
    open spec fn spec_method(&self) -> Method {
        Method::Get
    }

    open spec fn spec_path(&self) -> Seq<char> {
        "/anime/"@ + decimal(self.id as nat) + "/userupdates"@
    }

    open spec fn spec_params(&self) -> Option<Seq<(Seq<char>, Seq<char>)>> {
        Some(Seq::empty())
    }

    open spec fn spec_body(&self) -> Option<Option<(Seq<char>, Seq<u8>)>> {
        Some(None)
    }

    fn method(&self) -> (r: Method) {
        Method::Get
    }

    fn endpoint(&self) -> (r: String) {
        anime_path(self.id, "/userupdates")
    }

    fn query_params(&self) -> (r: Result<QueryParams, BodyError>) {
        Ok(QueryParams::new())
    }

    fn body(&self) -> (r: Result<Option<(&'static str, Vec<u8>)>, BodyError>) {
        Ok(None)
    }
}

impl Pageable for UserUpdates {}

/// Retrieves videos related to the entry.
#[derive(Debug, Clone, Copy, PartialEq, Eq, Structural)]
pub struct Videos {
    /// `ID` of the anime.
    pub id: u32,
}

/// Builds a [`Videos`].
#[derive(Debug, Clone, Copy, PartialEq, Eq, Structural)]
pub struct VideosBuilder {
    /// `ID` of the anime, once set.
    pub id: Option<u32>,
}

impl Videos {
    /// A builder with no field set.
    pub fn builder() -> (r: VideosBuilder)
        ensures
            r.id is None,
    {
        VideosBuilder { id: None }
    }
}

impl VideosBuilder {
    /// Sets the anime's `ID`.
    pub fn id(self, value: u32) -> (r: Self)
        ensures
            r.id == Some(value),
    {
        VideosBuilder { id: Some(value) }
    }

    /// The endpoint, or an error naming the field that was not set.
    pub fn build(&self) -> (r: Result<Videos, BuilderError>)
        ensures
            match self.id {
                Some(id) => r == Ok::<Videos, BuilderError>(Videos { id }),
                None => r == Err::<Videos, BuilderError>(BuilderError::UninitializedField("id")),
            },
    {
        match self.id {
            Some(id) => Ok(Videos { id }),
            None => Err(BuilderError::UninitializedField("id")),
        }
    }
}

impl Endpoint for Videos {
    open spec fn spec_method(&self) -> Method {
        Method::Get
    }

    open spec fn spec_path(&self) -> Seq<char> {
        "/anime/"@ + decimal(self.id as nat) + "/videos"@
    }

    open spec fn spec_params(&self) -> Option<Seq<(Seq<char>, Seq<char>)>> {
        Some(Seq::empty())
    }

    open spec fn spec_body(&self) -> Option<Option<(Seq<char>, Seq<u8>)>> {
        Some(None)
    }

    fn method(&self) -> (r: Method) {
        Method::Get
    }

    fn endpoint(&self) -> (r: String) {
        anime_path(self.id, "/videos")
    }

    fn query_params(&self) -> (r: Result<QueryParams, BodyError>) {
        Ok(QueryParams::new())
    }

    fn body(&self) -> (r: Result<Option<(&'static str, Vec<u8>)>, BodyError>) {
        Ok(None)
    }
}

/// Retrieves episode videos related to the entry.
#[derive(Debug, Clone, Copy, PartialEq, Eq, Structural)]
pub struct VideosEpisodes {
    /// `ID` of the anime.
    pub id: u32,
}

/// Builds a [`VideosEpisodes`].
#[derive(Debug, Clone, Copy, PartialEq, Eq, Structural)]
pub struct VideosEpisodesBuilder {
    /// `ID` of the anime, once set.
    pub id: Option<u32>,
}

impl VideosEpisodes {
    /// A builder with no field set.
    pub fn builder() -> (r: VideosEpisodesBuilder)
        ensures
            r.id is None,
    {
        VideosEpisodesBuilder { id: None }
    }
}

impl VideosEpisodesBuilder {
    /// Sets the anime's `ID`.
    pub fn id(self, value: u32) -> (r: Self)
        ensures
            r.id == Some(value),
    {
        VideosEpisodesBuilder { id: Some(value) }
    }

    /// The endpoint, or an error naming the field that was not set.
    pub fn build(&self) -> (r: Result<VideosEpisodes, BuilderError>)
        ensures
            match self.id {
                Some(id) => r == Ok::<VideosEpisodes, BuilderError>(VideosEpisodes { id }),
                None => r == Err::<VideosEpisodes, BuilderError>(BuilderError::UninitializedField("id")),
            },
    {
        match self.id {
            Some(id) => Ok(VideosEpisodes { id }),
            None => Err(BuilderError::UninitializedField("id")),
        }
    }
}

impl Endpoint for VideosEpisodes {
    open spec fn spec_method(&self) -> Method {
        Method::Get
    }

    open spec fn spec_path(&self) -> Seq<char> {
        "/anime/"@ + decimal(self.id as nat) + "/videos/episodes"@
    }

    open spec fn spec_params(&self) -> Option<Seq<(Seq<char>, Seq<char>)>> {
        Some(Seq::empty())
    }

    open spec fn spec_body(&self) -> Option<Option<(Seq<char>, Seq<u8>)>> {
        Some(None)
    }

    fn method(&self) -> (r: Method) {
        Method::Get
    }

    fn endpoint(&self) -> (r: String) {
        anime_path(self.id, "/videos/episodes")
    }

    fn query_params(&self) -> (r: Result<QueryParams, BodyError>) {
        Ok(QueryParams::new())
    }

    fn body(&self) -> (r: Result<Option<(&'static str, Vec<u8>)>, BodyError>) {
        Ok(None)
    }
}

impl Pageable for VideosEpisodes {}

/// Which forum topics to list.
#[allow(non_camel_case_types)]
#[derive(Debug, Clone, Copy, PartialEq, Eq, Structural)]
pub enum ForumFilter {
    All,
    Episode,
    Other,
}

impl ForumFilter {
    /// The value as it stands in a query string.
    pub open spec fn text(self) -> Seq<char> {
        match self {
            ForumFilter::All => "all"@,
            ForumFilter::Episode => "episode"@,
            ForumFilter::Other => "other"@,
        }
    }

    /// The value as it stands in a query string.
    pub fn as_str(&self) -> (r: &'static str)
        ensures
            r@ == self.text(),
    {
        match self {
            ForumFilter::All => "all",
            ForumFilter::Episode => "episode",
            ForumFilter::Other => "other",
        }
    }
}

/// The kind of anime to search for.
#[allow(non_camel_case_types)]
#[derive(Debug, Clone, Copy, PartialEq, Eq, Structural)]
pub enum AnimeType {
    Tv,
    Movie,
    Ova,
    Special,
    Ona,
    Music,
    Cm,
    Pv,
    TvSpecial,
}

impl AnimeType {
    /// The value as it stands in a query string.
    pub open spec fn text(self) -> Seq<char> {
        match self {
            AnimeType::Tv => "tv"@,
            AnimeType::Movie => "movie"@,
            AnimeType::Ova => "ova"@,
            AnimeType::Special => "special"@,
            AnimeType::Ona => "ona"@,
            AnimeType::Music => "music"@,
            AnimeType::Cm => "cm"@,
            AnimeType::Pv => "pv"@,
            AnimeType::TvSpecial => "tv_special"@,
        }
    }

    /// The value as it stands in a query string.
    pub fn as_str(&self) -> (r: &'static str)
        ensures
            r@ == self.text(),
    {
        match self {
            AnimeType::Tv => "tv",
            AnimeType::Movie => "movie",
            AnimeType::Ova => "ova",
            AnimeType::Special => "special",
            AnimeType::Ona => "ona",
            AnimeType::Music => "music",
            AnimeType::Cm => "cm",
            AnimeType::Pv => "pv",
            AnimeType::TvSpecial => "tv_special",
        }
    }
}

/// The airing status to search for.
#[allow(non_camel_case_types)]
#[derive(Debug, Clone, Copy, PartialEq, Eq, Structural)]
pub enum AnimeStatus {
    Airing,
    Complete,
    Upcoming,
}

impl AnimeStatus {
    /// The value as it stands in a query string.
    pub open spec fn text(self) -> Seq<char> {
        match self {
            AnimeStatus::Airing => "airing"@,
            AnimeStatus::Complete => "complete"@,
            AnimeStatus::Upcoming => "upcoming"@,
        }
    }

    /// The value as it stands in a query string.
    pub fn as_str(&self) -> (r: &'static str)
        ensures
            r@ == self.text(),
    {
        match self {
            AnimeStatus::Airing => "airing",
            AnimeStatus::Complete => "complete",
            AnimeStatus::Upcoming => "upcoming",
        }
    }
}

/// The audience rating to search for.
#[allow(non_camel_case_types)]
#[derive(Debug, Clone, Copy, PartialEq, Eq, Structural)]
pub enum AnimeRating {
    G,
    PG,
    PG13,
    R17,
    R,
    Rx,
}

impl AnimeRating {
    /// The value as it stands in a query string.
    pub open spec fn text(self) -> Seq<char> {
        match self {
            AnimeRating::G => "g"@,
            AnimeRating::PG => "p_g"@,
            AnimeRating::PG13 => "p_g13"@,
            AnimeRating::R17 => "r17"@,
            AnimeRating::R => "r"@,
            AnimeRating::Rx => "rx"@,
        }
    }

    /// The value as it stands in a query string.
    pub fn as_str(&self) -> (r: &'static str)
        ensures
            r@ == self.text(),
    {
        match self {
            AnimeRating::G => "g",
            AnimeRating::PG => "p_g",
            AnimeRating::PG13 => "p_g13",
            AnimeRating::R17 => "r17",
            AnimeRating::R => "r",
            AnimeRating::Rx => "rx",
        }
    }
}

/// The field that search results are ordered by.
#[allow(non_camel_case_types)]
#[derive(Debug, Clone, Copy, PartialEq, Eq, Structural)]
pub enum AnimeOrderBy {
    MalId,
    Title,
    StartDate,
    EndDate,
    Episodes,
    Score,
    ScoredBy,
    Rank,
    Popularity,
    Members,
    Favorites,
}

impl AnimeOrderBy {
    /// The value as it stands in a query string.
    pub open spec fn text(self) -> Seq<char> {
        match self {
            AnimeOrderBy::MalId => "mal_id"@,
            AnimeOrderBy::Title => "title"@,
            AnimeOrderBy::StartDate => "start_date"@,
            AnimeOrderBy::EndDate => "end_date"@,
            AnimeOrderBy::Episodes => "episodes"@,
            AnimeOrderBy::Score => "score"@,
            AnimeOrderBy::ScoredBy => "scored_by"@,
            AnimeOrderBy::Rank => "rank"@,
            AnimeOrderBy::Popularity => "popularity"@,
            AnimeOrderBy::Members => "members"@,
            AnimeOrderBy::Favorites => "favorites"@,
        }
    }

    /// The value as it stands in a query string.
    pub fn as_str(&self) -> (r: &'static str)
        ensures
            r@ == self.text(),
    {
        match self {
            AnimeOrderBy::MalId => "mal_id",
            AnimeOrderBy::Title => "title",
            AnimeOrderBy::StartDate => "start_date",
            AnimeOrderBy::EndDate => "end_date",
            AnimeOrderBy::Episodes => "episodes",
            AnimeOrderBy::Score => "score",
            AnimeOrderBy::ScoredBy => "scored_by",
            AnimeOrderBy::Rank => "rank",
            AnimeOrderBy::Popularity => "popularity",
            AnimeOrderBy::Members => "members",
            AnimeOrderBy::Favorites => "favorites",
        }
    }
}

/// The direction of the ordering.
#[allow(non_camel_case_types)]
#[derive(Debug, Clone, Copy, PartialEq, Eq, Structural)]
pub enum AnimeSorting {
    Asc,
    Desc,
}

impl AnimeSorting {
    /// The value as it stands in a query string.
    pub open spec fn text(self) -> Seq<char> {
        match self {
            AnimeSorting::Asc => "asc"@,
            AnimeSorting::Desc => "desc"@,
        }
    }

    /// The value as it stands in a query string.
    pub fn as_str(&self) -> (r: &'static str)
        ensures
            r@ == self.text(),
    {
        match self {
            AnimeSorting::Asc => "asc",
            AnimeSorting::Desc => "desc",
        }
    }
}

/// Retrieves an anime episode resource.
#[derive(Debug, Clone, Copy, PartialEq, Eq, Structural)]
pub struct Episode {
    /// `ID` of the anime.
    pub id: u32,
    /// `ID` of the episode.
    pub episode: u32,
}

/// Builds an [`Episode`].
#[derive(Debug, Clone, Copy, PartialEq, Eq, Structural)]
pub struct EpisodeBuilder {
    /// `ID` of the anime, once set.
    pub id: Option<u32>,
    /// `ID` of the episode, once set.
    pub episode: Option<u32>,
}

impl Episode {
    /// A builder with no field set.
    pub fn builder() -> (r: EpisodeBuilder)
        ensures
            r.id is None,
            r.episode is None,
    {
        EpisodeBuilder { id: None, episode: None }
    }
}

impl EpisodeBuilder {
    /// Sets the anime's `ID`.
    pub fn id(self, value: u32) -> (r: Self)
        ensures
            r == (EpisodeBuilder { id: Some(value), ..self }),
    {
        EpisodeBuilder { id: Some(value), episode: self.episode }
    }

    /// Sets the episode's `ID`.
    pub fn episode(self, value: u32) -> (r: Self)
        ensures
            r == (EpisodeBuilder { episode: Some(value), ..self }),
    {
        EpisodeBuilder { id: self.id, episode: Some(value) }
    }

    /// The endpoint, or an error naming the first field that was not set.
    pub fn build(&self) -> (r: Result<Episode, BuilderError>)
        ensures
            match (self.id, self.episode) {
                (Some(id), Some(episode)) => r == Ok::<Episode, BuilderError>(Episode { id, episode }),
                (None, _) => r == Err::<Episode, BuilderError>(BuilderError::UninitializedField("id")),
                (Some(_), None) => r == Err::<Episode, BuilderError>(
                    BuilderError::UninitializedField("episode"),
                ),
            },
    {
        match self.id {
            None => Err(BuilderError::UninitializedField("id")),
            Some(id) => match self.episode {
                None => Err(BuilderError::UninitializedField("episode")),
                Some(episode) => Ok(Episode { id, episode }),
            },
        }
    }
}

impl Endpoint for Episode {
    open spec fn spec_method(&self) -> Method {
        Method::Get
    }

    open spec fn spec_path(&self) -> Seq<char> {
        "/anime/"@ + decimal(self.id as nat) + "/episodes/"@ + decimal(self.episode as nat)
    }

    open spec fn spec_params(&self) -> Option<Seq<(Seq<char>, Seq<char>)>> {
        Some(Seq::empty())
    }

    open spec fn spec_body(&self) -> Option<Option<(Seq<char>, Seq<u8>)>> {
        Some(None)
    }

    fn method(&self) -> (r: Method) {
        Method::Get
    }

    fn endpoint(&self) -> (r: String) {
        let mut out = anime_path(self.id, "/episodes/");
        push_decimal(&mut out, self.episode);
        out
    }

    fn query_params(&self) -> (r: Result<QueryParams, BodyError>) {
        Ok(QueryParams::new())
    }

    fn body(&self) -> (r: Result<Option<(&'static str, Vec<u8>)>, BodyError>) {
        Ok(None)
    }
}

/// Retrieves a list of forum topics related to the entry.
#[derive(Debug, Clone, Copy, PartialEq, Eq, Structural)]
pub struct Forum {
    /// `ID` of the anime.
    pub id: u32,
    /// Which topics to list; all when absent.
    pub filter: Option<ForumFilter>,
}

/// Builds a [`Forum`].
#[derive(Debug, Clone, Copy, PartialEq, Eq, Structural)]
pub struct ForumBuilder {
    /// `ID` of the anime, once set.
    pub id: Option<u32>,
    /// The topic filter, if one was set.
    pub filter: Option<ForumFilter>,
}

impl Forum {
    /// A builder with no field set.
    pub fn builder() -> (r: ForumBuilder)
        ensures
            r.id is None,
            r.filter is None,
    {
        ForumBuilder { id: None, filter: None }
    }

    /// The query parameters that this endpoint sends.
    pub open spec fn params(&self) -> Seq<(Seq<char>, Seq<char>)> {
        opt_pair(
            "filter"@,
            match self.filter {
                Some(f) => Some(f.text()),
                None => None,
            },
        )
    }
}

impl ForumBuilder {
    /// Sets the anime's `ID`.
    pub fn id(self, value: u32) -> (r: Self)
        ensures
            r == (ForumBuilder { id: Some(value), ..self }),
    {
        ForumBuilder { id: Some(value), filter: self.filter }
    }

    /// Sets the topic filter.
    pub fn filter(self, value: ForumFilter) -> (r: Self)
        ensures
            r == (ForumBuilder { filter: Some(value), ..self }),
    {
        ForumBuilder { id: self.id, filter: Some(value) }
    }

    /// The endpoint, or an error naming the field that was not set.
    pub fn build(&self) -> (r: Result<Forum, BuilderError>)
        ensures
            match self.id {
                Some(id) => r == Ok::<Forum, BuilderError>(Forum { id, filter: self.filter }),
                None => r == Err::<Forum, BuilderError>(BuilderError::UninitializedField("id")),
            },
    {
        match self.id {
            Some(id) => Ok(Forum { id, filter: self.filter }),
            None => Err(BuilderError::UninitializedField("id")),
        }
    }
}

impl Endpoint for Forum {
    open spec fn spec_method(&self) -> Method {
        Method::Get
    }

    open spec fn spec_path(&self) -> Seq<char> {
        "/anime/"@ + decimal(self.id as nat) + "/forum"@
    }

    open spec fn spec_params(&self) -> Option<Seq<(Seq<char>, Seq<char>)>> {
        Some(self.params())
    }

    open spec fn spec_body(&self) -> Option<Option<(Seq<char>, Seq<u8>)>> {
        Some(None)
    }

    fn method(&self) -> (r: Method) {
        Method::Get
    }

    fn endpoint(&self) -> (r: String) {
        anime_path(self.id, "/forum")
    }

    fn query_params(&self) -> (r: Result<QueryParams, BodyError>) {
        let mut q = QueryParams::new();
        match self.filter {
            Some(f) => q.append_pair("filter", f.as_str()),
            None => {},
        }
        assert(q@ =~= self.params());
        Ok(q)
    }

    fn body(&self) -> (r: Result<Option<(&'static str, Vec<u8>)>, BodyError>) {
        Ok(None)
    }
}

/// Retrieves anime reviews.
#[derive(Debug, Clone, Copy, PartialEq, Eq, Structural)]
pub struct Reviews {
    /// `ID` of the anime.
    pub id: u32,
    /// Whether to include reviews left while the anime was still airing.
    pub preliminary: Option<bool>,
    /// Whether to include reviews tagged as spoilers.
    pub spoilers: Option<bool>,
}

/// Builds a [`Reviews`].
#[derive(Debug, Clone, Copy, PartialEq, Eq, Structural)]
pub struct ReviewsBuilder {
    /// `ID` of the anime, once set.
    pub id: Option<u32>,
    /// The preliminary flag, if one was set.
    pub preliminary: Option<bool>,
    /// The spoilers flag, if one was set.
    pub spoilers: Option<bool>,
}

impl Reviews {
    /// A builder with no field set.
    pub fn builder() -> (r: ReviewsBuilder)
        ensures
            r.id is None,
            r.preliminary is None,
            r.spoilers is None,
    {
        ReviewsBuilder { id: None, preliminary: None, spoilers: None }
    }

    /// The query parameters that this endpoint sends.
    pub open spec fn params(&self) -> Seq<(Seq<char>, Seq<char>)> {
        opt_pair(
            "preliminary"@,
            match self.preliminary {
                Some(b) => Some(bool_text(b)),
                None => None,
            },
        ) + opt_pair(
            "spoilers"@,
            match self.spoilers {
                Some(b) => Some(bool_text(b)),
                None => None,
            },
        )
    }
}

impl ReviewsBuilder {
    /// Sets the anime's `ID`.
    pub fn id(self, value: u32) -> (r: Self)
        ensures
            r == (ReviewsBuilder { id: Some(value), ..self }),
    {
        ReviewsBuilder { id: Some(value), preliminary: self.preliminary, spoilers: self.spoilers }
    }

    /// Sets the preliminary flag.
    pub fn preliminary(self, value: bool) -> (r: Self)
        ensures
            r == (ReviewsBuilder { preliminary: Some(value), ..self }),
    {
        ReviewsBuilder { id: self.id, preliminary: Some(value), spoilers: self.spoilers }
    }

    /// Sets the spoilers flag.
    pub fn spoilers(self, value: bool) -> (r: Self)
        ensures
            r == (ReviewsBuilder { spoilers: Some(value), ..self }),
    {
        ReviewsBuilder { id: self.id, preliminary: self.preliminary, spoilers: Some(value) }
    }

    /// The endpoint, or an error naming the field that was not set.
    pub fn build(&self) -> (r: Result<Reviews, BuilderError>)
        ensures
            match self.id {
                Some(id) => r == Ok::<Reviews, BuilderError>(
                    Reviews { id, preliminary: self.preliminary, spoilers: self.spoilers },
                ),
                None => r == Err::<Reviews, BuilderError>(BuilderError::UninitializedField("id")),
            },
    {
        match self.id {
            Some(id) => Ok(Reviews { id, preliminary: self.preliminary, spoilers: self.spoilers }),
            None => Err(BuilderError::UninitializedField("id")),
        }
    }
}

impl Endpoint for Reviews {
    open spec fn spec_method(&self) -> Method {
        Method::Get
    }

    open spec fn spec_path(&self) -> Seq<char> {
        "/anime/"@ + decimal(self.id as nat) + "/reviews"@
    }

    open spec fn spec_params(&self) -> Option<Seq<(Seq<char>, Seq<char>)>> {
        Some(self.params())
    }

    open spec fn spec_body(&self) -> Option<Option<(Seq<char>, Seq<u8>)>> {
        Some(None)
    }

    fn method(&self) -> (r: Method) {
        Method::Get
    }

    fn endpoint(&self) -> (r: String) {
        anime_path(self.id, "/reviews")
    }

    fn query_params(&self) -> (r: Result<QueryParams, BodyError>) {
        let mut q = QueryParams::new();
        match self.preliminary {
            Some(b) => q.append_pair("preliminary", bool_str(b)),
            None => {},
        }
        match self.spoilers {
            Some(b) => q.append_pair("spoilers", bool_str(b)),
            None => {},
        }
        assert(q@ =~= self.params());
        Ok(q)
    }

    fn body(&self) -> (r: Result<Option<(&'static str, Vec<u8>)>, BodyError>) {
        Ok(None)
    }
}

impl Pageable for Reviews {}

proof fn lemma_key_texts()
    ensures
        "preliminary"@ != "spoilers"@,
        "true"@ != "false"@,
        form_safe("preliminary"@),
        form_safe("spoilers"@),
        form_safe("true"@),
        form_safe("false"@),
{
    reveal_strlit("preliminary");
    reveal_strlit("spoilers");
    reveal_strlit("true");
    reveal_strlit("false");
    assert("preliminary"@.len() != "spoilers"@.len());
    assert("true"@.len() != "false"@.len());
}

/// A review flag that is not set sends no parameter of its name; one that
/// is set sends its value under its own key.
pub proof fn lemma_reviews_params_only_set_fields(r: Reviews)
    ensures
        has_key(r.params(), "preliminary"@) <==> r.preliminary is Some,
        has_key(r.params(), "spoilers"@) <==> r.spoilers is Some,
        r.preliminary matches Some(b) ==> r.params().contains(("preliminary"@, bool_text(b))),
        r.spoilers matches Some(b) ==> r.params().contains(("spoilers"@, bool_text(b))),
{
    lemma_key_texts();
    let ps = r.params();
    if r.preliminary is Some {
        assert(ps[0].0 == "preliminary"@);
    }
    if r.spoilers is Some {
        assert(ps[ps.len() - 1].0 == "spoilers"@);
    }
}

/// A forum filter that is not set sends no parameter; one that is set sends
/// its value under the key `filter`.
pub proof fn lemma_forum_params_only_set_fields(f: Forum)
    ensures
        has_key(f.params(), "filter"@) <==> f.filter is Some,
        f.filter matches Some(x) ==> f.params() == seq![("filter"@, x.text())],
{
    if f.filter is Some {
        assert(f.params()[0].0 == "filter"@);
    }
}

/// With both flags set, reading back the encoded query string of a reviews
/// request gives both keys, in order, and the values of both flags.
pub proof fn lemma_reviews_query_round_trip(r: Reviews)
    requires
        r.preliminary is Some,
        r.spoilers is Some,
    ensures
        decode_pairs(encode_pairs(r.params())).len() == 2,
        decode_pairs(encode_pairs(r.params()))[0].0 == "preliminary"@,
        decode_pairs(encode_pairs(r.params()))[1].0 == "spoilers"@,
        parse_bool_text(decode_pairs(encode_pairs(r.params()))[0].1) == r.preliminary,
        parse_bool_text(decode_pairs(encode_pairs(r.params()))[1].1) == r.spoilers,
{
    lemma_key_texts();
    let ps = r.params();
    assert(ps.len() == 2);
    assert forall|i: int| 0 <= i < ps.len() implies form_safe(#[trigger] ps[i].0) && form_safe(
        ps[i].1,
    ) by {
        if i == 0 {
            assert(ps[0] == ("preliminary"@, bool_text(r.preliminary->0)));
        } else {
            assert(ps[1] == ("spoilers"@, bool_text(r.spoilers->0)));
        }
    }
    lemma_query_round_trip(ps);
}

} // verus!
