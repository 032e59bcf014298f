//! The records of the catalog: series, seasons, episodes, movie listings and
//! movies, and the union of them.
//!
//! A moment in time is held as milliseconds since the Unix epoch, a length of
//! time as milliseconds, and a number with a fraction as its decimal text.

use crate::categories::Category;
use crate::common::concatenate;
use crate::common::concatenated;
use crate::common::Image;
use crate::common::Locale;
use crate::common::QueryParameter;
use crate::common::QueryParameterView;
use crate::text::decimal;
use crate::text::decimal_text;
use crate::text::views;
use crate::resolver::MediaKind;
use vstd::prelude::*;
use vstd::std_specs::cmp::PartialEqSpecImpl;
use vstd::std_specs::convert::FromSpecImpl;
use vstd::string::StringExecFns;

verus! {

/// The thumbnails of an episode or movie.
#[derive(Clone, Debug, Default)]
pub struct ThumbnailImages {
    pub thumbnail: Vec<Image>,
}

impl ThumbnailImages {
    /// The thumbnails from the nested lists of the wire format, or none where
    /// the record has no such member.
    pub fn from_nested(thumbnail: Option<Vec<Vec<Image>>>) -> (r: ThumbnailImages)
        ensures
            r.thumbnail@ == match thumbnail {
                Some(lists) => concatenated(lists@),
                None => Seq::empty(),
            },
    {
        match thumbnail {
            Some(lists) => ThumbnailImages { thumbnail: concatenate(lists) },
            None => ThumbnailImages { thumbnail: Vec::new() },
        }
    }
}

/// The posters of a series or movie listing.
#[derive(Clone, Debug, Default)]
pub struct PosterImages {
    pub poster_tall: Vec<Image>,
    pub poster_wide: Vec<Image>,
}

impl PosterImages {
    /// The posters from the nested lists of the wire format; a list that the
    /// record lacks is empty.
    pub fn from_nested(tall: Option<Vec<Vec<Image>>>, wide: Option<Vec<Vec<Image>>>) -> (r:
        PosterImages)
        ensures
            r.poster_tall@ == match tall {
                Some(lists) => concatenated(lists@),
                None => Seq::empty(),
            },
            r.poster_wide@ == match wide {
                Some(lists) => concatenated(lists@),
                None => Seq::empty(),
            },
    {
        let poster_tall = match tall {
            Some(lists) => concatenate(lists),
            None => Vec::new(),
        };
        let poster_wide = match wide {
            Some(lists) => concatenate(lists),
            None => Vec::new(),
        };
        PosterImages { poster_tall, poster_wide }
    }
}

/// How a record ranked in a search or among similar titles.
#[derive(Clone, Debug)]
pub struct SearchMetadata {
    pub last_public: Option<i64>,
    pub rank: Option<u32>,
    pub score: String,
    pub popularity_score: Option<String>,
}

impl Default for SearchMetadata {
    /// No rank, no date, and a score of zero.
    fn default() -> (r: SearchMetadata)
        ensures
            r.last_public is None,
            r.rank is None,
            r.score@ == "0"@,
            r.popularity_score is None,
    {
        SearchMetadata {
            last_public: None,
            rank: None,
            score: String::from_str("0"),
            popularity_score: None,
        }
    }
}

/// A series.
#[derive(Clone, Debug)]
pub struct Series {
    pub id: String,
    pub channel_id: String,
    pub content_provider: String,
    pub slug: String,
    pub title: String,
    pub slug_title: String,
    pub description: String,
    pub extended_description: String,
    pub series_launch_year: Option<u32>,
    pub episode_count: u32,
    pub season_count: u32,
    pub media_count: u32,
    pub season_tags: Vec<String>,
    pub is_subbed: bool,
    pub is_dubbed: bool,
    pub is_simulcast: bool,
    pub audio_locales: Vec<Locale>,
    pub subtitle_locales: Vec<Locale>,
    pub images: PosterImages,
    pub categories: Vec<Category>,
    pub keywords: Vec<String>,
    pub maturity_ratings: Vec<String>,
    pub is_mature: bool,
    pub mature_blocked: bool,
    pub availability_notes: String,
}

impl Series {
    /// Every text and list is empty, every number zero and every flag off.
    pub open spec fn is_blank(&self) -> bool {
        &&& self.id@.len() == 0
        &&& self.channel_id@.len() == 0
        &&& self.content_provider@.len() == 0
        &&& self.slug@.len() == 0
        &&& self.title@.len() == 0
        &&& self.slug_title@.len() == 0
        &&& self.description@.len() == 0
        &&& self.extended_description@.len() == 0
        &&& self.series_launch_year is None
        &&& self.episode_count == 0
        &&& self.season_count == 0
        &&& self.media_count == 0
        &&& self.season_tags@.len() == 0
        &&& !self.is_subbed
        &&& !self.is_dubbed
        &&& !self.is_simulcast
        &&& self.audio_locales@.len() == 0
        &&& self.subtitle_locales@.len() == 0
        &&& self.images.poster_tall@.len() == 0
        &&& self.images.poster_wide@.len() == 0
        &&& self.categories@.len() == 0
        &&& self.keywords@.len() == 0
        &&& self.maturity_ratings@.len() == 0
        &&& !self.is_mature
        &&& !self.mature_blocked
        &&& self.availability_notes@.len() == 0
    }

    /// The address that lists the seasons of the series.
    pub fn seasons_endpoint(&self) -> (r: String)
        ensures
            r@ == "https://www.crunchyroll.com/content/v2/cms/series/"@ + self.id@ + "/seasons"@,
    {
        String::from_str("https://www.crunchyroll.com/content/v2/cms/series/").concat(
            self.id.as_str(),
        ).concat("/seasons")
    }
}

impl Default for Series {
    fn default() -> (r: Series)
        ensures
            r.is_blank(),
    {
        Series {
            id: String::new(),
            channel_id: String::new(),
            content_provider: String::new(),
            slug: String::new(),
            title: String::new(),
            slug_title: String::new(),
            description: String::new(),
            extended_description: String::new(),
            series_launch_year: None,
            episode_count: 0,
            season_count: 0,
            media_count: 0,
            season_tags: Vec::new(),
            is_subbed: false,
            is_dubbed: false,
            is_simulcast: false,
            audio_locales: Vec::new(),
            subtitle_locales: Vec::new(),
            images: PosterImages { poster_tall: Vec::new(), poster_wide: Vec::new() },
            categories: Vec::new(),
            keywords: Vec::new(),
            maturity_ratings: Vec::new(),
            is_mature: false,
            mature_blocked: false,
            availability_notes: String::new(),
        }
    }
}

/// One audio version of a season.
#[derive(Clone, Debug, Default)]
pub struct SeasonVersion {
    pub id: String,
    pub audio_locale: Locale,
    pub original: bool,
    pub variant: String,
}

/// A season of a series.
#[derive(Clone, Debug, Default)]
pub struct Season {
    pub id: String,
    pub series_id: String,
    pub channel_id: String,
    pub title: String,
    pub slug_title: String,
    pub description: String,
    pub season_number: u32,
    pub season_sequence_number: u32,
    pub number_of_episodes: u32,
    pub is_complete: bool,
    pub keywords: Vec<String>,
    pub season_tags: Vec<String>,
    pub is_subbed: bool,
    pub is_dubbed: bool,
    pub is_simulcast: bool,
    pub audio_locale: Locale,
    pub audio_locales: Vec<Locale>,
    pub subtitle_locales: Vec<Locale>,
    pub maturity_ratings: Vec<String>,
    pub is_mature: bool,
    pub mature_blocked: bool,
    pub availability_notes: String,
    pub versions: Vec<SeasonVersion>,
}

impl Season {
    /// The address of the series that the season belongs to.
    pub fn series_endpoint(&self) -> (r: String)
        ensures
            r@ == "https://www.crunchyroll.com/content/v2/cms/series/"@ + self.series_id@,
    {
        String::from_str("https://www.crunchyroll.com/content/v2/cms/series/").concat(
            self.series_id.as_str(),
        )
    }

    /// The address that lists the episodes of the season.
    pub fn episodes_endpoint(&self) -> (r: String)
        ensures
            r@ == "https://www.crunchyroll.com/content/v2/cms/seasons/"@ + self.id@
                + "/episodes"@,
    {
        String::from_str("https://www.crunchyroll.com/content/v2/cms/seasons/").concat(
            self.id.as_str(),
        ).concat("/episodes")
    }
}

/// One audio version of an episode.
#[derive(Clone, Debug, Default)]
pub struct EpisodeVersion {
    pub guid: String,
    pub media_guid: String,
    pub season_guid: String,
    pub audio_locale: Locale,
    pub is_premium_only: bool,
    pub original: bool,
    pub variant: String,
}

/// An episode of a season.
#[derive(Clone, Debug)]
pub struct Episode {
    pub id: String,
    pub stream_id: String,
    pub channel_id: String,
    pub playback_url: String,
    pub identifier: String,
    pub slug: String,
    pub title: String,
    pub slug_title: String,
    pub description: String,
    pub next_episode_id: String,
    pub next_episode_title: String,
    pub season_id: String,
    pub season_title: String,
    pub season_slug_title: String,
    pub season_tags: Vec<String>,
    pub series_id: String,
    pub series_title: String,
    pub series_slug_title: String,
    pub production_episode_id: String,
    pub episode: String,
    pub episode_number: u32,
    pub sequence_number: String,
    pub season_number: u32,
    pub audio_locale: Locale,
    pub subtitle_locales: Vec<Locale>,
    pub duration: i64,
    pub episode_air_date: i64,
    pub upload_date: i64,
    pub free_available_date: i64,
    pub premium_available_date: i64,
    pub availability_starts: i64,
    pub availability_ends: i64,
    pub images: Vec<Image>,
    pub is_dubbed: bool,
    pub is_subbed: bool,
    pub is_premium_only: bool,
    pub is_clip: bool,
    pub is_mature: bool,
    pub maturity_ratings: Vec<String>,
    pub mature_blocked: bool,
    pub available_offline: bool,
    pub availability_notes: String,
    pub closed_captions_available: bool,
    pub eligible_region: String,
    pub versions: Vec<EpisodeVersion>,
}

impl Episode {
    /// Every text and list is empty, every number, length and moment zero
    /// and every flag off; the sequence number is written as zero.
    pub open spec fn is_blank(&self) -> bool {
        &&& self.id@.len() == 0
        &&& self.stream_id@.len() == 0
        &&& self.channel_id@.len() == 0
        &&& self.playback_url@.len() == 0
        &&& self.identifier@.len() == 0
        &&& self.slug@.len() == 0
        &&& self.title@.len() == 0
        &&& self.slug_title@.len() == 0
        &&& self.description@.len() == 0
        &&& self.next_episode_id@.len() == 0
        &&& self.next_episode_title@.len() == 0
        &&& self.season_id@.len() == 0
        &&& self.season_title@.len() == 0
        &&& self.season_slug_title@.len() == 0
        &&& self.season_tags@.len() == 0
        &&& self.series_id@.len() == 0
        &&& self.series_title@.len() == 0
        &&& self.series_slug_title@.len() == 0
        &&& self.production_episode_id@.len() == 0
        &&& self.episode@.len() == 0
        &&& self.episode_number == 0
        &&& self.sequence_number@ == "0"@
        &&& self.season_number == 0
        &&& self.audio_locale.tag@.len() == 0
        &&& self.subtitle_locales@.len() == 0
        &&& self.duration == 0
        &&& self.episode_air_date == 0
        &&& self.upload_date == 0
        &&& self.free_available_date == 0
        &&& self.premium_available_date == 0
        &&& self.availability_starts == 0
        &&& self.availability_ends == 0
        &&& self.images@.len() == 0
        &&& !self.is_dubbed
        &&& !self.is_subbed
        &&& !self.is_premium_only
        &&& !self.is_clip
        &&& !self.is_mature
        &&& self.maturity_ratings@.len() == 0
        &&& !self.mature_blocked
        &&& !self.available_offline
        &&& self.availability_notes@.len() == 0
        &&& !self.closed_captions_available
        &&& self.eligible_region@.len() == 0
        &&& self.versions@.len() == 0
    }

    /// The address of the series that the episode belongs to.
    pub fn series_endpoint(&self) -> (r: String)
        ensures
            r@ == "https://www.crunchyroll.com/content/v2/cms/series/"@ + self.series_id@,
    {
        String::from_str("https://www.crunchyroll.com/content/v2/cms/series/").concat(
            self.series_id.as_str(),
        )
    }

    /// The address of the season that the episode belongs to.
    pub fn season_endpoint(&self) -> (r: String)
        ensures
            r@ == "https://www.crunchyroll.com/content/v2/cms/seasons/"@ + self.season_id@,
    {
        String::from_str("https://www.crunchyroll.com/content/v2/cms/seasons/").concat(
            self.season_id.as_str(),
        )
    }

    /// Whether an account may watch the episode.
    pub fn available(&self, premium: bool) -> (r: bool)
        ensures
            r == (premium || !self.is_premium_only),
    {
        premium || !self.is_premium_only
    }
}

impl Default for Episode {
    fn default() -> (r: Episode)
        ensures
            r.is_blank(),
    {
        Episode {
            id: String::new(),
            stream_id: String::new(),
            channel_id: String::new(),
            playback_url: String::new(),
            identifier: String::new(),
            slug: String::new(),
            title: String::new(),
            slug_title: String::new(),
            description: String::new(),
            next_episode_id: String::new(),
            next_episode_title: String::new(),
            season_id: String::new(),
            season_title: String::new(),
            season_slug_title: String::new(),
            season_tags: Vec::new(),
            series_id: String::new(),
            series_title: String::new(),
            series_slug_title: String::new(),
            production_episode_id: String::new(),
            episode: String::new(),
            episode_number: 0,
            sequence_number: String::from_str("0"),
            season_number: 0,
            audio_locale: Locale { tag: String::new() },
            subtitle_locales: Vec::new(),
            duration: 0,
            episode_air_date: 0,
            upload_date: 0,
            free_available_date: 0,
            premium_available_date: 0,
            availability_starts: 0,
            availability_ends: 0,
            images: Vec::new(),
            is_dubbed: false,
            is_subbed: false,
            is_premium_only: false,
            is_clip: false,
            is_mature: false,
            maturity_ratings: Vec::new(),
            mature_blocked: false,
            available_offline: false,
            availability_notes: String::new(),
            closed_captions_available: false,
            eligible_region: String::new(),
            versions: Vec::new(),
        }
    }
}

/// One audio version of a movie listing.
#[derive(Clone, Debug, Default)]
pub struct MovieListingVersion {
    pub id: String,
    pub audio_locale: Locale,
    pub original: bool,
    pub variant: String,
}

/// A movie listing: what a series is to its episodes.
#[derive(Clone, Debug, Default)]
pub struct MovieListing {
    pub id: String,
    pub channel_id: String,
    pub identifier: String,
    pub slug: String,
    pub title: String,
    pub slug_title: String,
    pub description: String,
    pub extended_description: String,
    pub content_provider: String,
    pub movie_release_year: u32,
    pub audio_locale: Locale,
    pub subtitle_locales: Vec<Locale>,
    pub is_subbed: bool,
    pub is_dubbed: bool,
    pub images: PosterImages,
    pub keywords: Vec<String>,
    pub season_tags: Vec<String>,
    pub is_premium_only: bool,
    pub free_available_date: i64,
    pub premium_available_date: i64,
    pub categories: Vec<Category>,
    pub maturity_ratings: Vec<String>,
    pub is_mature: bool,
    pub mature_blocked: bool,
    pub available_offline: bool,
    pub availability_notes: String,
    pub versions: Vec<MovieListingVersion>,
}

impl MovieListing {
    /// The address that lists the movies of the listing.
    pub fn movies_endpoint(&self) -> (r: String)
        ensures
            r@ == "https://www.crunchyroll.com/content/v2/cms/movie_listings/"@ + self.id@
                + "/movies"@,
    {
        String::from_str("https://www.crunchyroll.com/content/v2/cms/movie_listings/").concat(
            self.id.as_str(),
        ).concat("/movies")
    }
}

/// A movie.
#[derive(Clone, Debug, Default)]
pub struct Movie {
    pub id: String,
    pub stream_id: String,
    pub playback_url: String,
    pub channel_id: String,
    pub slug: String,
    pub title: String,
    pub slug_title: String,
    pub description: String,
    pub movie_listing_id: String,
    pub movie_listing_title: String,
    pub duration: i64,
    pub images: ThumbnailImages,
    pub free_available_date: i64,
    pub premium_available_date: i64,
    pub is_subbed: bool,
    pub is_dubbed: bool,
    pub closed_captions_available: bool,
    pub is_premium_only: bool,
    pub maturity_ratings: Vec<String>,
    pub is_mature: bool,
    pub mature_blocked: bool,
    pub available_offline: bool,
    pub availability_notes: String,
}

impl Movie {
    /// The address of the listing that the movie belongs to.
    pub fn movie_listing_endpoint(&self) -> (r: String)
        ensures
            r@ == "https://www.crunchyroll.com/content/v2/cms/movie_listings/"@
                + self.movie_listing_id@,
    {
        String::from_str("https://www.crunchyroll.com/content/v2/cms/movie_listings/").concat(
            self.movie_listing_id.as_str(),
        )
    }

    /// Whether an account may watch the movie.
    pub fn available(&self, premium: bool) -> (r: bool)
        ensures
            r == (premium || !self.is_premium_only),
    {
        premium || !self.is_premium_only
    }
}

/// The query that asks for a preferred audio language, empty where none is
/// preferred.
pub fn preferred_audio_query(preferred_audio: Option<&Locale>) -> (r: Vec<String>)
    ensures
        match preferred_audio {
            Some(locale) => r@.len() == 2 && r@[0]@ == "preferred_audio_language"@ && r@[1]@
                == locale.tag@,
            None => r@.len() == 0,
        },
{
    let mut query: Vec<String> = Vec::new();
    match preferred_audio {
        Some(locale) => {
            query.push(String::from_str("preferred_audio_language"));
            query.push(locale.tag.clone());
        },
        None => {},
    }
    query
}

impl PartialEq for Series {
    fn eq(&self, other: &Self) -> (r: bool) {
        self.id == other.id
    }
}

impl PartialEqSpecImpl for Series {
    open spec fn obeys_eq_spec() -> bool {
        true
    }

    open spec fn eq_spec(&self, other: &Self) -> bool {
        self.id@ == other.id@
    }
}

impl PartialEq for Season {
    fn eq(&self, other: &Self) -> (r: bool) {
        self.id == other.id
    }
}

impl PartialEqSpecImpl for Season {
    open spec fn obeys_eq_spec() -> bool {
        true
    }

    open spec fn eq_spec(&self, other: &Self) -> bool {
        self.id@ == other.id@
    }
}

impl PartialEq for Episode {
    fn eq(&self, other: &Self) -> (r: bool) {
        self.id == other.id
    }
}

impl PartialEqSpecImpl for Episode {
    open spec fn obeys_eq_spec() -> bool {
        true
    }

    open spec fn eq_spec(&self, other: &Self) -> bool {
        self.id@ == other.id@
    }
}

impl PartialEq for MovieListing {
    fn eq(&self, other: &Self) -> (r: bool) {
        self.id == other.id
    }
}

impl PartialEqSpecImpl for MovieListing {
    open spec fn obeys_eq_spec() -> bool {
        true
    }

    open spec fn eq_spec(&self, other: &Self) -> bool {
        self.id@ == other.id@
    }
}

impl PartialEq for Movie {
    fn eq(&self, other: &Self) -> (r: bool) {
        self.id == other.id
    }
}

impl PartialEqSpecImpl for Movie {
    open spec fn obeys_eq_spec() -> bool {
        true
    }

    open spec fn eq_spec(&self, other: &Self) -> bool {
        self.id@ == other.id@
    }
}

/// Any one of the kinds of media.
#[derive(Clone, Debug)]
pub enum MediaCollection {
    Series(Series),
    Season(Season),
    Episode(Episode),
    MovieListing(MovieListing),
    Movie(Movie),
}

impl MediaCollection {
    /// The identifier of the record, whatever its kind.
    pub open spec fn id(&self) -> Seq<char> {
        match self {
            MediaCollection::Series(series) => series.id@,
            MediaCollection::Season(season) => season.id@,
            MediaCollection::Episode(episode) => episode.id@,
            MediaCollection::MovieListing(movie_listing) => movie_listing.id@,
            MediaCollection::Movie(movie) => movie.id@,
        }
    }

    /// The kind of the record.
    pub open spec fn spec_kind(&self) -> MediaKind {
        match self {
            MediaCollection::Series(_) => MediaKind::Series,
            MediaCollection::Season(_) => MediaKind::Season,
            MediaCollection::Episode(_) => MediaKind::Episode,
            MediaCollection::MovieListing(_) => MediaKind::MovieListing,
            MediaCollection::Movie(_) => MediaKind::Movie,
        }
    }

    /// The kind of the record.
    #[verifier::when_used_as_spec(spec_kind)]
    pub fn kind(&self) -> (r: MediaKind)
        ensures
            r == self.spec_kind(),
    {
        match self {
            MediaCollection::Series(_) => MediaKind::Series,
            MediaCollection::Season(_) => MediaKind::Season,
            MediaCollection::Episode(_) => MediaKind::Episode,
            MediaCollection::MovieListing(_) => MediaKind::MovieListing,
            MediaCollection::Movie(_) => MediaKind::Movie,
        }
    }
}

impl PartialEq for MediaCollection {
    fn eq(&self, other: &Self) -> (r: bool) {
        match (self, other) {
            (MediaCollection::Series(a), MediaCollection::Series(b)) => a.id == b.id,
            (MediaCollection::Season(a), MediaCollection::Season(b)) => a.id == b.id,
            (MediaCollection::Episode(a), MediaCollection::Episode(b)) => a.id == b.id,
            (MediaCollection::MovieListing(a), MediaCollection::MovieListing(b)) => a.id == b.id,
            (MediaCollection::Movie(a), MediaCollection::Movie(b)) => a.id == b.id,
            _ => false,
        }
    }
}

impl PartialEqSpecImpl for MediaCollection {
    open spec fn obeys_eq_spec() -> bool {
        true
    }

    /// Two records are the same if they are of one kind and have one
    /// identifier.
    open spec fn eq_spec(&self, other: &Self) -> bool {
        self.spec_kind() == other.spec_kind() && self.id() == other.id()
    }
}

impl Default for MediaCollection {
    fn default() -> (r: MediaCollection)
        ensures
            r is Series,
            r->Series_0.is_blank(),
    {
        MediaCollection::Series(Series::default())
    }
}

impl From<Series> for MediaCollection {
    fn from(value: Series) -> (r: MediaCollection) {
        MediaCollection::Series(value)
    }
}

impl FromSpecImpl<Series> for MediaCollection {
    open spec fn obeys_from_spec() -> bool {
        true
    }

    open spec fn from_spec(value: Series) -> MediaCollection {
        MediaCollection::Series(value)
    }
}

impl From<Season> for MediaCollection {
    fn from(value: Season) -> (r: MediaCollection) {
        MediaCollection::Season(value)
    }
}

impl FromSpecImpl<Season> for MediaCollection {
    open spec fn obeys_from_spec() -> bool {
        true
    }

    open spec fn from_spec(value: Season) -> MediaCollection {
        MediaCollection::Season(value)
    }
}

impl From<Episode> for MediaCollection {
    fn from(value: Episode) -> (r: MediaCollection) {
        MediaCollection::Episode(value)
    }
}

impl FromSpecImpl<Episode> for MediaCollection {
    open spec fn obeys_from_spec() -> bool {
        true
    }

    open spec fn from_spec(value: Episode) -> MediaCollection {
        MediaCollection::Episode(value)
    }
}

impl From<MovieListing> for MediaCollection {
    fn from(value: MovieListing) -> (r: MediaCollection) {
        MediaCollection::MovieListing(value)
    }
}

impl FromSpecImpl<MovieListing> for MediaCollection {
    open spec fn obeys_from_spec() -> bool {
        true
    }

    open spec fn from_spec(value: MovieListing) -> MediaCollection {
        MediaCollection::MovieListing(value)
    }
}

impl From<Movie> for MediaCollection {
    fn from(value: Movie) -> (r: MediaCollection) {
        MediaCollection::Movie(value)
    }
}

impl FromSpecImpl<Movie> for MediaCollection {
    open spec fn obeys_from_spec() -> bool {
        true
    }

    open spec fn from_spec(value: Movie) -> MediaCollection {
        MediaCollection::Movie(value)
    }
}

/// What to ask of the list of similar titles.
#[derive(Clone, Copy, Debug)]
pub struct SimilarOptions {
    /// The number of results to return at most.
    pub limit: Option<u32>,
    /// The place in the list from which results are returned.
    pub start: Option<u32>,
}

impl Default for SimilarOptions {
    fn default() -> (r: SimilarOptions)
        ensures
            r.limit == Some(20u32),
            r.start is None,
    {
        SimilarOptions { limit: Some(20), start: None }
    }
}

impl SimilarOptions {
    /// The same options with another limit.
    pub fn limit(self, value: u32) -> (r: SimilarOptions)
        ensures
            r.limit == Some(value),
            r.start == self.start,
    {
        SimilarOptions { limit: Some(value), start: self.start }
    }

    /// The same options with another start.
    pub fn start(self, value: u32) -> (r: SimilarOptions)
        ensures
            r.limit == self.limit,
            r.start == Some(value),
    {
        SimilarOptions { limit: self.limit, start: Some(value) }
    }

    /// The parameters of the request: the record to compare with, then every
    /// option that says something.
    pub open spec fn spec_parameters(self, id: Seq<char>) -> Seq<QueryParameterView> {
        seq![QueryParameterView { name: "guid"@, value: id }] + (match self.limit {
            Some(limit) => seq![
                QueryParameterView { name: "n"@, value: decimal_text(limit as nat) },
            ],
            None => Seq::empty(),
        }) + (match self.start {
            Some(start) => seq![
                QueryParameterView { name: "start"@, value: decimal_text(start as nat) },
            ],
            None => Seq::empty(),
        })
    }

    /// The parameters of the request for titles similar to the record with
    /// the given identifier.
    pub fn parameters(&self, id: &str) -> (r: Vec<QueryParameter>)
        ensures
            views(r@) == self.spec_parameters(id@),
    {
        let mut out: Vec<QueryParameter> = Vec::new();
        out.push(QueryParameter::new("guid", id));
        match self.limit {
            Some(limit) => {
                out.push(QueryParameter::new("n", decimal(limit as u64).as_str()));
            },
            None => {},
        }
        match self.start {
            Some(start) => {
                out.push(QueryParameter::new("start", decimal(start as u64).as_str()));
            },
            None => {},
        }
        assert(views(out@) =~= self.spec_parameters(id@));
        out
    }
}

/// An episode or movie next to another, with how far it was watched.
#[derive(Clone, Debug, Default)]
pub struct RelatedMedia<T> {
    pub fully_watched: bool,
    pub playhead: u32,
    pub media: T,
}

/// How far an episode or movie was watched.
#[derive(Clone, Debug, Default)]
pub struct PlayheadInformation {
    pub playhead: u32,
    pub content_id: String,
    pub fully_watched: bool,
    pub last_modified: i64,
}

} // verus!
