//! Response decoding and error classification for a video-catalog client.
//!
//! A raw HTTP response is classified by its status, its body is parsed as
//! JSON and searched for an error envelope, and only a document that passed
//! is decoded into a record. Every failure on the way is one [`Error`].

pub mod categories;
pub mod common;
pub mod envelope;
pub mod error;
pub mod json;
pub mod media;
pub mod resolver;
pub mod response;
pub mod search;
pub mod text;

pub use categories::Category;
pub use categories::SubTenantCategory;
pub use categories::TenantCategory;
pub use categories::TenantCategoryImages;
pub use categories::TenantCategoryLocalization;
pub use common::BulkResult;
pub use common::Image;
pub use common::Locale;
pub use common::V2BulkResult;
pub use envelope::is_request_error;
pub use error::Error;
pub use error::ErrorContext;
pub use json::Json;
pub use media::Episode;
pub use media::EpisodeVersion;
pub use media::MediaCollection;
pub use media::Movie;
pub use media::MovieListing;
pub use media::MovieListingVersion;
pub use media::PlayheadInformation;
pub use media::PosterImages;
pub use media::RelatedMedia;
pub use media::SearchMetadata;
pub use media::Season;
pub use media::SeasonVersion;
pub use media::Series;
pub use media::ThumbnailImages;
pub use resolver::resolve_media;
pub use resolver::MediaKind;
pub use response::check_request;
pub use response::classify;
pub use response::RawResponse;
pub use search::QueryOptions;
pub use search::QueryResults;
pub use search::QueryType;
