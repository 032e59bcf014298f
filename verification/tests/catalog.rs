use crunchyroll_rs::categories::{Category, TenantCategory, TenantCategoryOptions};
use crunchyroll_rs::common::{concatenate, BulkResult, Image, Locale, V2BulkResult};
use crunchyroll_rs::error::Error;
use crunchyroll_rs::json::Json;
use crunchyroll_rs::media::{
    preferred_audio_query, Episode, MediaCollection, Movie, MovieListing, PosterImages,
    SearchMetadata, Season,
    Series, SimilarOptions, ThumbnailImages,
};
use crunchyroll_rs::resolver::{classify_media, flatten, flatten_panel, resolve_media, MediaKind};
use crunchyroll_rs::search::{
    QueryBulkResult, QueryOptions, QueryResults, QueryResultsBulkResult, QueryType,
};

fn parse(text: &str) -> Json {
    Json::parse(text.as_bytes()).unwrap()
}

fn shown(value: &Json) -> String {
    format!("{:?}", value)
}

fn image(source: &str) -> Image {
    Image { source: source.to_string(), image_type: "poster".to_string(), height: 1, width: 2 }
}

fn series(id: &str) -> Series {
    let mut series = Series::default();
    series.id = id.to_string();
    series
}

fn group(result_type: &str, ids: &[&str], total: u32) -> QueryBulkResult {
    QueryBulkResult {
        result_type: result_type.to_string(),
        items: ids.iter().map(|id| MediaCollection::Series(series(id))).collect(),
        total,
    }
}

fn decode_message(error: Error) -> String {
    match error {
        Error::Decode(context) => {
            assert!(context.url.is_none());
            assert!(context.value.is_none());
            context.message
        }
        other => panic!("not a decode error: {:?}", other),
    }
}

#[test]
fn each_kind_is_known_by_its_wrapper() {
    for (key, kind) in [
        ("series_metadata", MediaKind::Series),
        ("season_metadata", MediaKind::Season),
        ("episode_metadata", MediaKind::Episode),
        ("movie_listing_metadata", MediaKind::MovieListing),
        ("movie_metadata", MediaKind::Movie),
    ] {
        let document = parse(&format!("{{\"id\": \"G1\", \"{}\": {{\"x\": 1}}}}", key));
        assert_eq!(classify_media(&document), Some(kind));
        let found = resolve_media(&document).unwrap();
        assert_eq!(found.kind, kind);
        assert_eq!(shown(&found.document), shown(&parse("{\"id\": \"G1\", \"x\": 1}")));
    }
}

#[test]
fn each_kind_is_known_by_its_direct_key() {
    for (key, kind) in [
        ("series_launch_year", MediaKind::Series),
        ("number_of_episodes", MediaKind::Season),
        ("sequence_number", MediaKind::Episode),
        ("movie_release_year", MediaKind::MovieListing),
        ("movie_listing_title", MediaKind::Movie),
    ] {
        let text = format!("{{\"id\": \"G1\", \"{}\": 3}}", key);
        let found = resolve_media(&parse(&text)).unwrap();
        assert_eq!(found.kind, kind);
        assert_eq!(shown(&found.document), shown(&parse(&text)));
    }
}

#[test]
fn kinds_are_asked_in_order() {
    let all = parse(
        "{\"movie_listing_title\": 1, \"movie_release_year\": 1, \"sequence_number\": 1, \
         \"number_of_episodes\": 1, \"series_launch_year\": 1}",
    );
    assert_eq!(classify_media(&all), Some(MediaKind::Series));
    let from_season = parse(
        "{\"movie_metadata\": {}, \"movie_listing_metadata\": {}, \"episode_metadata\": {}, \
         \"season_metadata\": {}}",
    );
    assert_eq!(classify_media(&from_season), Some(MediaKind::Season));
    let from_episode = parse("{\"movie_metadata\": {}, \"movie_release_year\": 1, \"sequence_number\": 1}");
    assert_eq!(classify_media(&from_episode), Some(MediaKind::Episode));
    let from_listing = parse("{\"movie_listing_title\": \"t\", \"movie_listing_metadata\": {}}");
    assert_eq!(classify_media(&from_listing), Some(MediaKind::MovieListing));
}

#[test]
fn unknown_object_is_refused() {
    for text in ["{}", "{\"id\": \"G1\", \"title\": \"t\"}", "[]", "\"series_metadata\"", "null"] {
        assert_eq!(classify_media(&parse(text)), None);
        let message = decode_message(resolve_media(&parse(text)).unwrap_err());
        assert_eq!(message, "could not classify media object");
    }
}

#[test]
fn wrapper_members_are_merged_and_win() {
    let document = parse(
        "{\"id\": \"outer\", \"title\": \"t\", \"episode_metadata\": {\"id\": \"inner\", \
         \"sequence_number\": 2}}",
    );
    let found = resolve_media(&document).unwrap();
    assert_eq!(found.kind, MediaKind::Episode);
    assert_eq!(found.document.get_str("id"), Some("inner"));
    assert_eq!(found.document.get_str("title"), Some("t"));
    assert!(found.document.contains_key("sequence_number"));
    assert!(!found.document.contains_key("episode_metadata"));
}

#[test]
fn wrapper_that_is_no_object_stays() {
    let document = parse("{\"id\": \"G1\", \"series_metadata\": 5}");
    let found = resolve_media(&document).unwrap();
    assert_eq!(found.kind, MediaKind::Series);
    assert_eq!(shown(&found.document), shown(&document));
}

#[test]
fn only_the_wrapper_of_the_kind_is_merged() {
    let document =
        parse("{\"series_launch_year\": 2001, \"season_metadata\": {\"number_of_episodes\": 3}}");
    let found = resolve_media(&document).unwrap();
    assert_eq!(found.kind, MediaKind::Series);
    assert_eq!(shown(&found.document), shown(&document));
}

#[test]
fn flatten_leaves_other_values_alone() {
    assert_eq!(shown(&flatten(&parse("[1]"), "k")), shown(&parse("[1]")));
    assert_eq!(shown(&flatten(&parse("{\"a\": 1}"), "k")), shown(&parse("{\"a\": 1}")));
    assert_eq!(
        shown(&flatten(&parse("{\"a\": 1, \"k\": {\"b\": 2}, \"c\": 3}"), "k")),
        shown(&Json::Object(vec![
            crunchyroll_rs::json::Member { key: "a".to_string(), value: Json::Number("1".to_string()) },
            crunchyroll_rs::json::Member { key: "c".to_string(), value: Json::Number("3".to_string()) },
            crunchyroll_rs::json::Member { key: "b".to_string(), value: Json::Number("2".to_string()) },
        ]))
    );
}

#[test]
fn keys_of_the_kinds() {
    assert_eq!(MediaKind::Series.wrapper_key(), "series_metadata");
    assert_eq!(MediaKind::Movie.wrapper_key(), "movie_metadata");
    assert_eq!(MediaKind::Season.marker_key(), "number_of_episodes");
    assert_eq!(MediaKind::MovieListing.marker_key(), "movie_release_year");
    assert!(MediaKind::Episode.matches(&parse("{\"sequence_number\": 1.5}")));
    assert!(!MediaKind::Episode.matches(&parse("{\"season_metadata\": {}}")));
}

#[test]
fn nested_images_are_put_in_one_list() {
    let lists = vec![vec![image("a"), image("b")], vec![], vec![image("c")]];
    let sources: Vec<String> = concatenate(lists).into_iter().map(|i| i.source).collect();
    assert_eq!(sources, vec!["a", "b", "c"]);
    assert!(concatenate::<Image>(vec![]).is_empty());
}

#[test]
fn thumbnails_from_the_wire() {
    let thumbnails = ThumbnailImages::from_nested(Some(vec![vec![image("a")], vec![image("b")]]));
    assert_eq!(thumbnails.thumbnail.len(), 2);
    assert_eq!(thumbnails.thumbnail[1].source, "b");
    assert!(ThumbnailImages::from_nested(None).thumbnail.is_empty());
}

#[test]
fn posters_from_the_wire() {
    let posters = PosterImages::from_nested(None, Some(vec![vec![image("w1"), image("w2")]]));
    assert!(posters.poster_tall.is_empty());
    assert_eq!(posters.poster_wide.len(), 2);
    assert_eq!(posters.poster_wide[0].source, "w1");
    let both = PosterImages::from_nested(Some(vec![vec![image("t")]]), Some(vec![]));
    assert_eq!(both.poster_tall.len(), 1);
    assert!(both.poster_wide.is_empty());
}

#[test]
fn records_are_the_same_by_identifier() {
    let mut other = series("G1");
    other.title = "another title".to_string();
    assert!(series("G1") == other);
    assert!(series("G1") != series("G2"));
    let mut season = Season::default();
    season.id = "G1".to_string();
    assert!(MediaCollection::Series(series("G1")) == MediaCollection::Series(other));
    assert!(MediaCollection::Series(series("G1")) != MediaCollection::Season(season));
    assert!(Episode::default() == Episode::default());
    assert!(Movie::default() == Movie::default());
    assert!(MovieListing::default() == MovieListing::default());
}

#[test]
fn default_collection_is_a_blank_series() {
    match MediaCollection::default() {
        MediaCollection::Series(series) => {
            assert_eq!(series.id, "");
            assert_eq!(series.episode_count, 0);
            assert!(series.series_launch_year.is_none());
            assert!(series.images.poster_tall.is_empty());
            assert!(!series.is_mature);
        }
        other => panic!("not a series: {:?}", other),
    }
}

#[test]
fn collection_knows_its_kind() {
    assert_eq!(MediaCollection::from(series("G1")).kind(), MediaKind::Series);
    assert_eq!(MediaCollection::from(Season::default()).kind(), MediaKind::Season);
    assert_eq!(MediaCollection::from(Episode::default()).kind(), MediaKind::Episode);
    assert_eq!(MediaCollection::from(MovieListing::default()).kind(), MediaKind::MovieListing);
    assert_eq!(MediaCollection::from(Movie::default()).kind(), MediaKind::Movie);
}

#[test]
fn addresses_of_related_records() {
    assert_eq!(
        series("GY8VEQ95Y").seasons_endpoint(),
        "https://www.crunchyroll.com/content/v2/cms/series/GY8VEQ95Y/seasons"
    );
    let mut season = Season::default();
    season.id = "S1".to_string();
    season.series_id = "G1".to_string();
    assert_eq!(season.series_endpoint(), "https://www.crunchyroll.com/content/v2/cms/series/G1");
    assert_eq!(
        season.episodes_endpoint(),
        "https://www.crunchyroll.com/content/v2/cms/seasons/S1/episodes"
    );
    let mut episode = Episode::default();
    episode.series_id = "G1".to_string();
    episode.season_id = "S1".to_string();
    assert_eq!(episode.series_endpoint(), "https://www.crunchyroll.com/content/v2/cms/series/G1");
    assert_eq!(episode.season_endpoint(), "https://www.crunchyroll.com/content/v2/cms/seasons/S1");
    let mut listing = MovieListing::default();
    listing.id = "L1".to_string();
    assert_eq!(
        listing.movies_endpoint(),
        "https://www.crunchyroll.com/content/v2/cms/movie_listings/L1/movies"
    );
    let mut movie = Movie::default();
    movie.movie_listing_id = "L1".to_string();
    assert_eq!(
        movie.movie_listing_endpoint(),
        "https://www.crunchyroll.com/content/v2/cms/movie_listings/L1"
    );
}

#[test]
fn premium_records_need_a_premium_account() {
    let mut episode = Episode::default();
    assert!(episode.available(false));
    episode.is_premium_only = true;
    assert!(!episode.available(false));
    assert!(episode.available(true));
    let mut movie = Movie::default();
    movie.is_premium_only = true;
    assert!(!movie.available(false));
    assert!(movie.available(true));
}

#[test]
fn preferred_audio_is_asked_by_name_and_tag() {
    let locale = Locale { tag: "ja-JP".to_string() };
    assert_eq!(preferred_audio_query(Some(&locale)), vec!["preferred_audio_language", "ja-JP"]);
    assert!(preferred_audio_query(None).is_empty());
}

#[test]
fn first_record_of_a_page() {
    let page = V2BulkResult { data: vec![series("G1"), series("G2")], total: 2 };
    assert_eq!(page.into_first().id, "G1");
    let page = V2BulkResult { data: vec![series("G3")], total: 1 };
    assert_eq!(page.first().map(|s| s.id), Some("G3".to_string()));
    let empty: V2BulkResult<Series> = V2BulkResult { data: vec![], total: 0 };
    assert!(empty.first().is_none());
}

#[test]
fn categories_by_name() {
    for (name, shown) in [
        ("action", "Action"),
        ("adventure", "Adventure"),
        ("comedy", "Comedy"),
        ("drama", "Drama"),
        ("fantasy", "Fantasy"),
        ("music", "Music"),
        ("romance", "Romance"),
        ("sci-fi", "SciFi"),
        ("seinen", "Seinen"),
        ("shojo", "Shojo"),
        ("shonen", "Shonen"),
        ("slice-of-life", "SliceOfLife"),
        ("sports", "Sports"),
        ("supernatural", "Supernatural"),
        ("thriller", "Thriller"),
        ("isekai", "Custom(\"isekai\")"),
        ("Action", "Custom(\"Action\")"),
        ("", "Custom(\"\")"),
    ] {
        let category = Category::from_name(name);
        assert_eq!(format!("{:?}", category), shown);
        assert_eq!(category.name(), name);
    }
}

#[test]
fn category_of_a_tenant_category() {
    let mut tenant = TenantCategory::default();
    tenant.category = "sci-fi".to_string();
    assert!(matches!(Category::from_tenant_category(&tenant), Category::SciFi));
    tenant.category = "mecha".to_string();
    assert!(matches!(Category::from_tenant_category(&tenant), Category::Custom(name) if name == "mecha"));
}

#[test]
fn query_results_are_sorted_by_type() {
    let groups = QueryResultsBulkResult {
        items: vec![
            group("episode", &["E1"], 10),
            group("series", &["old"], 1),
            group("top_results", &["T1", "T2"], 7),
            group("movie_listing", &[], 0),
            group("series", &["S1"], 3),
        ],
    };
    let results = QueryResults::try_from(groups).unwrap();
    assert_eq!(results.top_results.total, 7);
    assert_eq!(results.top_results.items.len(), 2);
    assert_eq!(results.series.total, 3);
    assert!(results.series.items[0] == MediaCollection::Series(series("S1")));
    assert_eq!(results.movie_listing.total, 0);
    assert!(results.movie_listing.items.is_empty());
    assert_eq!(results.episode.total, 10);
}

#[test]
fn query_results_refuse_an_unknown_type() {
    let groups = QueryResultsBulkResult {
        items: vec![group("series", &[], 0), group("music", &[], 0), group("games", &[], 0)],
    };
    assert_eq!(
        decode_message(QueryResults::try_from(groups).unwrap_err()),
        "invalid result type found: 'music'"
    );
}

#[test]
fn query_results_need_every_type() {
    let all = ["top_results", "series", "movie_listing", "episode"];
    let messages = [
        "could not find 'top_result' type",
        "could not find 'series' type",
        "could not find 'movie_listing' type",
        "could not find 'episode' type",
    ];
    for missing in 0..4 {
        let items = all
            .iter()
            .enumerate()
            .filter(|(i, _)| *i != missing)
            .map(|(_, name)| group(name, &[], 0))
            .collect();
        let error = QueryResults::try_from(QueryResultsBulkResult { items }).unwrap_err();
        assert_eq!(decode_message(error), messages[missing]);
    }
    let none = QueryResults::try_from(QueryResultsBulkResult { items: vec![] }).unwrap_err();
    assert_eq!(decode_message(none), "could not find 'top_result' type");
}

#[test]
fn query_options_start_at_twenty_results() {
    let options = QueryOptions::default();
    assert_eq!(options.limit, 20);
    assert!(options.result_type.is_none());
    let changed = options.limit(5).result_type(Some(QueryType::MovieListing));
    assert_eq!(changed.limit, 5);
    assert_eq!(changed.result_type, Some(QueryType::MovieListing));
    assert_eq!(changed.limit(6).result_type, Some(QueryType::MovieListing));
}

#[test]
fn query_parameters_in_order() {
    let locale = Locale { tag: "en-US".to_string() };
    let pairs = |options: QueryOptions| -> Vec<(String, String)> {
        options.parameters("one piece", &locale).into_iter().map(|p| (p.name, p.value)).collect()
    };
    assert_eq!(
        pairs(QueryOptions::default()),
        vec![
            ("q".to_string(), "one piece".to_string()),
            ("n".to_string(), "20".to_string()),
            ("type".to_string(), "".to_string()),
            ("locale".to_string(), "en-US".to_string()),
        ]
    );
    let listed = QueryOptions::default().limit(100).result_type(Some(QueryType::MovieListing));
    assert_eq!(pairs(listed)[1].1, "100");
    assert_eq!(pairs(listed)[2].1, "movielisting");
    assert_eq!(QueryType::Series.name(), "series");
    assert_eq!(QueryType::Episode.name(), "episode");
}

#[test]
fn bulk_result_holds_a_page() {
    let page = BulkResult { items: vec![1u8, 2, 3], total: 30 };
    assert_eq!(page.items.len(), 3);
    assert_eq!(page.total, 30);
}

#[test]
fn panel_takes_in_its_episode_wrapper() {
    let panel = parse("{\"id\": \"E1\", \"episode_metadata\": {\"season_id\": \"S1\"}}");
    assert_eq!(
        shown(&flatten_panel(&panel)),
        shown(&parse("{\"id\": \"E1\", \"season_id\": \"S1\"}"))
    );
    let plain = parse("{\"id\": \"M1\", \"movie_metadata\": {\"x\": 1}}");
    assert_eq!(shown(&flatten_panel(&plain)), shown(&plain));
}

#[test]
fn empty_object_is_told_apart() {
    assert!(parse("{}").is_empty_object());
    assert!(!parse("{\"a\": 1}").is_empty_object());
    assert!(!parse("[]").is_empty_object());
    assert!(!parse("null").is_empty_object());
}

#[test]
fn tenant_category_options_ask_without_subcategories() {
    let locale = Locale { tag: "de-DE".to_string() };
    let pairs = |options: TenantCategoryOptions| -> Vec<(String, String)> {
        options.parameters(&locale).into_iter().map(|p| (p.name, p.value)).collect()
    };
    assert_eq!(
        pairs(TenantCategoryOptions::default()),
        vec![
            ("include_subcategories".to_string(), "false".to_string()),
            ("locale".to_string(), "de-DE".to_string()),
        ]
    );
    assert_eq!(
        pairs(TenantCategoryOptions::default().include_subcategories(true))[0].1,
        "true"
    );
    assert_eq!(
        pairs(TenantCategoryOptions { include_subcategories: None }),
        vec![("locale".to_string(), "de-DE".to_string())]
    );
}

#[test]
fn similar_options_ask_for_twenty() {
    let pairs = |options: SimilarOptions| -> Vec<(String, String)> {
        options.parameters("G1").into_iter().map(|p| (p.name, p.value)).collect()
    };
    assert_eq!(
        pairs(SimilarOptions::default()),
        vec![("guid".to_string(), "G1".to_string()), ("n".to_string(), "20".to_string())]
    );
    assert_eq!(
        pairs(SimilarOptions::default().limit(5).start(40)),
        vec![
            ("guid".to_string(), "G1".to_string()),
            ("n".to_string(), "5".to_string()),
            ("start".to_string(), "40".to_string()),
        ]
    );
    assert_eq!(
        pairs(SimilarOptions { limit: None, start: None }),
        vec![("guid".to_string(), "G1".to_string())]
    );
}

#[test]
fn numbers_kept_as_text_start_at_zero() {
    let metadata = SearchMetadata::default();
    assert_eq!(metadata.score, "0");
    assert!(metadata.popularity_score.is_none());
    assert!(metadata.rank.is_none());
    assert!(metadata.last_public.is_none());
    let episode = Episode::default();
    assert_eq!(episode.sequence_number, "0");
    assert_eq!(episode.id, "");
    assert_eq!(episode.duration, 0);
    assert_eq!(episode.episode_air_date, 0);
    assert!(episode.versions.is_empty());
}
