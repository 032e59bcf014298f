//! Searching the catalog: the options of a query and its sorted results.

use crate::common::BulkResult;
use crate::common::Locale;
use crate::common::QueryParameter;
use crate::error::Error;
use crate::error::ErrorContext;
use crate::error::ErrorContextView;
use crate::error::ErrorView;
use crate::media::MediaCollection;
use crate::text::decimal;
use crate::text::decimal_text;
use crate::text::same_text;
use vstd::prelude::*;
use vstd::string::StringExecFns;

verus! {

/// One group of results as the service sends it, under the name of its type.
#[derive(Clone, Debug)]
pub struct QueryBulkResult {
    pub result_type: String,
    pub items: Vec<MediaCollection>,
    pub total: u32,
}

/// The groups of results of one query as the service sends them.
#[derive(Clone, Debug)]
pub struct QueryResultsBulkResult {
    pub items: Vec<QueryBulkResult>,
}

/// The results of a query, sorted by type.
#[derive(Clone, Debug)]
pub struct QueryResults {
    pub top_results: BulkResult<MediaCollection>,
    pub series: BulkResult<MediaCollection>,
    pub movie_listing: BulkResult<MediaCollection>,
    pub episode: BulkResult<MediaCollection>,
}

/// The names of the four types of results.
pub open spec fn is_result_type(name: Seq<char>) -> bool {
    name == "top_results"@ || name == "series"@ || name == "movie_listing"@ || name == "episode"@
}

/// The name of the first group whose type is none of the four.
pub open spec fn first_unknown_type(groups: Seq<QueryBulkResult>) -> Option<Seq<char>>
    decreases groups.len(),
{
    if groups.len() == 0 {
        None
    } else if !is_result_type(groups[0].result_type@) {
        Some(groups[0].result_type@)
    } else {
        first_unknown_type(groups.drop_first())
    }
}

/// The results of the last group of the given type.
pub open spec fn last_of_type(groups: Seq<QueryBulkResult>, name: Seq<char>) -> Option<
    BulkResult<MediaCollection>,
>
    decreases groups.len(),
{
    if groups.len() == 0 {
        None
    } else if groups.last().result_type@ == name {
        Some(BulkResult { items: groups.last().items, total: groups.last().total })
    } else {
        last_of_type(groups.drop_last(), name)
    }
}

/// Why the groups do not make up the results of a query, if they do not:
/// the first group of an unknown type, else the first type, in the order top
/// results, series, movie listing, episode, that no group has.
pub open spec fn query_failure(groups: Seq<QueryBulkResult>) -> Option<Seq<char>> {
    if first_unknown_type(groups) is Some {
        Some("invalid result type found: '"@ + first_unknown_type(groups)->Some_0 + "'"@)
    } else if last_of_type(groups, "top_results"@) is None {
        Some("could not find 'top_result' type"@)
    } else if last_of_type(groups, "series"@) is None {
        Some("could not find 'series' type"@)
    } else if last_of_type(groups, "movie_listing"@) is None {
        Some("could not find 'movie_listing' type"@)
    } else if last_of_type(groups, "episode"@) is None {
        Some("could not find 'episode' type"@)
    } else {
        None
    }
}

/// The decode error with the given message and nothing else.
pub open spec fn decode_error_with(message: Seq<char>) -> ErrorView {
    ErrorView::Decode(ErrorContextView { message, url: None, value: None, extra: None })
}

impl QueryResults {
    /// Sorts the groups of a query by type. Each of the four types must be
    /// there and no other; of two groups of one type the later counts.
    pub fn try_from(value: QueryResultsBulkResult) -> (r: Result<QueryResults, Error>)
        ensures
            match r {
                Ok(results) => {
                    &&& query_failure(value.items@) is None
                    &&& Some(results.top_results) == last_of_type(value.items@, "top_results"@)
                    &&& Some(results.series) == last_of_type(value.items@, "series"@)
                    &&& Some(results.movie_listing) == last_of_type(
                        value.items@,
                        "movie_listing"@,
                    )
                    &&& Some(results.episode) == last_of_type(value.items@, "episode"@)
                },
                Err(error) => {
                    &&& query_failure(value.items@) is Some
                    &&& error@ == decode_error_with(query_failure(value.items@)->Some_0)
                },
            },
    {
        let ghost all = value.items@;
        let mut rest = value.items;
        let mut top_results: Option<BulkResult<MediaCollection>> = None;
        let mut series: Option<BulkResult<MediaCollection>> = None;
        let mut movie_listing: Option<BulkResult<MediaCollection>> = None;
        let mut episode: Option<BulkResult<MediaCollection>> = None;
        let ghost mut seen: int = 0;
        proof {
            reveal_strlit("top_results");
            reveal_strlit("series");
            reveal_strlit("movie_listing");
            reveal_strlit("episode");
            assert("top_results"@.len() == 11);
            assert("series"@.len() == 6);
            assert("movie_listing"@.len() == 13);
            assert("episode"@.len() == 7);
            assert(all.skip(0) =~= all);
        }
        while rest.len() > 0
            invariant
                0 <= seen <= all.len(),
                all == value.items@,
                rest@ == all.skip(seen),
                first_unknown_type(all) == first_unknown_type(rest@),
                top_results == last_of_type(all.take(seen), "top_results"@),
                series == last_of_type(all.take(seen), "series"@),
                movie_listing == last_of_type(all.take(seen), "movie_listing"@),
                episode == last_of_type(all.take(seen), "episode"@),
                "top_results"@ != "series"@,
                "top_results"@ != "movie_listing"@,
                "top_results"@ != "episode"@,
                "series"@ != "movie_listing"@,
                "series"@ != "episode"@,
                "movie_listing"@ != "episode"@,
            decreases rest.len(),
        {
            let ghost before = rest@;
            let group = rest.remove(0);
            proof {
                assert(rest@ =~= before.drop_first());
                assert(rest@ =~= all.skip(seen + 1));
                assert(group == all[seen]);
                assert(all.take(seen + 1).drop_last() =~= all.take(seen));
                assert(all.take(seen + 1).last() == group);
            }
            let QueryBulkResult { result_type, items, total } = group;
            let result = BulkResult { items, total };
            if same_text(result_type.as_str(), "top_results") {
                top_results = Some(result);
            } else if same_text(result_type.as_str(), "series") {
                series = Some(result);
            } else if same_text(result_type.as_str(), "movie_listing") {
                movie_listing = Some(result);
            } else if same_text(result_type.as_str(), "episode") {
                episode = Some(result);
            } else {
                let mut message = String::from_str("invalid result type found: '");
                message.append(result_type.as_str());
                message.append("'");
                proof {
                    assert(!is_result_type(before[0].result_type@));
                    assert(first_unknown_type(all) == Some(result_type@));
                    assert(message@ =~= query_failure(all)->Some_0);
                }
                return Err(Error::Decode(ErrorContext::new(message.as_str())));
            }
            proof {
                seen = seen + 1;
            }
        }
        proof {
            assert(all.take(seen) =~= all);
        }
        let top_results = match top_results {
            Some(found) => found,
            None => {
                return Err(
                    Error::Decode(ErrorContext::new("could not find 'top_result' type")),
                );
            },
        };
        let series = match series {
            Some(found) => found,
            None => {
                return Err(Error::Decode(ErrorContext::new("could not find 'series' type")));
            },
        };
        let movie_listing = match movie_listing {
            Some(found) => found,
            None => {
                return Err(
                    Error::Decode(ErrorContext::new("could not find 'movie_listing' type")),
                );
            },
        };
        let episode = match episode {
            Some(found) => found,
            None => {
                return Err(Error::Decode(ErrorContext::new("could not find 'episode' type")));
            },
        };
        Ok(QueryResults { top_results, series, movie_listing, episode })
    }
}

/// The type of results that a query asks for.
#[derive(Clone, Copy, Debug, PartialEq, Eq, Structural)]
pub enum QueryType {
    Series,
    MovieListing,
    Episode,
}

impl QueryType {
    /// The name of the type in a query.
    pub open spec fn spec_name(self) -> Seq<char> {
        match self {
            QueryType::Series => "series"@,
            QueryType::MovieListing => "movielisting"@,
            QueryType::Episode => "episode"@,
        }
    }

    /// The name of the type in a query.
    pub fn name(self) -> (r: &'static str)
        ensures
            r@ == self.spec_name(),
    {
        match self {
            QueryType::Series => "series",
            QueryType::MovieListing => "movielisting",
            QueryType::Episode => "episode",
        }
    }
}

/// The options of a query.
#[derive(Clone, Copy, Debug)]
pub struct QueryOptions {
    /// The number of results to return at most.
    pub limit: u32,
    /// The type to search for; every type where none is given.
    pub result_type: Option<QueryType>,
}

impl Default for QueryOptions {
    fn default() -> (r: QueryOptions)
        ensures
            r.limit == 20,
            r.result_type is None,
    {
        QueryOptions { limit: 20, result_type: None }
    }
}

impl QueryOptions {
    /// The same options with another limit.
    pub fn limit(self, value: u32) -> (r: QueryOptions)
        ensures
            r.limit == value,
            r.result_type == self.result_type,
    {
        QueryOptions { limit: value, result_type: self.result_type }
    }

    /// The same options with another type of results.
    pub fn result_type(self, value: Option<QueryType>) -> (r: QueryOptions)
        ensures
            r.limit == self.limit,
            r.result_type == value,
    {
        QueryOptions { limit: self.limit, result_type: value }
    }

    /// The text of the `type` parameter: the name of the type, or nothing.
    pub open spec fn type_text(self) -> Seq<char> {
        match self.result_type {
            Some(result_type) => result_type.spec_name(),
            None => Seq::empty(),
        }
    }

    /// The parameters of the request for a query: what to search for, how
    /// many results, of which type, and in which language.
    pub fn parameters(&self, query: &str, locale: &Locale) -> (r: Vec<QueryParameter>)
        ensures
            r@.len() == 4,
            r@[0].name@ == "q"@ && r@[0].value@ == query@,
            r@[1].name@ == "n"@ && r@[1].value@ == decimal_text(self.limit as nat),
            r@[2].name@ == "type"@ && r@[2].value@ == self.type_text(),
            r@[3].name@ == "locale"@ && r@[3].value@ == locale.tag@,
    {
        let type_text = match self.result_type {
            Some(result_type) => String::from_str(result_type.name()),
            None => String::new(),
        };
        let mut out: Vec<QueryParameter> = Vec::new();
        out.push(QueryParameter { name: String::from_str("q"), value: String::from_str(query) });
        out.push(QueryParameter { name: String::from_str("n"), value: decimal(self.limit as u64) });
        out.push(QueryParameter { name: String::from_str("type"), value: type_text });
        out.push(QueryParameter { name: String::from_str("locale"), value: locale.tag.clone() });
        out
    }
}

} // verus!
