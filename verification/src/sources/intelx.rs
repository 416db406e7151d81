//! The adapter for Intelligence X's phonebook search.
//!
//! This source wants credentials and two exchanges. The first submits a
//! query and is answered with the identifier of a search; the second asks
//! for the results of the search with that identifier. The adapter is a
//! sequence of two states, [`AwaitingSessionId`] and [`FetchingResults`]:
//! the address of the second exchange comes only out of the first state, and
//! only together with the second.

use crate::error::{transport_error_of, Error, ErrorView, TransportFailure, TransportFailureView};
use crate::sources::{conclude, concluded, fetched_view, outcome_view, OutcomeView};
use crate::subdomain::{lemma_names_among_step, names_among, IntoSubdomain, SubdomainSet};
use vstd::prelude::*;
use vstd::string::*;

verus! {

/// The name under which this source appears in errors.
pub open spec fn source_name() -> Seq<char> {
    "Intelx"@
}

/// The names of the variables that hold the credentials: first that of the
/// service's host, then that of the key.
pub open spec fn credential_names() -> Seq<Seq<char>> {
    seq!["INTELX_URL"@, "INTELX_KEY"@]
}

/// The characters of a string that may be absent.
pub open spec fn text_of(value: Option<String>) -> Option<Seq<char>> {
    match value {
        Some(text) => Some(text@),
        None => None,
    }
}

/// The credentials of the service: the host that serves it and the key.
#[derive(Debug)]
pub struct Creds {
    pub url: String,
    pub api_key: String,
}

/// Mathematical view of [`Creds`].
pub struct CredsView {
    pub url: Seq<char>,
    pub api_key: Seq<char>,
}

impl View for Creds {
    type V = CredsView;

    open spec fn view(&self) -> CredsView {
        CredsView { url: self.url@, api_key: self.api_key@ }
    }
}

/// The credentials that the two configured values give: both are needed,
/// and where one is absent the error names both variables.
pub open spec fn creds_of(url: Option<Seq<char>>, api_key: Option<Seq<char>>) -> Result<
    CredsView,
    ErrorView,
> {
    if url is Some && api_key is Some {
        Ok(CredsView { url: url->0, api_key: api_key->0 })
    } else {
        Err(ErrorView::KeyError { source: source_name(), env_variable_names: credential_names() })
    }
}

impl Creds {
    /// Makes the credentials out of what the configuration holds for the
    /// service's host and for the key.
    pub fn read_creds(url: Option<String>, api_key: Option<String>) -> (creds: Result<
        Creds,
        Error,
    >)
        ensures
            match creds {
                Ok(c) => creds_of(text_of(url), text_of(api_key)) == Ok::<CredsView, ErrorView>(
                    c@,
                ),
                Err(e) => creds_of(text_of(url), text_of(api_key)) == Err::<CredsView, ErrorView>(
                    e@,
                ),
            },
    {
        match (url, api_key) {
            (Some(url), Some(api_key)) => Ok(Creds { url, api_key }),
            _ => {
                let names: [&str; 2] = ["INTELX_URL", "INTELX_KEY"];
                let e = Error::key_error("Intelx", names.as_slice());
                proof {
                    assert(names@.map_values(|name: &str| name@) =~= credential_names());
                }
                Err(e)
            },
        }
    }
}

/// The identifier of a search, as the first exchange is answered.
#[derive(Debug)]
pub struct SearchId {
    pub id: String,
}

/// The query that the first exchange submits.
#[derive(Debug)]
pub struct Query {
    pub term: String,
    pub maxresults: i32,
    pub media: usize,
    pub target: usize,
    pub timeout: i32,
}

/// Mathematical view of a [`Query`].
pub struct QueryView {
    pub term: Seq<char>,
    pub maxresults: int,
    pub media: nat,
    pub target: nat,
    pub timeout: int,
}

impl View for Query {
    type V = QueryView;

    open spec fn view(&self) -> QueryView {
        QueryView {
            term: self.term@,
            maxresults: self.maxresults as int,
            media: self.media as nat,
            target: self.target as nat,
            timeout: self.timeout as int,
        }
    }
}

/// The query for `term`: up to 100000 results, of any medium, among
/// domains, within 20 seconds.
pub open spec fn query_for(term: Seq<char>) -> QueryView {
    QueryView { term, maxresults: 100000, media: 0, target: 1, timeout: 20 }
}

impl Query {
    /// The query for `term`.
    pub fn new(term: String) -> (query: Query)
        ensures
            query@ == query_for(term@),
    {
        Query { term, maxresults: 100000, media: 0, target: 1, timeout: 20 }
    }
}

/// One selector of a search's results.
#[derive(Debug)]
pub struct IntelxItem {
    pub selectorvalue: String,
}

/// The results of a search.
#[derive(Debug)]
pub struct IntelxResults {
    pub selectors: Vec<IntelxItem>,
    pub status: usize,
}

impl IntoSubdomain for IntelxResults {
    open spec fn names(&self) -> Set<Seq<char>> {
        names_among(self.selectors@, |item: IntelxItem| item.selectorvalue@)
    }

    fn subdomains(&self) -> (found: SubdomainSet) {
        let ghost name_of = |item: IntelxItem| item.selectorvalue@;
        let mut found = SubdomainSet::new();
        assert(names_among(self.selectors@.take(0), name_of) =~= Set::<Seq<char>>::empty());
        let mut i: usize = 0;
        while i < self.selectors.len()
            invariant
                i <= self.selectors.len(),
                name_of == |item: IntelxItem| item.selectorvalue@,
                found@ == names_among(self.selectors@.take(i as int), name_of),
            decreases self.selectors.len() - i,
        {
            proof {
                lemma_names_among_step(self.selectors@, name_of, i as int);
            }
            found.insert(self.selectors[i].selectorvalue.clone());
            i = i + 1;
        }
        assert(self.selectors@.take(self.selectors.len() as int) =~= self.selectors@);
        found
    }
}

/// The address to which a query is submitted.
pub open spec fn search_url(intelx_url: Seq<char>, api_key: Seq<char>) -> Seq<char> {
    "https://"@ + intelx_url + "/phonebook/search?k="@ + api_key
}

/// The address of the results of the search `search_id`.
pub open spec fn result_url(intelx_url: Seq<char>, api_key: Seq<char>, search_id: Seq<char>) -> Seq<
    char,
> {
    "https://"@ + intelx_url + "/phonebook/search/result?k="@ + api_key + "&id="@ + search_id
        + "&limit=100000"@
}

/// Builds the address of one of the two exchanges: that of the query where
/// `querying` is set, and else that of the results of `search_id`, which
/// must then be given.
pub fn build_url(intelx_url: &str, api_key: &str, querying: bool, search_id: Option<&str>) -> (url:
    String)
    requires
        !querying ==> search_id is Some,
    ensures
        querying ==> url@ == search_url(intelx_url@, api_key@),
        !querying ==> url@ == result_url(intelx_url@, api_key@, search_id->0@),
{
    let mut url = "https://".to_owned();
    url.append(intelx_url);
    if querying {
        url.append("/phonebook/search?k=");
        url.append(api_key);
    } else {
        url.append("/phonebook/search/result?k=");
        url.append(api_key);
        url.append("&id=");
        url.append(search_id.unwrap());
        url.append("&limit=100000");
    }
    url
}

/// The first exchange: `body` is submitted to `url`.
#[derive(Debug)]
pub struct SearchRequest {
    pub url: String,
    pub body: Query,
}

/// Mathematical view of a [`SearchRequest`].
pub struct SearchRequestView {
    pub url: Seq<char>,
    pub body: QueryView,
}

impl View for SearchRequest {
    type V = SearchRequestView;

    open spec fn view(&self) -> SearchRequestView {
        SearchRequestView { url: self.url@, body: self.body@ }
    }
}

/// The adapter after its query went out: it waits for the identifier of the
/// search.
#[derive(Debug)]
pub struct AwaitingSessionId {
    host: String,
    creds: Creds,
}

/// Mathematical view of [`AwaitingSessionId`].
pub struct AwaitingSessionIdView {
    pub host: Seq<char>,
    pub creds: CredsView,
}

impl View for AwaitingSessionId {
    type V = AwaitingSessionIdView;

    closed spec fn view(&self) -> AwaitingSessionIdView {
        AwaitingSessionIdView { host: self.host@, creds: self.creds@ }
    }
}

/// The adapter after it asked for the results of its search: it waits for
/// them.
#[derive(Debug)]
pub struct FetchingResults {
    host: String,
}

/// Mathematical view of [`FetchingResults`].
pub struct FetchingResultsView {
    pub host: Seq<char>,
}

impl View for FetchingResults {
    type V = FetchingResultsView;

    closed spec fn view(&self) -> FetchingResultsView {
        FetchingResultsView { host: self.host@ }
    }
}

/// How a run for `host` begins, given what the configuration holds: without
/// both credentials it ends at once with the error that names them; with
/// them the query for `host` goes to the address of the search.
pub open spec fn begun(host: Seq<char>, url: Option<Seq<char>>, api_key: Option<Seq<char>>) -> Result<
    (AwaitingSessionIdView, SearchRequestView),
    ErrorView,
> {
    match creds_of(url, api_key) {
        Ok(creds) => Ok(
            (
                AwaitingSessionIdView { host, creds },
                SearchRequestView {
                    url: search_url(creds.url, creds.api_key),
                    body: query_for(host),
                },
            ),
        ),
        Err(e) => Err(e),
    }
}

/// How a run goes on once the first exchange is over: with an identifier
/// the results of that search are asked for; without one the run ends with
/// the failure of the exchange.
pub open spec fn session_opened(
    state: AwaitingSessionIdView,
    answer: Result<Seq<char>, TransportFailureView>,
) -> Result<(FetchingResultsView, Seq<char>), ErrorView> {
    match answer {
        Ok(search_id) => Ok(
            (
                FetchingResultsView { host: state.host },
                result_url(state.creds.url, state.creds.api_key, search_id),
            ),
        ),
        Err(failure) => Err(transport_error_of(source_name(), state.host, failure)),
    }
}

/// What the first exchange gave, over mathematical values: the identifier
/// of the search, or the failure.
pub open spec fn session_view(answer: Result<SearchId, TransportFailure>) -> Result<
    Seq<char>,
    TransportFailureView,
> {
    match answer {
        Ok(search) => Ok(search.id@),
        Err(failure) => Err(failure@),
    }
}

impl AwaitingSessionId {
    /// Begins a run for `host`, given what the configuration holds for the
    /// service's host and for the key. Hands back the first exchange to
    /// perform and the state that takes its answer.
    pub fn begin(host: &str, url: Option<String>, api_key: Option<String>) -> (step: Result<
        (AwaitingSessionId, SearchRequest),
        Error,
    >)
        ensures
            match step {
                Ok((state, request)) => begun(host@, text_of(url), text_of(api_key)) == Ok::<
                    (AwaitingSessionIdView, SearchRequestView),
                    ErrorView,
                >((state@, request@)),
                Err(e) => begun(host@, text_of(url), text_of(api_key)) == Err::<
                    (AwaitingSessionIdView, SearchRequestView),
                    ErrorView,
                >(e@),
            },
    {
        let creds = match Creds::read_creds(url, api_key) {
            Ok(creds) => creds,
            Err(e) => {
                return Err(e);
            },
        };
        let query_url = build_url(creds.url.as_str(), creds.api_key.as_str(), true, None);
        let body = Query::new(host.to_owned());
        Ok((AwaitingSessionId { host: host.to_owned(), creds }, SearchRequest { url: query_url, body }))
    }

    /// Takes the answer of the first exchange. Hands back the address to
    /// ask for the results and the state that takes them, or the error with
    /// which the run ends.
    pub fn session_opened(self, answer: Result<SearchId, TransportFailure>) -> (step: Result<
        (FetchingResults, String),
        Error,
    >)
        ensures
            match step {
                Ok((state, url)) => session_opened(self@, session_view(answer)) == Ok::<
                    (FetchingResultsView, Seq<char>),
                    ErrorView,
                >((state@, url@)),
                Err(e) => session_opened(self@, session_view(answer)) == Err::<
                    (FetchingResultsView, Seq<char>),
                    ErrorView,
                >(e@),
            },
    {
        match answer {
            Ok(search) => {
                let url = build_url(
                    self.creds.url.as_str(),
                    self.creds.api_key.as_str(),
                    false,
                    Some(search.id.as_str()),
                );
                Ok((FetchingResults { host: self.host }, url))
            },
            Err(failure) => Err(Error::transport_error("Intelx", self.host.as_str(), failure)),
        }
    }
}

impl FetchingResults {
    /// Takes the answer of the second exchange and settles what the source
    /// found.
    pub fn results(self, fetched: Result<IntelxResults, TransportFailure>) -> (outcome: Result<
        SubdomainSet,
        Error,
    >)
        ensures
            outcome_view(outcome) == concluded(source_name(), self@.host, fetched_view(fetched)),
            outcome matches Ok(found) ==> found@ != Set::<Seq<char>>::empty(),
    {
        conclude("Intelx", self.host.as_str(), fetched)
    }
}

/// What a whole run for `host` gives, from what the configuration holds and
/// what the two exchanges are answered with.
pub open spec fn run_of(
    host: Seq<char>,
    url: Option<Seq<char>>,
    api_key: Option<Seq<char>>,
    first: Result<Seq<char>, TransportFailureView>,
    second: Result<Set<Seq<char>>, TransportFailureView>,
) -> OutcomeView {
    match begun(host, url, api_key) {
        Err(e) => Err(e),
        Ok((awaiting, _)) => match session_opened(awaiting, first) {
            Err(e) => Err(e),
            Ok((fetching, _)) => concluded(source_name(), fetching.host, second),
        },
    }
}

/// Without both credentials a run ends before any exchange, with the error
/// that names both variables; with both it begins.
pub proof fn lemma_credentials_gate_the_run(
    host: Seq<char>,
    url: Option<Seq<char>>,
    api_key: Option<Seq<char>>,
)
    ensures
        (url is None || api_key is None) <==> begun(host, url, api_key) is Err,
        begun(host, url, api_key) matches Err(e) ==> e == (ErrorView::KeyError {
            source: source_name(),
            env_variable_names: credential_names(),
        }),
        (url is None || api_key is None) ==> forall|
            first: Result<Seq<char>, TransportFailureView>,
            second: Result<Set<Seq<char>>, TransportFailureView>,
        | #[trigger]
            run_of(host, url, api_key, first, second) == Err::<Set<Seq<char>>, ErrorView>(
                ErrorView::KeyError {
                    source: source_name(),
                    env_variable_names: credential_names(),
                },
            ),
{
}

/// The results are asked for exactly when the first exchange gave an
/// identifier, and then for that identifier; when it failed, the run ends
/// with that failure whatever a second exchange would have given.
pub proof fn lemma_results_need_a_session(
    state: AwaitingSessionIdView,
    answer: Result<Seq<char>, TransportFailureView>,
)
    ensures
        session_opened(state, answer) is Ok <==> answer is Ok,
        session_opened(state, answer) matches Ok((next, url)) ==> next.host == state.host && url
            == result_url(state.creds.url, state.creds.api_key, answer->Ok_0),
        answer matches Err(failure) ==> session_opened(state, answer) == Err::<
            (FetchingResultsView, Seq<char>),
            ErrorView,
        >(transport_error_of(source_name(), state.host, failure)),
{
}

} // verus!
