//! The adapters, one module per source, and what they share.
//!
//! Every adapter works in the same steps. It builds the address to ask from
//! the host, by a function that depends on nothing but its arguments. The
//! caller performs the exchange and hands back either the decoded answer or
//! the reason why there is none. The adapter then yields the names in the
//! answer, and reports an answer without names as an error of its own kind,
//! so that a success is never empty.

pub mod intelx;
pub mod threatcrowd;
pub mod urlscan;
pub mod virustotal;

use crate::error::{
    message_of, transport_error_of, Error, ErrorView, TransportFailure, TransportFailureView,
};
use crate::subdomain::{IntoSubdomain, SubdomainSet};
use vstd::prelude::*;

verus! {

/// Seconds an exchange with a source may take, from connecting to the last
/// byte of the answer.
pub const REQUEST_TIMEOUT_SECS: u64 = 10;

/// Seconds an idle connection to a source is kept for reuse.
pub const POOL_IDLE_TIMEOUT_SECS: u64 = 4;

/// What an adapter hands back, over mathematical values.
pub type OutcomeView = Result<Set<Seq<char>>, ErrorView>;

/// The view of what an adapter hands back.
pub open spec fn outcome_view(outcome: Result<SubdomainSet, Error>) -> OutcomeView {
    match outcome {
        Ok(found) => Ok(found@),
        Err(e) => Err(e@),
    }
}

/// The outcome of an adapter whose source answered with `names`: the names
/// if there are any, else the error that says `source` knows nothing about
/// `host`.
pub open spec fn found_or_nothing(
    source: Seq<char>,
    host: Seq<char>,
    names: Set<Seq<char>>,
) -> OutcomeView {
    if names == Set::<Seq<char>>::empty() {
        Err(ErrorView::SourceError { source, host })
    } else {
        Ok(names)
    }
}

/// The outcome of an adapter after its exchange: the transport's failure
/// with source and host added, or what the names of the answer give.
pub open spec fn concluded(
    source: Seq<char>,
    host: Seq<char>,
    fetched: Result<Set<Seq<char>>, TransportFailureView>,
) -> OutcomeView {
    match fetched {
        Ok(names) => found_or_nothing(source, host, names),
        Err(failure) => Err(transport_error_of(source, host, failure)),
    }
}

/// What the caller's exchange gave, over mathematical values: the names in
/// the answer, or the failure.
pub open spec fn fetched_view<R: IntoSubdomain>(fetched: Result<R, TransportFailure>) -> Result<
    Set<Seq<char>>,
    TransportFailureView,
> {
    match fetched {
        Ok(answer) => Ok(answer.names()),
        Err(failure) => Err(failure@),
    }
}

/// Hands `found` back if it holds a name, and else the error that says
/// `source` knows nothing about `host`.
pub fn non_empty(source: &str, host: &str, found: SubdomainSet) -> (outcome: Result<
    SubdomainSet,
    Error,
>)
    ensures
        outcome_view(outcome) == found_or_nothing(source@, host@, found@),
        outcome matches Ok(kept) ==> kept@ != Set::<Seq<char>>::empty(),
{
    if !found.is_empty() {
        Ok(found)
    } else {
        Err(Error::source_error(source, host))
    }
}

/// Settles what `source` found about `host` once the exchange is over.
pub fn conclude<R: IntoSubdomain>(
    source: &str,
    host: &str,
    fetched: Result<R, TransportFailure>,
) -> (outcome: Result<SubdomainSet, Error>)
    ensures
        outcome_view(outcome) == concluded(source@, host@, fetched_view(fetched)),
        outcome matches Ok(found) ==> found@ != Set::<Seq<char>>::empty(),
{
    match fetched {
        Ok(answer) => non_empty(source, host, answer.subdomains()),
        Err(failure) => Err(Error::transport_error(source, host, failure)),
    }
}

/// A success of an adapter is never empty: an answer without names is the
/// error that names the source and the host.
pub proof fn lemma_success_is_never_empty(
    source: Seq<char>,
    host: Seq<char>,
    fetched: Result<Set<Seq<char>>, TransportFailureView>,
)
    ensures
        concluded(source, host, fetched) matches Ok(names) ==> names != Set::<Seq<char>>::empty()
            && fetched == Ok::<Set<Seq<char>>, TransportFailureView>(names),
        fetched == Ok::<Set<Seq<char>>, TransportFailureView>(Set::<Seq<char>>::empty())
            ==> concluded(source, host, fetched) == Err::<Set<Seq<char>>, ErrorView>(
            ErrorView::SourceError { source, host },
        ),
{
}

/// An adapter whose source answers without names fails with exactly the
/// message that names the source and the host.
pub proof fn lemma_no_results_message(source: Seq<char>, host: Seq<char>)
    ensures
        concluded(source, host, Ok(Set::<Seq<char>>::empty())) matches Err(e) && message_of(e)
            == source + " couldn't find any results for: "@ + host,
{
}

} // verus!
