//! The adapter for urlscan.io's search.

use crate::error::{Error, TransportFailure, TransportFailureView};
use crate::sources::{concluded, non_empty, outcome_view};
use crate::subdomain::{lemma_names_among_step, names_among, IntoSubdomain, SubdomainSet};
use vstd::prelude::*;
use vstd::string::*;

verus! {

/// The name under which this source appears in errors.
pub open spec fn source_name() -> Seq<char> {
    "UrlScan"@
}

/// The domain of a scanned page.
#[derive(Debug)]
pub struct UrlScanDomain {
    pub domain: String,
}

/// One scanned page.
#[derive(Debug)]
pub struct UrlScanPage {
    pub page: UrlScanDomain,
}

/// The pages that a search found. A page may be listed more than once.
#[derive(Debug)]
pub struct UrlScanResult {
    pub results: Vec<UrlScanPage>,
}

impl IntoSubdomain for UrlScanResult {
    open spec fn names(&self) -> Set<Seq<char>> {
        names_among(self.results@, |scan: UrlScanPage| scan.page.domain@)
    }

    fn subdomains(&self) -> (found: SubdomainSet) {
        let ghost name_of = |scan: UrlScanPage| scan.page.domain@;
        let mut found = SubdomainSet::new();
        assert(names_among(self.results@.take(0), name_of) =~= Set::<Seq<char>>::empty());
        let mut i: usize = 0;
        while i < self.results.len()
            invariant
                i <= self.results.len(),
                name_of == |scan: UrlScanPage| scan.page.domain@,
                found@ == names_among(self.results@.take(i as int), name_of),
            decreases self.results.len() - i,
        {
            proof {
                lemma_names_among_step(self.results@, name_of, i as int);
            }
            found.insert(self.results[i].page.domain.clone());
            i = i + 1;
        }
        assert(self.results@.take(self.results.len() as int) =~= self.results@);
        found
    }
}

/// The address of the search for pages of `host`.
pub open spec fn url_of(host: Seq<char>) -> Seq<char> {
    "https://urlscan.io/api/v1/search/?q=domain:"@ + host
}

/// Builds the address of the search for pages of `host`.
pub fn build_url(host: &str) -> (url: String)
    ensures
        url@ == url_of(host@),
{
    let mut url = "https://urlscan.io/api/v1/search/?q=domain:".to_owned();
    url.append(host);
    url
}

/// What the exchange gave, over mathematical values. The service may
/// answer with nothing at all where it has no data: that is an answer
/// without names, not a failure.
pub open spec fn answer_view(fetched: Result<Option<UrlScanResult>, TransportFailure>) -> Result<
    Set<Seq<char>>,
    TransportFailureView,
> {
    match fetched {
        Ok(Some(answer)) => Ok(answer.names()),
        Ok(None) => Ok(Set::empty()),
        Err(failure) => Err(failure@),
    }
}

/// Settles what urlscan.io found about `host`, given what the exchange
/// with the address of `build_url` gave.
pub fn results(host: &str, fetched: Result<Option<UrlScanResult>, TransportFailure>) -> (outcome:
    Result<SubdomainSet, Error>)
    ensures
        outcome_view(outcome) == concluded(source_name(), host@, answer_view(fetched)),
        outcome matches Ok(found) ==> found@ != Set::<Seq<char>>::empty(),
{
    match fetched {
        Ok(Some(answer)) => non_empty("UrlScan", host, answer.subdomains()),
        Ok(None) => Err(Error::source_error("UrlScan", host)),
        Err(failure) => Err(Error::transport_error("UrlScan", host, failure)),
    }
}

} // verus!
