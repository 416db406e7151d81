//! The adapter for ThreatCrowd's domain reports.

use crate::error::{Error, TransportFailure};
use crate::sources::{conclude, concluded, fetched_view, outcome_view};
use crate::subdomain::{lemma_names_among_step, names_among, IntoSubdomain, SubdomainSet};
use vstd::prelude::*;
use vstd::string::*;

verus! {

/// The name under which this source appears in errors.
pub open spec fn source_name() -> Seq<char> {
    "ThreatCrowd"@
}

/// A domain report. The service leaves the list out when it has no data.
#[derive(Debug)]
pub struct ThreatCrowdResult {
    pub subdomains: Option<Vec<String>>,
}

impl IntoSubdomain for ThreatCrowdResult {
    open spec fn names(&self) -> Set<Seq<char>> {
        match self.subdomains {
            Some(listed) => names_among(listed@, |name: String| name@),
            None => Set::empty(),
        }
    }

    fn subdomains(&self) -> (found: SubdomainSet) {
        let mut found = SubdomainSet::new();
        if let Some(listed) = &self.subdomains {
            let ghost name_of = |name: String| name@;
            assert(names_among(listed@.take(0), name_of) =~= Set::<Seq<char>>::empty());
            let mut i: usize = 0;
            while i < listed.len()
                invariant
                    i <= listed.len(),
                    name_of == |name: String| name@,
                    found@ == names_among(listed@.take(i as int), name_of),
                decreases listed.len() - i,
            {
                proof {
                    lemma_names_among_step(listed@, name_of, i as int);
                }
                found.insert(listed[i].clone());
                i = i + 1;
            }
            assert(listed@.take(listed.len() as int) =~= listed@);
        }
        found
    }
}

/// The address of the report on `host`.
pub open spec fn url_of(host: Seq<char>) -> Seq<char> {
    "https://www.threatcrowd.org/searchApi/v2/domain/report/?domain="@ + host
}

/// Builds the address of the report on `host`.
pub fn build_url(host: &str) -> (url: String)
    ensures
        url@ == url_of(host@),
{
    let mut url = "https://www.threatcrowd.org/searchApi/v2/domain/report/?domain=".to_owned();
    url.append(host);
    url
}

/// Settles what ThreatCrowd found about `host`, given what the exchange
/// with the address of `build_url` gave.
pub fn results(host: &str, fetched: Result<ThreatCrowdResult, TransportFailure>) -> (outcome:
    Result<SubdomainSet, Error>)
    ensures
        outcome_view(outcome) == concluded(source_name(), host@, fetched_view(fetched)),
        outcome matches Ok(found) ==> found@ != Set::<Seq<char>>::empty(),
{
    conclude("ThreatCrowd", host, fetched)
}

} // verus!
