//! The adapter for VirusTotal's list of a domain's subdomains.

use crate::error::{Error, TransportFailure};
use crate::sources::{conclude, concluded, fetched_view, outcome_view};
use crate::subdomain::{lemma_names_among_step, names_among, IntoSubdomain, SubdomainSet};
use vstd::prelude::*;
use vstd::string::*;

verus! {

/// The name under which this source appears in errors.
pub open spec fn source_name() -> Seq<char> {
    "VirusTotal"@
}

/// One listed subdomain.
#[derive(Debug)]
pub struct Subdomain {
    pub id: String,
}

/// A list of subdomains. The service leaves the list out when it has no
/// data.
#[derive(Debug)]
pub struct VirustotalResult {
    pub data: Option<Vec<Subdomain>>,
}

impl IntoSubdomain for VirustotalResult {
    open spec fn names(&self) -> Set<Seq<char>> {
        match self.data {
            Some(listed) => names_among(listed@, |entry: Subdomain| entry.id@),
            None => Set::empty(),
        }
    }

    fn subdomains(&self) -> (found: SubdomainSet) {
        let mut found = SubdomainSet::new();
        if let Some(listed) = &self.data {
            let ghost name_of = |entry: Subdomain| entry.id@;
            assert(names_among(listed@.take(0), name_of) =~= Set::<Seq<char>>::empty());
            let mut i: usize = 0;
            while i < listed.len()
                invariant
                    i <= listed.len(),
                    name_of == |entry: Subdomain| entry.id@,
                    found@ == names_among(listed@.take(i as int), name_of),
                decreases listed.len() - i,
            {
                proof {
                    lemma_names_among_step(listed@, name_of, i as int);
                }
                found.insert(listed[i].id.clone());
                i = i + 1;
            }
            assert(listed@.take(listed.len() as int) =~= listed@);
        }
        found
    }
}

/// The address of the list of the subdomains of `host`, 40 at most.
pub open spec fn url_of(host: Seq<char>) -> Seq<char> {
    "https://www.virustotal.com/ui/domains/"@ + host + "/subdomains?limit=40"@
}

/// Builds the address of the list of the subdomains of `host`.
pub fn build_url(host: &str) -> (url: String)
    ensures
        url@ == url_of(host@),
{
    let mut url = "https://www.virustotal.com/ui/domains/".to_owned();
    url.append(host);
    url.append("/subdomains?limit=40");
    url
}

/// Settles what VirusTotal found about `host`, given what the exchange
/// with the address of `build_url` gave.
pub fn results(host: &str, fetched: Result<VirustotalResult, TransportFailure>) -> (outcome:
    Result<SubdomainSet, Error>)
    ensures
        outcome_view(outcome) == concluded(source_name(), host@, fetched_view(fetched)),
        outcome matches Ok(found) ==> found@ != Set::<Seq<char>>::empty(),
{
    conclude("VirusTotal", host, fetched)
}

} // verus!
