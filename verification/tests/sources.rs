use subdomain_sources::error::{Error, TransportFailure};
use subdomain_sources::sources::intelx::{
    AwaitingSessionId, Creds, IntelxItem, IntelxResults, Query, SearchId,
};
use subdomain_sources::sources::threatcrowd::ThreatCrowdResult;
use subdomain_sources::sources::urlscan::{UrlScanDomain, UrlScanPage, UrlScanResult};
use subdomain_sources::sources::virustotal::{Subdomain, VirustotalResult};
use subdomain_sources::sources::{
    conclude, intelx, non_empty, threatcrowd, urlscan, virustotal, POOL_IDLE_TIMEOUT_SECS,
    REQUEST_TIMEOUT_SECS,
};
use subdomain_sources::subdomain::SubdomainSet;
use subdomain_sources::IntoSubdomain;

fn sorted(set: SubdomainSet) -> Vec<String> {
    let mut names = set.into_vec();
    names.sort();
    names
}

fn strings(names: &[&str]) -> Vec<String> {
    names.iter().map(|name| name.to_string()).collect()
}

fn scan(domain: &str) -> UrlScanPage {
    UrlScanPage { page: UrlScanDomain { domain: domain.to_string() } }
}

fn selectors(names: &[&str]) -> IntelxResults {
    IntelxResults {
        selectors: names
            .iter()
            .map(|name| IntelxItem { selectorvalue: name.to_string() })
            .collect(),
        status: 0,
    }
}

fn timed_out() -> TransportFailure {
    TransportFailure::Network { detail: "operation timed out".to_string() }
}

fn malformed() -> TransportFailure {
    TransportFailure::Decode { detail: "expected value at line 1 column 1".to_string() }
}

fn awaiting(host: &str) -> AwaitingSessionId {
    let (state, _) = AwaitingSessionId::begin(
        host,
        Some("2.intelx.io".to_string()),
        Some("abc".to_string()),
    )
    .unwrap();
    state
}

// The addresses.

#[test]
fn url_builder() {
    let correct_uri = "https://urlscan.io/api/v1/search/?q=domain:hackerone.com";
    assert_eq!(correct_uri, urlscan::build_url("hackerone.com"));
}

#[test]
fn threatcrowd_url_builder() {
    assert_eq!(
        threatcrowd::build_url("hackerone.com"),
        "https://www.threatcrowd.org/searchApi/v2/domain/report/?domain=hackerone.com"
    );
}

#[test]
fn virustotal_url_builder() {
    assert_eq!(
        virustotal::build_url("hackerone.com"),
        "https://www.virustotal.com/ui/domains/hackerone.com/subdomains?limit=40"
    );
}

#[test]
fn intelx_url_builder_for_the_query() {
    assert_eq!(
        intelx::build_url("2.intelx.io", "abc", true, None),
        "https://2.intelx.io/phonebook/search?k=abc"
    );
}

#[test]
fn intelx_url_builder_for_the_query_ignores_a_search_id() {
    assert_eq!(
        intelx::build_url("2.intelx.io", "abc", true, Some("9df61df0")),
        "https://2.intelx.io/phonebook/search?k=abc"
    );
}

#[test]
fn intelx_url_builder_for_the_results() {
    assert_eq!(
        intelx::build_url("2.intelx.io", "abc", false, Some("9df61df0-84f7")),
        "https://2.intelx.io/phonebook/search/result?k=abc&id=9df61df0-84f7&limit=100000"
    );
}

#[test]
fn url_builders_take_the_host_as_it_is() {
    assert_eq!(urlscan::build_url(""), "https://urlscan.io/api/v1/search/?q=domain:");
    assert_eq!(
        virustotal::build_url("a b/c"),
        "https://www.virustotal.com/ui/domains/a b/c/subdomains?limit=40"
    );
}

#[test]
fn url_builders_give_the_same_address_on_every_call() {
    assert_eq!(urlscan::build_url("hackerone.com"), urlscan::build_url("hackerone.com"));
    assert_eq!(threatcrowd::build_url("hackerone.com"), threatcrowd::build_url("hackerone.com"));
    assert_eq!(virustotal::build_url("hackerone.com"), virustotal::build_url("hackerone.com"));
    assert_eq!(
        intelx::build_url("u", "k", false, Some("id")),
        intelx::build_url("u", "k", false, Some("id"))
    );
}

// The limits of an exchange.

#[test]
fn exchanges_are_bounded() {
    assert_eq!(REQUEST_TIMEOUT_SECS, 10);
    assert_eq!(POOL_IDLE_TIMEOUT_SECS, 4);
}

// The names in an answer.

#[test]
fn threatcrowd_names_of_a_list() {
    let answer = ThreatCrowdResult { subdomains: Some(strings(&["b.h1.com", "a.h1.com", "b.h1.com"])) };
    assert_eq!(sorted(answer.subdomains()), strings(&["a.h1.com", "b.h1.com"]));
}

#[test]
fn threatcrowd_names_without_a_list() {
    let answer = ThreatCrowdResult { subdomains: None };
    assert!(answer.subdomains().is_empty());
}

#[test]
fn virustotal_names_of_a_list() {
    let answer = VirustotalResult {
        data: Some(vec![
            Subdomain { id: "api.h1.com".to_string() },
            Subdomain { id: "www.h1.com".to_string() },
            Subdomain { id: "api.h1.com".to_string() },
        ]),
    };
    assert_eq!(sorted(answer.subdomains()), strings(&["api.h1.com", "www.h1.com"]));
}

#[test]
fn virustotal_names_without_a_list() {
    assert!(VirustotalResult { data: None }.subdomains().is_empty());
    assert!(VirustotalResult { data: Some(Vec::new()) }.subdomains().is_empty());
}

#[test]
fn urlscan_names_of_the_pages() {
    let answer = UrlScanResult { results: vec![scan("www.h1.com"), scan("docs.h1.com"), scan("www.h1.com")] };
    assert_eq!(sorted(answer.subdomains()), strings(&["docs.h1.com", "www.h1.com"]));
}

#[test]
fn intelx_names_of_the_selectors() {
    let answer = selectors(&["mail.h1.com", "mail.h1.com", "vpn.h1.com"]);
    assert_eq!(sorted(answer.subdomains()), strings(&["mail.h1.com", "vpn.h1.com"]));
}

// What is shared.

#[test]
fn non_empty_hands_a_set_with_names_back() {
    let mut found = SubdomainSet::new();
    found.insert("a.h1.com".to_string());
    let kept = non_empty("UrlScan", "h1.com", found).unwrap();
    assert_eq!(kept.into_vec(), strings(&["a.h1.com"]));
}

#[test]
fn non_empty_turns_the_empty_set_into_an_error() {
    let e = non_empty("UrlScan", "h1.com", SubdomainSet::new()).unwrap_err();
    assert_eq!(e, Error::source_error("UrlScan", "h1.com"));
}

#[test]
fn conclude_names_the_source_it_is_given() {
    let fetched: Result<ThreatCrowdResult, TransportFailure> = Ok(ThreatCrowdResult { subdomains: None });
    let e = conclude("Somewhere", "h1.com", fetched).unwrap_err();
    assert_eq!(e.message(), "Somewhere couldn't find any results for: h1.com");
}

// The single-exchange adapters.

#[test]
fn threatcrowd_returns_results() {
    let answer = ThreatCrowdResult { subdomains: Some(strings(&["www.hackerone.com", "api.hackerone.com"])) };
    let results = threatcrowd::results("hackerone.com", Ok(answer)).unwrap();
    assert!(!results.is_empty());
    assert_eq!(sorted(results), strings(&["api.hackerone.com", "www.hackerone.com"]));
}

#[test]
fn threatcrowd_handle_no_results() {
    let res = threatcrowd::results("anVubmxpa2VzdGVh.com", Ok(ThreatCrowdResult { subdomains: None }));
    let e = res.unwrap_err();
    assert_eq!(e.message(), "ThreatCrowd couldn't find any results for: anVubmxpa2VzdGVh.com");
}

#[test]
fn threatcrowd_empty_list_is_no_success() {
    let res = threatcrowd::results("anVubmxpa2VzdGVh.com", Ok(ThreatCrowdResult { subdomains: Some(Vec::new()) }));
    assert_eq!(res.unwrap_err(), Error::source_error("ThreatCrowd", "anVubmxpa2VzdGVh.com"));
}

#[test]
fn threatcrowd_hands_a_failed_exchange_on() {
    let e = threatcrowd::results("hackerone.com", Err(timed_out())).unwrap_err();
    assert_eq!(
        e,
        Error::NetworkError {
            source: "ThreatCrowd".to_string(),
            host: "hackerone.com".to_string(),
            detail: "operation timed out".to_string(),
        }
    );
}

#[test]
fn urlscan_returns_results() {
    let answer = UrlScanResult { results: vec![scan("www.hackerone.com")] };
    let results = urlscan::results("hackerone.com", Ok(Some(answer))).unwrap();
    assert!(!results.is_empty());
    assert_eq!(results.into_vec(), strings(&["www.hackerone.com"]));
}

#[test]
fn urlscan_handle_no_results() {
    let res = urlscan::results("anVubmxpa2VzdGVh.com", Ok(Some(UrlScanResult { results: Vec::new() })));
    let e = res.unwrap_err();
    assert_eq!(e.message(), "UrlScan couldn't find any results for: anVubmxpa2VzdGVh.com");
}

#[test]
fn urlscan_absent_answer_is_no_results() {
    let e = urlscan::results("anVubmxpa2VzdGVh.com", Ok(None)).unwrap_err();
    assert_eq!(e, Error::source_error("UrlScan", "anVubmxpa2VzdGVh.com"));
    assert_eq!(e.message(), "UrlScan couldn't find any results for: anVubmxpa2VzdGVh.com");
}

#[test]
fn urlscan_hands_a_malformed_answer_on() {
    let e = urlscan::results("hackerone.com", Err(malformed())).unwrap_err();
    assert_eq!(
        e,
        Error::DecodeError {
            source: "UrlScan".to_string(),
            host: "hackerone.com".to_string(),
            detail: "expected value at line 1 column 1".to_string(),
        }
    );
}

#[test]
fn virustotal_returns_results() {
    let answer = VirustotalResult { data: Some(vec![Subdomain { id: "api.hackerone.com".to_string() }]) };
    let results = virustotal::results("hackerone.com", Ok(answer)).unwrap();
    assert!(!results.is_empty());
    assert!(results.contains("api.hackerone.com"));
}

#[test]
fn virustotal_handle_no_results() {
    let res = virustotal::results("anVubmxpa2VzdGVh.com", Ok(VirustotalResult { data: None }));
    let e = res.unwrap_err();
    assert_eq!(e.message(), "VirusTotal couldn't find any results for: anVubmxpa2VzdGVh.com");
}

#[test]
fn virustotal_hands_a_failed_exchange_on() {
    let e = virustotal::results("hackerone.com", Err(timed_out())).unwrap_err();
    assert_eq!(e.message(), "VirusTotal couldn't be reached for: hackerone.com (operation timed out)");
}

// The keyed adapter.

#[test]
fn query_asks_for_domains_of_the_term() {
    let query = Query::new("hackerone.com".to_string());
    assert_eq!(query.term, "hackerone.com");
    assert_eq!(query.maxresults, 100000);
    assert_eq!(query.media, 0);
    assert_eq!(query.target, 1);
    assert_eq!(query.timeout, 20);
}

#[test]
fn creds_need_both_values() {
    let creds = Creds::read_creds(Some("2.intelx.io".to_string()), Some("abc".to_string())).unwrap();
    assert_eq!(creds.url, "2.intelx.io");
    assert_eq!(creds.api_key, "abc");
}

#[test]
fn creds_without_a_value_name_both_variables() {
    let wanted = Error::key_error("Intelx", &["INTELX_URL", "INTELX_KEY"]);
    assert_eq!(Creds::read_creds(None, Some("abc".to_string())).unwrap_err(), wanted);
    assert_eq!(Creds::read_creds(Some("2.intelx.io".to_string()), None).unwrap_err(), wanted);
    assert_eq!(Creds::read_creds(None, None).unwrap_err(), wanted);
}

#[test]
fn intelx_without_credentials_ends_before_any_exchange() {
    let e = AwaitingSessionId::begin("hackerone.com", None, None).unwrap_err();
    assert_eq!(e.message(), "Intelx couldn't read its credentials: INTELX_URL, INTELX_KEY");
    let e = AwaitingSessionId::begin("hackerone.com", Some("2.intelx.io".to_string()), None).unwrap_err();
    assert_eq!(e, Error::key_error("Intelx", &["INTELX_URL", "INTELX_KEY"]));
}

#[test]
fn intelx_begins_with_the_query_for_the_host() {
    let (_, request) = AwaitingSessionId::begin(
        "hackerone.com",
        Some("2.intelx.io".to_string()),
        Some("abc".to_string()),
    )
    .unwrap();
    assert_eq!(request.url, "https://2.intelx.io/phonebook/search?k=abc");
    assert_eq!(request.body.term, "hackerone.com");
    assert_eq!(request.body.maxresults, 100000);
    assert_eq!(request.body.media, 0);
    assert_eq!(request.body.target, 1);
    assert_eq!(request.body.timeout, 20);
}

#[test]
fn search_id() {
    let answer = SearchId { id: "3f2a-77".to_string() };
    let (_, url) = awaiting("hackerone.com").session_opened(Ok(answer)).unwrap();
    assert_eq!(
        url,
        "https://2.intelx.io/phonebook/search/result?k=abc&id=3f2a-77&limit=100000"
    );
}

#[test]
fn intelx_asks_for_no_results_when_the_query_failed() {
    let e = awaiting("hackerone.com").session_opened(Err(timed_out())).unwrap_err();
    assert_eq!(
        e,
        Error::NetworkError {
            source: "Intelx".to_string(),
            host: "hackerone.com".to_string(),
            detail: "operation timed out".to_string(),
        }
    );
}

#[test]
fn intelx_asks_for_no_results_without_an_identifier() {
    let no_id = TransportFailure::Decode { detail: "missing field `id`".to_string() };
    let e = awaiting("hackerone.com").session_opened(Err(no_id)).unwrap_err();
    assert_eq!(e.message(), "Intelx sent an unreadable answer for: hackerone.com (missing field `id`)");
}

#[test]
fn intelx_returns_results() {
    let opened = SearchId { id: "1".to_string() };
    let (fetching, _) = awaiting("hackerone.com").session_opened(Ok(opened)).unwrap();
    let results = fetching.results(Ok(selectors(&["www.hackerone.com", "www.hackerone.com"]))).unwrap();
    assert!(!results.is_empty());
    assert_eq!(results.into_vec(), strings(&["www.hackerone.com"]));
}

#[test]
fn intelx_handle_no_results() {
    let opened = SearchId { id: "1".to_string() };
    let (fetching, _) = awaiting("anVubmxpa2VzdGVh.com").session_opened(Ok(opened)).unwrap();
    let res = fetching.results(Ok(selectors(&[])));
    let e = res.unwrap_err();
    assert_eq!(e.message(), "Intelx couldn't find any results for: anVubmxpa2VzdGVh.com");
}

#[test]
fn intelx_hands_a_failed_second_exchange_on() {
    let opened = SearchId { id: "1".to_string() };
    let (fetching, _) = awaiting("hackerone.com").session_opened(Ok(opened)).unwrap();
    let e = fetching.results(Err(malformed())).unwrap_err();
    assert_eq!(
        e,
        Error::DecodeError {
            source: "Intelx".to_string(),
            host: "hackerone.com".to_string(),
            detail: "expected value at line 1 column 1".to_string(),
        }
    );
}

// One adapter's failure and another's success.

#[test]
fn a_failed_adapter_leaves_the_others_alone() {
    let host = "hackerone.com";
    let broken = urlscan::results(host, Err(timed_out()));
    let garbled = virustotal::results(host, Err(malformed()));
    let fine = threatcrowd::results(host, Ok(ThreatCrowdResult { subdomains: Some(strings(&["www.hackerone.com"])) }));
    assert!(broken.is_err());
    assert!(garbled.is_err());
    assert_eq!(fine.unwrap().into_vec(), strings(&["www.hackerone.com"]));
}
