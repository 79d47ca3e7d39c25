use vstd::prelude::*;
use crate::error::FederationError;

verus! {

/// The host domain that the `url` crate reads from an IRI, or `None` where the
/// text is no absolute URL or its host is not a domain.
pub uninterp spec fn url_domain(iri: Seq<char>) -> Option<Seq<char>>;

pub open spec fn opt_view(o: Option<String>) -> Option<Seq<char>> {
    match o {
        Some(s) => Some(s@),
        None => None,
    }
}

/// Relies on `url::Url::parse` and `url::Url::domain`: the domain part of an
/// absolute URL, depending on the text alone.
#[verifier::external_body]
fn parse_domain(iri: &str) -> (r: Option<String>)
    ensures
        opt_view(r) == url_domain(iri@),
{
    match url::Url::parse(iri) {
        Ok(u) => u.domain().map(|d| d.to_string()),
        Err(_) => None,
    }
}

/// The domain of an IRI.
pub fn domain_of(iri: &String) -> (r: Option<String>)
    ensures
        opt_view(r) == url_domain(iri@),
{
    parse_domain(iri.as_str())
}

/// Both IRIs parse with a domain, and it is the same one.
pub open spec fn same_domain(a: Seq<char>, b: Seq<char>) -> bool {
    url_domain(a) is Some && url_domain(a) == url_domain(b)
}

/// Decides the domain check from the two domains already read: a missing
/// domain never matches.
pub fn domains_match_given(a: &Option<String>, b: &Option<String>) -> (r: Result<(), FederationError>)
    ensures
        r is Ok <==> opt_view(*a) is Some && opt_view(*a) == opt_view(*b),
        r is Err ==> r == Err::<(), FederationError>(FederationError::DomainMismatch),
{
    match (a, b) {
        (Some(x), Some(y)) => {
            if x.eq(y) {
                Ok(())
            } else {
                Err(FederationError::DomainMismatch)
            }
        },
        _ => Err(FederationError::DomainMismatch),
    }
}

/// Succeeds exactly when both IRIs have the same domain.
pub fn verify_domains_match(a: &String, b: &String) -> (r: Result<(), FederationError>)
    ensures
        r is Ok <==> same_domain(a@, b@),
        r is Err ==> r == Err::<(), FederationError>(FederationError::DomainMismatch),
{
    let da = domain_of(a);
    let db = domain_of(b);
    domains_match_given(&da, &db)
}

pub open spec fn local_origin_result(domain: Option<Seq<char>>, hostname: Seq<char>) -> Result<(), FederationError> {
    match domain {
        None => Err(FederationError::MalformedPayload),
        Some(d) => if d == hostname {
            Err(FederationError::LocalOriginRejected)
        } else {
            Ok(())
        },
    }
}

/// Decides the local-origin guard from the domain already read off the
/// activity identifier.
pub fn check_not_local(domain: &Option<String>, hostname: &String) -> (r: Result<(), FederationError>)
    ensures
        r == local_origin_result(opt_view(*domain), hostname@),
{
    match domain {
        None => Err(FederationError::MalformedPayload),
        Some(d) => {
            if d.eq(hostname) {
                Err(FederationError::LocalOriginRejected)
            } else {
                Ok(())
            }
        },
    }
}

/// Rejects an activity whose identifier lies on this node's own host.
pub fn assert_activity_not_local(activity_id: &String, hostname: &String) -> (r: Result<(), FederationError>)
    ensures
        r == local_origin_result(url_domain(activity_id@), hostname@),
{
    let d = domain_of(activity_id);
    check_not_local(&d, hostname)
}

/// The normalised serialisation the `url` crate gives an absolute URL, or
/// `None` where the text does not parse.
pub uninterp spec fn url_normalized(iri: Seq<char>) -> Option<Seq<char>>;

/// Relies on `url::Url::parse` and its `Display`: the text parsed as an
/// absolute URL and written back in normal form.
#[verifier::external_body]
fn parse_normalized(iri: &str) -> (r: Option<String>)
    ensures
        opt_view(r) == url_normalized(iri@),
{
    match url::Url::parse(iri) {
        Ok(u) => Some(u.to_string()),
        Err(_) => None,
    }
}

/// The IRI in normal form, or `None` where it is no absolute URL.
pub fn normalize_iri(iri: &String) -> (r: Option<String>)
    ensures
        opt_view(r) == url_normalized(iri@),
{
    parse_normalized(iri.as_str())
}

} // verus!
