//! Building the one outbound query for each operation: which endpoint it
//! addresses and the exact name/value list of its URL query parameters.
//!
//! The credential travels as a header field, never inside the URL; the
//! header's name is pinned here, its value is attached by the caller that
//! owns the transport.

use vstd::prelude::*;
use vstd::string::*;

use crate::digits::dec_of;
use crate::digits::u32_dec;

verus! {

/// The three endpoint shapes of the service.
#[derive(Clone, Copy, Debug, PartialEq, Eq, Structural)]
pub enum Endpoint {
    CheckIp,
    CheckBlock,
    Blacklist,
}

/// The IP version filter of the blacklist endpoint.
#[derive(Clone, Copy, Debug, PartialEq, Eq, Structural)]
pub enum IpVersion {
    V4,
    V6,
}

impl IpVersion {
    pub open spec fn spec_value(self) -> Seq<char> {
        match self {
            IpVersion::V4 => "4"@,
            IpVersion::V6 => "6"@,
        }
    }

    /// The parameter value sent on the wire for this version.
    pub fn value(&self) -> (s: &'static str)
        ensures
            s@ == self.spec_value(),
    {
        match self {
            IpVersion::V4 => "4",
            IpVersion::V6 => "6",
        }
    }
}

/// One URL query parameter.
pub struct Param {
    pub name: String,
    pub value: String,
}

impl View for Param {
    type V = (Seq<char>, Seq<char>);

    open spec fn view(&self) -> (Seq<char>, Seq<char>) {
        (self.name@, self.value@)
    }
}

/// The full description of one outbound request: the endpoint and its query
/// parameters, in the order they are attached to the URL.
pub struct QueryPlan {
    pub endpoint: Endpoint,
    pub params: Vec<Param>,
}

impl QueryPlan {
    /// The name/value pairs of the parameters, in order.
    pub open spec fn params_view(&self) -> Seq<(Seq<char>, Seq<char>)> {
        self.params@.map_values(|p: Param| p@)
    }
}

pub open spec fn spec_url(e: Endpoint) -> Seq<char> {
    match e {
        Endpoint::CheckIp => "https://api.abuseipdb.com/api/v2/check"@,
        Endpoint::CheckBlock => "https://api.abuseipdb.com/api/v2/check-block"@,
        Endpoint::Blacklist => "https://api.abuseipdb.com/api/v2/blacklist"@,
    }
}

impl Endpoint {
    /// The fixed URL of this endpoint.
    pub fn url(&self) -> (s: &'static str)
        ensures
            s@ == spec_url(*self),
    {
        match self {
            Endpoint::CheckIp => "https://api.abuseipdb.com/api/v2/check",
            Endpoint::CheckBlock => "https://api.abuseipdb.com/api/v2/check-block",
            Endpoint::Blacklist => "https://api.abuseipdb.com/api/v2/blacklist",
        }
    }
}

/// The header field that carries the credential on every request.
pub fn credential_header_name() -> (s: &'static str)
    ensures
        s@ == "Key"@,
{
    "Key"
}

/// The parameters of one single-IP lookup: the address, the age window, and
/// the `verbose` flag present exactly when verbosity was asked for.
pub open spec fn check_ip_params(ip: Seq<char>, max_age: u16, verbose: bool) -> Seq<
    (Seq<char>, Seq<char>),
> {
    let base = seq![("ipAddress"@, ip), ("maxAgeInDays"@, dec_of(max_age as nat))];
    if verbose {
        base.push(("verbose"@, ""@))
    } else {
        base
    }
}

/// The parameters of one CIDR block lookup.
pub open spec fn check_block_params(subnet: Seq<char>, max_age: u16) -> Seq<
    (Seq<char>, Seq<char>),
> {
    seq![("network"@, subnet), ("maxAgeInDays"@, dec_of(max_age as nat))]
}

/// The parameters of one blacklist fetch: confidence floor and size limit
/// always, the `plaintext` flag and the version filter only when asked for.
pub open spec fn blacklist_params(
    min_confidence: u8,
    limit: u32,
    plain: bool,
    ip_version: Option<IpVersion>,
) -> Seq<(Seq<char>, Seq<char>)> {
    let base = seq![
        ("confidenceMinimum"@, dec_of(min_confidence as nat)),
        ("limit"@, dec_of(limit as nat)),
    ];
    let with_plain = if plain {
        base.push(("plaintext"@, ""@))
    } else {
        base
    };
    match ip_version {
        Some(v) => with_plain.push(("ipVersion"@, v.spec_value())),
        None => with_plain,
    }
}

fn param(name: &str, value: String) -> (p: Param)
    ensures
        p@ == (name@, value@),
{
    Param { name: String::from_str(name), value }
}

/// Builds the request for one single-IP lookup.
pub fn check_ip_query(ip: &str, max_age: u16, verbose: bool) -> (q: QueryPlan)
    ensures
        q.endpoint == Endpoint::CheckIp,
        q.params_view() == check_ip_params(ip@, max_age, verbose),
{
    let mut params: Vec<Param> = Vec::new();
    params.push(param("ipAddress", String::from_str(ip)));
    params.push(param("maxAgeInDays", u32_dec(max_age as u32)));
    if verbose {
        params.push(param("verbose", String::new()));
    }
    let q = QueryPlan { endpoint: Endpoint::CheckIp, params };
    proof {
        reveal_strlit("");
        assert(""@ =~= Seq::<char>::empty());
        assert(q.params_view() =~= check_ip_params(ip@, max_age, verbose));
    }
    q
}

/// Builds the request for one CIDR block lookup.
pub fn check_block_query(subnet: &str, max_age: u16) -> (q: QueryPlan)
    ensures
        q.endpoint == Endpoint::CheckBlock,
        q.params_view() == check_block_params(subnet@, max_age),
{
    let mut params: Vec<Param> = Vec::new();
    params.push(param("network", String::from_str(subnet)));
    params.push(param("maxAgeInDays", u32_dec(max_age as u32)));
    let q = QueryPlan { endpoint: Endpoint::CheckBlock, params };
    proof {
        assert(q.params_view() =~= check_block_params(subnet@, max_age));
    }
    q
}

/// Builds the request for one blacklist fetch.
pub fn blacklist_query(
    min_confidence: u8,
    limit: u32,
    plain: bool,
    ip_version: Option<IpVersion>,
) -> (q: QueryPlan)
    ensures
        q.endpoint == Endpoint::Blacklist,
        q.params_view() == blacklist_params(min_confidence, limit, plain, ip_version),
{
    let mut params: Vec<Param> = Vec::new();
    params.push(param("confidenceMinimum", u32_dec(min_confidence as u32)));
    params.push(param("limit", u32_dec(limit)));
    if plain {
        params.push(param("plaintext", String::new()));
    }
    match ip_version {
        Some(v) => params.push(param("ipVersion", String::from_str(v.value()))),
        None => (),
    }
    let q = QueryPlan { endpoint: Endpoint::Blacklist, params };
    proof {
        reveal_strlit("");
        assert(""@ =~= Seq::<char>::empty());
        assert(q.params_view() =~= blacklist_params(min_confidence, limit, plain, ip_version));
    }
    q
}

} // verus!
