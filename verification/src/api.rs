//! The provider catalogue, dispatch to each provider's normaliser, and the
//! driver that runs the whole catalogue.

use vstd::prelude::*;
use crate::http::{usable_body, Reply};
use crate::json::{parsed_document, JsonModel};
use crate::lookup::{
    apipcc_record, geolocated_record, ipapi_record, ipapiio_record, ipapiis_record,
    ipinfo_record, iplocationapi_record, ipsb_record, lookup_with_apipcc,
    lookup_with_geolocated, lookup_with_ipapi, lookup_with_ipapiio, lookup_with_ipapiis,
    lookup_with_ipinfo, lookup_with_iplocationapi, lookup_with_ipsb, record_view, LookupResult,
    RecordModel,
};

verus! {

/// The supported geolocation providers.
#[derive(Debug, Copy, Clone, PartialEq, Eq, Structural)]
pub enum LookupProvider {
    IpApi,
    IpInfo,
    IpSb,
    IpApiIo,
    ApipCc,
    IpapiIs,
    Geolocated,
    IpLocationApi,
}

/// The catalogue: every provider once, in the order in which results are
/// reported.
pub open spec fn catalogue() -> Seq<LookupProvider> {
    seq![
        LookupProvider::IpApi,
        LookupProvider::IpInfo,
        LookupProvider::IpSb,
        LookupProvider::IpApiIo,
        LookupProvider::ApipCc,
        LookupProvider::IpapiIs,
        LookupProvider::Geolocated,
        LookupProvider::IpLocationApi,
    ]
}

/// The place of a provider in the catalogue.
pub open spec fn position(provider: LookupProvider) -> int {
    match provider {
        LookupProvider::IpApi => 0,
        LookupProvider::IpInfo => 1,
        LookupProvider::IpSb => 2,
        LookupProvider::IpApiIo => 3,
        LookupProvider::ApipCc => 4,
        LookupProvider::IpapiIs => 5,
        LookupProvider::Geolocated => 6,
        LookupProvider::IpLocationApi => 7,
    }
}

/// The catalogue is closed and free of repetition: every provider stands in
/// it, at one place only.
pub proof fn lemma_catalogue_complete(provider: LookupProvider)
    ensures
        0 <= position(provider) < catalogue().len(),
        catalogue()[position(provider)] == provider,
        forall|i: int|
            0 <= i < catalogue().len() && catalogue()[i] == provider ==> i == position(provider),
{
}

/// The record that a provider's normaliser makes of a parsed document.
pub open spec fn provider_record(provider: LookupProvider, doc: JsonModel) -> Option<RecordModel> {
    match provider {
        LookupProvider::IpApi => ipapi_record(doc),
        LookupProvider::IpInfo => ipinfo_record(doc),
        LookupProvider::IpSb => ipsb_record(doc),
        LookupProvider::IpApiIo => ipapiio_record(doc),
        LookupProvider::ApipCc => apipcc_record(doc),
        LookupProvider::IpapiIs => ipapiis_record(doc),
        LookupProvider::Geolocated => geolocated_record(doc),
        LookupProvider::IpLocationApi => iplocationapi_record(doc),
    }
}

/// The record that a provider's normaliser makes of a response body: nothing
/// where the body is no JSON.
pub open spec fn body_record(provider: LookupProvider, body: Seq<char>) -> Option<RecordModel> {
    match parsed_document(body) {
        Some(doc) => provider_record(provider, doc),
        None => None,
    }
}

/// The record that a provider's normaliser makes of a reply: nothing where
/// there was no answer or the status reports no success.
pub open spec fn reply_record(provider: LookupProvider, reply: Reply) -> Option<RecordModel> {
    match usable_body(reply) {
        Some(body) => body_record(provider, body),
        None => None,
    }
}

/// A body that is no JSON gives nothing, whichever the provider.
pub proof fn lemma_unparsed_gives_nothing(provider: LookupProvider, body: Seq<char>)
    requires
        parsed_document(body) is None,
    ensures
        body_record(provider, body) is None,
{
}

/// The address that a provider is asked at; one provider is asked about an
/// address, which then ends the path.
pub open spec fn url_of(provider: LookupProvider, address: Seq<char>) -> Seq<char> {
    match provider {
        LookupProvider::IpApi => "http://ip-api.com/json/"@,
        LookupProvider::IpInfo => "https://ipinfo.io/json"@,
        LookupProvider::IpSb => "https://api.ip.sb/geoip"@,
        LookupProvider::IpApiIo => "https://ip-api.io/api/v1/ip"@,
        LookupProvider::ApipCc => "https://apip.cc/api-json/"@ + address,
        LookupProvider::IpapiIs => "https://api.ipapi.is"@,
        LookupProvider::Geolocated => "https://us-west-1.geolocated.io/where-am-i"@,
        LookupProvider::IpLocationApi => "https://api.iplocationapi.net/api/self-lookup"@,
    }
}

impl LookupProvider {
    /// Every provider, in catalogue order.
    pub fn all() -> (r: &'static [LookupProvider])
        ensures
            r@ == catalogue(),
    {
        let r: &'static [LookupProvider] = &[
            LookupProvider::IpApi,
            LookupProvider::IpInfo,
            LookupProvider::IpSb,
            LookupProvider::IpApiIo,
            LookupProvider::ApipCc,
            LookupProvider::IpapiIs,
            LookupProvider::Geolocated,
            LookupProvider::IpLocationApi,
        ];
        assert(r@ =~= catalogue());
        r
    }

    /// Whether the provider must be told the caller's address.
    pub fn needs_address(self) -> (r: bool)
        ensures
            r == (self == LookupProvider::ApipCc),
    {
        match self {
            LookupProvider::ApipCc => true,
            _ => false,
        }
    }

    /// The address to request; `address` is the caller's own public address,
    /// read only for the provider that needs it.
    pub fn url(self, address: &str) -> (r: String)
        ensures
            r@ == url_of(self, address@),
    {
        match self {
            LookupProvider::IpApi => String::from_str("http://ip-api.com/json/"),
            LookupProvider::IpInfo => String::from_str("https://ipinfo.io/json"),
            LookupProvider::IpSb => String::from_str("https://api.ip.sb/geoip"),
            LookupProvider::IpApiIo => String::from_str("https://ip-api.io/api/v1/ip"),
            LookupProvider::ApipCc => String::from_str("https://apip.cc/api-json/").concat(address),
            LookupProvider::IpapiIs => String::from_str("https://api.ipapi.is"),
            LookupProvider::Geolocated => String::from_str(
                "https://us-west-1.geolocated.io/where-am-i",
            ),
            LookupProvider::IpLocationApi => String::from_str(
                "https://api.iplocationapi.net/api/self-lookup",
            ),
        }
    }
}

/// Runs the normaliser of `provider` on a response body.
pub fn lookup(provider: LookupProvider, body: &str) -> (r: Option<LookupResult>)
    ensures
        record_view(r) == body_record(provider, body@),
{
    match provider {
        LookupProvider::IpApi => lookup_with_ipapi(body),
        LookupProvider::IpInfo => lookup_with_ipinfo(body),
        LookupProvider::IpSb => lookup_with_ipsb(body),
        LookupProvider::IpApiIo => lookup_with_ipapiio(body),
        LookupProvider::ApipCc => lookup_with_apipcc(body),
        LookupProvider::IpapiIs => lookup_with_ipapiis(body),
        LookupProvider::Geolocated => lookup_with_geolocated(body),
        LookupProvider::IpLocationApi => lookup_with_iplocationapi(body),
    }
}

/// Runs the normaliser of `provider` on a reply; every kind of failure gives
/// the same nothing.
pub fn lookup_reply(provider: LookupProvider, reply: &Reply) -> (r: Option<LookupResult>)
    ensures
        record_view(r) == reply_record(provider, *reply),
{
    match reply.body() {
        Some(body) => lookup(provider, body),
        None => None,
    }
}

/// What one provider gave: a record, or nothing.
#[derive(Debug, Clone, PartialEq, Eq)]
pub struct ProviderOutcome {
    pub provider: LookupProvider,
    pub result: Option<LookupResult>,
}

/// What the driver reports for the provider at place `i` of the catalogue,
/// given the replies in catalogue order: a provider without a reply failed.
pub open spec fn outcome_at(replies: Seq<Reply>, i: int) -> Option<RecordModel> {
    if 0 <= i < replies.len() && i < catalogue().len() {
        reply_record(catalogue()[i], replies[i])
    } else {
        None
    }
}

/// Whether at least one outcome holds a record.
pub open spec fn some_succeeded(outcomes: Seq<ProviderOutcome>) -> bool {
    exists|i: int| 0 <= i < outcomes.len() && (#[trigger] outcomes[i]).result is Some
}

/// Runs every provider's normaliser on its reply, `replies[i]` being the
/// reply of the provider at place `i` of the catalogue. The report names
/// every provider once, in catalogue order, whatever failed before it.
pub fn lookup_all(replies: &Vec<Reply>) -> (r: Vec<ProviderOutcome>)
    ensures
        r@.len() == catalogue().len(),
        forall|i: int|
            0 <= i < r@.len() ==> (#[trigger] r@[i]).provider == catalogue()[i] && record_view(
                r@[i].result,
            ) == outcome_at(replies@, i),
{
    let providers: &[LookupProvider] = LookupProvider::all();
    let mut report: Vec<ProviderOutcome> = Vec::new();
    let mut i: usize = 0;
    while i < providers.len()
        invariant
            providers@ == catalogue(),
            i <= providers@.len(),
            report@.len() == i,
            forall|k: int|
                0 <= k < i ==> (#[trigger] report@[k]).provider == catalogue()[k] && record_view(
                    report@[k].result,
                ) == outcome_at(replies@, k),
        decreases providers@.len() - i,
    {
        let provider = providers[i];
        let result = if i < replies.len() {
            lookup_reply(provider, &replies[i])
        } else {
            None
        };
        report.push(ProviderOutcome { provider, result });
        i += 1;
    }
    report
}

/// The aggregate flag of a report: whether any provider gave a record.
pub fn any_success(outcomes: &Vec<ProviderOutcome>) -> (r: bool)
    ensures
        r == some_succeeded(outcomes@),
{
    let mut i: usize = 0;
    while i < outcomes.len()
        invariant
            i <= outcomes@.len(),
            forall|k: int| 0 <= k < i ==> (#[trigger] outcomes@[k]).result is None,
        decreases outcomes@.len() - i,
    {
        if outcomes[i].result.is_some() {
            return true;
        }
        i += 1;
    }
    false
}

/// The aggregate flag of a run over the whole catalogue is set exactly when
/// some provider's reply normalises to a record.
pub proof fn lemma_flag_counts_records(replies: Seq<Reply>, outcomes: Seq<ProviderOutcome>)
    requires
        outcomes.len() == catalogue().len(),
        forall|i: int|
            0 <= i < outcomes.len() ==> record_view((#[trigger] outcomes[i]).result) == outcome_at(
                replies,
                i,
            ),
    ensures
        some_succeeded(outcomes) <==> exists|i: int|
            0 <= i < catalogue().len() && (#[trigger] outcome_at(replies, i)) is Some,
{
    if some_succeeded(outcomes) {
        let i = choose|i: int| 0 <= i < outcomes.len() && (#[trigger] outcomes[i]).result is Some;
        assert(outcome_at(replies, i) is Some);
    }
    if exists|i: int| 0 <= i < catalogue().len() && (#[trigger] outcome_at(replies, i)) is Some {
        let i = choose|i: int|
            0 <= i < catalogue().len() && (#[trigger] outcome_at(replies, i)) is Some;
        assert(outcomes[i].result is Some);
    }
}

} // verus!
