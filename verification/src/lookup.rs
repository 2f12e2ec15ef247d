//! The canonical record, and one normaliser per provider: each maps that
//! provider's response shape onto the record, field by field.

use vstd::prelude::*;
use crate::json::{
    as_flag, as_bits, as_rendered, as_text, bits_field, first_present, flag_field_of, json_model,
    lemma_member_dropped, member, member_of, or_else, parse_document, parsed_document, pointer_target, rendered_field,
    rendered_field_of, text_field, text_field_of, text_of, text_view, value_get, value_pointer,
    JsonModel,
};
use crate::text::{first_part, float_bits, float_of, parse_coordinates, parse_float_of, second_part};

verus! {

/// Administrative descriptors of a place.
#[derive(Debug, Clone, PartialEq, Eq)]
pub struct CountryInfo {
    pub city: Option<String>,
    pub code: Option<String>,
    pub zip: Option<String>,
    pub timezone: Option<String>,
}

/// Geographic coordinates, each held as the IEEE-754 bits of a double.
#[derive(Debug, Clone, Copy, PartialEq, Eq)]
pub struct LocationInfo {
    pub latitude: Option<u64>,
    pub longitude: Option<u64>,
}

/// Classification flags of a connection.
#[derive(Debug, Clone, Copy, PartialEq, Eq)]
pub struct ConnectionInfo {
    pub is_proxy: Option<bool>,
    pub is_tor: Option<bool>,
    pub is_crawler: Option<bool>,
    pub is_datacenter: Option<bool>,
    pub is_vpn: Option<bool>,
}

/// Network identity.
#[derive(Debug, Clone, PartialEq, Eq)]
pub struct NetworkInfo {
    pub ip: Option<String>,
    pub isp: Option<String>,
    pub org: Option<String>,
    pub asn: Option<String>,
}

/// The canonical record: four groups, every field of which is present only
/// where the provider reported it.
#[derive(Debug, Clone, PartialEq, Eq)]
pub struct LookupResult {
    pub country: CountryInfo,
    pub location: LocationInfo,
    pub connection: ConnectionInfo,
    pub network: NetworkInfo,
}

/// What a `CountryInfo` holds.
pub struct CountryModel {
    pub city: Option<Seq<char>>,
    pub code: Option<Seq<char>>,
    pub zip: Option<Seq<char>>,
    pub timezone: Option<Seq<char>>,
}

/// What a `NetworkInfo` holds.
pub struct NetworkModel {
    pub ip: Option<Seq<char>>,
    pub isp: Option<Seq<char>>,
    pub org: Option<Seq<char>>,
    pub asn: Option<Seq<char>>,
}

/// What a `LookupResult` holds.
pub struct RecordModel {
    pub country: CountryModel,
    pub location: LocationInfo,
    pub connection: ConnectionInfo,
    pub network: NetworkModel,
}

impl View for CountryInfo {
    type V = CountryModel;

    open spec fn view(&self) -> CountryModel {
        CountryModel {
            city: text_view(self.city),
            code: text_view(self.code),
            zip: text_view(self.zip),
            timezone: text_view(self.timezone),
        }
    }
}

impl View for NetworkInfo {
    type V = NetworkModel;

    open spec fn view(&self) -> NetworkModel {
        NetworkModel {
            ip: text_view(self.ip),
            isp: text_view(self.isp),
            org: text_view(self.org),
            asn: text_view(self.asn),
        }
    }
}

impl View for LookupResult {
    type V = RecordModel;

    open spec fn view(&self) -> RecordModel {
        RecordModel {
            country: self.country@,
            location: self.location,
            connection: self.connection,
            network: self.network@,
        }
    }
}

/// The view of an optional record.
pub open spec fn record_view(r: Option<LookupResult>) -> Option<RecordModel> {
    match r {
        Some(x) => Some(x@),
        None => None,
    }
}

/// The connection group with every flag absent.
pub open spec fn no_flags() -> ConnectionInfo {
    ConnectionInfo { is_proxy: None, is_tor: None, is_crawler: None, is_datacenter: None, is_vpn: None }
}

/// The record with every field absent.
pub open spec fn empty_record() -> RecordModel {
    RecordModel {
        country: CountryModel { city: None, code: None, zip: None, timezone: None },
        location: LocationInfo { latitude: None, longitude: None },
        connection: no_flags(),
        network: NetworkModel { ip: None, isp: None, org: None, asn: None },
    }
}

impl Default for CountryInfo {
    fn default() -> (r: Self)
        ensures
            r@ == empty_record().country,
    {
        CountryInfo { city: None, code: None, zip: None, timezone: None }
    }
}

impl Default for LocationInfo {
    fn default() -> (r: Self)
        ensures
            r == empty_record().location,
    {
        LocationInfo { latitude: None, longitude: None }
    }
}

impl Default for ConnectionInfo {
    fn default() -> (r: Self)
        ensures
            r == no_flags(),
    {
        ConnectionInfo { is_proxy: None, is_tor: None, is_crawler: None, is_datacenter: None, is_vpn: None }
    }
}

impl Default for NetworkInfo {
    fn default() -> (r: Self)
        ensures
            r@ == empty_record().network,
    {
        NetworkInfo { ip: None, isp: None, org: None, asn: None }
    }
}

impl Default for LookupResult {
    fn default() -> (r: Self)
        ensures
            r@ == empty_record(),
    {
        LookupResult {
            country: CountryInfo { city: None, code: None, zip: None, timezone: None },
            location: LocationInfo { latitude: None, longitude: None },
            connection: ConnectionInfo { is_proxy: None, is_tor: None, is_crawler: None, is_datacenter: None, is_vpn: None },
            network: NetworkInfo { ip: None, isp: None, org: None, asn: None },
        }
    }
}

/// The string under a key of a document.
pub open spec fn text_at(doc: JsonModel, key: Seq<char>) -> Option<Seq<char>> {
    as_text(member(doc, key))
}

/// The number under a key of a document, as the bits of a double.
pub open spec fn bits_at(doc: JsonModel, key: Seq<char>) -> Option<u64> {
    as_bits(member(doc, key))
}

/// The JSON text of whatever stands under a key of a document.
pub open spec fn rendered_at(doc: JsonModel, key: Seq<char>) -> Option<Seq<char>> {
    as_rendered(member(doc, key))
}

/// The string under a key of an optional sub-document.
pub open spec fn text_in(parent: Option<JsonModel>, key: Seq<char>) -> Option<Seq<char>> {
    as_text(member_of(parent, key))
}

/// The boolean under a key of an optional sub-document.
pub open spec fn flag_in(parent: Option<JsonModel>, key: Seq<char>) -> Option<bool> {
    as_flag(member_of(parent, key))
}

/// The JSON text of whatever stands under a key of an optional sub-document.
pub open spec fn rendered_in(parent: Option<JsonModel>, key: Seq<char>) -> Option<Seq<char>> {
    as_rendered(member_of(parent, key))
}

/// Whether a document reports success in its `status` member.
pub open spec fn reports_success(doc: JsonModel) -> bool {
    text_at(doc, "status"@) == Some("success"@)
}

/// Whether a document's `status` member is the string `success`.
fn status_is_success(doc: &serde_json::Value) -> (r: bool)
    ensures
        r == reports_success(json_model(*doc)),
{
    match text_field(doc, "status") {
        Some(s) => s == String::from_str("success"),
        None => false,
    }
}

/// The record of a document from ipinfo.io: flat members; the coordinates come
/// combined in `loc`, and `org` serves as both provider and organisation.
pub open spec fn ipinfo_record(doc: JsonModel) -> Option<RecordModel> {
    let loc = match text_at(doc, "loc"@) {
        Some(s) => s,
        None => ""@,
    };
    Some(RecordModel {
        country: CountryModel {
            city: text_at(doc, "city"@),
            code: text_at(doc, "country"@),
            zip: text_at(doc, "postal"@),
            timezone: text_at(doc, "timezone"@),
        },
        location: LocationInfo {
            latitude: float_bits(first_part(loc)),
            longitude: float_of(second_part(loc)),
        },
        connection: no_flags(),
        network: NetworkModel {
            ip: text_at(doc, "ip"@),
            isp: text_at(doc, "org"@),
            org: text_at(doc, "org"@),
            asn: None,
        },
    })
}

/// Maps a parsed response of ipinfo.io onto the record.
pub fn normalize_ipinfo(doc: &serde_json::Value) -> (r: Option<LookupResult>)
    ensures
        record_view(r) == ipinfo_record(json_model(*doc)),
{
    let loc = match text_field(doc, "loc") {
        Some(s) => s,
        None => String::from_str(""),
    };
    let coordinates = parse_coordinates(loc.as_str());
    Some(LookupResult {
        country: CountryInfo {
            city: text_field(doc, "city"),
            code: text_field(doc, "country"),
            zip: text_field(doc, "postal"),
            timezone: text_field(doc, "timezone"),
        },
        location: LocationInfo { latitude: coordinates.0, longitude: coordinates.1 },
        connection: ConnectionInfo::default(),
        network: NetworkInfo {
            ip: text_field(doc, "ip"),
            isp: text_field(doc, "org"),
            org: text_field(doc, "org"),
            asn: None,
        },
    })
}

/// Parses a response body of ipinfo.io and maps it onto the record; a body that
/// is no JSON gives nothing.
pub fn lookup_with_ipinfo(body: &str) -> (r: Option<LookupResult>)
    ensures
        record_view(r) == match parsed_document(body@) {
            Some(doc) => ipinfo_record(doc),
            None => None,
        },
{
    match parse_document(body) {
        Some(doc) => normalize_ipinfo(&doc),
        None => None,
    }
}

/// The record of a document from ip-api.com: flat members behind a `status`
/// member that must be the string `success`.
pub open spec fn ipapi_record(doc: JsonModel) -> Option<RecordModel> {
    if !reports_success(doc) {
        None
    } else {
        Some(RecordModel {
            country: CountryModel {
                city: text_at(doc, "city"@),
                code: text_at(doc, "countryCode"@),
                zip: text_at(doc, "zip"@),
                timezone: text_at(doc, "timezone"@),
            },
            location: LocationInfo {
                latitude: bits_at(doc, "lat"@),
                longitude: bits_at(doc, "lon"@),
            },
            connection: no_flags(),
            network: NetworkModel {
                ip: text_at(doc, "query"@),
                isp: text_at(doc, "isp"@),
                org: text_at(doc, "org"@),
                asn: text_at(doc, "as"@),
            },
        })
    }
}

/// Maps a parsed response of ip-api.com onto the record.
pub fn normalize_ipapi(doc: &serde_json::Value) -> (r: Option<LookupResult>)
    ensures
        record_view(r) == ipapi_record(json_model(*doc)),
{
    if !status_is_success(doc) {
        return None;
    }
    Some(LookupResult {
        country: CountryInfo {
            city: text_field(doc, "city"),
            code: text_field(doc, "countryCode"),
            zip: text_field(doc, "zip"),
            timezone: text_field(doc, "timezone"),
        },
        location: LocationInfo {
            latitude: bits_field(doc, "lat"),
            longitude: bits_field(doc, "lon"),
        },
        connection: ConnectionInfo::default(),
        network: NetworkInfo {
            ip: text_field(doc, "query"),
            isp: text_field(doc, "isp"),
            org: text_field(doc, "org"),
            asn: text_field(doc, "as"),
        },
    })
}

/// Parses a response body of ip-api.com and maps it onto the record; a body that
/// is no JSON gives nothing.
pub fn lookup_with_ipapi(body: &str) -> (r: Option<LookupResult>)
    ensures
        record_view(r) == match parsed_document(body@) {
            Some(doc) => ipapi_record(doc),
            None => None,
        },
{
    match parse_document(body) {
        Some(doc) => normalize_ipapi(&doc),
        None => None,
    }
}

/// The record of a document from ip.sb: flat members; the system number is kept
/// as JSON text whatever its kind.
pub open spec fn ipsb_record(doc: JsonModel) -> Option<RecordModel> {
    Some(RecordModel {
        country: CountryModel {
            city: text_at(doc, "city"@),
            code: text_at(doc, "country_code"@),
            zip: text_at(doc, "postal_code"@),
            timezone: text_at(doc, "timezone"@),
        },
        location: LocationInfo {
            latitude: bits_at(doc, "latitude"@),
            longitude: bits_at(doc, "longitude"@),
        },
        connection: no_flags(),
        network: NetworkModel {
            ip: text_at(doc, "ip"@),
            isp: text_at(doc, "isp"@),
            org: text_at(doc, "organization"@),
            asn: rendered_at(doc, "asn"@),
        },
    })
}

/// Maps a parsed response of ip.sb onto the record.
pub fn normalize_ipsb(doc: &serde_json::Value) -> (r: Option<LookupResult>)
    ensures
        record_view(r) == ipsb_record(json_model(*doc)),
{
    Some(LookupResult {
        country: CountryInfo {
            city: text_field(doc, "city"),
            code: text_field(doc, "country_code"),
            zip: text_field(doc, "postal_code"),
            timezone: text_field(doc, "timezone"),
        },
        location: LocationInfo {
            latitude: bits_field(doc, "latitude"),
            longitude: bits_field(doc, "longitude"),
        },
        connection: ConnectionInfo::default(),
        network: NetworkInfo {
            ip: text_field(doc, "ip"),
            isp: text_field(doc, "isp"),
            org: text_field(doc, "organization"),
            asn: rendered_field(doc, "asn"),
        },
    })
}

/// Parses a response body of ip.sb and maps it onto the record; a body that
/// is no JSON gives nothing.
pub fn lookup_with_ipsb(body: &str) -> (r: Option<LookupResult>)
    ensures
        record_view(r) == match parsed_document(body@) {
            Some(doc) => ipsb_record(doc),
            None => None,
        },
{
    match parse_document(body) {
        Some(doc) => normalize_ipsb(&doc),
        None => None,
    }
}

/// The record of a document from ip-api.io: the place under a mandatory
/// `location` member, the flags under an optional `suspicious_factors` member.
pub open spec fn ipapiio_record(doc: JsonModel) -> Option<RecordModel> {
    let location = member(doc, "location"@);
    let factors = member(doc, "suspicious_factors"@);
    if location is None {
        None
    } else {
        Some(RecordModel {
            country: CountryModel {
                city: text_in(location, "city"@),
                code: text_in(location, "country_code"@),
                zip: text_in(location, "zip"@),
                timezone: text_in(location, "timezone"@),
            },
            location: LocationInfo {
                latitude: as_bits(member_of(location, "latitude"@)),
                longitude: as_bits(member_of(location, "longitude"@)),
            },
            connection: ConnectionInfo {
                is_proxy: flag_in(factors, "is_proxy"@),
                is_tor: flag_in(factors, "is_tor_node"@),
                is_crawler: flag_in(factors, "is_crawler"@),
                is_datacenter: flag_in(factors, "is_datacenter"@),
                is_vpn: flag_in(factors, "is_vpn"@),
            },
            network: NetworkModel { ip: text_at(doc, "ip"@), isp: None, org: None, asn: None },
        })
    }
}

/// Maps a parsed response of ip-api.io onto the record.
pub fn normalize_ipapiio(doc: &serde_json::Value) -> (r: Option<LookupResult>)
    ensures
        record_view(r) == ipapiio_record(json_model(*doc)),
{
    let location = match value_get(doc, "location") {
        Some(l) => l,
        None => { return None; },
    };
    let factors = value_get(doc, "suspicious_factors");
    Some(LookupResult {
        country: CountryInfo {
            city: text_field(location, "city"),
            code: text_field(location, "country_code"),
            zip: text_field(location, "zip"),
            timezone: text_field(location, "timezone"),
        },
        location: LocationInfo {
            latitude: bits_field(location, "latitude"),
            longitude: bits_field(location, "longitude"),
        },
        connection: ConnectionInfo {
            is_proxy: flag_field_of(factors, "is_proxy"),
            is_tor: flag_field_of(factors, "is_tor_node"),
            is_crawler: flag_field_of(factors, "is_crawler"),
            is_datacenter: flag_field_of(factors, "is_datacenter"),
            is_vpn: flag_field_of(factors, "is_vpn"),
        },
        network: NetworkInfo { ip: text_field(doc, "ip"), isp: None, org: None, asn: None },
    })
}

/// Parses a response body of ip-api.io and maps it onto the record; a body that
/// is no JSON gives nothing.
pub fn lookup_with_ipapiio(body: &str) -> (r: Option<LookupResult>)
    ensures
        record_view(r) == match parsed_document(body@) {
            Some(doc) => ipapiio_record(doc),
            None => None,
        },
{
    match parse_document(body) {
        Some(doc) => normalize_ipapiio(&doc),
        None => None,
    }
}

/// The record of a document from apip.cc: capitalised flat members behind a
/// `status` member that must be the string `success`; the coordinates come as
/// decimal text.
pub open spec fn apipcc_record(doc: JsonModel) -> Option<RecordModel> {
    if !reports_success(doc) {
        None
    } else {
        Some(RecordModel {
            country: CountryModel {
                city: text_at(doc, "City"@),
                code: text_at(doc, "CountryCode"@),
                zip: text_at(doc, "Postal"@),
                timezone: text_at(doc, "TimeZone"@),
            },
            location: LocationInfo {
                latitude: float_of(text_at(doc, "Latitude"@)),
                longitude: float_of(text_at(doc, "Longitude"@)),
            },
            connection: no_flags(),
            network: NetworkModel {
                ip: text_at(doc, "query"@),
                isp: None,
                org: text_at(doc, "org"@),
                asn: text_at(doc, "asn"@),
            },
        })
    }
}

/// Maps a parsed response of apip.cc onto the record.
pub fn normalize_apipcc(doc: &serde_json::Value) -> (r: Option<LookupResult>)
    ensures
        record_view(r) == apipcc_record(json_model(*doc)),
{
    if !status_is_success(doc) {
        return None;
    }
    Some(LookupResult {
        country: CountryInfo {
            city: text_field(doc, "City"),
            code: text_field(doc, "CountryCode"),
            zip: text_field(doc, "Postal"),
            timezone: text_field(doc, "TimeZone"),
        },
        location: LocationInfo {
            latitude: parse_float_of(text_field(doc, "Latitude")),
            longitude: parse_float_of(text_field(doc, "Longitude")),
        },
        connection: ConnectionInfo::default(),
        network: NetworkInfo {
            ip: text_field(doc, "query"),
            isp: None,
            org: text_field(doc, "org"),
            asn: text_field(doc, "asn"),
        },
    })
}

/// Parses a response body of apip.cc and maps it onto the record; a body that
/// is no JSON gives nothing.
pub fn lookup_with_apipcc(body: &str) -> (r: Option<LookupResult>)
    ensures
        record_view(r) == match parsed_document(body@) {
            Some(doc) => apipcc_record(doc),
            None => None,
        },
{
    match parse_document(body) {
        Some(doc) => normalize_apipcc(&doc),
        None => None,
    }
}

/// The record of a document from ipapi.is: the place under a mandatory
/// `location` member, the system number under a mandatory `asn` member; the
/// provider is the company's name or, failing that, the datacenter's.
pub open spec fn ipapiis_record(doc: JsonModel) -> Option<RecordModel> {
    let location = member(doc, "location"@);
    let asn = member(doc, "asn"@);
    let company = member(doc, "company"@);
    if location is None || asn is None {
        None
    } else {
        Some(RecordModel {
            country: CountryModel {
                city: text_in(location, "city"@),
                code: text_in(location, "country_code"@),
                zip: text_in(location, "zip"@),
                timezone: text_in(location, "timezone"@),
            },
            location: LocationInfo {
                latitude: as_bits(member_of(location, "latitude"@)),
                longitude: as_bits(member_of(location, "longitude"@)),
            },
            connection: no_flags(),
            network: NetworkModel {
                ip: text_at(doc, "ip"@),
                isp: as_text(
                    first_present(
                        member_of(company, "name"@),
                        member_of(member(doc, "datacenter"@), "datacenter"@),
                    ),
                ),
                org: text_in(company, "name"@),
                asn: rendered_in(asn, "asn"@),
            },
        })
    }
}

/// Maps a parsed response of ipapi.is onto the record.
pub fn normalize_ipapiis(doc: &serde_json::Value) -> (r: Option<LookupResult>)
    ensures
        record_view(r) == ipapiis_record(json_model(*doc)),
{
    let location = match value_get(doc, "location") {
        Some(l) => l,
        None => { return None; },
    };
    let asn = match value_get(doc, "asn") {
        Some(a) => a,
        None => { return None; },
    };
    let company = value_get(doc, "company");
    let company_name = match company {
        Some(c) => value_get(c, "name"),
        None => None,
    };
    let datacenter_name = match value_get(doc, "datacenter") {
        Some(d) => value_get(d, "datacenter"),
        None => None,
    };
    Some(LookupResult {
        country: CountryInfo {
            city: text_field(location, "city"),
            code: text_field(location, "country_code"),
            zip: text_field(location, "zip"),
            timezone: text_field(location, "timezone"),
        },
        location: LocationInfo {
            latitude: bits_field(location, "latitude"),
            longitude: bits_field(location, "longitude"),
        },
        connection: ConnectionInfo::default(),
        network: NetworkInfo {
            ip: text_field(doc, "ip"),
            isp: text_of(or_else(company_name, datacenter_name)),
            org: text_field_of(company, "name"),
            asn: rendered_field(asn, "asn"),
        },
    })
}

/// Parses a response body of ipapi.is and maps it onto the record; a body that
/// is no JSON gives nothing.
pub fn lookup_with_ipapiis(body: &str) -> (r: Option<LookupResult>)
    ensures
        record_view(r) == match parsed_document(body@) {
            Some(doc) => ipapiis_record(doc),
            None => None,
        },
{
    match parse_document(body) {
        Some(doc) => normalize_ipapiis(&doc),
        None => None,
    }
}

/// The record of a document from geolocated.io: the city is `cityName` or,
/// failing that, the country's capital; the timezone is `timeZone` or, failing
/// that, the zone name under `timeZoneInfo`; the network identity stands under
/// `connection`.
pub open spec fn geolocated_record(doc: JsonModel) -> Option<RecordModel> {
    let connection = member(doc, "connection"@);
    Some(RecordModel {
        country: CountryModel {
            city: as_text(
                first_present(member(doc, "cityName"@), pointer_target(doc, "/country/capital"@)),
            ),
            code: text_at(doc, "countryCode"@),
            zip: text_at(doc, "zipCode"@),
            timezone: as_text(
                first_present(
                    member(doc, "timeZone"@),
                    pointer_target(doc, "/timeZoneInfo/zoneName"@),
                ),
            ),
        },
        location: LocationInfo {
            latitude: bits_at(doc, "latitude"@),
            longitude: bits_at(doc, "longitude"@),
        },
        connection: no_flags(),
        network: NetworkModel {
            ip: text_at(doc, "ip"@),
            isp: text_in(connection, "isp"@),
            org: text_in(connection, "organization"@),
            asn: rendered_in(connection, "asn"@),
        },
    })
}

/// Maps a parsed response of geolocated.io onto the record.
pub fn normalize_geolocated(doc: &serde_json::Value) -> (r: Option<LookupResult>)
    ensures
        record_view(r) == geolocated_record(json_model(*doc)),
{
    let connection = value_get(doc, "connection");
    let city = or_else(value_get(doc, "cityName"), value_pointer(doc, "/country/capital"));
    let zone = or_else(value_get(doc, "timeZone"), value_pointer(doc, "/timeZoneInfo/zoneName"));
    Some(LookupResult {
        country: CountryInfo {
            city: text_of(city),
            code: text_field(doc, "countryCode"),
            zip: text_field(doc, "zipCode"),
            timezone: text_of(zone),
        },
        location: LocationInfo {
            latitude: bits_field(doc, "latitude"),
            longitude: bits_field(doc, "longitude"),
        },
        connection: ConnectionInfo::default(),
        network: NetworkInfo {
            ip: text_field(doc, "ip"),
            isp: text_field_of(connection, "isp"),
            org: text_field_of(connection, "organization"),
            asn: rendered_field_of(connection, "asn"),
        },
    })
}

/// Parses a response body of geolocated.io and maps it onto the record; a body that
/// is no JSON gives nothing.
pub fn lookup_with_geolocated(body: &str) -> (r: Option<LookupResult>)
    ensures
        record_view(r) == match parsed_document(body@) {
            Some(doc) => geolocated_record(doc),
            None => None,
        },
{
    match parse_document(body) {
        Some(doc) => normalize_geolocated(&doc),
        None => None,
    }
}

/// The record of a document from iplocationapi.net: the timezone's `id`, the
/// system's `number` and the connection's members each stand one level down.
pub open spec fn iplocationapi_record(doc: JsonModel) -> Option<RecordModel> {
    let connection = member(doc, "connection"@);
    Some(RecordModel {
        country: CountryModel {
            city: text_at(doc, "city"@),
            code: text_at(doc, "country_code"@),
            zip: text_at(doc, "postal_code"@),
            timezone: text_in(member(doc, "timezone"@), "id"@),
        },
        location: LocationInfo {
            latitude: bits_at(doc, "latitude"@),
            longitude: bits_at(doc, "longitude"@),
        },
        connection: no_flags(),
        network: NetworkModel {
            ip: text_at(doc, "ip"@),
            isp: text_in(connection, "isp"@),
            org: text_in(connection, "organization"@),
            asn: rendered_in(member(doc, "asn"@), "number"@),
        },
    })
}

/// Maps a parsed response of iplocationapi.net onto the record.
pub fn normalize_iplocationapi(doc: &serde_json::Value) -> (r: Option<LookupResult>)
    ensures
        record_view(r) == iplocationapi_record(json_model(*doc)),
{
    let connection = value_get(doc, "connection");
    Some(LookupResult {
        country: CountryInfo {
            city: text_field(doc, "city"),
            code: text_field(doc, "country_code"),
            zip: text_field(doc, "postal_code"),
            timezone: text_field_of(value_get(doc, "timezone"), "id"),
        },
        location: LocationInfo {
            latitude: bits_field(doc, "latitude"),
            longitude: bits_field(doc, "longitude"),
        },
        connection: ConnectionInfo::default(),
        network: NetworkInfo {
            ip: text_field(doc, "ip"),
            isp: text_field_of(connection, "isp"),
            org: text_field_of(connection, "organization"),
            asn: rendered_field_of(value_get(doc, "asn"), "number"),
        },
    })
}

/// Parses a response body of iplocationapi.net and maps it onto the record; a body that
/// is no JSON gives nothing.
pub fn lookup_with_iplocationapi(body: &str) -> (r: Option<LookupResult>)
    ensures
        record_view(r) == match parsed_document(body@) {
            Some(doc) => iplocationapi_record(doc),
            None => None,
        },
{
    match parse_document(body) {
        Some(doc) => normalize_iplocationapi(&doc),
        None => None,
    }
}

/// A document whose `status` member is missing, no string, or any string
/// but `success` gives nothing with the providers that report a status:
/// never a record built in part.
pub proof fn lemma_failure_status_gives_nothing(doc: JsonModel)
    requires
        !reports_success(doc),
    ensures
        ipapi_record(doc) is None,
        apipcc_record(doc) is None,
{
}

/// A field depends on the member it is read from and on no other: with the
/// member `gone` taken out of a document, the record keeps every field that
/// is not read from `gone`, and loses the plain fields that are.
pub proof fn lemma_ipinfo_member_dropped(fields: Map<Seq<char>, JsonModel>, gone: Seq<char>)
    ensures
        ({
            let before = ipinfo_record(JsonModel::Object(fields))->Some_0;
            let after = ipinfo_record(JsonModel::Object(fields.remove(gone)))->Some_0;
            &&& ipinfo_record(JsonModel::Object(fields.remove(gone))) is Some
            &&& after.country.city == if gone == "city"@ {
                None
            } else {
                before.country.city
            }
            &&& after.country.code == if gone == "country"@ {
                None
            } else {
                before.country.code
            }
            &&& after.country.zip == if gone == "postal"@ {
                None
            } else {
                before.country.zip
            }
            &&& after.country.timezone == if gone == "timezone"@ {
                None
            } else {
                before.country.timezone
            }
            &&& gone != "loc"@ ==> after.location.latitude == before.location.latitude
            &&& gone != "loc"@ ==> after.location.longitude == before.location.longitude
            &&& after.network.ip == if gone == "ip"@ {
                None
            } else {
                before.network.ip
            }
            &&& after.network.isp == if gone == "org"@ {
                None
            } else {
                before.network.isp
            }
            &&& after.network.org == if gone == "org"@ {
                None
            } else {
                before.network.org
            }
            &&& after.network.asn == before.network.asn
            &&& after.connection == before.connection
        }),
{
    lemma_member_dropped(fields, gone, "city"@);
    lemma_member_dropped(fields, gone, "country"@);
    lemma_member_dropped(fields, gone, "postal"@);
    lemma_member_dropped(fields, gone, "timezone"@);
    lemma_member_dropped(fields, gone, "loc"@);
    lemma_member_dropped(fields, gone, "ip"@);
    lemma_member_dropped(fields, gone, "org"@);
}

/// A field depends on the member it is read from and on no other: with the
/// member `gone` taken out of a document, which still reports
/// success, the record loses the fields read from `gone` and keeps every other.
pub proof fn lemma_ipapi_member_dropped(fields: Map<Seq<char>, JsonModel>, gone: Seq<char>)
    requires
        reports_success(JsonModel::Object(fields)),
        gone != "status"@,
    ensures
        ({
            let before = ipapi_record(JsonModel::Object(fields))->Some_0;
            let after = ipapi_record(JsonModel::Object(fields.remove(gone)))->Some_0;
            &&& ipapi_record(JsonModel::Object(fields.remove(gone))) is Some
            &&& after.country.city == if gone == "city"@ {
                None
            } else {
                before.country.city
            }
            &&& after.country.code == if gone == "countryCode"@ {
                None
            } else {
                before.country.code
            }
            &&& after.country.zip == if gone == "zip"@ {
                None
            } else {
                before.country.zip
            }
            &&& after.country.timezone == if gone == "timezone"@ {
                None
            } else {
                before.country.timezone
            }
            &&& after.location.latitude == if gone == "lat"@ {
                None
            } else {
                before.location.latitude
            }
            &&& after.location.longitude == if gone == "lon"@ {
                None
            } else {
                before.location.longitude
            }
            &&& after.network.ip == if gone == "query"@ {
                None
            } else {
                before.network.ip
            }
            &&& after.network.isp == if gone == "isp"@ {
                None
            } else {
                before.network.isp
            }
            &&& after.network.org == if gone == "org"@ {
                None
            } else {
                before.network.org
            }
            &&& after.network.asn == if gone == "as"@ {
                None
            } else {
                before.network.asn
            }
            &&& after.connection == before.connection
        }),
{
    lemma_member_dropped(fields, gone, "status"@);
    lemma_member_dropped(fields, gone, "city"@);
    lemma_member_dropped(fields, gone, "countryCode"@);
    lemma_member_dropped(fields, gone, "zip"@);
    lemma_member_dropped(fields, gone, "timezone"@);
    lemma_member_dropped(fields, gone, "lat"@);
    lemma_member_dropped(fields, gone, "lon"@);
    lemma_member_dropped(fields, gone, "query"@);
    lemma_member_dropped(fields, gone, "isp"@);
    lemma_member_dropped(fields, gone, "org"@);
    lemma_member_dropped(fields, gone, "as"@);
}

/// A field depends on the member it is read from and on no other: with the
/// member `gone` taken out of a document, the record loses the fields read
/// from `gone` and keeps every other.
pub proof fn lemma_ipsb_member_dropped(fields: Map<Seq<char>, JsonModel>, gone: Seq<char>)
    ensures
        ({
            let before = ipsb_record(JsonModel::Object(fields))->Some_0;
            let after = ipsb_record(JsonModel::Object(fields.remove(gone)))->Some_0;
            &&& ipsb_record(JsonModel::Object(fields.remove(gone))) is Some
            &&& after.country.city == if gone == "city"@ {
                None
            } else {
                before.country.city
            }
            &&& after.country.code == if gone == "country_code"@ {
                None
            } else {
                before.country.code
            }
            &&& after.country.zip == if gone == "postal_code"@ {
                None
            } else {
                before.country.zip
            }
            &&& after.country.timezone == if gone == "timezone"@ {
                None
            } else {
                before.country.timezone
            }
            &&& after.location.latitude == if gone == "latitude"@ {
                None
            } else {
                before.location.latitude
            }
            &&& after.location.longitude == if gone == "longitude"@ {
                None
            } else {
                before.location.longitude
            }
            &&& after.network.ip == if gone == "ip"@ {
                None
            } else {
                before.network.ip
            }
            &&& after.network.isp == if gone == "isp"@ {
                None
            } else {
                before.network.isp
            }
            &&& after.network.org == if gone == "organization"@ {
                None
            } else {
                before.network.org
            }
            &&& after.network.asn == if gone == "asn"@ {
                None
            } else {
                before.network.asn
            }
            &&& after.connection == before.connection
        }),
{
    lemma_member_dropped(fields, gone, "city"@);
    lemma_member_dropped(fields, gone, "country_code"@);
    lemma_member_dropped(fields, gone, "postal_code"@);
    lemma_member_dropped(fields, gone, "timezone"@);
    lemma_member_dropped(fields, gone, "latitude"@);
    lemma_member_dropped(fields, gone, "longitude"@);
    lemma_member_dropped(fields, gone, "ip"@);
    lemma_member_dropped(fields, gone, "isp"@);
    lemma_member_dropped(fields, gone, "organization"@);
    lemma_member_dropped(fields, gone, "asn"@);
}

/// A field depends on the member it is read from and on no other: with the
/// member `gone` taken out of a document, which still holds its
/// `location`, the record keeps the place, loses the address or the flags
/// where `gone` held them, and keeps every other field.
pub proof fn lemma_ipapiio_member_dropped(fields: Map<Seq<char>, JsonModel>, gone: Seq<char>)
    requires
        member(JsonModel::Object(fields), "location"@) is Some,
        gone != "location"@,
    ensures
        ({
            let before = ipapiio_record(JsonModel::Object(fields))->Some_0;
            let after = ipapiio_record(JsonModel::Object(fields.remove(gone)))->Some_0;
            &&& ipapiio_record(JsonModel::Object(fields.remove(gone))) is Some
            &&& after.country.city == before.country.city
            &&& after.country.code == before.country.code
            &&& after.country.zip == before.country.zip
            &&& after.country.timezone == before.country.timezone
            &&& after.location.latitude == before.location.latitude
            &&& after.location.longitude == before.location.longitude
            &&& after.network.ip == if gone == "ip"@ {
                None
            } else {
                before.network.ip
            }
            &&& after.network.isp == before.network.isp
            &&& after.network.org == before.network.org
            &&& after.network.asn == before.network.asn
            &&& gone != "suspicious_factors"@ ==> after.connection == before.connection
            &&& gone == "suspicious_factors"@ ==> after.connection == no_flags()
        }),
{
    lemma_member_dropped(fields, gone, "location"@);
    lemma_member_dropped(fields, gone, "suspicious_factors"@);
    lemma_member_dropped(fields, gone, "ip"@);
}

/// A field depends on the member it is read from and on no other: with the
/// member `gone` taken out of a document, which still reports
/// success, the record loses the fields read from `gone` and keeps every other.
pub proof fn lemma_apipcc_member_dropped(fields: Map<Seq<char>, JsonModel>, gone: Seq<char>)
    requires
        reports_success(JsonModel::Object(fields)),
        gone != "status"@,
    ensures
        ({
            let before = apipcc_record(JsonModel::Object(fields))->Some_0;
            let after = apipcc_record(JsonModel::Object(fields.remove(gone)))->Some_0;
            &&& apipcc_record(JsonModel::Object(fields.remove(gone))) is Some
            &&& after.country.city == if gone == "City"@ {
                None
            } else {
                before.country.city
            }
            &&& after.country.code == if gone == "CountryCode"@ {
                None
            } else {
                before.country.code
            }
            &&& after.country.zip == if gone == "Postal"@ {
                None
            } else {
                before.country.zip
            }
            &&& after.country.timezone == if gone == "TimeZone"@ {
                None
            } else {
                before.country.timezone
            }
            &&& after.location.latitude == if gone == "Latitude"@ {
                None
            } else {
                before.location.latitude
            }
            &&& after.location.longitude == if gone == "Longitude"@ {
                None
            } else {
                before.location.longitude
            }
            &&& after.network.ip == if gone == "query"@ {
                None
            } else {
                before.network.ip
            }
            &&& after.network.isp == before.network.isp
            &&& after.network.org == if gone == "org"@ {
                None
            } else {
                before.network.org
            }
            &&& after.network.asn == if gone == "asn"@ {
                None
            } else {
                before.network.asn
            }
            &&& after.connection == before.connection
        }),
{
    lemma_member_dropped(fields, gone, "status"@);
    lemma_member_dropped(fields, gone, "City"@);
    lemma_member_dropped(fields, gone, "CountryCode"@);
    lemma_member_dropped(fields, gone, "Postal"@);
    lemma_member_dropped(fields, gone, "TimeZone"@);
    lemma_member_dropped(fields, gone, "Latitude"@);
    lemma_member_dropped(fields, gone, "Longitude"@);
    lemma_member_dropped(fields, gone, "query"@);
    lemma_member_dropped(fields, gone, "org"@);
    lemma_member_dropped(fields, gone, "asn"@);
}

/// A field depends on the member it is read from and on no other: with the
/// member `gone` taken out of a document, which still holds its
/// `location` and `asn`, the record keeps the place and the system number,
/// and every other field that is not read from `gone`.
pub proof fn lemma_ipapiis_member_dropped(fields: Map<Seq<char>, JsonModel>, gone: Seq<char>)
    requires
        member(JsonModel::Object(fields), "location"@) is Some,
        member(JsonModel::Object(fields), "asn"@) is Some,
        gone != "location"@,
        gone != "asn"@,
    ensures
        ({
            let before = ipapiis_record(JsonModel::Object(fields))->Some_0;
            let after = ipapiis_record(JsonModel::Object(fields.remove(gone)))->Some_0;
            &&& ipapiis_record(JsonModel::Object(fields.remove(gone))) is Some
            &&& after.country.city == before.country.city
            &&& after.country.code == before.country.code
            &&& after.country.zip == before.country.zip
            &&& after.country.timezone == before.country.timezone
            &&& after.location.latitude == before.location.latitude
            &&& after.location.longitude == before.location.longitude
            &&& after.network.ip == if gone == "ip"@ {
                None
            } else {
                before.network.ip
            }
            &&& gone != "company"@ && gone != "datacenter"@ ==> after.network.isp == before.network.isp
            &&& after.network.org == if gone == "company"@ {
                None
            } else {
                before.network.org
            }
            &&& after.network.asn == before.network.asn
            &&& after.connection == before.connection
        }),
{
    lemma_member_dropped(fields, gone, "location"@);
    lemma_member_dropped(fields, gone, "asn"@);
    lemma_member_dropped(fields, gone, "company"@);
    lemma_member_dropped(fields, gone, "datacenter"@);
    lemma_member_dropped(fields, gone, "ip"@);
}

/// A field depends on the member it is read from and on no other: with the
/// member `gone` taken out of a document, the record loses the fields read
/// from `gone`, all of the network identity where `gone` is `connection`, and
/// keeps every other field that is read from a member.
pub proof fn lemma_geolocated_member_dropped(fields: Map<Seq<char>, JsonModel>, gone: Seq<char>)
    ensures
        ({
            let before = geolocated_record(JsonModel::Object(fields))->Some_0;
            let after = geolocated_record(JsonModel::Object(fields.remove(gone)))->Some_0;
            &&& geolocated_record(JsonModel::Object(fields.remove(gone))) is Some
            &&& after.country.code == if gone == "countryCode"@ {
                None
            } else {
                before.country.code
            }
            &&& after.country.zip == if gone == "zipCode"@ {
                None
            } else {
                before.country.zip
            }
            &&& after.location.latitude == if gone == "latitude"@ {
                None
            } else {
                before.location.latitude
            }
            &&& after.location.longitude == if gone == "longitude"@ {
                None
            } else {
                before.location.longitude
            }
            &&& after.network.ip == if gone == "ip"@ {
                None
            } else {
                before.network.ip
            }
            &&& after.network.isp == if gone == "connection"@ {
                None
            } else {
                before.network.isp
            }
            &&& after.network.org == if gone == "connection"@ {
                None
            } else {
                before.network.org
            }
            &&& after.network.asn == if gone == "connection"@ {
                None
            } else {
                before.network.asn
            }
            &&& after.connection == before.connection
        }),
{
    lemma_member_dropped(fields, gone, "countryCode"@);
    lemma_member_dropped(fields, gone, "zipCode"@);
    lemma_member_dropped(fields, gone, "latitude"@);
    lemma_member_dropped(fields, gone, "longitude"@);
    lemma_member_dropped(fields, gone, "ip"@);
    lemma_member_dropped(fields, gone, "connection"@);
}

/// A field depends on the member it is read from and on no other: with the
/// member `gone` taken out of a document, the record loses the fields read
/// from `gone` or from below it, and keeps every other.
pub proof fn lemma_iplocationapi_member_dropped(fields: Map<Seq<char>, JsonModel>, gone: Seq<char>)
    ensures
        ({
            let before = iplocationapi_record(JsonModel::Object(fields))->Some_0;
            let after = iplocationapi_record(JsonModel::Object(fields.remove(gone)))->Some_0;
            &&& iplocationapi_record(JsonModel::Object(fields.remove(gone))) is Some
            &&& after.country.city == if gone == "city"@ {
                None
            } else {
                before.country.city
            }
            &&& after.country.code == if gone == "country_code"@ {
                None
            } else {
                before.country.code
            }
            &&& after.country.zip == if gone == "postal_code"@ {
                None
            } else {
                before.country.zip
            }
            &&& after.country.timezone == if gone == "timezone"@ {
                None
            } else {
                before.country.timezone
            }
            &&& after.location.latitude == if gone == "latitude"@ {
                None
            } else {
                before.location.latitude
            }
            &&& after.location.longitude == if gone == "longitude"@ {
                None
            } else {
                before.location.longitude
            }
            &&& after.network.ip == if gone == "ip"@ {
                None
            } else {
                before.network.ip
            }
            &&& after.network.isp == if gone == "connection"@ {
                None
            } else {
                before.network.isp
            }
            &&& after.network.org == if gone == "connection"@ {
                None
            } else {
                before.network.org
            }
            &&& after.network.asn == if gone == "asn"@ {
                None
            } else {
                before.network.asn
            }
            &&& after.connection == before.connection
        }),
{
    lemma_member_dropped(fields, gone, "city"@);
    lemma_member_dropped(fields, gone, "country_code"@);
    lemma_member_dropped(fields, gone, "postal_code"@);
    lemma_member_dropped(fields, gone, "timezone"@);
    lemma_member_dropped(fields, gone, "latitude"@);
    lemma_member_dropped(fields, gone, "longitude"@);
    lemma_member_dropped(fields, gone, "ip"@);
    lemma_member_dropped(fields, gone, "connection"@);
    lemma_member_dropped(fields, gone, "asn"@);
}

} // verus!
