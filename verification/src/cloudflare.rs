//! The zone-based backend: records live in a zone, the zone is found by the
//! name of its root domain, and every request carries a bearer token. Bodies
//! are JSON in both directions.

use crate::domain::zone_name;
use crate::error::{DnsError, DnsErrorView, text_view};
use crate::http::{
    HttpMethod, HttpRequest, HttpRequestView, Payload, PayloadView, RecordPayload,
    RecordPayloadView, Reply, pair,
};
use crate::provider::DnsProvider;
use crate::record::{DnsRecord, DnsRecordView, IpFamily, get_record_type, record_type_of};
use crate::text::{
    decimal, join_with, lemma_last_index_of, lemma_split_last_two, lemma_split_len, render_i32,
    scan_separators,
};
use crate::zone_cache::{ZoneKey, ZoneResolutionCache, after_lookup};
use vstd::prelude::*;

verus! {

/// One error entry of a response.
#[derive(Clone, Debug, PartialEq, Eq)]
pub struct CloudflareError {
    pub code: i32,
    pub message: String,
}

/// One record as the provider lists it.
#[derive(Clone, Debug, PartialEq, Eq)]
pub struct CloudflareRecord {
    pub id: String,
    pub name: String,
    pub record_type: String,
    pub content: String,
    pub ttl: u32,
    pub proxied: bool,
}

/// One zone as the provider lists it.
#[derive(Clone, Debug, PartialEq, Eq)]
pub struct CloudflareZone {
    pub id: String,
    pub name: String,
}

/// The answer to a request that lists records.
#[derive(Clone, Debug, PartialEq, Eq)]
pub struct CloudflareListResponse {
    pub success: bool,
    pub errors: Vec<CloudflareError>,
    pub result: Vec<CloudflareRecord>,
}

/// The answer to a request that creates or patches one record.
#[derive(Clone, Debug, PartialEq, Eq)]
pub struct CloudflareRecordResponse {
    pub success: bool,
    pub errors: Vec<CloudflareError>,
    pub result: CloudflareRecord,
}

/// The answer to a request that lists zones.
#[derive(Clone, Debug, PartialEq, Eq)]
pub struct CloudflareZoneListResponse {
    pub success: bool,
    pub errors: Vec<CloudflareError>,
    pub result: Vec<CloudflareZone>,
}

/// One reported error as text: its code, a colon and a space, its message.
pub open spec fn fault_line(error: CloudflareError) -> Seq<char> {
    decimal(error.code as int) + ": "@ + error.message@
}

/// The reported errors as texts, in order.
pub open spec fn fault_lines(errors: Seq<CloudflareError>) -> Seq<Seq<char>> {
    Seq::new(errors.len(), |i: int| fault_line(errors[i]))
}

/// What a rejection carries: every reported error, separated by a comma and a
/// space.
pub open spec fn rejection_detail(errors: Seq<CloudflareError>) -> Seq<char> {
    join_with(fault_lines(errors), ", "@)
}

/// Renders the errors of a rejected request.
pub fn describe_rejection(errors: &Vec<CloudflareError>) -> (detail: String)
    ensures
        detail@ == rejection_detail(errors@),
{
    let mut out = String::new();
    let mut i: usize = 0;
    assert(fault_lines(errors@.take(0)) =~= Seq::<Seq<char>>::empty());
    while i < errors.len()
        invariant
            i <= errors@.len(),
            out@ == join_with(fault_lines(errors@.take(i as int)), ", "@),
        decreases errors@.len() - i,
    {
        let ghost before = fault_lines(errors@.take(i as int));
        let ghost after = fault_lines(errors@.take(i + 1));
        proof {
            assert(after.drop_last() =~= before);
            assert(after.last() == fault_line(errors@[i as int]));
        }
        if i > 0 {
            out.append(", ");
        }
        let code = render_i32(errors[i].code);
        out.append(code.as_str());
        out.append(": ");
        out.append(errors[i].message.as_str());
        proof {
            if i == 0 {
                assert(out@ =~= fault_line(errors@[i as int]));
            } else {
                assert(out@ =~= join_with(before, ", "@) + ", "@ + fault_line(errors@[i as int]));
            }
        }
        i = i + 1;
    }
    assert(errors@.take(i as int) == errors@);
    out
}

/// The two headers that every request of this backend carries.
pub open spec fn auth_headers(token: Seq<char>) -> Seq<(Seq<char>, Seq<char>)> {
    seq![
        ("Authorization"@, "Bearer "@ + token),
        ("Content-Type"@, "application/json"@),
    ]
}

/// The request that lists the zones named `zone`.
pub open spec fn zone_query(token: Seq<char>, zone: Seq<char>) -> HttpRequestView {
    HttpRequestView {
        method: HttpMethod::Get,
        url: "https://api.cloudflare.com/client/v4/zones?name="@ + zone,
        headers: auth_headers(token),
        payload: PayloadView::Empty,
    }
}

/// The address of the records of a zone.
pub open spec fn records_url(zone_id: Seq<char>) -> Seq<char> {
    "https://api.cloudflare.com/client/v4/zones/"@ + zone_id + "/dns_records"@
}

/// The body of a create or patch request: the record type of the address
/// family, automatic TTL, proxying off.
pub open spec fn record_payload(
    name: Seq<char>,
    ip: Seq<char>,
    family: IpFamily,
) -> RecordPayloadView {
    RecordPayloadView {
        record_type: record_type_of(family),
        name,
        content: ip,
        ttl: 1,
        proxied: false,
    }
}

/// What a zone-list reply means: the identifier of the first listed zone; an
/// error where the request failed, the body was malformed, the provider
/// rejected the request, or no zone is listed.
pub open spec fn zone_outcome(zone: Seq<char>, reply: Reply<CloudflareZoneListResponse>) -> Result<
    Seq<char>,
    DnsErrorView,
> {
    match reply {
        Reply::Failed { detail } => Err(DnsErrorView::OperationFailed { detail: detail@ }),
        Reply::Malformed { body, reason } => Err(
            DnsErrorView::MalformedResponse { body: body@, reason: reason@ },
        ),
        Reply::Decoded { value } => if !value.success {
            Err(DnsErrorView::ProviderRejected { detail: rejection_detail(value.errors@) })
        } else if value.result@.len() == 0 {
            Err(DnsErrorView::NoZoneFound { zone })
        } else {
            Ok(value.result@[0].id@)
        },
    }
}

/// What a record-list reply means: the first listed record; `None` for an
/// empty list; an error where the request failed, the body was malformed or
/// the provider rejected the request.
pub open spec fn list_outcome(reply: Reply<CloudflareListResponse>) -> Result<
    Option<DnsRecordView>,
    DnsErrorView,
> {
    match reply {
        Reply::Failed { detail } => Err(DnsErrorView::OperationFailed { detail: detail@ }),
        Reply::Malformed { body, reason } => Err(
            DnsErrorView::MalformedResponse { body: body@, reason: reason@ },
        ),
        Reply::Decoded { value } => if !value.success {
            Err(DnsErrorView::ProviderRejected { detail: rejection_detail(value.errors@) })
        } else if value.result@.len() == 0 {
            Ok(None)
        } else {
            Ok(
                Some(
                    DnsRecordView {
                        id: value.result@[0].id@,
                        name: value.result@[0].name@,
                        value: value.result@[0].content@,
                        record_type: value.result@[0].record_type@,
                    },
                ),
            )
        },
    }
}

/// What the reply to a create or patch request means: success where the
/// provider says so; an error where the request failed, the body was
/// malformed or the provider rejected the request.
pub open spec fn mutation_outcome(reply: Reply<CloudflareRecordResponse>) -> Result<
    (),
    DnsErrorView,
> {
    match reply {
        Reply::Failed { detail } => Err(DnsErrorView::OperationFailed { detail: detail@ }),
        Reply::Malformed { body, reason } => Err(
            DnsErrorView::MalformedResponse { body: body@, reason: reason@ },
        ),
        Reply::Decoded { value } => if value.success {
            Ok(())
        } else {
            Err(DnsErrorView::ProviderRejected { detail: rejection_detail(value.errors@) })
        },
    }
}

/// A backend instance before its zone is known: the API token and the
/// fully-qualified name of the record it manages.
#[derive(Clone, Debug, PartialEq, Eq)]
pub struct CloudflareProvider {
    api_token: String,
    record_name: String,
}

/// A `CloudflareProvider` with its texts as character sequences.
pub struct CloudflareProviderView {
    pub api_token: Seq<char>,
    pub record_name: Seq<char>,
}

impl View for CloudflareProvider {
    type V = CloudflareProviderView;

    closed spec fn view(&self) -> CloudflareProviderView {
        CloudflareProviderView { api_token: self.api_token@, record_name: self.record_name@ }
    }
}

/// How the zone of a provider is found.
#[derive(Clone, Debug, PartialEq, Eq)]
pub enum ZoneLookup {
    /// The cache holds the identifier; nothing is to be sent.
    Cached { zone_id: String },
    /// The cache does not hold it; `request` asks the provider.
    Query { request: HttpRequest },
}

/// A `ZoneLookup` with its parts as views.
pub enum ZoneLookupView {
    Cached { zone_id: Seq<char> },
    Query { request: HttpRequestView },
}

impl View for ZoneLookup {
    type V = ZoneLookupView;

    open spec fn view(&self) -> ZoneLookupView {
        match self {
            ZoneLookup::Cached { zone_id } => ZoneLookupView::Cached { zone_id: zone_id@ },
            ZoneLookup::Query { request } => ZoneLookupView::Query { request: request@ },
        }
    }
}

/// The key under which the zone of a provider is cached.
pub open spec fn zone_key(p: CloudflareProviderView) -> ZoneKey {
    (p.api_token, zone_name(p.record_name))
}

/// How the zone of `p` is found with what `cache` holds: from the cache
/// where it has the key, by a query otherwise.
pub open spec fn zone_lookup(
    p: CloudflareProviderView,
    cache: Map<ZoneKey, Seq<char>>,
) -> ZoneLookupView {
    if cache.contains_key(zone_key(p)) {
        ZoneLookupView::Cached { zone_id: cache[zone_key(p)] }
    } else {
        ZoneLookupView::Query { request: zone_query(p.api_token, zone_name(p.record_name)) }
    }
}

/// The headers of a request authenticated by `token`.
fn headers_for(token: &str) -> (headers: Vec<(String, String)>)
    ensures
        headers.deep_view() == auth_headers(token@),
{
    let mut bearer = String::from_str("Bearer ");
    bearer.append(token);
    let mut headers: Vec<(String, String)> = Vec::new();
    headers.push(pair("Authorization", bearer.as_str()));
    headers.push(pair("Content-Type", "application/json"));
    assert(headers.deep_view() =~= auth_headers(token@));
    headers
}

/// The error that a reply without a decoded body stands for.
fn failure_of<T>(reply: &Reply<T>) -> (e: DnsError)
    requires
        !(reply is Decoded),
    ensures
        reply matches Reply::Failed { detail } ==> e@ == (DnsErrorView::OperationFailed {
            detail: detail@,
        }),
        reply matches Reply::Malformed { body, reason } ==> e@ == (DnsErrorView::MalformedResponse {
            body: body@,
            reason: reason@,
        }),
{
    match reply {
        Reply::Failed { detail } => DnsError::OperationFailed { detail: detail.clone() },
        Reply::Malformed { body, reason } => DnsError::MalformedResponse {
            body: body.clone(),
            reason: reason.clone(),
        },
        Reply::Decoded { value } => DnsError::OperationFailed { detail: String::new() },
    }
}

impl CloudflareProvider {
    /// A backend for the record `record_name`, authenticated by `api_token`.
    pub fn new(api_token: String, record_name: String) -> (p: Self)
        ensures
            p@ == (CloudflareProviderView { api_token: api_token@, record_name: record_name@ }),
    {
        CloudflareProvider { api_token, record_name }
    }

    /// The root domain of a record name: its last two labels, or the whole
    /// name where it has fewer than two.
    pub fn extract_zone_name(record_name: &str) -> (zone: String)
        ensures
            zone@ == zone_name(record_name@),
    {
        let scan = scan_separators(record_name, '.');
        proof {
            lemma_split_len(record_name@, '.');
            lemma_last_index_of(record_name@, '.');
        }
        match scan.last {
            None => String::from_str(record_name),
            Some(last) => {
                proof {
                    lemma_split_last_two(record_name@, '.');
                    assert(record_name@.skip(0) == record_name@);
                    assert(scan.prev matches Some(prev) ==> record_name@.subrange(
                        prev + 1,
                        scan.len as int,
                    ) == record_name@.skip(prev + 1));
                }
                match scan.prev {
                    None => String::from_str(record_name),
                    Some(prev) => String::from_str(
                        record_name.substring_char(prev + 1, scan.len),
                    ),
                }
            },
        }
    }

    /// Finds the zone of the record: in the cache where it is there, and by
    /// the request that lists the zones of the record's root domain
    /// otherwise.
    pub fn get_zone_id(&self, cache: &ZoneResolutionCache) -> (lookup: ZoneLookup)
        ensures
            lookup@ == zone_lookup(self@, cache@),
    {
        let zone = Self::extract_zone_name(self.record_name.as_str());
        match cache.get(self.api_token.as_str(), zone.as_str()) {
            Some(zone_id) => ZoneLookup::Cached { zone_id },
            None => {
                let mut url = String::from_str("https://api.cloudflare.com/client/v4/zones?name=");
                url.append(zone.as_str());
                ZoneLookup::Query {
                    request: HttpRequest {
                        method: HttpMethod::Get,
                        url,
                        headers: headers_for(self.api_token.as_str()),
                        payload: Payload::Empty,
                    },
                }
            },
        }
    }

    /// Reads the reply to the query of `get_zone_id`. Where it names a zone,
    /// its identifier is returned and cached; where it does not, the cache is
    /// left as it was.
    pub fn read_zone_id(
        &self,
        cache: &mut ZoneResolutionCache,
        reply: &Reply<CloudflareZoneListResponse>,
    ) -> (r: Result<String, DnsError>)
        ensures
            text_view(r) == zone_outcome(zone_name(self@.record_name), *reply),
            final(cache)@ == after_lookup(old(cache)@, zone_key(self@), text_view(r)),
    {
        match reply {
            Reply::Decoded { value } => {
                let zone = Self::extract_zone_name(self.record_name.as_str());
                if !value.success {
                    Err(DnsError::ProviderRejected { detail: describe_rejection(&value.errors) })
                } else if value.result.len() == 0 {
                    Err(DnsError::NoZoneFound { zone })
                } else {
                    let zone_id = value.result[0].id.clone();
                    cache.insert(self.api_token.as_str(), zone.as_str(), zone_id.clone());
                    Ok(zone_id)
                }
            },
            _ => Err(failure_of(reply)),
        }
    }

    /// The provider with its zone resolved.
    pub fn in_zone(&self, zone_id: String) -> (zoned: ZonedCloudflare)
        ensures
            zoned@ == (ZonedCloudflareView {
                api_token: self@.api_token,
                record_name: self@.record_name,
                zone_id: zone_id@,
            }),
    {
        ZonedCloudflare {
            api_token: self.api_token.clone(),
            record_name: self.record_name.clone(),
            zone_id,
        }
    }
}

/// A backend instance whose zone is known.
#[derive(Clone, Debug, PartialEq, Eq)]
pub struct ZonedCloudflare {
    api_token: String,
    record_name: String,
    zone_id: String,
}

/// A `ZonedCloudflare` with its texts as character sequences.
pub struct ZonedCloudflareView {
    pub api_token: Seq<char>,
    pub record_name: Seq<char>,
    pub zone_id: Seq<char>,
}

impl View for ZonedCloudflare {
    type V = ZonedCloudflareView;

    closed spec fn view(&self) -> ZonedCloudflareView {
        ZonedCloudflareView {
            api_token: self.api_token@,
            record_name: self.record_name@,
            zone_id: self.zone_id@,
        }
    }
}

/// The request that lists the records named `p.record_name` of any of the
/// three supported types.
pub open spec fn list_request(p: ZonedCloudflareView) -> HttpRequestView {
    HttpRequestView {
        method: HttpMethod::Get,
        url: records_url(p.zone_id) + "?name="@ + p.record_name + "&type=CNAME,A,AAAA"@,
        headers: auth_headers(p.api_token),
        payload: PayloadView::Empty,
    }
}

/// The request that patches `record` to hold `ip`.
pub open spec fn patch_request(
    p: ZonedCloudflareView,
    ip: Seq<char>,
    family: IpFamily,
    record: DnsRecordView,
) -> HttpRequestView {
    HttpRequestView {
        method: HttpMethod::Patch,
        url: records_url(p.zone_id) + "/"@ + record.id,
        headers: auth_headers(p.api_token),
        payload: PayloadView::Json { record: record_payload(p.record_name, ip, family) },
    }
}

/// The request that creates the record with value `ip`.
pub open spec fn create_request(
    p: ZonedCloudflareView,
    ip: Seq<char>,
    family: IpFamily,
) -> HttpRequestView {
    HttpRequestView {
        method: HttpMethod::Post,
        url: records_url(p.zone_id),
        headers: auth_headers(p.api_token),
        payload: PayloadView::Json { record: record_payload(p.record_name, ip, family) },
    }
}

impl ZonedCloudflare {
    /// The address of the records of the provider's zone.
    fn records_address(&self) -> (url: String)
        ensures
            url@ == records_url(self@.zone_id),
    {
        let mut url = String::from_str("https://api.cloudflare.com/client/v4/zones/");
        url.append(self.zone_id.as_str());
        url.append("/dns_records");
        url
    }

    /// The body that sets the record to `current_ip`.
    fn payload_for(&self, current_ip: &str, family: IpFamily) -> (payload: Payload)
        ensures
            payload@ == (PayloadView::Json {
                record: record_payload(self@.record_name, current_ip@, family),
            }),
    {
        Payload::Json {
            record: RecordPayload {
                record_type: String::from_str(get_record_type(family)),
                name: self.record_name.clone(),
                content: String::from_str(current_ip),
                ttl: 1,
                proxied: false,
            },
        }
    }

    /// Reads the reply to a create or patch request.
    fn read_mutation(reply: &Reply<CloudflareRecordResponse>) -> (r: Result<(), DnsError>)
        ensures
            crate::provider::mutated_view(r) == mutation_outcome(*reply),
    {
        match reply {
            Reply::Decoded { value } => {
                if value.success {
                    Ok(())
                } else {
                    Err(DnsError::ProviderRejected { detail: describe_rejection(&value.errors) })
                }
            },
            _ => Err(failure_of(reply)),
        }
    }
}

impl DnsProvider for ZonedCloudflare {
    type Listing = CloudflareListResponse;

    type Receipt = Reply<CloudflareRecordResponse>;

    open spec fn fetch_request(&self) -> HttpRequestView {
        list_request(self@)
    }

    open spec fn fetch_outcome(&self, reply: Reply<CloudflareListResponse>) -> Result<
        Option<DnsRecordView>,
        DnsErrorView,
    > {
        list_outcome(reply)
    }

    open spec fn modify_request(
        &self,
        ip: Seq<char>,
        family: IpFamily,
        record: DnsRecordView,
    ) -> HttpRequestView {
        patch_request(self@, ip, family, record)
    }

    open spec fn modified_outcome(&self, receipt: Reply<CloudflareRecordResponse>) -> Result<
        (),
        DnsErrorView,
    > {
        mutation_outcome(receipt)
    }

    open spec fn add_request(&self, ip: Seq<char>, family: IpFamily) -> HttpRequestView {
        create_request(self@, ip, family)
    }

    open spec fn added_outcome(&self, receipt: Reply<CloudflareRecordResponse>) -> Result<
        (),
        DnsErrorView,
    > {
        mutation_outcome(receipt)
    }

    fn get_record(&self) -> (request: HttpRequest) {
        let mut url = self.records_address();
        url.append("?name=");
        url.append(self.record_name.as_str());
        url.append("&type=CNAME,A,AAAA");
        HttpRequest {
            method: HttpMethod::Get,
            url,
            headers: headers_for(self.api_token.as_str()),
            payload: Payload::Empty,
        }
    }

    fn read_record(&self, reply: &Reply<CloudflareListResponse>) -> (r: Result<
        Option<DnsRecord>,
        DnsError,
    >) {
        match reply {
            Reply::Decoded { value } => {
                if !value.success {
                    Err(DnsError::ProviderRejected { detail: describe_rejection(&value.errors) })
                } else if value.result.len() == 0 {
                    Ok(None)
                } else {
                    let first = &value.result[0];
                    Ok(
                        Some(
                            DnsRecord {
                                id: first.id.clone(),
                                name: first.name.clone(),
                                value: first.content.clone(),
                                record_type: first.record_type.clone(),
                            },
                        ),
                    )
                }
            },
            _ => Err(failure_of(reply)),
        }
    }

    fn modify_record(&self, current_ip: &str, family: IpFamily, record: &DnsRecord) -> (request:
        HttpRequest) {
        let mut url = self.records_address();
        url.append("/");
        url.append(record.id.as_str());
        HttpRequest {
            method: HttpMethod::Patch,
            url,
            headers: headers_for(self.api_token.as_str()),
            payload: self.payload_for(current_ip, family),
        }
    }

    fn confirm_modified(&self, receipt: &Reply<CloudflareRecordResponse>) -> (r: Result<
        (),
        DnsError,
    >) {
        Self::read_mutation(receipt)
    }

    fn add_record(&self, current_ip: &str, family: IpFamily) -> (request: HttpRequest) {
        HttpRequest {
            method: HttpMethod::Post,
            url: self.records_address(),
            headers: headers_for(self.api_token.as_str()),
            payload: self.payload_for(current_ip, family),
        }
    }

    fn confirm_added(&self, receipt: &Reply<CloudflareRecordResponse>) -> (r: Result<
        (),
        DnsError,
    >) {
        Self::read_mutation(receipt)
    }
}

} // verus!
