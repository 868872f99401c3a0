//! The token/domain-form backend: three form-encoded POST endpoints that
//! name a record by its domain and sub-domain. There is no zone.

use crate::error::{DnsError, DnsErrorView};
use crate::http::{Delivery, HttpMethod, HttpRequest, HttpRequestView, Payload, PayloadView, Reply, pair};
use crate::provider::{DnsProvider, UpdateStep, found, reconciled, step_view};
use crate::record::{DnsRecord, DnsRecordView, IpFamily, get_record_type, record_type_of};
use vstd::prelude::*;

verus! {

/// One entry of the provider's record list.
#[derive(Clone, Debug, PartialEq, Eq)]
pub struct DnspodRecord {
    pub id: String,
    pub name: String,
    pub value: String,
    pub updated_on: String,
    pub line_id: String,
}

/// The provider's answer to a list request.
#[derive(Clone, Debug, PartialEq, Eq)]
pub struct DnspodRes {
    pub records: Vec<DnspodRecord>,
}

/// A backend instance: the API token, the root domain and the sub-domain
/// label of the record it manages.
#[derive(Clone, Debug, PartialEq, Eq)]
pub struct DnspodProvider {
    token: String,
    domain: String,
    sub_domain: String,
}

/// A `DnspodProvider` with its texts as character sequences.
pub struct DnspodProviderView {
    pub token: Seq<char>,
    pub domain: Seq<char>,
    pub sub_domain: Seq<char>,
}

impl View for DnspodProvider {
    type V = DnspodProviderView;

    closed spec fn view(&self) -> DnspodProviderView {
        DnspodProviderView {
            token: self.token@,
            domain: self.domain@,
            sub_domain: self.sub_domain@,
        }
    }
}

/// The fields that every request of this backend carries, in order.
pub open spec fn common_fields(token: Seq<char>, domain: Seq<char>) -> Seq<
    (Seq<char>, Seq<char>),
> {
    seq![
        ("login_token"@, token),
        ("format"@, "json"@),
        ("error_on_empty"@, "no"@),
        ("lang"@, "en"@),
        ("domain"@, domain),
    ]
}

/// A form POST to `url`.
pub open spec fn form_post(url: Seq<char>, fields: Seq<(Seq<char>, Seq<char>)>) -> HttpRequestView {
    HttpRequestView {
        method: HttpMethod::Post,
        url,
        headers: Seq::empty(),
        payload: PayloadView::Form { fields },
    }
}

/// The request that lists the records of the provider's domain and
/// sub-domain.
pub open spec fn list_request(p: DnspodProviderView) -> HttpRequestView {
    form_post(
        "https://dnsapi.cn/Record.List"@,
        common_fields(p.token, p.domain).push(("sub_domain"@, p.sub_domain)),
    )
}

/// The dynamic-update request that sets `record` to `ip`, on the default
/// line, with the record type of the address family.
pub open spec fn ddns_request(
    p: DnspodProviderView,
    ip: Seq<char>,
    family: IpFamily,
    record: DnsRecordView,
) -> HttpRequestView {
    form_post(
        "https://dnsapi.cn/Record.Ddns"@,
        common_fields(p.token, p.domain).push(("sub_domain"@, record.name)).push(
            ("record_id"@, record.id),
        ).push(("record_line_id"@, "0"@)).push(("record_type"@, record_type_of(family))).push(
            ("value"@, ip),
        ),
    )
}

/// The request that creates the record of the provider's sub-domain with
/// value `ip`, on the default line, with the record type of the address
/// family.
pub open spec fn create_request(
    p: DnspodProviderView,
    ip: Seq<char>,
    family: IpFamily,
) -> HttpRequestView {
    form_post(
        "https://dnsapi.cn/Record.Create"@,
        common_fields(p.token, p.domain).push(("sub_domain"@, p.sub_domain)).push(
            ("record_type"@, record_type_of(family)),
        ).push(("record_line"@, "\u{9ed8}\u{8ba4}"@)).push(("value"@, ip)),
    )
}

/// What a list reply means: the first listed record, typed `A`; `None` for an
/// empty list; an error where the request failed or the body was malformed.
pub open spec fn list_outcome(reply: Reply<DnspodRes>) -> Result<
    Option<DnsRecordView>,
    DnsErrorView,
> {
    match reply {
        Reply::Failed { detail } => Err(DnsErrorView::OperationFailed { detail: detail@ }),
        Reply::Malformed { body, reason } => Err(
            DnsErrorView::MalformedResponse { body: body@, reason: reason@ },
        ),
        Reply::Decoded { value } => if value.records@.len() == 0 {
            Ok(None)
        } else {
            Ok(
                Some(
                    DnsRecordView {
                        id: value.records@[0].id@,
                        name: value.records@[0].name@,
                        value: value.records@[0].value@,
                        record_type: "A"@,
                    },
                ),
            )
        },
    }
}

/// What the delivery of a mutating request means: success as soon as a body
/// came back, else a failure that carries `message` and nothing of the cause.
pub open spec fn mutation_outcome(delivery: Delivery, message: Seq<char>) -> Result<
    (),
    DnsErrorView,
> {
    match delivery {
        Delivery::Answered { body } => Ok(()),
        Delivery::Failed { detail } => Err(DnsErrorView::OperationFailed { detail: message }),
    }
}

impl DnspodProvider {
    /// A backend for the record `sub_domain` of `domain`, authenticated by
    /// `token`.
    pub fn new(token: String, domain: String, sub_domain: String) -> (p: Self)
        ensures
            p@ == (DnspodProviderView { token: token@, domain: domain@, sub_domain: sub_domain@ }),
    {
        DnspodProvider { token, domain, sub_domain }
    }

    /// The fields common to all requests, for this provider.
    fn base_fields(&self) -> (fields: Vec<(String, String)>)
        ensures
            fields.deep_view() == common_fields(self@.token, self@.domain),
    {
        let mut fields: Vec<(String, String)> = Vec::new();
        fields.push(pair("login_token", self.token.as_str()));
        fields.push(pair("format", "json"));
        fields.push(pair("error_on_empty", "no"));
        fields.push(pair("lang", "en"));
        fields.push(pair("domain", self.domain.as_str()));
        assert(fields.deep_view() =~= common_fields(self@.token, self@.domain));
        fields
    }
}

impl DnsProvider for DnspodProvider {
    type Listing = DnspodRes;

    type Receipt = Delivery;

    open spec fn fetch_request(&self) -> HttpRequestView {
        list_request(self@)
    }

    open spec fn fetch_outcome(&self, reply: Reply<DnspodRes>) -> Result<
        Option<DnsRecordView>,
        DnsErrorView,
    > {
        list_outcome(reply)
    }

    open spec fn modify_request(
        &self,
        ip: Seq<char>,
        family: IpFamily,
        record: DnsRecordView,
    ) -> HttpRequestView {
        ddns_request(self@, ip, family, record)
    }

    open spec fn modified_outcome(&self, receipt: Delivery) -> Result<(), DnsErrorView> {
        mutation_outcome(receipt, "Error modify record"@)
    }

    open spec fn add_request(&self, ip: Seq<char>, family: IpFamily) -> HttpRequestView {
        create_request(self@, ip, family)
    }

    open spec fn added_outcome(&self, receipt: Delivery) -> Result<(), DnsErrorView> {
        mutation_outcome(receipt, "Error adding record"@)
    }

    fn get_record(&self) -> (request: HttpRequest) {
        let mut fields = self.base_fields();
        let ghost base = fields.deep_view();
        fields.push(pair("sub_domain", self.sub_domain.as_str()));
        assert(fields.deep_view() =~= base.push(("sub_domain"@, self@.sub_domain)));
        form_request("https://dnsapi.cn/Record.List", fields)
    }

    fn read_record(&self, reply: &Reply<DnspodRes>) -> (r: Result<Option<DnsRecord>, DnsError>) {
        match reply {
            Reply::Failed { detail } => Err(DnsError::OperationFailed { detail: detail.clone() }),
            Reply::Malformed { body, reason } => Err(
                DnsError::MalformedResponse { body: body.clone(), reason: reason.clone() },
            ),
            Reply::Decoded { value } => {
                if value.records.len() == 0 {
                    Ok(None)
                } else {
                    let first = &value.records[0];
                    Ok(
                        Some(
                            DnsRecord {
                                id: first.id.clone(),
                                name: first.name.clone(),
                                value: first.value.clone(),
                                record_type: String::from_str("A"),
                            },
                        ),
                    )
                }
            },
        }
    }

    fn modify_record(&self, current_ip: &str, family: IpFamily, record: &DnsRecord) -> (request:
        HttpRequest) {
        let mut fields = self.base_fields();
        let ghost base = fields.deep_view();
        fields.push(pair("sub_domain", record.name.as_str()));
        fields.push(pair("record_id", record.id.as_str()));
        fields.push(pair("record_line_id", "0"));
        fields.push(pair("record_type", get_record_type(family)));
        fields.push(pair("value", current_ip));
        assert(fields.deep_view() =~= base.push(("sub_domain"@, record@.name)).push(
            ("record_id"@, record@.id),
        ).push(("record_line_id"@, "0"@)).push(("record_type"@, record_type_of(family))).push(
            ("value"@, current_ip@),
        ));
        form_request("https://dnsapi.cn/Record.Ddns", fields)
    }

    fn confirm_modified(&self, receipt: &Delivery) -> (r: Result<(), DnsError>) {
        match receipt {
            Delivery::Answered { body } => Ok(()),
            Delivery::Failed { detail } => Err(
                DnsError::OperationFailed { detail: String::from_str("Error modify record") },
            ),
        }
    }

    fn add_record(&self, current_ip: &str, family: IpFamily) -> (request: HttpRequest) {
        let mut fields = self.base_fields();
        let ghost base = fields.deep_view();
        fields.push(pair("sub_domain", self.sub_domain.as_str()));
        fields.push(pair("record_type", get_record_type(family)));
        fields.push(pair("record_line", "\u{9ed8}\u{8ba4}"));
        fields.push(pair("value", current_ip));
        assert(fields.deep_view() =~= base.push(("sub_domain"@, self@.sub_domain)).push(
            ("record_type"@, record_type_of(family)),
        ).push(("record_line"@, "\u{9ed8}\u{8ba4}"@)).push(("value"@, current_ip@)));
        form_request("https://dnsapi.cn/Record.Create", fields)
    }

    fn confirm_added(&self, receipt: &Delivery) -> (r: Result<(), DnsError>) {
        match receipt {
            Delivery::Answered { body } => Ok(()),
            Delivery::Failed { detail } => Err(
                DnsError::OperationFailed { detail: String::from_str("Error adding record") },
            ),
        }
    }
}

/// A form POST to `url` with the given fields.
fn form_request(url: &str, fields: Vec<(String, String)>) -> (request: HttpRequest)
    ensures
        request@ == form_post(url@, fields.deep_view()),
{
    let headers: Vec<(String, String)> = Vec::new();
    assert(headers.deep_view() =~= Seq::empty());
    HttpRequest {
        method: HttpMethod::Post,
        url: String::from_str(url),
        headers,
        payload: Payload::Form { fields },
    }
}

/// The former interface of this backend, kept for its callers: a client that
/// owns one provider and hands every call on to it.
#[derive(Clone, Debug, PartialEq, Eq)]
pub struct DnspodClient {
    provider: DnspodProvider,
}

impl View for DnspodClient {
    type V = DnspodProviderView;

    closed spec fn view(&self) -> DnspodProviderView {
        self.provider@
    }
}

/// A client for the record `sub_domain` of `domain`, authenticated by `token`.
pub fn init(token: String, domain: String, sub_domain: String) -> (client: DnspodClient)
    ensures
        client@ == (DnspodProviderView { token: token@, domain: domain@, sub_domain: sub_domain@ }),
{
    DnspodClient { provider: DnspodProvider::new(token, domain, sub_domain) }
}

impl DnspodClient {
    /// The request that fetches the record.
    pub fn get_record(&self) -> (request: HttpRequest)
        ensures
            request@ == list_request(self@),
    {
        self.provider.get_record()
    }

    /// The request that sets `record` to `current_ip`.
    pub fn modify_record(&self, current_ip: &str, family: IpFamily, record: &DnsRecord) -> (request:
        HttpRequest)
        ensures
            request@ == ddns_request(self@, current_ip@, family, record@),
    {
        self.provider.modify_record(current_ip, family, record)
    }

    /// The request that creates the record with value `current_ip`.
    pub fn add_record(&self, current_ip: &str, family: IpFamily) -> (request: HttpRequest)
        ensures
            request@ == create_request(self@, current_ip@, family),
    {
        self.provider.add_record(current_ip, family)
    }

    /// Continues a reconciliation towards `current_ip` once the request of
    /// `get_record` was answered by `reply`: the error of a failed fetch, or
    /// what is to be sent and what the reconciliation then reports.
    pub fn update_dns_record(
        &self,
        reply: &Reply<DnspodRes>,
        current_ip: &str,
        family: IpFamily,
    ) -> (r: Result<UpdateStep, DnsError>)
        ensures
            step_view(r) == reconciled(
                list_outcome(*reply),
                current_ip@,
                create_request(self@, current_ip@, family),
                ddns_request(self@, current_ip@, family, found(list_outcome(*reply))),
            ),
    {
        self.provider.update_dns_record(reply, current_ip, family)
    }
}

} // verus!
