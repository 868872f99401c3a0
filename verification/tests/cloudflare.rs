use dns_lib::cloudflare::{
    describe_rejection, CloudflareError, CloudflareListResponse, CloudflareRecord,
    CloudflareRecordResponse, CloudflareZone, CloudflareZoneListResponse, ZoneLookup,
    ZonedCloudflare,
};
use dns_lib::error::DnsError;
use dns_lib::http::{HttpMethod, HttpRequest, Payload, RecordPayload, Reply};
use dns_lib::provider::UpdateStep;
use dns_lib::record::IpFamily;
use dns_lib::zone_cache::ZoneResolutionCache;
use dns_lib::{CloudflareProvider, DnsProvider, DnsRecord, DnsUpdateResult};

fn s(text: &str) -> String {
    text.to_string()
}

fn headers() -> Vec<(String, String)> {
    vec![(s("Authorization"), s("Bearer tok")), (s("Content-Type"), s("application/json"))]
}

fn provider() -> CloudflareProvider {
    CloudflareProvider::new(s("tok"), s("foo.example.com"))
}

fn zoned() -> ZonedCloudflare {
    provider().in_zone(s("z9"))
}

fn fault(code: i32, message: &str) -> CloudflareError {
    CloudflareError { code, message: s(message) }
}

fn listed(id: &str, kind: &str, content: &str) -> CloudflareRecord {
    CloudflareRecord {
        id: s(id),
        name: s("foo.example.com"),
        record_type: s(kind),
        content: s(content),
        ttl: 1,
        proxied: false,
    }
}

fn zones(success: bool, errors: Vec<CloudflareError>, ids: &[&str]) -> Reply<CloudflareZoneListResponse> {
    Reply::Decoded {
        value: CloudflareZoneListResponse {
            success,
            errors,
            result: ids.iter().map(|id| CloudflareZone { id: s(id), name: s("example.com") }).collect(),
        },
    }
}

#[test]
fn zone_is_asked_for_when_cache_is_cold() {
    let cache = ZoneResolutionCache::new();
    assert_eq!(
        provider().get_zone_id(&cache),
        ZoneLookup::Query {
            request: HttpRequest {
                method: HttpMethod::Get,
                url: s("https://api.cloudflare.com/client/v4/zones?name=example.com"),
                headers: headers(),
                payload: Payload::Empty,
            }
        }
    );
}

#[test]
fn zone_reply_is_cached_and_then_served_without_a_query() {
    let mut cache = ZoneResolutionCache::new();
    let p = provider();
    assert_eq!(p.read_zone_id(&mut cache, &zones(true, vec![], &["z1", "z2"])), Ok(s("z1")));
    assert_eq!(p.get_zone_id(&cache), ZoneLookup::Cached { zone_id: s("z1") });
    let sibling = CloudflareProvider::new(s("tok"), s("bar.baz.example.com"));
    assert_eq!(sibling.get_zone_id(&cache), ZoneLookup::Cached { zone_id: s("z1") });
}

#[test]
fn other_credential_or_zone_still_needs_a_query() {
    let mut cache = ZoneResolutionCache::new();
    provider().read_zone_id(&mut cache, &zones(true, vec![], &["z1"])).unwrap();
    let other_token = CloudflareProvider::new(s("tok2"), s("foo.example.com"));
    assert!(matches!(other_token.get_zone_id(&cache), ZoneLookup::Query { .. }));
    let other_zone = CloudflareProvider::new(s("tok"), s("foo.example.org"));
    assert!(matches!(other_zone.get_zone_id(&cache), ZoneLookup::Query { .. }));
}

#[test]
fn empty_zone_list_is_no_zone_found_and_is_not_cached() {
    let mut cache = ZoneResolutionCache::new();
    let p = provider();
    assert_eq!(
        p.read_zone_id(&mut cache, &zones(true, vec![], &[])),
        Err(DnsError::NoZoneFound { zone: s("example.com") })
    );
    assert!(matches!(p.get_zone_id(&cache), ZoneLookup::Query { .. }));
}

#[test]
fn rejected_zone_list_carries_every_error() {
    let mut cache = ZoneResolutionCache::new();
    let p = provider();
    let reply = zones(false, vec![fault(9109, "Invalid access token"), fault(-7, "again")], &["z1"]);
    assert_eq!(
        p.read_zone_id(&mut cache, &reply),
        Err(DnsError::ProviderRejected { detail: s("9109: Invalid access token, -7: again") })
    );
    assert_eq!(cache.get("tok", "example.com"), None);
}

#[test]
fn failed_and_malformed_zone_replies_are_errors() {
    let mut cache = ZoneResolutionCache::new();
    let p = provider();
    let failed: Reply<CloudflareZoneListResponse> = Reply::Failed { detail: s("dns error") };
    assert_eq!(
        p.read_zone_id(&mut cache, &failed),
        Err(DnsError::OperationFailed { detail: s("dns error") })
    );
    let malformed: Reply<CloudflareZoneListResponse> =
        Reply::Malformed { body: s("{}"), reason: s("missing field `success`") };
    assert_eq!(
        p.read_zone_id(&mut cache, &malformed),
        Err(DnsError::MalformedResponse { body: s("{}"), reason: s("missing field `success`") })
    );
    assert_eq!(cache.get("tok", "example.com"), None);
}

#[test]
fn rejection_detail_formats_codes_in_decimal() {
    assert_eq!(describe_rejection(&vec![]), "");
    assert_eq!(describe_rejection(&vec![fault(0, "zero")]), "0: zero");
    assert_eq!(describe_rejection(&vec![fault(1003, "Invalid token")]), "1003: Invalid token");
    assert_eq!(
        describe_rejection(&vec![fault(10, "a"), fault(2147483647, "b"), fault(-2147483648, "")]),
        "10: a, 2147483647: b, -2147483648: "
    );
}

#[test]
fn cloudflare_list_request_is_exact() {
    assert_eq!(
        zoned().get_record(),
        HttpRequest {
            method: HttpMethod::Get,
            url: s("https://api.cloudflare.com/client/v4/zones/z9/dns_records?name=foo.example.com&type=CNAME,A,AAAA"),
            headers: headers(),
            payload: Payload::Empty,
        }
    );
}

#[test]
fn cloudflare_patch_request_is_exact() {
    let record = DnsRecord { id: s("r1"), name: s("foo.example.com"), value: s("9.9.9.9"), record_type: s("A") };
    assert_eq!(
        zoned().modify_record("2001:db8::1", IpFamily::V6, &record),
        HttpRequest {
            method: HttpMethod::Patch,
            url: s("https://api.cloudflare.com/client/v4/zones/z9/dns_records/r1"),
            headers: headers(),
            payload: Payload::Json {
                record: RecordPayload {
                    record_type: s("AAAA"),
                    name: s("foo.example.com"),
                    content: s("2001:db8::1"),
                    ttl: 1,
                    proxied: false,
                }
            },
        }
    );
}

#[test]
fn cloudflare_create_request_is_exact() {
    assert_eq!(
        zoned().add_record("1.2.3.4", IpFamily::V4),
        HttpRequest {
            method: HttpMethod::Post,
            url: s("https://api.cloudflare.com/client/v4/zones/z9/dns_records"),
            headers: headers(),
            payload: Payload::Json {
                record: RecordPayload {
                    record_type: s("A"),
                    name: s("foo.example.com"),
                    content: s("1.2.3.4"),
                    ttl: 1,
                    proxied: false,
                }
            },
        }
    );
}

#[test]
fn first_listed_record_is_returned_with_its_own_type() {
    let reply = Reply::Decoded {
        value: CloudflareListResponse {
            success: true,
            errors: vec![],
            result: vec![listed("r1", "AAAA", "2001:db8::1"), listed("r2", "A", "1.2.3.4")],
        },
    };
    assert_eq!(
        zoned().read_record(&reply),
        Ok(Some(DnsRecord {
            id: s("r1"),
            name: s("foo.example.com"),
            value: s("2001:db8::1"),
            record_type: s("AAAA"),
        }))
    );
}

#[test]
fn empty_record_list_means_no_record() {
    let reply = Reply::Decoded {
        value: CloudflareListResponse { success: true, errors: vec![], result: vec![] },
    };
    assert_eq!(zoned().read_record(&reply), Ok(None));
}

#[test]
fn rejected_record_list_is_an_error_even_with_records() {
    let reply = Reply::Decoded {
        value: CloudflareListResponse {
            success: false,
            errors: vec![fault(7003, "No route")],
            result: vec![listed("r1", "A", "1.2.3.4")],
        },
    };
    assert_eq!(
        zoned().read_record(&reply),
        Err(DnsError::ProviderRejected { detail: s("7003: No route") })
    );
}

#[test]
fn mutation_replies_are_read_alike_for_patch_and_create() {
    let z = zoned();
    let ok = Reply::Decoded {
        value: CloudflareRecordResponse { success: true, errors: vec![], result: listed("r1", "A", "1.2.3.4") },
    };
    assert_eq!(z.confirm_modified(&ok), Ok(()));
    assert_eq!(z.confirm_added(&ok), Ok(()));
    let rejected = Reply::Decoded {
        value: CloudflareRecordResponse {
            success: false,
            errors: vec![fault(81057, "Record already exists."), fault(1, "x")],
            result: listed("", "", ""),
        },
    };
    let expected = Err(DnsError::ProviderRejected { detail: s("81057: Record already exists., 1: x") });
    assert_eq!(z.confirm_modified(&rejected), expected);
    assert_eq!(z.confirm_added(&rejected), expected);
    let failed: Reply<CloudflareRecordResponse> = Reply::Failed { detail: s("timeout") };
    assert_eq!(z.confirm_added(&failed), Err(DnsError::OperationFailed { detail: s("timeout") }));
    let malformed: Reply<CloudflareRecordResponse> =
        Reply::Malformed { body: s("{\"result\":null}"), reason: s("invalid type: null") };
    assert_eq!(
        z.confirm_modified(&malformed),
        Err(DnsError::MalformedResponse { body: s("{\"result\":null}"), reason: s("invalid type: null") })
    );
}

#[test]
fn reconciliation_step_uses_patch_and_create_requests() {
    let z = zoned();
    let old = DnsRecord { id: s("r1"), name: s("foo.example.com"), value: s("9.9.9.9"), record_type: s("A") };
    let holds = |records: Vec<CloudflareRecord>| Reply::Decoded {
        value: CloudflareListResponse { success: true, errors: vec![], result: records },
    };
    assert_eq!(
        z.update_dns_record(&holds(vec![listed("r1", "A", "9.9.9.9")]), "1.2.3.4", IpFamily::V4),
        Ok(UpdateStep::Pending {
            request: z.modify_record("1.2.3.4", IpFamily::V4, &old),
            result: DnsUpdateResult::Changed { old_ip: s("9.9.9.9") },
        })
    );
    assert_eq!(
        z.update_dns_record(&holds(vec![]), "1.2.3.4", IpFamily::V4),
        Ok(UpdateStep::Pending {
            request: z.add_record("1.2.3.4", IpFamily::V4),
            result: DnsUpdateResult::Created,
        })
    );
    assert_eq!(
        z.update_dns_record(&holds(vec![listed("r1", "A", "9.9.9.9")]), "9.9.9.9", IpFamily::V4),
        Ok(UpdateStep::Settled { result: DnsUpdateResult::Unchanged })
    );
    let rejected = Reply::Decoded {
        value: CloudflareListResponse {
            success: false,
            errors: vec![fault(10000, "Authentication error")],
            result: vec![],
        },
    };
    assert_eq!(
        z.update_dns_record(&rejected, "1.2.3.4", IpFamily::V4),
        Err(DnsError::ProviderRejected { detail: s("10000: Authentication error") })
    );
}
