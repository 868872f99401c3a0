use dns_lib::dnspod::{init, DnspodProvider, DnspodRecord, DnspodRes};
use dns_lib::error::DnsError;
use dns_lib::http::{Delivery, HttpMethod, HttpRequest, Payload, Reply};
use dns_lib::provider::UpdateStep;
use dns_lib::record::IpFamily;
use dns_lib::{DnsProvider, DnsRecord, DnsUpdateResult};

fn s(text: &str) -> String {
    text.to_string()
}

fn form(url: &str, fields: &[(&str, &str)]) -> HttpRequest {
    HttpRequest {
        method: HttpMethod::Post,
        url: s(url),
        headers: Vec::new(),
        payload: Payload::Form {
            fields: fields.iter().map(|(k, v)| (s(k), s(v))).collect(),
        },
    }
}

fn provider() -> DnspodProvider {
    DnspodProvider::new(s("id,key"), s("example.com"), s("foo"))
}

fn listed(id: &str, name: &str, value: &str) -> DnspodRecord {
    DnspodRecord {
        id: s(id),
        name: s(name),
        value: s(value),
        updated_on: s("2024-01-01 00:00:00"),
        line_id: s("0"),
    }
}

#[test]
fn dnspod_list_request_is_exact() {
    assert_eq!(
        provider().get_record(),
        form(
            "https://dnsapi.cn/Record.List",
            &[
                ("login_token", "id,key"),
                ("format", "json"),
                ("error_on_empty", "no"),
                ("lang", "en"),
                ("domain", "example.com"),
                ("sub_domain", "foo"),
            ]
        )
    );
}

#[test]
fn dnspod_ddns_request_is_exact() {
    let record = DnsRecord { id: s("77"), name: s("bar"), value: s("9.9.9.9"), record_type: s("A") };
    assert_eq!(
        provider().modify_record("1.2.3.4", IpFamily::V4, &record),
        form(
            "https://dnsapi.cn/Record.Ddns",
            &[
                ("login_token", "id,key"),
                ("format", "json"),
                ("error_on_empty", "no"),
                ("lang", "en"),
                ("domain", "example.com"),
                ("sub_domain", "bar"),
                ("record_id", "77"),
                ("record_line_id", "0"),
                ("record_type", "A"),
                ("value", "1.2.3.4"),
            ]
        )
    );
}

#[test]
fn ddns_request_type_follows_new_address_not_old_record() {
    let record = DnsRecord { id: s("77"), name: s("bar"), value: s("9.9.9.9"), record_type: s("A") };
    let request = provider().modify_record("2001:db8::1", IpFamily::V6, &record);
    match request.payload {
        Payload::Form { fields } => {
            assert_eq!(fields[8], (s("record_type"), s("AAAA")));
            assert_eq!(fields[9], (s("value"), s("2001:db8::1")));
        }
        other => panic!("expected a form, got {:?}", other),
    }
}

#[test]
fn dnspod_create_request_is_exact() {
    assert_eq!(
        provider().add_record("1.2.3.4", IpFamily::Other),
        form(
            "https://dnsapi.cn/Record.Create",
            &[
                ("login_token", "id,key"),
                ("format", "json"),
                ("error_on_empty", "no"),
                ("lang", "en"),
                ("domain", "example.com"),
                ("sub_domain", "foo"),
                ("record_type", "A"),
                ("record_line", "\u{9ed8}\u{8ba4}"),
                ("value", "1.2.3.4"),
            ]
        )
    );
}

#[test]
fn empty_list_means_no_record() {
    let reply = Reply::Decoded { value: DnspodRes { records: Vec::new() } };
    assert_eq!(provider().read_record(&reply), Ok(None));
}

#[test]
fn first_listed_record_is_returned_as_type_a() {
    let reply = Reply::Decoded {
        value: DnspodRes {
            records: vec![listed("1", "foo", "1.1.1.1"), listed("2", "foo", "2.2.2.2")],
        },
    };
    assert_eq!(
        provider().read_record(&reply),
        Ok(Some(DnsRecord { id: s("1"), name: s("foo"), value: s("1.1.1.1"), record_type: s("A") }))
    );
}

#[test]
fn failed_and_malformed_list_replies_are_errors() {
    let failed: Reply<DnspodRes> = Reply::Failed { detail: s("connection refused") };
    assert_eq!(
        provider().read_record(&failed),
        Err(DnsError::OperationFailed { detail: s("connection refused") })
    );
    let malformed: Reply<DnspodRes> =
        Reply::Malformed { body: s("<html>"), reason: s("expected value at line 1 column 1") };
    assert_eq!(
        provider().read_record(&malformed),
        Err(DnsError::MalformedResponse {
            body: s("<html>"),
            reason: s("expected value at line 1 column 1")
        })
    );
}

#[test]
fn mutation_succeeds_as_soon_as_a_body_came_back() {
    let p = provider();
    let answered = Delivery::Answered { body: s("{\"status\":{\"code\":\"6\"}}") };
    assert_eq!(p.confirm_modified(&answered), Ok(()));
    assert_eq!(p.confirm_added(&answered), Ok(()));
}

#[test]
fn mutation_failure_carries_no_cause() {
    let p = provider();
    let failed = Delivery::Failed { detail: s("tls handshake") };
    assert_eq!(
        p.confirm_modified(&failed),
        Err(DnsError::OperationFailed { detail: s("Error modify record") })
    );
    assert_eq!(
        p.confirm_added(&failed),
        Err(DnsError::OperationFailed { detail: s("Error adding record") })
    );
}

#[test]
fn client_hands_calls_on_to_its_provider() {
    let client = init(s("id,key"), s("example.com"), s("foo"));
    let p = provider();
    let record = DnsRecord { id: s("77"), name: s("foo"), value: s("9.9.9.9"), record_type: s("A") };
    assert_eq!(client.get_record(), p.get_record());
    assert_eq!(
        client.modify_record("1.2.3.4", IpFamily::V4, &record),
        p.modify_record("1.2.3.4", IpFamily::V4, &record)
    );
    assert_eq!(client.add_record("1.2.3.4", IpFamily::V4), p.add_record("1.2.3.4", IpFamily::V4));
    let holds = |value: &str| Reply::Decoded {
        value: DnspodRes { records: vec![listed("77", "foo", value)] },
    };
    assert_eq!(
        client.update_dns_record(&holds("9.9.9.9"), "1.2.3.4", IpFamily::V4),
        Ok(UpdateStep::Pending {
            request: p.modify_record("1.2.3.4", IpFamily::V4, &record),
            result: DnsUpdateResult::Changed { old_ip: s("9.9.9.9") },
        })
    );
    assert_eq!(
        client.update_dns_record(&holds("9.9.9.9"), "9.9.9.9", IpFamily::V4),
        Ok(UpdateStep::Settled { result: DnsUpdateResult::Unchanged })
    );
    assert_eq!(
        client.update_dns_record(
            &Reply::Decoded { value: DnspodRes { records: vec![] } },
            "1.2.3.4",
            IpFamily::V4
        ),
        Ok(UpdateStep::Pending {
            request: p.add_record("1.2.3.4", IpFamily::V4),
            result: DnsUpdateResult::Created,
        })
    );
    assert_eq!(
        client.update_dns_record(&Reply::Failed { detail: s("down") }, "1.2.3.4", IpFamily::V4),
        Err(DnsError::OperationFailed { detail: s("down") })
    );
}
