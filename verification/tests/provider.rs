use dns_lib::dnspod::{DnspodProvider, DnspodRecord, DnspodRes};
use dns_lib::http::{Delivery, HttpMethod, Payload, Reply};
use dns_lib::provider::{plan_update, UpdatePlan, UpdateStep};
use dns_lib::record::{get_record_type, IpFamily};
use dns_lib::error::DnsError;
use dns_lib::{DnsProvider, DnsRecord, DnsUpdateResult};

fn provider() -> DnspodProvider {
    DnspodProvider::new("id,key".to_string(), "example.com".to_string(), "foo".to_string())
}

fn listing(values: &[&str]) -> Reply<DnspodRes> {
    Reply::Decoded {
        value: DnspodRes {
            records: values
                .iter()
                .map(|value| DnspodRecord {
                    id: "42".to_string(),
                    name: "foo".to_string(),
                    value: value.to_string(),
                    updated_on: String::new(),
                    line_id: "0".to_string(),
                })
                .collect(),
        },
    }
}

fn record(value: &str) -> DnsRecord {
    DnsRecord {
        id: "42".to_string(),
        name: "foo".to_string(),
        value: value.to_string(),
        record_type: "A".to_string(),
    }
}

#[test]
fn missing_record_is_added_once() {
    let p = provider();
    let step = p.update_dns_record(&listing(&[]), "1.2.3.4", IpFamily::V4);
    assert_eq!(
        step,
        Ok(UpdateStep::Pending {
            request: p.add_record("1.2.3.4", IpFamily::V4),
            result: DnsUpdateResult::Created,
        })
    );
}

#[test]
fn same_value_is_left_alone() {
    let p = provider();
    let step = p.update_dns_record(&listing(&["1.2.3.4"]), "1.2.3.4", IpFamily::V4);
    assert_eq!(step, Ok(UpdateStep::Settled { result: DnsUpdateResult::Unchanged }));
}

#[test]
fn other_value_is_modified_once() {
    let p = provider();
    let old = record("9.9.9.9");
    let step = p.update_dns_record(&listing(&["9.9.9.9", "1.2.3.4"]), "1.2.3.4", IpFamily::V4);
    match step {
        Ok(UpdateStep::Pending { request, result }) => {
            assert_eq!(request, p.modify_record("1.2.3.4", IpFamily::V4, &old));
            assert_eq!(request.method, HttpMethod::Post);
            assert_eq!(request.url, "https://dnsapi.cn/Record.Ddns");
            assert_eq!(result, DnsUpdateResult::Changed { old_ip: "9.9.9.9".to_string() });
        }
        other => panic!("expected a pending step, got {:?}", other),
    }
}

#[test]
fn failed_fetch_is_returned_and_nothing_is_sent() {
    let p = provider();
    let failed: Reply<DnspodRes> = Reply::Failed { detail: "timed out".to_string() };
    assert_eq!(
        p.update_dns_record(&failed, "1.2.3.4", IpFamily::V4),
        Err(DnsError::OperationFailed { detail: "timed out".to_string() })
    );
    let malformed: Reply<DnspodRes> =
        Reply::Malformed { body: "oops".to_string(), reason: "expected value".to_string() };
    assert_eq!(
        p.update_dns_record(&malformed, "1.2.3.4", IpFamily::V4),
        Err(DnsError::MalformedResponse {
            body: "oops".to_string(),
            reason: "expected value".to_string()
        })
    );
}

#[test]
fn plan_follows_the_fetched_value() {
    assert_eq!(plan_update(&None, "1.2.3.4"), UpdatePlan::Create);
    assert_eq!(plan_update(&Some(record("1.2.3.4")), "1.2.3.4"), UpdatePlan::Keep);
    assert_eq!(plan_update(&Some(record("1.2.3.5")), "1.2.3.4"), UpdatePlan::Replace);
    assert_eq!(plan_update(&Some(record("")), ""), UpdatePlan::Keep);
}

#[test]
fn settle_reports_pending_result_on_success() {
    let p = provider();
    let answered = Delivery::Answered { body: "{}".to_string() };
    assert_eq!(p.settle(DnsUpdateResult::Created, &answered), Ok(DnsUpdateResult::Created));
    assert_eq!(
        p.settle(DnsUpdateResult::Changed { old_ip: "9.9.9.9".to_string() }, &answered),
        Ok(DnsUpdateResult::Changed { old_ip: "9.9.9.9".to_string() })
    );
}

#[test]
fn settle_reports_the_failure_that_belongs_to_the_request() {
    let p = provider();
    let failed = Delivery::Failed { detail: "connection reset".to_string() };
    assert_eq!(
        p.settle(DnsUpdateResult::Created, &failed),
        Err(DnsError::OperationFailed { detail: "Error adding record".to_string() })
    );
    assert_eq!(
        p.settle(DnsUpdateResult::Changed { old_ip: "9.9.9.9".to_string() }, &failed),
        Err(DnsError::OperationFailed { detail: "Error modify record".to_string() })
    );
    assert_eq!(p.settle(DnsUpdateResult::Unchanged, &failed), Ok(DnsUpdateResult::Unchanged));
}

#[test]
fn record_type_follows_the_address_family() {
    assert_eq!(get_record_type(IpFamily::V4), "A");
    assert_eq!(get_record_type(IpFamily::V6), "AAAA");
    assert_eq!(get_record_type(IpFamily::Other), "A");
}

#[test]
fn create_request_carries_type_of_new_address() {
    let p = provider();
    let request = p.add_record("2001:db8::1", IpFamily::V6);
    match request.payload {
        Payload::Form { fields } => {
            assert!(fields.contains(&("record_type".to_string(), "AAAA".to_string())));
            assert!(fields.contains(&("value".to_string(), "2001:db8::1".to_string())));
        }
        other => panic!("expected a form, got {:?}", other),
    }
}
