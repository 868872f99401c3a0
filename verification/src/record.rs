//! The provider-agnostic shape of a DNS record and of the outcome of bringing
//! it up to date.

use vstd::prelude::*;

verus! {

/// One record as a provider reports it. The `id` is the provider's own and
/// means nothing to another provider or zone.
#[derive(Clone, Debug, PartialEq, Eq)]
pub struct DnsRecord {
    pub id: String,
    pub name: String,
    pub value: String,
    pub record_type: String,
}

/// A `DnsRecord` with its texts as character sequences.
pub struct DnsRecordView {
    pub id: Seq<char>,
    pub name: Seq<char>,
    pub value: Seq<char>,
    pub record_type: Seq<char>,
}

impl View for DnsRecord {
    type V = DnsRecordView;

    open spec fn view(&self) -> DnsRecordView {
        DnsRecordView {
            id: self.id@,
            name: self.name@,
            value: self.value@,
            record_type: self.record_type@,
        }
    }
}

impl DeepView for DnsRecord {
    type V = DnsRecordView;

    open spec fn deep_view(&self) -> DnsRecordView {
        self@
    }
}

/// What one reconciliation did to the record.
#[derive(Clone, Debug, PartialEq, Eq)]
pub enum DnsUpdateResult {
    /// A record existed with another value and was updated.
    Changed { old_ip: String },
    /// No record existed and one was created.
    Created,
    /// The record already held the value; nothing was sent.
    Unchanged,
}

/// A `DnsUpdateResult` with its text as a character sequence.
pub enum DnsUpdateResultView {
    Changed { old_ip: Seq<char> },
    Created,
    Unchanged,
}

impl View for DnsUpdateResult {
    type V = DnsUpdateResultView;

    open spec fn view(&self) -> DnsUpdateResultView {
        match self {
            DnsUpdateResult::Changed { old_ip } => DnsUpdateResultView::Changed { old_ip: old_ip@ },
            DnsUpdateResult::Created => DnsUpdateResultView::Created,
            DnsUpdateResult::Unchanged => DnsUpdateResultView::Unchanged,
        }
    }
}

/// What kind of address literal a text is.
#[derive(Clone, Copy, Debug, PartialEq, Eq)]
pub enum IpFamily {
    /// An IPv4 literal.
    V4,
    /// An IPv6 literal.
    V6,
    /// Not an IP literal.
    Other,
}

/// The record type that holds an address of the given family: `AAAA` for
/// IPv6, `A` for IPv4 and for anything that is no address.
pub open spec fn record_type_of(family: IpFamily) -> Seq<char> {
    match family {
        IpFamily::V6 => seq!['A', 'A', 'A', 'A'],
        IpFamily::V4 => seq!['A'],
        IpFamily::Other => seq!['A'],
    }
}

/// The record type under which an address of the given family is stored.
pub fn get_record_type(family: IpFamily) -> (record_type: &'static str)
    ensures
        record_type@ == record_type_of(family),
{
    proof {
        reveal_strlit("A");
        reveal_strlit("AAAA");
        assert("A"@ == seq!['A']);
        assert("AAAA"@ == seq!['A', 'A', 'A', 'A']);
    }
    match family {
        IpFamily::V4 => "A",
        IpFamily::V6 => "AAAA",
        IpFamily::Other => "A",
    }
}

} // verus!
