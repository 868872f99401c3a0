//! The contract that every DNS backend meets, and the reconciliation that is
//! defined once over it. A backend never sends anything itself: it says which
//! request is to be sent and reads what came back.

use crate::error::{DnsError, DnsErrorView};
use crate::http::{HttpRequest, HttpRequestView, Reply};
use crate::record::{DnsRecord, DnsRecordView, DnsUpdateResult, DnsUpdateResultView, IpFamily};
use crate::text::same_text;
use vstd::prelude::*;

verus! {

/// The view of a result of reading a fetch.
pub open spec fn fetched_view(r: Result<Option<DnsRecord>, DnsError>) -> Result<
    Option<DnsRecordView>,
    DnsErrorView,
> {
    match r {
        Ok(Some(record)) => Ok(Some(record@)),
        Ok(None) => Ok(None),
        Err(e) => Err(e@),
    }
}

/// The view of a result of reading a mutation.
pub open spec fn mutated_view(r: Result<(), DnsError>) -> Result<(), DnsErrorView> {
    match r {
        Ok(()) => Ok(()),
        Err(e) => Err(e@),
    }
}

/// The view of the result of a reconciliation.
pub open spec fn updated_view(r: Result<DnsUpdateResult, DnsError>) -> Result<
    DnsUpdateResultView,
    DnsErrorView,
> {
    match r {
        Ok(u) => Ok(u@),
        Err(e) => Err(e@),
    }
}

/// What a reconciliation does after the fetch.
#[derive(Clone, Copy, Debug, PartialEq, Eq)]
pub enum UpdatePlan {
    /// No record exists: create it.
    Create,
    /// The record holds another value: replace it.
    Replace,
    /// The record holds the value: leave it.
    Keep,
}

/// The plan for a fetched record and the address it should hold.
pub open spec fn planned(fetched: Option<DnsRecordView>, ip: Seq<char>) -> UpdatePlan {
    match fetched {
        None => UpdatePlan::Create,
        Some(record) => if record.value == ip {
            UpdatePlan::Keep
        } else {
            UpdatePlan::Replace
        },
    }
}

/// Decides what to do about a fetched record so that it holds `current_ip`.
pub fn plan_update(fetched: &Option<DnsRecord>, current_ip: &str) -> (plan: UpdatePlan)
    ensures
        plan == planned(fetched.deep_view(), current_ip@),
{
    match fetched {
        None => UpdatePlan::Create,
        Some(record) => {
            if same_text(current_ip, record.value.as_str()) {
                UpdatePlan::Keep
            } else {
                UpdatePlan::Replace
            }
        },
    }
}

/// One step of a reconciliation that leaves the sending to the caller.
#[derive(Clone, Debug, PartialEq, Eq)]
pub enum UpdateStep {
    /// Nothing is to be sent; `result` is the outcome.
    Settled { result: DnsUpdateResult },
    /// `request` is to be sent, once; where that succeeds, `result` is the
    /// outcome.
    Pending { request: HttpRequest, result: DnsUpdateResult },
}

/// An `UpdateStep` with its parts as views.
pub enum UpdateStepView {
    Settled { result: DnsUpdateResultView },
    Pending { request: HttpRequestView, result: DnsUpdateResultView },
}

impl View for UpdateStep {
    type V = UpdateStepView;

    open spec fn view(&self) -> UpdateStepView {
        match self {
            UpdateStep::Settled { result } => UpdateStepView::Settled { result: result@ },
            UpdateStep::Pending { request, result } => UpdateStepView::Pending {
                request: request@,
                result: result@,
            },
        }
    }
}

/// The step that follows a fetch, given the two requests that the provider
/// would send: nothing to send where the record holds `ip`; `create` where
/// there is no record; `replace` where the record holds another value.
pub open spec fn step_of(
    fetched: Option<DnsRecordView>,
    ip: Seq<char>,
    create: HttpRequestView,
    replace: HttpRequestView,
) -> UpdateStepView {
    match fetched {
        None => UpdateStepView::Pending { request: create, result: DnsUpdateResultView::Created },
        Some(record) => if record.value == ip {
            UpdateStepView::Settled { result: DnsUpdateResultView::Unchanged }
        } else {
            UpdateStepView::Pending {
                request: replace,
                result: DnsUpdateResultView::Changed { old_ip: record.value },
            }
        },
    }
}

/// The record that a fetch found; arbitrary where it found none or failed.
pub open spec fn found(fetch: Result<Option<DnsRecordView>, DnsErrorView>) -> DnsRecordView {
    match fetch {
        Ok(Some(record)) => record,
        _ => arbitrary(),
    }
}

/// What a reconciliation does once the answer to the fetch request is read
/// as `fetch`: where the fetch failed, its error and nothing to send; else
/// the step that the fetched record calls for.
pub open spec fn reconciled(
    fetch: Result<Option<DnsRecordView>, DnsErrorView>,
    ip: Seq<char>,
    create: HttpRequestView,
    replace: HttpRequestView,
) -> Result<UpdateStepView, DnsErrorView> {
    match fetch {
        Ok(fetched) => Ok(step_of(fetched, ip, create, replace)),
        Err(e) => Err(e),
    }
}

/// The view of a result of `update_dns_record`.
pub open spec fn step_view(r: Result<UpdateStep, DnsError>) -> Result<
    UpdateStepView,
    DnsErrorView,
> {
    match r {
        Ok(step) => Ok(step@),
        Err(e) => Err(e@),
    }
}

/// What a reconciliation reports once the request of a pending step was sent,
/// given how the provider reads the answer as one to a create request and as
/// one to a modify request: `pending` where the reading that belongs to it is
/// a success, the error of that reading otherwise.
pub open spec fn settled_as(
    pending: DnsUpdateResultView,
    added: Result<(), DnsErrorView>,
    modified: Result<(), DnsErrorView>,
) -> Result<DnsUpdateResultView, DnsErrorView> {
    let outcome = match pending {
        DnsUpdateResultView::Created => added,
        DnsUpdateResultView::Changed { old_ip } => modified,
        DnsUpdateResultView::Unchanged => Ok(()),
    };
    match outcome {
        Ok(()) => Ok(pending),
        Err(e) => Err(e),
    }
}

/// A DNS backend. It can say how to fetch the record of its domain, how to
/// replace the value of a record and how to create the record, and it can
/// read the answers. The record type sent with a new value follows the
/// family of the address, not the type of the record that is replaced.
pub trait DnsProvider: Sized {
    /// The decoded body of an answer to the fetch request.
    type Listing;

    /// What comes back from a mutating request.
    type Receipt;

    /// The request that fetches the record.
    spec fn fetch_request(&self) -> HttpRequestView;

    /// What an answer to the fetch request means.
    spec fn fetch_outcome(&self, reply: Reply<Self::Listing>) -> Result<
        Option<DnsRecordView>,
        DnsErrorView,
    >;

    /// The request that replaces the value of `record` with `ip`.
    spec fn modify_request(
        &self,
        ip: Seq<char>,
        family: IpFamily,
        record: DnsRecordView,
    ) -> HttpRequestView;

    /// What the answer to a modify request means.
    spec fn modified_outcome(&self, receipt: Self::Receipt) -> Result<(), DnsErrorView>;

    /// The request that creates the record with value `ip`.
    spec fn add_request(&self, ip: Seq<char>, family: IpFamily) -> HttpRequestView;

    /// What the answer to a create request means.
    spec fn added_outcome(&self, receipt: Self::Receipt) -> Result<(), DnsErrorView>;

    /// The request that fetches the record of the configured domain.
    fn get_record(&self) -> (request: HttpRequest)
        ensures
            request@ == self.fetch_request(),
    ;

    /// Reads the answer to the request of `get_record`: the record, or `None`
    /// where the provider has none.
    fn read_record(&self, reply: &Reply<Self::Listing>) -> (r: Result<Option<DnsRecord>, DnsError>)
        ensures
            fetched_view(r) == self.fetch_outcome(*reply),
    ;

    /// The request that replaces the value of `record` with `current_ip`.
    fn modify_record(&self, current_ip: &str, family: IpFamily, record: &DnsRecord) -> (request:
        HttpRequest)
        ensures
            request@ == self.modify_request(current_ip@, family, record@),
    ;

    /// Reads the answer to the request of `modify_record`.
    fn confirm_modified(&self, receipt: &Self::Receipt) -> (r: Result<(), DnsError>)
        ensures
            mutated_view(r) == self.modified_outcome(*receipt),
    ;

    /// The request that creates the record with value `current_ip`.
    fn add_record(&self, current_ip: &str, family: IpFamily) -> (request: HttpRequest)
        ensures
            request@ == self.add_request(current_ip@, family),
    ;

    /// Reads the answer to the request of `add_record`.
    fn confirm_added(&self, receipt: &Self::Receipt) -> (r: Result<(), DnsError>)
        ensures
            mutated_view(r) == self.added_outcome(*receipt),
    ;

    /// Continues a reconciliation towards `current_ip` once the request of
    /// `get_record` was answered by `reply`. Where the fetch failed, its
    /// error is returned and nothing is to be sent. Otherwise the step says
    /// what is to be sent, and what the reconciliation then reports: the
    /// modify request and `Changed` where the record holds another value,
    /// the create request and `Created` where there is no record, and
    /// nothing and `Unchanged` where the record holds the value already.
    fn update_dns_record(
        &self,
        reply: &Reply<Self::Listing>,
        current_ip: &str,
        family: IpFamily,
    ) -> (r: Result<UpdateStep, DnsError>)
        ensures
            step_view(r) == reconciled(
                self.fetch_outcome(*reply),
                current_ip@,
                self.add_request(current_ip@, family),
                self.modify_request(current_ip@, family, found(self.fetch_outcome(*reply))),
            ),
    {
        let fetched = match self.read_record(reply) {
            Ok(fetched) => fetched,
            Err(e) => {
                return Err(e);
            },
        };
        match plan_update(&fetched, current_ip) {
            UpdatePlan::Keep => Ok(UpdateStep::Settled { result: DnsUpdateResult::Unchanged }),
            UpdatePlan::Create => Ok(
                UpdateStep::Pending {
                    request: self.add_record(current_ip, family),
                    result: DnsUpdateResult::Created,
                },
            ),
            UpdatePlan::Replace => {
                let record = fetched.unwrap();
                Ok(
                    UpdateStep::Pending {
                        request: self.modify_record(current_ip, family, &record),
                        result: DnsUpdateResult::Changed { old_ip: record.value },
                    },
                )
            },
        }
    }

    /// Ends a pending step: reads the answer to its request and reports the
    /// pending result where the provider accepted the request.
    fn settle(&self, pending: DnsUpdateResult, receipt: &Self::Receipt) -> (r: Result<
        DnsUpdateResult,
        DnsError,
    >)
        ensures
            updated_view(r) == settled_as(
                pending@,
                self.added_outcome(*receipt),
                self.modified_outcome(*receipt),
            ),
    {
        let outcome = match &pending {
            DnsUpdateResult::Created => self.confirm_added(receipt),
            DnsUpdateResult::Changed { old_ip } => self.confirm_modified(receipt),
            DnsUpdateResult::Unchanged => Ok(()),
        };
        match outcome {
            Ok(()) => Ok(pending),
            Err(e) => Err(e),
        }
    }
}

/// Where the fetch finds no record, exactly one request is to be sent, the
/// create request for the new address, and the reconciliation then reports
/// `Created`.
pub proof fn law_missing_record_is_added_once(
    ip: Seq<char>,
    create: HttpRequestView,
    replace: HttpRequestView,
)
    ensures
        reconciled(Ok(None), ip, create, replace) == Ok::<UpdateStepView, DnsErrorView>(
            UpdateStepView::Pending { request: create, result: DnsUpdateResultView::Created },
        ),
{
}

/// Where the fetch finds a record that already holds the new address, no
/// request is to be sent and the reconciliation reports `Unchanged`.
pub proof fn law_same_value_is_left_alone(
    record: DnsRecordView,
    create: HttpRequestView,
    replace: HttpRequestView,
)
    ensures
        reconciled(Ok(Some(record)), record.value, create, replace) == Ok::<
            UpdateStepView,
            DnsErrorView,
        >(UpdateStepView::Settled { result: DnsUpdateResultView::Unchanged }),
{
}

/// Where the fetch finds a record that holds another value, exactly one
/// request is to be sent, the modify request for that record and the new
/// address, and the reconciliation then reports `Changed` with the value that
/// the record held.
pub proof fn law_other_value_is_modified_once(
    record: DnsRecordView,
    ip: Seq<char>,
    create: HttpRequestView,
    replace: HttpRequestView,
)
    requires
        record.value != ip,
    ensures
        reconciled(Ok(Some(record)), ip, create, replace) == Ok::<UpdateStepView, DnsErrorView>(
            UpdateStepView::Pending {
                request: replace,
                result: DnsUpdateResultView::Changed { old_ip: record.value },
            },
        ),
{
}

/// Where the fetch fails, its error is returned and no request is to be sent.
pub proof fn law_failed_fetch_sends_nothing(
    error: DnsErrorView,
    ip: Seq<char>,
    create: HttpRequestView,
    replace: HttpRequestView,
)
    ensures
        reconciled(Err(error), ip, create, replace) == Err::<UpdateStepView, DnsErrorView>(error),
{
}

/// A pending step whose request the provider accepted ends in the pending
/// result; one that it did not accept ends in the provider's error.
pub proof fn law_settled_result_is_the_pending_one(
    pending: DnsUpdateResultView,
    added: Result<(), DnsErrorView>,
    modified: Result<(), DnsErrorView>,
)
    ensures
        settled_as(pending, added, modified) is Ok ==> settled_as(pending, added, modified) == Ok::<
            DnsUpdateResultView,
            DnsErrorView,
        >(pending),
        pending is Created ==> (settled_as(pending, added, modified) is Ok <==> added is Ok),
        pending is Changed ==> (settled_as(pending, added, modified) is Ok <==> modified is Ok),
        pending is Unchanged ==> settled_as(pending, added, modified) is Ok,
{
}

} // verus!
