//! The failures that the library reports.

use vstd::prelude::*;

verus! {

/// Why an operation of this library failed.
#[derive(Clone, Debug, PartialEq, Eq)]
pub enum DnsError {
    /// The domain has fewer than two dot-separated labels.
    InvalidDomainFormat { domain: String },
    /// The provider knows no zone of this name.
    NoZoneFound { zone: String },
    /// The provider answered with a falsy success flag; `detail` lists what it
    /// reported.
    ProviderRejected { detail: String },
    /// The response body does not have the expected shape.
    MalformedResponse { body: String, reason: String },
    /// The request could not be delivered or its answer could not be read.
    OperationFailed { detail: String },
    /// No API token is configured for the domain.
    MissingCredential { domain: String },
}

/// A `DnsError` with its texts as character sequences.
pub enum DnsErrorView {
    InvalidDomainFormat { domain: Seq<char> },
    NoZoneFound { zone: Seq<char> },
    ProviderRejected { detail: Seq<char> },
    MalformedResponse { body: Seq<char>, reason: Seq<char> },
    OperationFailed { detail: Seq<char> },
    MissingCredential { domain: Seq<char> },
}

impl View for DnsError {
    type V = DnsErrorView;

    open spec fn view(&self) -> DnsErrorView {
        match self {
            DnsError::InvalidDomainFormat { domain } => DnsErrorView::InvalidDomainFormat {
                domain: domain@,
            },
            DnsError::NoZoneFound { zone } => DnsErrorView::NoZoneFound { zone: zone@ },
            DnsError::ProviderRejected { detail } => DnsErrorView::ProviderRejected {
                detail: detail@,
            },
            DnsError::MalformedResponse { body, reason } => DnsErrorView::MalformedResponse {
                body: body@,
                reason: reason@,
            },
            DnsError::OperationFailed { detail } => DnsErrorView::OperationFailed {
                detail: detail@,
            },
            DnsError::MissingCredential { domain } => DnsErrorView::MissingCredential {
                domain: domain@,
            },
        }
    }
}

impl DeepView for DnsError {
    type V = DnsErrorView;

    open spec fn deep_view(&self) -> DnsErrorView {
        self@
    }
}

/// The view of a result that is a text or an error.
pub open spec fn text_view(r: Result<String, DnsError>) -> Result<Seq<char>, DnsErrorView> {
    match r {
        Ok(text) => Ok(text@),
        Err(e) => Err(e@),
    }
}

/// The message of an error, as a reader of the log sees it.
pub open spec fn message_of(e: DnsErrorView) -> Seq<char> {
    match e {
        DnsErrorView::InvalidDomainFormat { domain } => "Invalid domain format: "@ + domain,
        DnsErrorView::NoZoneFound { zone } => "No zone found for domain: "@ + zone,
        DnsErrorView::ProviderRejected { detail } => "Cloudflare API error: "@ + detail,
        DnsErrorView::MalformedResponse { body, reason } => reason,
        DnsErrorView::OperationFailed { detail } => detail,
        DnsErrorView::MissingCredential { domain } => "No token available for domain "@ + domain,
    }
}

impl DnsError {
    /// The message of the error.
    pub fn message(&self) -> (text: String)
        ensures
            text@ == message_of(self@),
    {
        match self {
            DnsError::InvalidDomainFormat { domain } => {
                let mut text = String::from_str("Invalid domain format: ");
                text.append(domain.as_str());
                text
            },
            DnsError::NoZoneFound { zone } => {
                let mut text = String::from_str("No zone found for domain: ");
                text.append(zone.as_str());
                text
            },
            DnsError::ProviderRejected { detail } => {
                let mut text = String::from_str("Cloudflare API error: ");
                text.append(detail.as_str());
                text
            },
            DnsError::MalformedResponse { body, reason } => reason.clone(),
            DnsError::OperationFailed { detail } => detail.clone(),
            DnsError::MissingCredential { domain } => {
                let mut text = String::from_str("No token available for domain ");
                text.append(domain.as_str());
                text
            },
        }
    }
}

} // verus!
