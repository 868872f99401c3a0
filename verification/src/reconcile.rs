//! The decisions of the polling loop: whether a cycle forces a refresh, what
//! address a domain had when it was last applied, and what follows from the
//! outcome of a reconciliation.

use crate::error::{DnsError, DnsErrorView, text_view};
use crate::http::Delivery;
use crate::record::{DnsUpdateResult, DnsUpdateResultView};
use crate::text::{trim, trimmed};
use vstd::hash_map::StringHashMap;
use vstd::prelude::*;

verus! {

/// The number of cycles between two forced refreshes.
pub open spec fn refresh_period(interval: i8) -> int {
    if interval < 0 {
        -(interval as int)
    } else {
        interval as int
    }
}

/// Whether the cycle with index `cycle` forces a refresh: every cycle whose
/// index is a multiple of the interval does.
pub open spec fn forced_cycle(cycle: u64, interval: i8) -> bool {
    cycle as int % refresh_period(interval) == 0
}

/// Whether the provider is asked in this cycle even though the address did
/// not change.
pub fn is_forced_cycle(cycle: u64, interval: i8) -> (forced: bool)
    requires
        interval != 0,
    ensures
        forced == forced_cycle(cycle, interval),
{
    let period: u64 = if interval < 0 {
        (-(interval as i16)) as u64
    } else {
        interval as u64
    };
    cycle % period == 0
}

/// The index of the cycle after `cycle`, kept below the refresh period. The
/// reduced index forces a refresh exactly when the plain one does.
pub fn next_cycle(cycle: u64, interval: i8) -> (next: u64)
    requires
        interval != 0,
    ensures
        next < refresh_period(interval),
        next == (cycle + 1) % refresh_period(interval),
        forced_cycle(next, interval) == ((cycle + 1) % refresh_period(interval) == 0),
{
    let period: u64 = if interval < 0 {
        (-(interval as i16)) as u64
    } else {
        interval as u64
    };
    let reduced = cycle % period;
    let next = (reduced + 1) % period;
    proof {
        let p = period as int;
        vstd::arithmetic::div_mod::lemma_add_mod_noop(cycle as int, 1, p);
        vstd::arithmetic::div_mod::lemma_mod_twice(reduced as int + 1, p);
        if p > 1 {
            vstd::arithmetic::div_mod::lemma_small_mod(1, p as nat);
        } else {
            assert(1int % 1 == 0);
        }
        vstd::arithmetic::div_mod::lemma_small_mod(next as nat, p as nat);
    }
    next
}

/// What a changed domain hands to its side effects.
#[derive(Clone, Debug, PartialEq, Eq)]
pub struct DomainUpdateResult {
    pub domain: String,
    pub new_ip: String,
    /// The address that the record held before; empty where it was created.
    pub old_ip: String,
}

/// A `DomainUpdateResult` with its texts as character sequences.
pub struct DomainUpdateResultView {
    pub domain: Seq<char>,
    pub new_ip: Seq<char>,
    pub old_ip: Seq<char>,
}

impl View for DomainUpdateResult {
    type V = DomainUpdateResultView;

    open spec fn view(&self) -> DomainUpdateResultView {
        DomainUpdateResultView { domain: self.domain@, new_ip: self.new_ip@, old_ip: self.old_ip@ }
    }
}

impl DeepView for DomainUpdateResult {
    type V = DomainUpdateResultView;

    open spec fn deep_view(&self) -> DomainUpdateResultView {
        self@
    }
}

impl DomainUpdateResult {
    /// The environment of the hook command: the domain, the new address and
    /// the old one.
    pub fn hook_environment(&self) -> (variables: Vec<(String, String)>)
        ensures
            variables.deep_view() == seq![
                ("DOMAIN"@, self@.domain),
                ("NEW_IP"@, self@.new_ip),
                ("OLD_IP"@, self@.old_ip),
            ],
    {
        let mut variables: Vec<(String, String)> = Vec::new();
        variables.push((String::from_str("DOMAIN"), self.domain.clone()));
        variables.push((String::from_str("NEW_IP"), self.new_ip.clone()));
        variables.push((String::from_str("OLD_IP"), self.old_ip.clone()));
        assert(variables.deep_view() =~= seq![
            ("DOMAIN"@, self@.domain),
            ("NEW_IP"@, self@.new_ip),
            ("OLD_IP"@, self@.old_ip),
        ]);
        variables
    }
}

/// The side effects that the outcome of a reconciliation calls for: none for
/// `Unchanged`, and for the other two the domain with its new and its old
/// address, the old one empty where the record was created.
pub open spec fn side_effects(
    domain: Seq<char>,
    current_ip: Seq<char>,
    result: DnsUpdateResultView,
) -> Option<DomainUpdateResultView> {
    match result {
        DnsUpdateResultView::Changed { old_ip } => Some(
            DomainUpdateResultView { domain, new_ip: current_ip, old_ip },
        ),
        DnsUpdateResultView::Created => Some(
            DomainUpdateResultView { domain, new_ip: current_ip, old_ip: Seq::empty() },
        ),
        DnsUpdateResultView::Unchanged => None,
    }
}

/// The last applied addresses after the outcome of a reconciliation: the new
/// address under the domain for `Changed` and `Created`, and what was there
/// before for `Unchanged`.
pub open spec fn applied(
    latest: Map<Seq<char>, Seq<char>>,
    domain: Seq<char>,
    current_ip: Seq<char>,
    result: DnsUpdateResultView,
) -> Map<Seq<char>, Seq<char>> {
    match result {
        DnsUpdateResultView::Unchanged => latest,
        _ => latest.insert(domain, current_ip),
    }
}

/// The address last applied to each domain, kept in memory for the lifetime
/// of the loop.
pub struct LastKnownIps {
    latest: StringHashMap<String>,
}

impl View for LastKnownIps {
    type V = Map<Seq<char>, Seq<char>>;

    closed spec fn view(&self) -> Map<Seq<char>, Seq<char>> {
        self.latest@.map_values(|ip: String| ip@)
    }
}

impl LastKnownIps {
    /// No address was applied to any domain yet.
    pub fn new() -> (known: Self)
        ensures
            known@ == Map::<Seq<char>, Seq<char>>::empty(),
    {
        let known = LastKnownIps { latest: StringHashMap::new() };
        assert(known@ =~= Map::<Seq<char>, Seq<char>>::empty());
        known
    }

    /// The address last applied to `domain`; empty where none was.
    pub fn last_ip(&self, domain: &str) -> (ip: String)
        ensures
            ip@ == (if self@.contains_key(domain@) {
                self@[domain@]
            } else {
                Seq::<char>::empty()
            }),
    {
        match self.latest.get(domain) {
            Some(ip) => ip.clone(),
            None => String::new(),
        }
    }

    /// Takes note of the outcome of a reconciliation of `domain` towards
    /// `current_ip`, and says which side effects it calls for. The new
    /// address is remembered after `Changed` and `Created`; `Unchanged`
    /// changes nothing and calls for nothing.
    pub fn apply(&mut self, domain: &str, current_ip: &str, result: &DnsUpdateResult) -> (effects:
        Option<DomainUpdateResult>)
        ensures
            effects.deep_view() == side_effects(domain@, current_ip@, result@),
            final(self)@ == applied(old(self)@, domain@, current_ip@, result@),
    {
        let old_ip = match result {
            DnsUpdateResult::Unchanged => {
                return None;
            },
            DnsUpdateResult::Changed { old_ip } => old_ip.clone(),
            DnsUpdateResult::Created => String::new(),
        };
        let ghost before = self.latest@;
        let remembered = String::from_str(current_ip);
        self.latest.insert(String::from_str(domain), remembered);
        assert(self@ =~= old(self)@.insert(domain@, current_ip@)) by {
            assert(self.latest@ == before.insert(domain@, remembered));
        }
        Some(
            DomainUpdateResult {
                domain: String::from_str(domain),
                new_ip: String::from_str(current_ip),
                old_ip,
            },
        )
    }
}

/// What the answer of the IP lookup service means: the body without leading
/// and trailing white space; an error where the request failed.
pub open spec fn lookup_outcome(delivery: Delivery) -> Result<Seq<char>, DnsErrorView> {
    match delivery {
        Delivery::Answered { body } => Ok(trimmed(body@)),
        Delivery::Failed { detail } => Err(DnsErrorView::OperationFailed { detail: detail@ }),
    }
}

/// Reads the answer of the IP lookup service.
pub fn current_ip(delivery: &Delivery) -> (r: Result<String, DnsError>)
    ensures
        text_view(r) == lookup_outcome(*delivery),
{
    match delivery {
        Delivery::Answered { body } => Ok(trim(body.as_str())),
        Delivery::Failed { detail } => Err(DnsError::OperationFailed { detail: detail.clone() }),
    }
}

} // verus!
