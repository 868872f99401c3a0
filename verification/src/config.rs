//! The settings that drive the polling loop, the choices that follow from
//! them for one domain, and the checks made on them before the loop starts.

use crate::cloudflare::{CloudflareProvider, CloudflareProviderView};
use crate::dnspod::{DnspodProvider, DnspodProviderView};
use crate::domain::{parse_domain, split_domain};
use crate::error::{DnsError, DnsErrorView};
use crate::text::same_text;
use vstd::prelude::*;

verus! {

/// Which backend manages a domain.
#[derive(Clone, Copy, Debug, PartialEq, Eq)]
pub enum Provider {
    Dnspod,
    Cloudflare,
}

impl Default for Provider {
    /// The zone-based backend, where none is named.
    fn default() -> (provider: Self)
        ensures
            provider == Provider::Cloudflare,
    {
        Provider::Cloudflare
    }
}

/// The settings of one domain. Where an optional setting is missing, the
/// default of the whole configuration applies.
#[derive(Clone, Debug, PartialEq, Eq)]
pub struct DomainConfig {
    pub provider: Option<Provider>,
    pub dnspod_token: Option<String>,
    pub cloudflare_token: Option<String>,
    /// The fully-qualified domain; `@.example.com` stands for the root.
    pub domain: String,
    pub ip_url: Option<String>,
    pub hook_command: Option<String>,
}

/// The settings of the whole run.
#[derive(Clone, Debug, PartialEq, Eq)]
pub struct Config {
    /// Seconds to sleep between two cycles.
    pub sleep_secs: u64,
    /// Every how many cycles the provider is asked even though the address
    /// did not change.
    pub force_get_record_interval: i8,
    pub default_provider: Provider,
    pub default_dnspod_token: Option<String>,
    pub default_cloudflare_token: Option<String>,
    pub default_ip_url: String,
    pub default_hook_command: Option<String>,
    pub domains: Vec<DomainConfig>,
}

/// The pause between two cycles where none is configured, in seconds.
pub fn default_sleep_secs() -> (secs: u64)
    ensures
        secs == 120,
{
    120
}

/// The forced-refresh interval where none is configured: every fifth cycle.
pub fn default_force_interval() -> (interval: i8)
    ensures
        interval == 5,
{
    5
}

/// The address of the IP lookup service where none is configured.
pub fn default_ip_url() -> (url: String)
    ensures
        url@ == "http://whatismyip.akamai.com"@,
{
    String::from_str("http://whatismyip.akamai.com")
}

/// The text of an optional setting.
pub open spec fn text_of(setting: Option<String>) -> Option<Seq<char>> {
    match setting {
        Some(text) => Some(text@),
        None => None,
    }
}

/// An optional setting of a domain, or else the default.
pub open spec fn first_of(own: Option<String>, fallback: Option<String>) -> Option<Seq<char>> {
    match own {
        Some(text) => Some(text@),
        None => text_of(fallback),
    }
}

/// The backend that manages a domain.
pub open spec fn provider_of(config: Config, domain: DomainConfig) -> Provider {
    match domain.provider {
        Some(provider) => provider,
        None => config.default_provider,
    }
}

/// The token with which `provider` is addressed for a domain, if any is
/// configured.
pub open spec fn token_of(config: Config, domain: DomainConfig, provider: Provider) -> Option<
    Seq<char>,
> {
    match provider {
        Provider::Dnspod => first_of(domain.dnspod_token, config.default_dnspod_token),
        Provider::Cloudflare => first_of(domain.cloudflare_token, config.default_cloudflare_token),
    }
}

/// What is wrong with the settings of a domain, if anything: no token for its
/// backend, or, for the token/domain-form backend, a domain that does not
/// split.
pub open spec fn domain_fault(config: Config, domain: DomainConfig) -> Option<DnsErrorView> {
    let provider = provider_of(config, domain);
    if token_of(config, domain, provider) is None {
        Some(DnsErrorView::MissingCredential { domain: domain.domain@ })
    } else if provider == Provider::Dnspod && split_domain(domain.domain@) is None {
        Some(DnsErrorView::InvalidDomainFormat { domain: domain.domain@ })
    } else {
        None
    }
}

/// The own setting where there is one, else the fallback.
fn pick<'a>(own: &'a Option<String>, fallback: &'a Option<String>) -> (chosen: Option<&'a String>)
    ensures
        match chosen {
            Some(text) => Some(text@) == first_of(*own, *fallback),
            None => first_of(*own, *fallback) is None,
        },
{
    match own {
        Some(text) => Some(text),
        None => match fallback {
            Some(text) => Some(text),
            None => None,
        },
    }
}

impl Config {
    /// The backend that manages `domain`: its own, or else the default.
    pub fn provider_for(&self, domain: &DomainConfig) -> (provider: Provider)
        ensures
            provider == provider_of(*self, *domain),
    {
        match domain.provider {
            Some(provider) => provider,
            None => self.default_provider,
        }
    }

    /// The token with which `provider` is addressed for `domain`: the
    /// domain's own, or else the default.
    pub fn token_for(&self, domain: &DomainConfig, provider: Provider) -> (token: Option<String>)
        ensures
            text_of(token) == token_of(*self, *domain, provider),
    {
        let chosen = match provider {
            Provider::Dnspod => pick(&domain.dnspod_token, &self.default_dnspod_token),
            Provider::Cloudflare => pick(&domain.cloudflare_token, &self.default_cloudflare_token),
        };
        match chosen {
            Some(text) => Some(text.clone()),
            None => None,
        }
    }

    /// The address of the IP lookup service for `domain`: its own, or else
    /// the default.
    pub fn ip_url_for(&self, domain: &DomainConfig) -> (url: String)
        ensures
            url@ == (match domain.ip_url {
                Some(own) => own@,
                None => self.default_ip_url@,
            }),
    {
        match &domain.ip_url {
            Some(own) => own.clone(),
            None => self.default_ip_url.clone(),
        }
    }

    /// The hook command to run after `domain` changed: its own, or else the
    /// default, or none.
    pub fn hook_command_for(&self, domain: &DomainConfig) -> (command: Option<String>)
        ensures
            text_of(command) == first_of(domain.hook_command, self.default_hook_command),
    {
        match pick(&domain.hook_command, &self.default_hook_command) {
            Some(text) => Some(text.clone()),
            None => None,
        }
    }

    /// Looks for a fault in the settings of one domain.
    fn check_domain(&self, domain: &DomainConfig) -> (fault: Option<DnsError>)
        ensures
            fault.deep_view() == domain_fault(*self, *domain),
    {
        let provider = self.provider_for(domain);
        let token = self.token_for(domain, provider);
        if token.is_none() {
            return Some(DnsError::MissingCredential { domain: domain.domain.clone() });
        }
        match provider {
            Provider::Cloudflare => None,
            Provider::Dnspod => match parse_domain(domain.domain.as_str()) {
                Ok(_) => None,
                Err(e) => Some(e),
            },
        }
    }

    /// Checks the settings before the loop starts. They are rejected where no
    /// domain is configured, and at the first domain that has no token for
    /// its backend or, with the token/domain-form backend, does not split.
    pub fn validate(&self) -> (r: Result<(), ConfigError>)
        ensures
            r is Ok <==> self.domains@.len() > 0 && forall|i: int|
                0 <= i < self.domains@.len() ==> domain_fault(*self, #[trigger] self.domains@[i])
                    is None,
            r == Err::<(), ConfigError>(ConfigError::NoDomains) <==> self.domains@.len() == 0,
            r matches Err(ConfigError::Domain { position, cause }) ==> ({
                &&& 1 <= position <= self.domains@.len()
                &&& domain_fault(*self, self.domains@[position - 1]) == Some(cause@)
                &&& forall|j: int|
                    0 <= j < position - 1 ==> domain_fault(*self, #[trigger] self.domains@[j])
                        is None
            }),
    {
        if self.domains.len() == 0 {
            return Err(ConfigError::NoDomains);
        }
        let mut i: usize = 0;
        while i < self.domains.len()
            invariant
                i <= self.domains@.len(),
                self.domains@.len() > 0,
                forall|j: int|
                    0 <= j < i ==> domain_fault(*self, #[trigger] self.domains@[j]) is None,
            decreases self.domains@.len() - i,
        {
            match self.check_domain(&self.domains[i]) {
                Some(cause) => {
                    return Err(ConfigError::Domain { position: i + 1, cause });
                },
                None => {},
            }
            i = i + 1;
        }
        Ok(())
    }
}

/// Why the settings were rejected.
#[derive(Clone, Debug, PartialEq, Eq)]
pub enum ConfigError {
    /// No domain is configured.
    NoDomains,
    /// The domain at `position`, counted from one, is at fault.
    Domain { position: usize, cause: DnsError },
}

/// What is to be done about one domain in one cycle.
#[derive(Clone, Debug, PartialEq, Eq)]
pub enum DomainAction {
    /// The address did not change and no refresh is forced: nothing is asked
    /// of the provider.
    Unchanged,
    /// Reconcile through the token/domain-form backend.
    Dnspod { provider: DnspodProvider },
    /// Reconcile through the zone-based backend.
    Cloudflare { provider: CloudflareProvider },
}

/// A `DomainAction` with its provider as a view.
pub enum DomainActionView {
    Unchanged,
    Dnspod { provider: DnspodProviderView },
    Cloudflare { provider: CloudflareProviderView },
}

impl View for DomainAction {
    type V = DomainActionView;

    open spec fn view(&self) -> DomainActionView {
        match self {
            DomainAction::Unchanged => DomainActionView::Unchanged,
            DomainAction::Dnspod { provider } => DomainActionView::Dnspod { provider: provider@ },
            DomainAction::Cloudflare { provider } => DomainActionView::Cloudflare {
                provider: provider@,
            },
        }
    }
}

/// The provider through which a domain is reconciled, or why there is none.
pub open spec fn provider_choice(config: Config, domain: DomainConfig) -> Result<
    DomainActionView,
    DnsErrorView,
> {
    match provider_of(config, domain) {
        Provider::Dnspod => match split_domain(domain.domain@) {
            None => Err(DnsErrorView::InvalidDomainFormat { domain: domain.domain@ }),
            Some((label, root)) => match token_of(config, domain, Provider::Dnspod) {
                None => Err(DnsErrorView::MissingCredential { domain: domain.domain@ }),
                Some(token) => Ok(
                    DomainActionView::Dnspod {
                        provider: DnspodProviderView { token, domain: root, sub_domain: label },
                    },
                ),
            },
        },
        Provider::Cloudflare => match token_of(config, domain, Provider::Cloudflare) {
            None => Err(DnsErrorView::MissingCredential { domain: domain.domain@ }),
            Some(token) => Ok(
                DomainActionView::Cloudflare {
                    provider: CloudflareProviderView {
                        api_token: token,
                        record_name: domain.domain@,
                    },
                },
            ),
        },
    }
}

/// What is to be done about a domain whose address is `current_ip` and was
/// `old_ip` when it was last applied: nothing, unless the address changed or
/// a refresh is forced.
pub open spec fn domain_action(
    config: Config,
    domain: DomainConfig,
    current_ip: Seq<char>,
    old_ip: Seq<char>,
    forced: bool,
) -> Result<DomainActionView, DnsErrorView> {
    if current_ip != old_ip || forced {
        provider_choice(config, domain)
    } else {
        Ok(DomainActionView::Unchanged)
    }
}

/// The view of a result of `update_record_if_need`.
pub open spec fn action_view(r: Result<DomainAction, DnsError>) -> Result<
    DomainActionView,
    DnsErrorView,
> {
    match r {
        Ok(action) => Ok(action@),
        Err(e) => Err(e@),
    }
}

/// Decides what one cycle does about one domain. The provider is asked where
/// the address differs from the one last applied or where `forced` says so;
/// the result then names the backend to reconcile through, built from the
/// domain's settings.
pub fn update_record_if_need(
    domain_config: &DomainConfig,
    config: &Config,
    current_ip: &str,
    old_ip: &str,
    forced: bool,
) -> (r: Result<DomainAction, DnsError>)
    ensures
        action_view(r) == domain_action(*config, *domain_config, current_ip@, old_ip@, forced),
{
    if same_text(current_ip, old_ip) && !forced {
        return Ok(DomainAction::Unchanged);
    }
    match config.provider_for(domain_config) {
        Provider::Dnspod => {
            let (label, root) = match parse_domain(domain_config.domain.as_str()) {
                Ok(pair) => pair,
                Err(e) => {
                    return Err(e);
                },
            };
            match config.token_for(domain_config, Provider::Dnspod) {
                None => Err(DnsError::MissingCredential { domain: domain_config.domain.clone() }),
                Some(token) => Ok(
                    DomainAction::Dnspod { provider: DnspodProvider::new(token, root, label) },
                ),
            }
        },
        Provider::Cloudflare => match config.token_for(domain_config, Provider::Cloudflare) {
            None => Err(DnsError::MissingCredential { domain: domain_config.domain.clone() }),
            Some(token) => Ok(
                DomainAction::Cloudflare {
                    provider: CloudflareProvider::new(token, domain_config.domain.clone()),
                },
            ),
        },
    }
}

} // verus!
