//! What every DNS backend offers, in a form that performs no I/O: a backend
//! says which request to send and reads what came back; the caller sends.

use crate::address::Address;
use crate::config::ProviderConfig;
use crate::providers::gandi::{gandi_made, Gandi, GandiView};
use crate::rate_limit::{pause_for, Pause, RateLimiter};
use vstd::prelude::*;

pub mod gandi;

verus! {

/// Why a request to a provider failed.
#[derive(Clone, Copy, Debug, PartialEq, Eq, Structural)]
pub enum ProviderError {
    /// The provider rejected the credentials.
    Unauthenticated,
    /// Anything else: the transport failed, or the answer could not be read.
    Unknown,
}

/// Why a provider could not be set up.
#[derive(Clone, Copy, Debug, PartialEq, Eq, Structural)]
pub enum InitError {
    /// No backend goes by the name given.
    UnknownBackend,
    /// The settings hold no `token`.
    MissingToken,
    /// The token cannot be sent in a header.
    InvalidToken,
}

/// How a request is sent.
#[derive(Clone, Copy, Debug, PartialEq, Eq, Structural)]
pub enum Method {
    Get,
    Post,
    Put,
}

/// The record that a request publishes.
#[derive(Clone, Copy, Debug, PartialEq, Eq, Structural)]
pub struct RecordSet {
    pub address: Address,
    /// Time to live, in seconds.
    pub ttl: u32,
}

/// A request for the caller to send. `record`, where there is one, goes in
/// the body.
#[derive(Clone, Debug, PartialEq, Eq)]
pub struct Request {
    pub method: Method,
    pub url: String,
    pub record: Option<RecordSet>,
}

/// What came back from a request.
#[derive(Clone, Debug, PartialEq, Eq)]
pub enum Reply {
    /// The request failed on the way; the failure may carry a status.
    Failed { code: Option<u16> },
    /// The provider answered. `records` holds the values of the record set in
    /// the body, `None` standing for a value that is no IPv6 address; it is
    /// `None` where the body is no record set.
    Answered { status: u16, records: Option<Vec<Option<Address>>> },
}

/// The status that a reply carries, if any.
pub open spec fn status_of(reply: Reply) -> Option<u16> {
    match reply {
        Reply::Failed { code } => code,
        Reply::Answered { status, .. } => Some(status),
    }
}

/// The operations of a DNS backend on AAAA records. Each one comes in two
/// halves, the request to send and the reading of the reply; between them the
/// caller keeps the pause that the backend asks for and tells it when the
/// request went out.
pub trait DnsProvider: Sized {
    /// The clock that spaces this provider's requests.
    spec fn limiter(&self) -> RateLimiter;

    /// Sets the backend up from its settings.
    fn new(config: &ProviderConfig) -> (made: Result<Self, InitError>)
        ensures
            made matches Ok(provider) ==> provider.limiter().last_request is None,
    ;

    /// The pause due before the next request, the clock reading `now`.
    fn wait_for_rate_limit(&self, now: u64) -> (pause: Pause)
        ensures
            pause == pause_for(self.limiter().last_request, self.limiter().min_interval, now),
    ;

    /// Notes that a request goes out at `now`.
    fn request_issued(&mut self, now: u64)
        ensures
            final(self).limiter() == (RateLimiter {
                min_interval: old(self).limiter().min_interval,
                last_request: Some(now),
            }),
    ;

    /// The request that reads the record `name` of the zone `fqdn`.
    fn get_aaaa_record(&self, fqdn: &str, name: &str) -> (request: Request)
        ensures
            request.record is None,
    ;

    /// The request that publishes a record that does not exist yet.
    fn set_aaaa_record(&self, fqdn: &str, name: &str, ip: Address, ttl: u32) -> (request: Request)
        ensures
            request.record == Some(RecordSet { address: ip, ttl }),
    ;

    /// The request that replaces the value of an existing record.
    fn update_aaaa_record(&self, fqdn: &str, name: &str, ip: Address, ttl: u32) -> (request:
        Request)
        ensures
            request.record == Some(RecordSet { address: ip, ttl }),
    ;

    /// The published address that the reply to a read request reports, `None`
    /// where no record exists. How an answer is read is the backend's affair;
    /// a request that failed on the way and tells no status is an unknown
    /// failure with every backend.
    fn read_aaaa_record(&self, reply: &Reply) -> (record: Result<Option<Address>, ProviderError>)
        ensures
            *reply == (Reply::Failed { code: None }) ==> record == Err::<
                Option<Address>,
                ProviderError,
            >(ProviderError::Unknown),
    ;

    /// Whether the reply to a write request reports that the record was
    /// published. A request that failed on the way is an unknown failure with
    /// every backend.
    fn read_write_outcome(&self, reply: &Reply) -> (outcome: Result<(), ProviderError>)
        ensures
            reply is Failed ==> outcome == Err::<(), ProviderError>(ProviderError::Unknown),
    ;
}

/// A provider instance of one of the known backends.
#[derive(Debug)]
pub enum Provider {
    Gandi(Gandi),
}

/// A provider instance as contracts speak of it.
pub enum ProviderView {
    Gandi(GandiView),
}

impl View for Provider {
    type V = ProviderView;

    open spec fn view(&self) -> ProviderView {
        match self {
            Provider::Gandi(gandi) => ProviderView::Gandi(gandi@),
        }
    }
}

/// The provider that `get_provider` makes for the backend `name` from
/// `config`, or the reason why it makes none.
pub open spec fn provider_made(name: Seq<char>, config: ProviderConfig) -> Result<
    ProviderView,
    InitError,
> {
    if name == "gandi"@ {
        match gandi_made(config) {
            Ok(gandi) => Ok(ProviderView::Gandi(gandi)),
            Err(error) => Err(error),
        }
    } else {
        Err(InitError::UnknownBackend)
    }
}

/// Sets up the backend that goes by `name` from its settings. A name that no
/// backend goes by is an error like any other.
pub fn get_provider(name: &str, config: &ProviderConfig) -> (made: Result<Provider, InitError>)
    ensures
        match made {
            Ok(provider) => provider_made(name@, *config) == Ok::<ProviderView, InitError>(
                provider@,
            ),
            Err(error) => provider_made(name@, *config) == Err::<ProviderView, InitError>(error),
        },
{
    if name.to_owned() == "gandi".to_owned() {
        match Gandi::new(config) {
            Ok(gandi) => Ok(Provider::Gandi(gandi)),
            Err(error) => Err(error),
        }
    } else {
        Err(InitError::UnknownBackend)
    }
}

} // verus!
