//! The Gandi LiveDNS backend.

use crate::address::Address;
use crate::config::{setting, ProviderConfig};
use crate::providers::{
    status_of, DnsProvider, InitError, Method, ProviderError, RecordSet, Reply, Request,
};
use crate::rate_limit::{pause_for, Pause, RateLimiter};
use vstd::prelude::*;

verus! {

/// The spacing between two requests to Gandi: sixty seconds, in nanoseconds.
pub const REQUEST_INTERVAL: u64 = 60_000_000_000;

/// A Gandi account in use: the value of the `Authorization` header that every
/// request carries, and the clock that spaces the requests.
#[derive(Debug)]
pub struct Gandi {
    pub authorization: String,
    pub limiter: RateLimiter,
}

/// A Gandi account as contracts speak of it.
pub struct GandiView {
    pub authorization: Seq<char>,
    pub limiter: RateLimiter,
}

impl View for Gandi {
    type V = GandiView;

    open spec fn view(&self) -> GandiView {
        GandiView { authorization: self.authorization@, limiter: self.limiter }
    }
}

/// A character that a header value may hold: the tab, or any character from
/// the space on but the delete character.
pub open spec fn header_value_char(c: char) -> bool {
    (c as u32 >= 32 && c as u32 != 127) || c as u32 == 9
}

/// A text that can be sent as the value of a header.
pub open spec fn header_value_text(text: Seq<char>) -> bool {
    forall|index: int| 0 <= index < text.len() ==> header_value_char(#[trigger] text[index])
}

/// Calls `reqwest::header::HeaderValue::from_str`, which is that of the
/// `http` crate, and reports whether it accepted `text`. The contract is
/// taken on trust: the function refuses a text with a byte below 32 other
/// than the tab, or with the byte 127, and accepts every other. A character
/// from 128 on is encoded in bytes from 128 on, so the test on bytes is the
/// one on characters that the contract states.
#[verifier::external_body]
fn is_header_value(text: &str) -> (accepted: bool)
    ensures
        accepted == header_value_text(text@),
{
    reqwest::header::HeaderValue::from_str(text).is_ok()
}

/// The account that `Gandi::new` sets up from `config`, or the reason why it
/// sets up none.
pub open spec fn gandi_made(config: ProviderConfig) -> Result<GandiView, InitError> {
    match setting(config.settings@, "token"@) {
        None => Err(InitError::MissingToken),
        Some(token) => if header_value_text("ApiKey "@ + token) {
            Ok(
                GandiView {
                    authorization: "ApiKey "@ + token,
                    limiter: RateLimiter { min_interval: REQUEST_INTERVAL, last_request: None },
                },
            )
        } else {
            Err(InitError::InvalidToken)
        },
    }
}

/// The address under which Gandi keeps the AAAA record `name` of `fqdn`.
pub open spec fn record_url(fqdn: Seq<char>, name: Seq<char>) -> Seq<char> {
    "https://api.gandi.net/v5/livedns/domains/"@ + fqdn + "/records/"@ + name + "/AAAA"@
}

/// What the reply to a read request says of the record: a status 403 is a
/// refusal of the credentials, a status 404 means that there is no record;
/// any other failure on the way is unknown. Of an answer the first value
/// counts; an answer that is no record set, or an empty one, means that there
/// is no record.
pub open spec fn record_read(reply: Reply) -> Result<Option<Address>, ProviderError> {
    if status_of(reply) == Some(403u16) {
        Err(ProviderError::Unauthenticated)
    } else if status_of(reply) == Some(404u16) {
        Ok(None)
    } else {
        match reply {
            Reply::Failed { .. } => Err(ProviderError::Unknown),
            Reply::Answered { records: None, .. } => Ok(None),
            Reply::Answered { records: Some(values), .. } => if values@.len() == 0 {
                Ok(None)
            } else {
                match values@[0] {
                    Some(address) => Ok(Some(address)),
                    None => Err(ProviderError::Unknown),
                }
            },
        }
    }
}

/// What the reply to a write request says: the write failed if the request
/// failed on the way, and went through if the provider answered at all.
pub open spec fn write_read(reply: Reply) -> Result<(), ProviderError> {
    match reply {
        Reply::Failed { .. } => Err(ProviderError::Unknown),
        Reply::Answered { .. } => Ok(()),
    }
}

fn url_of(fqdn: &str, name: &str) -> (url: String)
    ensures
        url@ == record_url(fqdn@, name@),
{
    let mut url: String = "https://api.gandi.net/v5/livedns/domains/".to_owned();
    url.append(fqdn);
    url.append("/records/");
    url.append(name);
    url.append("/AAAA");
    url
}

impl DnsProvider for Gandi {
    open spec fn limiter(&self) -> RateLimiter {
        self.limiter
    }

    /// Reads the `token` of the settings. Fails where there is none, or where
    /// the header made of it cannot be sent.
    fn new(config: &ProviderConfig) -> (made: Result<Gandi, InitError>)
        ensures
            match made {
                Ok(gandi) => gandi_made(*config) == Ok::<GandiView, InitError>(gandi@),
                Err(error) => gandi_made(*config) == Err::<GandiView, InitError>(error),
            },
    {
        match config.get("token") {
            None => Err(InitError::MissingToken),
            Some(token) => {
                let mut authorization: String = "ApiKey ".to_owned();
                authorization.append(token.as_str());
                if is_header_value(authorization.as_str()) {
                    Ok(Gandi { authorization, limiter: RateLimiter::new(REQUEST_INTERVAL) })
                } else {
                    Err(InitError::InvalidToken)
                }
            },
        }
    }

    fn wait_for_rate_limit(&self, now: u64) -> (pause: Pause) {
        self.limiter.throttle(now)
    }

    fn request_issued(&mut self, now: u64)
        ensures
            final(self).authorization == old(self).authorization,
    {
        self.limiter.record(now);
    }

    fn get_aaaa_record(&self, fqdn: &str, name: &str) -> (request: Request)
        ensures
            request.method == Method::Get,
            request.url@ == record_url(fqdn@, name@),
    {
        Request { method: Method::Get, url: url_of(fqdn, name), record: None }
    }

    fn set_aaaa_record(&self, fqdn: &str, name: &str, ip: Address, ttl: u32) -> (request: Request)
        ensures
            request.method == Method::Post,
            request.url@ == record_url(fqdn@, name@),
    {
        Request {
            method: Method::Post,
            url: url_of(fqdn, name),
            record: Some(RecordSet { address: ip, ttl }),
        }
    }

    fn update_aaaa_record(&self, fqdn: &str, name: &str, ip: Address, ttl: u32) -> (request:
        Request)
        ensures
            request.method == Method::Put,
            request.url@ == record_url(fqdn@, name@),
    {
        Request {
            method: Method::Put,
            url: url_of(fqdn, name),
            record: Some(RecordSet { address: ip, ttl }),
        }
    }

    fn read_aaaa_record(&self, reply: &Reply) -> (record: Result<Option<Address>, ProviderError>)
        ensures
            record == record_read(*reply),
    {
        match reply {
            Reply::Failed { code } => match code {
                Some(403) => Err(ProviderError::Unauthenticated),
                Some(404) => Ok(None),
                _ => Err(ProviderError::Unknown),
            },
            Reply::Answered { status, records } => {
                if *status == 403 {
                    Err(ProviderError::Unauthenticated)
                } else if *status == 404 {
                    Ok(None)
                } else {
                    match records {
                        None => Ok(None),
                        Some(values) => if values.len() == 0 {
                            Ok(None)
                        } else {
                            match values[0] {
                                Some(address) => Ok(Some(address)),
                                None => Err(ProviderError::Unknown),
                            }
                        },
                    }
                }
            },
        }
    }

    fn read_write_outcome(&self, reply: &Reply) -> (outcome: Result<(), ProviderError>)
        ensures
            outcome == write_read(*reply),
    {
        match reply {
            Reply::Failed { .. } => Err(ProviderError::Unknown),
            Reply::Answered { .. } => Ok(()),
        }
    }
}

} // verus!
