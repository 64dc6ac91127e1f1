use dynsix::address::Address;
use dynsix::config::ProviderConfig;
use dynsix::providers::gandi::{Gandi, REQUEST_INTERVAL};
use dynsix::providers::{
    get_provider, DnsProvider, InitError, Method, Provider, ProviderError, RecordSet, Reply,
    Request,
};
use dynsix::rate_limit::{Pause, RateLimiter};

fn with_token(token: &str) -> ProviderConfig {
    ProviderConfig { settings: vec![("token".to_string(), token.to_string())] }
}

fn account() -> Gandi {
    Gandi::new(&with_token("secret")).unwrap()
}

fn home() -> Address {
    Address::new(0x2001, 0x0db8, 1, 2, 1, 2, 3, 4)
}

const URL: &str = "https://api.gandi.net/v5/livedns/domains/example.com/records/home/AAAA";

#[test]
fn gandi_keeps_sixty_seconds_between_requests() {
    assert_eq!(REQUEST_INTERVAL, 60_000_000_000);
}

#[test]
fn gandi_is_set_up_from_its_token() {
    let gandi = Gandi::new(&with_token("secret")).unwrap();
    assert_eq!(gandi.authorization, "ApiKey secret");
    assert_eq!(gandi.limiter, RateLimiter { min_interval: REQUEST_INTERVAL, last_request: None });
}

#[test]
fn gandi_needs_a_token() {
    let none = ProviderConfig { settings: vec![] };
    assert_eq!(Gandi::new(&none).err(), Some(InitError::MissingToken));
    let other = ProviderConfig { settings: vec![("key".to_string(), "secret".to_string())] };
    assert_eq!(Gandi::new(&other).err(), Some(InitError::MissingToken));
}

#[test]
fn gandi_refuses_a_token_that_no_header_can_carry() {
    assert_eq!(Gandi::new(&with_token("sec\nret")).err(), Some(InitError::InvalidToken));
    assert_eq!(Gandi::new(&with_token("secret\r")).err(), Some(InitError::InvalidToken));
    assert_eq!(Gandi::new(&with_token("\u{0}")).err(), Some(InitError::InvalidToken));
    assert_eq!(Gandi::new(&with_token("\u{1f}")).err(), Some(InitError::InvalidToken));
    assert_eq!(Gandi::new(&with_token("a\u{7f}b")).err(), Some(InitError::InvalidToken));
}

#[test]
fn gandi_accepts_tabs_spaces_and_text_beyond_ascii() {
    assert_eq!(Gandi::new(&with_token("a\tb")).unwrap().authorization, "ApiKey a\tb");
    assert_eq!(Gandi::new(&with_token(" ~")).unwrap().authorization, "ApiKey  ~");
    assert_eq!(Gandi::new(&with_token("cl\u{e9}")).unwrap().authorization, "ApiKey cl\u{e9}");
    assert_eq!(Gandi::new(&with_token("\u{80}")).unwrap().authorization, "ApiKey \u{80}");
    assert_eq!(Gandi::new(&with_token("")).unwrap().authorization, "ApiKey ");
}

#[test]
fn get_request_reads_the_record() {
    let request = account().get_aaaa_record("example.com", "home");
    assert_eq!(request, Request { method: Method::Get, url: URL.to_string(), record: None });
}

#[test]
fn set_request_posts_the_record() {
    let request = account().set_aaaa_record("example.com", "home", home(), 300);
    assert_eq!(
        request,
        Request {
            method: Method::Post,
            url: URL.to_string(),
            record: Some(RecordSet { address: home(), ttl: 300 }),
        }
    );
}

#[test]
fn update_request_puts_the_record() {
    let request = account().update_aaaa_record("example.com", "home", home(), 86400);
    assert_eq!(
        request,
        Request {
            method: Method::Put,
            url: URL.to_string(),
            record: Some(RecordSet { address: home(), ttl: 86400 }),
        }
    );
}

#[test]
fn url_holds_zone_and_label_as_given() {
    let request = account().get_aaaa_record("", "@");
    assert_eq!(request.url, "https://api.gandi.net/v5/livedns/domains//records/@/AAAA");
}

#[test]
fn read_record_takes_the_first_value() {
    let other = Address::new(1, 2, 3, 4, 5, 6, 7, 8);
    let gandi = account();
    let one = Reply::Answered { status: 200, records: Some(vec![Some(home())]) };
    assert_eq!(gandi.read_aaaa_record(&one), Ok(Some(home())));
    let two = Reply::Answered { status: 200, records: Some(vec![Some(other), Some(home())]) };
    assert_eq!(gandi.read_aaaa_record(&two), Ok(Some(other)));
    let then_bad = Reply::Answered { status: 200, records: Some(vec![Some(home()), None]) };
    assert_eq!(gandi.read_aaaa_record(&then_bad), Ok(Some(home())));
}

#[test]
fn read_record_without_a_record() {
    let gandi = account();
    let empty = Reply::Answered { status: 200, records: Some(vec![]) };
    assert_eq!(gandi.read_aaaa_record(&empty), Ok(None));
    let shapeless = Reply::Answered { status: 200, records: None };
    assert_eq!(gandi.read_aaaa_record(&shapeless), Ok(None));
    let shapeless_error = Reply::Answered { status: 500, records: None };
    assert_eq!(gandi.read_aaaa_record(&shapeless_error), Ok(None));
}

#[test]
fn read_record_not_found_is_no_record() {
    let gandi = account();
    assert_eq!(gandi.read_aaaa_record(&Reply::Answered { status: 404, records: None }), Ok(None));
    assert_eq!(
        gandi.read_aaaa_record(&Reply::Answered { status: 404, records: Some(vec![Some(home())]) }),
        Ok(None)
    );
    assert_eq!(gandi.read_aaaa_record(&Reply::Failed { code: Some(404) }), Ok(None));
}

#[test]
fn read_record_forbidden_is_unauthenticated() {
    let gandi = account();
    assert_eq!(
        gandi.read_aaaa_record(&Reply::Answered { status: 403, records: None }),
        Err(ProviderError::Unauthenticated)
    );
    assert_eq!(
        gandi.read_aaaa_record(&Reply::Answered { status: 403, records: Some(vec![Some(home())]) }),
        Err(ProviderError::Unauthenticated)
    );
    assert_eq!(
        gandi.read_aaaa_record(&Reply::Failed { code: Some(403) }),
        Err(ProviderError::Unauthenticated)
    );
}

#[test]
fn read_record_other_failures_are_unknown() {
    let gandi = account();
    assert_eq!(gandi.read_aaaa_record(&Reply::Failed { code: None }), Err(ProviderError::Unknown));
    assert_eq!(
        gandi.read_aaaa_record(&Reply::Failed { code: Some(500) }),
        Err(ProviderError::Unknown)
    );
    assert_eq!(
        gandi.read_aaaa_record(&Reply::Failed { code: Some(401) }),
        Err(ProviderError::Unknown)
    );
}

#[test]
fn read_record_malformed_value_is_unknown() {
    let gandi = account();
    let bad = Reply::Answered { status: 200, records: Some(vec![None]) };
    assert_eq!(gandi.read_aaaa_record(&bad), Err(ProviderError::Unknown));
    let bad_first = Reply::Answered { status: 200, records: Some(vec![None, Some(home())]) };
    assert_eq!(gandi.read_aaaa_record(&bad_first), Err(ProviderError::Unknown));
}

#[test]
fn write_outcome_fails_only_on_the_way() {
    let gandi = account();
    assert_eq!(gandi.read_write_outcome(&Reply::Answered { status: 201, records: None }), Ok(()));
    assert_eq!(gandi.read_write_outcome(&Reply::Answered { status: 403, records: None }), Ok(()));
    assert_eq!(gandi.read_write_outcome(&Reply::Answered { status: 500, records: None }), Ok(()));
    assert_eq!(
        gandi.read_write_outcome(&Reply::Failed { code: None }),
        Err(ProviderError::Unknown)
    );
    assert_eq!(
        gandi.read_write_outcome(&Reply::Failed { code: Some(403) }),
        Err(ProviderError::Unknown)
    );
}

#[test]
fn gandi_spaces_its_requests() {
    let mut gandi = account();
    assert_eq!(gandi.wait_for_rate_limit(5), Pause::Proceed);
    gandi.request_issued(5);
    assert_eq!(gandi.authorization, "ApiKey secret");
    assert_eq!(
        gandi.limiter,
        RateLimiter { min_interval: REQUEST_INTERVAL, last_request: Some(5) }
    );
    assert_eq!(gandi.wait_for_rate_limit(6), Pause::Until(60_000_000_005));
    assert_eq!(gandi.wait_for_rate_limit(60_000_000_004), Pause::Until(60_000_000_005));
    assert_eq!(gandi.wait_for_rate_limit(60_000_000_005), Pause::Proceed);
    gandi.request_issued(u64::MAX);
    assert_eq!(gandi.wait_for_rate_limit(u64::MAX), Pause::Unrepresentable);
}

#[test]
fn get_provider_knows_gandi() {
    match get_provider("gandi", &with_token("secret")) {
        Ok(Provider::Gandi(gandi)) => assert_eq!(gandi.authorization, "ApiKey secret"),
        Err(error) => panic!("{error:?}"),
    }
}

#[test]
fn get_provider_refuses_other_names() {
    assert_eq!(get_provider("Gandi", &with_token("secret")).err(), Some(InitError::UnknownBackend));
    assert_eq!(get_provider("", &with_token("secret")).err(), Some(InitError::UnknownBackend));
    assert_eq!(
        get_provider("cloudflare", &with_token("secret")).err(),
        Some(InitError::UnknownBackend)
    );
}

#[test]
fn get_provider_passes_on_why_gandi_failed() {
    let none = ProviderConfig { settings: vec![] };
    assert_eq!(get_provider("gandi", &none).err(), Some(InitError::MissingToken));
    assert_eq!(get_provider("gandi", &with_token("a\nb")).err(), Some(InitError::InvalidToken));
}
