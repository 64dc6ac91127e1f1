//! Bringing the record of one service in line: read what is published,
//! compare, and create or update only where it differs.
//!
//! The procedure is a state machine. The caller hands it what happened, sends
//! the request that it answers with, and hands back what the provider said.

use crate::address::{merge_ips, merged, Address};
use crate::config::{Config, ServiceConfig};
use crate::providers::ProviderError;
use crate::registry::Registry;
use vstd::prelude::*;

verus! {

/// How far the work on one service has come.
#[derive(Clone, Copy, Debug, PartialEq, Eq, Structural)]
pub enum ServiceState {
    /// Nothing was done yet.
    Start,
    /// The published record was asked for.
    AwaitingRecord,
    /// A record was sent to be created or updated.
    AwaitingWrite,
    /// The service is done with, for better or worse.
    Finished,
}

/// What the caller reports.
#[derive(Clone, Copy, Debug, PartialEq, Eq)]
pub enum ServiceEvent {
    /// The work on the service begins.
    Begin,
    /// The provider's answer to `Get`: the published address, if any.
    Record(Result<Option<Address>, ProviderError>),
    /// The provider's answer to `Create` or `Update`.
    Written(Result<(), ProviderError>),
}

/// Why a service was given up.
#[derive(Clone, Debug, PartialEq, Eq)]
pub enum ServiceError {
    /// The service names no provider and there is no default one.
    NoProviderDefined { service_name: String },
    /// The provider of the service was not set up.
    ProviderUnknown { service_name: String, provider_name: String },
    /// The provider failed.
    ProviderError(ProviderError),
    /// What was reported does not answer what was asked.
    Unknown,
}

/// What the caller does next.
#[derive(Debug, PartialEq, Eq)]
pub enum ServiceAction {
    /// Ask `provider` for the record `name` of `fqdn`, and report `Record`.
    Get { provider: String, fqdn: String, name: String },
    /// Have `provider` create the record, and report `Written`.
    Create { provider: String, fqdn: String, name: String, address: Address, ttl: u32 },
    /// Have `provider` replace the record's value, and report `Written`.
    Update { provider: String, fqdn: String, name: String, address: Address, ttl: u32 },
    /// Nothing more: the service is done with, with this result.
    Done(Result<(), ServiceError>),
}

/// A service error as contracts speak of it.
pub enum ServiceErrorView {
    NoProviderDefined { service_name: Seq<char> },
    ProviderUnknown { service_name: Seq<char>, provider_name: Seq<char> },
    ProviderError(ProviderError),
    Unknown,
}

/// An action as contracts speak of it.
pub enum ServiceActionView {
    Get { provider: Seq<char>, fqdn: Seq<char>, name: Seq<char> },
    Create { provider: Seq<char>, fqdn: Seq<char>, name: Seq<char>, address: Address, ttl: u32 },
    Update { provider: Seq<char>, fqdn: Seq<char>, name: Seq<char>, address: Address, ttl: u32 },
    Done(Result<(), ServiceErrorView>),
}

impl View for ServiceError {
    type V = ServiceErrorView;

    open spec fn view(&self) -> ServiceErrorView {
        match self {
            ServiceError::NoProviderDefined { service_name } => ServiceErrorView::NoProviderDefined {
                service_name: service_name@,
            },
            ServiceError::ProviderUnknown {
                service_name,
                provider_name,
            } => ServiceErrorView::ProviderUnknown {
                service_name: service_name@,
                provider_name: provider_name@,
            },
            ServiceError::ProviderError(error) => ServiceErrorView::ProviderError(*error),
            ServiceError::Unknown => ServiceErrorView::Unknown,
        }
    }
}

impl View for ServiceAction {
    type V = ServiceActionView;

    open spec fn view(&self) -> ServiceActionView {
        match self {
            ServiceAction::Get { provider, fqdn, name } => ServiceActionView::Get {
                provider: provider@,
                fqdn: fqdn@,
                name: name@,
            },
            ServiceAction::Create { provider, fqdn, name, address, ttl } => ServiceActionView::Create {
                provider: provider@,
                fqdn: fqdn@,
                name: name@,
                address: *address,
                ttl: *ttl,
            },
            ServiceAction::Update { provider, fqdn, name, address, ttl } => ServiceActionView::Update {
                provider: provider@,
                fqdn: fqdn@,
                name: name@,
                address: *address,
                ttl: *ttl,
            },
            ServiceAction::Done(Ok(())) => ServiceActionView::Done(Ok(())),
            ServiceAction::Done(Err(error)) => ServiceActionView::Done(Err(error@)),
        }
    }
}

/// What the work on one service goes by: the service under its name, the
/// default provider, the names of the providers that were set up, and the
/// network prefix of the run.
pub struct ServiceContext {
    pub name: Seq<char>,
    pub service: ServiceConfig,
    pub default_provider: Option<String>,
    pub providers: Seq<Seq<char>>,
    pub prefix: Address,
}

/// The provider that a service uses: its own, else the default one.
pub open spec fn provider_chosen(service: ServiceConfig, default_provider: Option<String>) -> Option<
    Seq<char>,
> {
    match service.provider {
        Some(name) => Some(name@),
        None => match default_provider {
            Some(name) => Some(name@),
            None => None,
        },
    }
}

/// The address that the record of the service is to hold.
pub open spec fn desired(context: ServiceContext) -> Address {
    merged(context.prefix, context.service.suffix)
}

/// The step for an event that does not answer what was asked.
pub open spec fn out_of_turn() -> (ServiceState, ServiceActionView) {
    (ServiceState::Finished, ServiceActionView::Done(Err(ServiceErrorView::Unknown)))
}

/// The first step: settle the provider, and ask it for the record.
pub open spec fn begin_step(context: ServiceContext) -> (ServiceState, ServiceActionView) {
    match provider_chosen(context.service, context.default_provider) {
        None => (
            ServiceState::Finished,
            ServiceActionView::Done(
                Err(ServiceErrorView::NoProviderDefined { service_name: context.name }),
            ),
        ),
        Some(provider) => if context.providers.contains(provider) {
            (
                ServiceState::AwaitingRecord,
                ServiceActionView::Get {
                    provider,
                    fqdn: context.service.fqdn@,
                    name: context.service.name@,
                },
            )
        } else {
            (
                ServiceState::Finished,
                ServiceActionView::Done(
                    Err(
                        ServiceErrorView::ProviderUnknown {
                            service_name: context.name,
                            provider_name: provider,
                        },
                    ),
                ),
            )
        },
    }
}

/// The step on the provider's answer about the published record: nothing
/// where it is the desired address, an update where it is another, and a
/// creation where there is none.
pub open spec fn record_step(
    context: ServiceContext,
    fetched: Result<Option<Address>, ProviderError>,
) -> (ServiceState, ServiceActionView) {
    match fetched {
        Err(error) => (
            ServiceState::Finished,
            ServiceActionView::Done(Err(ServiceErrorView::ProviderError(error))),
        ),
        Ok(existing) => match provider_chosen(context.service, context.default_provider) {
            None => out_of_turn(),
            Some(provider) => match existing {
                None => (
                    ServiceState::AwaitingWrite,
                    ServiceActionView::Create {
                        provider,
                        fqdn: context.service.fqdn@,
                        name: context.service.name@,
                        address: desired(context),
                        ttl: context.service.ttl,
                    },
                ),
                Some(address) => if address == desired(context) {
                    (ServiceState::Finished, ServiceActionView::Done(Ok(())))
                } else {
                    (
                        ServiceState::AwaitingWrite,
                        ServiceActionView::Update {
                            provider,
                            fqdn: context.service.fqdn@,
                            name: context.service.name@,
                            address: desired(context),
                            ttl: context.service.ttl,
                        },
                    )
                },
            },
        },
    }
}

/// The step on the provider's answer to a write.
pub open spec fn written_step(outcome: Result<(), ProviderError>) -> (
    ServiceState,
    ServiceActionView,
) {
    match outcome {
        Ok(_) => (ServiceState::Finished, ServiceActionView::Done(Ok(()))),
        Err(error) => (
            ServiceState::Finished,
            ServiceActionView::Done(Err(ServiceErrorView::ProviderError(error))),
        ),
    }
}

/// One step of the work on a service: the state after `event`, and what the
/// caller does next.
pub open spec fn service_step(state: ServiceState, event: ServiceEvent, context: ServiceContext) -> (
    ServiceState,
    ServiceActionView,
) {
    match (state, event) {
        (ServiceState::Start, ServiceEvent::Begin) => begin_step(context),
        (ServiceState::AwaitingRecord, ServiceEvent::Record(fetched)) => record_step(
            context,
            fetched,
        ),
        (ServiceState::AwaitingWrite, ServiceEvent::Written(outcome)) => written_step(outcome),
        _ => out_of_turn(),
    }
}

/// The context of a call of `process_service`.
pub open spec fn context_of(
    name: Seq<char>,
    service: ServiceConfig,
    registry: Registry,
    config: Config,
    prefix: Address,
) -> ServiceContext {
    ServiceContext {
        name,
        service,
        default_provider: config.default_provider,
        providers: registry.names_view(),
        prefix,
    }
}

fn choose_provider(service: &ServiceConfig, default_provider: &Option<String>) -> (chosen: Option<
    String,
>)
    ensures
        match chosen {
            Some(name) => provider_chosen(*service, *default_provider) == Some(name@),
            None => provider_chosen(*service, *default_provider) is None,
        },
{
    match &service.provider {
        Some(name) => Some(name.clone()),
        None => match default_provider {
            Some(name) => Some(name.clone()),
            None => None,
        },
    }
}

fn give_up() -> (next: (ServiceState, ServiceAction))
    ensures
        (next.0, next.1@) == out_of_turn(),
{
    (ServiceState::Finished, ServiceAction::Done(Err(ServiceError::Unknown)))
}

/// One step of the work on the service `service`, which the configuration
/// lists under `name`. The work starts in `ServiceState::Start` with
/// `ServiceEvent::Begin`; the caller does what the action says and calls
/// again with the state returned and the provider's answer, until the action
/// is `Done`. The provider is the service's own, else the default one of
/// `config`; the address to publish has the first four segments of `prefix`
/// and the last four of the service's suffix.
pub fn process_service(
    state: ServiceState,
    event: ServiceEvent,
    name: &str,
    service: &ServiceConfig,
    registry: &Registry,
    config: &Config,
    prefix: Address,
) -> (next: (ServiceState, ServiceAction))
    ensures
        (next.0, next.1@) == service_step(
            state,
            event,
            context_of(name@, *service, *registry, *config, prefix),
        ),
{
    match state {
        ServiceState::Start => match event {
            ServiceEvent::Begin => match choose_provider(service, &config.default_provider) {
                None => (
                    ServiceState::Finished,
                    ServiceAction::Done(
                        Err(ServiceError::NoProviderDefined { service_name: name.to_owned() }),
                    ),
                ),
                Some(provider) => if registry.contains(provider.as_str()) {
                    (
                        ServiceState::AwaitingRecord,
                        ServiceAction::Get {
                            provider,
                            fqdn: service.fqdn.clone(),
                            name: service.name.clone(),
                        },
                    )
                } else {
                    (
                        ServiceState::Finished,
                        ServiceAction::Done(
                            Err(
                                ServiceError::ProviderUnknown {
                                    service_name: name.to_owned(),
                                    provider_name: provider,
                                },
                            ),
                        ),
                    )
                },
            },
            _ => give_up(),
        },
        ServiceState::AwaitingRecord => match event {
            ServiceEvent::Record(Err(error)) => (
                ServiceState::Finished,
                ServiceAction::Done(Err(ServiceError::ProviderError(error))),
            ),
            ServiceEvent::Record(Ok(existing)) => match choose_provider(
                service,
                &config.default_provider,
            ) {
                None => give_up(),
                Some(provider) => {
                    let address = merge_ips(prefix, service.suffix);
                    match existing {
                        None => (
                            ServiceState::AwaitingWrite,
                            ServiceAction::Create {
                                provider,
                                fqdn: service.fqdn.clone(),
                                name: service.name.clone(),
                                address,
                                ttl: service.ttl,
                            },
                        ),
                        Some(published) => if published == address {
                            (ServiceState::Finished, ServiceAction::Done(Ok(())))
                        } else {
                            (
                                ServiceState::AwaitingWrite,
                                ServiceAction::Update {
                                    provider,
                                    fqdn: service.fqdn.clone(),
                                    name: service.name.clone(),
                                    address,
                                    ttl: service.ttl,
                                },
                            )
                        },
                    }
                },
            },
            _ => give_up(),
        },
        ServiceState::AwaitingWrite => match event {
            ServiceEvent::Written(Ok(_)) => (ServiceState::Finished, ServiceAction::Done(Ok(()))),
            ServiceEvent::Written(Err(error)) => (
                ServiceState::Finished,
                ServiceAction::Done(Err(ServiceError::ProviderError(error))),
            ),
            _ => give_up(),
        },
        ServiceState::Finished => give_up(),
    }
}

/// What the caller is told, step by step, when it reports `events` in turn,
/// starting in `state`.
pub open spec fn service_trace(
    state: ServiceState,
    events: Seq<ServiceEvent>,
    context: ServiceContext,
) -> Seq<ServiceActionView>
    decreases events.len(),
{
    if events.len() == 0 {
        Seq::empty()
    } else {
        let step = service_step(state, events[0], context);
        seq![step.1] + service_trace(step.0, events.drop_first(), context)
    }
}

/// A trace tells one action for each event: the first is that of the first
/// step, and the others are the trace of the remaining events from the state
/// that the first step leads to.
pub proof fn lemma_trace_unfolds(
    state: ServiceState,
    events: Seq<ServiceEvent>,
    context: ServiceContext,
)
    ensures
        service_trace(state, events, context).len() == events.len(),
        events.len() > 0 ==> service_trace(state, events, context)[0] == service_step(
            state,
            events[0],
            context,
        ).1,
        forall|index: int|
            1 <= index < events.len() ==> #[trigger] service_trace(state, events, context)[index]
                == service_trace(
                service_step(state, events[0], context).0,
                events.drop_first(),
                context,
            )[index - 1],
    decreases events.len(),
{
    if events.len() > 0 {
        lemma_trace_unfolds(
            service_step(state, events[0], context).0,
            events.drop_first(),
            context,
        );
    }
}

/// Once a write was asked for, or the service is done with, no provider is
/// asked for anything more, whatever is reported.
pub proof fn lemma_nothing_follows_a_write(
    state: ServiceState,
    events: Seq<ServiceEvent>,
    context: ServiceContext,
)
    requires
        state == ServiceState::AwaitingWrite || state == ServiceState::Finished,
    ensures
        forall|index: int|
            0 <= index < events.len() ==> #[trigger] service_trace(state, events, context)[index]
                is Done,
    decreases events.len(),
{
    lemma_trace_unfolds(state, events, context);
    if events.len() > 0 {
        lemma_nothing_follows_a_write(
            service_step(state, events[0], context).0,
            events.drop_first(),
            context,
        );
    }
}

/// Whatever is reported from the start on, a record is created or updated in
/// the second step or never, and the published record is asked for in the
/// first step or never.
pub proof fn lemma_one_write_at_most(events: Seq<ServiceEvent>, context: ServiceContext)
    ensures
        service_trace(ServiceState::Start, events, context).len() == events.len(),
        forall|index: int|
            0 <= index < events.len() && index != 1 ==> !(#[trigger] service_trace(
                ServiceState::Start,
                events,
                context,
            )[index] is Create) && !(service_trace(ServiceState::Start, events, context)[index]
                is Update),
        forall|index: int|
            1 <= index < events.len() ==> !(#[trigger] service_trace(
                ServiceState::Start,
                events,
                context,
            )[index] is Get),
{
    let actions = service_trace(ServiceState::Start, events, context);
    lemma_trace_unfolds(ServiceState::Start, events, context);
    if events.len() > 0 {
        let first = service_step(ServiceState::Start, events[0], context);
        let rest = events.drop_first();
        lemma_trace_unfolds(first.0, rest, context);
        if first.0 == ServiceState::AwaitingRecord {
            if rest.len() > 0 {
                let second = service_step(first.0, rest[0], context);
                lemma_nothing_follows_a_write(second.0, rest.drop_first(), context);
                assert forall|index: int| 2 <= index < events.len() implies actions[index]
                    is Done by {
                    assert(actions[index] == service_trace(first.0, rest, context)[index - 1]);
                    assert(service_trace(first.0, rest, context)[index - 1] == service_trace(
                        second.0,
                        rest.drop_first(),
                        context,
                    )[index - 2]);
                }
            }
        } else {
            lemma_nothing_follows_a_write(first.0, rest, context);
            assert forall|index: int| 1 <= index < events.len() implies actions[index]
                is Done by {
                assert(actions[index] == service_trace(first.0, rest, context)[index - 1]);
            }
        }
    }
}

/// The second action of a run that begins in order: the step on what the
/// provider said of the published record.
proof fn lemma_second_action(events: Seq<ServiceEvent>, context: ServiceContext)
    requires
        events.len() >= 2,
        events[0] == ServiceEvent::Begin,
        begin_step(context).1 is Get,
    ensures
        service_trace(ServiceState::Start, events, context)[0] == begin_step(context).1,
        service_trace(ServiceState::Start, events, context)[1] == service_step(
            ServiceState::AwaitingRecord,
            events[1],
            context,
        ).1,
{
    lemma_trace_unfolds(ServiceState::Start, events, context);
    lemma_trace_unfolds(ServiceState::AwaitingRecord, events.drop_first(), context);
}

/// Where the provider is asked and reports that no record exists, the record
/// is created with the desired address, once, and never updated, whatever is
/// reported afterwards.
pub proof fn lemma_missing_record_is_created_once(
    events: Seq<ServiceEvent>,
    context: ServiceContext,
)
    requires
        events.len() >= 2,
        events[0] == ServiceEvent::Begin,
        begin_step(context).1 is Get,
        events[1] == ServiceEvent::Record(Ok(None)),
    ensures
        service_trace(ServiceState::Start, events, context).len() == events.len(),
        service_trace(ServiceState::Start, events, context)[1] == (ServiceActionView::Create {
            provider: provider_chosen(context.service, context.default_provider)->0,
            fqdn: context.service.fqdn@,
            name: context.service.name@,
            address: merged(context.prefix, context.service.suffix),
            ttl: context.service.ttl,
        }),
        forall|index: int|
            0 <= index < events.len() && index != 1 ==> !(#[trigger] service_trace(
                ServiceState::Start,
                events,
                context,
            )[index] is Create),
        forall|index: int|
            0 <= index < events.len() ==> !(#[trigger] service_trace(
                ServiceState::Start,
                events,
                context,
            )[index] is Update),
{
    lemma_one_write_at_most(events, context);
    lemma_second_action(events, context);
}

/// Where the provider is asked and reports an address other than the desired
/// one, the record is updated to the desired address, once, and never
/// created, whatever is reported afterwards.
pub proof fn lemma_differing_record_is_updated_once(
    events: Seq<ServiceEvent>,
    context: ServiceContext,
    published: Address,
)
    requires
        events.len() >= 2,
        events[0] == ServiceEvent::Begin,
        begin_step(context).1 is Get,
        events[1] == ServiceEvent::Record(Ok(Some(published))),
        published != merged(context.prefix, context.service.suffix),
    ensures
        service_trace(ServiceState::Start, events, context).len() == events.len(),
        service_trace(ServiceState::Start, events, context)[1] == (ServiceActionView::Update {
            provider: provider_chosen(context.service, context.default_provider)->0,
            fqdn: context.service.fqdn@,
            name: context.service.name@,
            address: merged(context.prefix, context.service.suffix),
            ttl: context.service.ttl,
        }),
        forall|index: int|
            0 <= index < events.len() && index != 1 ==> !(#[trigger] service_trace(
                ServiceState::Start,
                events,
                context,
            )[index] is Update),
        forall|index: int|
            0 <= index < events.len() ==> !(#[trigger] service_trace(
                ServiceState::Start,
                events,
                context,
            )[index] is Create),
{
    lemma_one_write_at_most(events, context);
    lemma_second_action(events, context);
}

/// Where the provider is asked and reports the desired address, the service
/// is done with at once, with success, and the record is neither created nor
/// updated, whatever is reported afterwards.
pub proof fn lemma_equal_record_is_left_alone(events: Seq<ServiceEvent>, context: ServiceContext)
    requires
        events.len() >= 2,
        events[0] == ServiceEvent::Begin,
        begin_step(context).1 is Get,
        events[1] == ServiceEvent::Record(
            Ok(Some(merged(context.prefix, context.service.suffix))),
        ),
    ensures
        service_trace(ServiceState::Start, events, context).len() == events.len(),
        service_trace(ServiceState::Start, events, context)[1] == ServiceActionView::Done(Ok(())),
        forall|index: int|
            0 <= index < events.len() ==> !(#[trigger] service_trace(
                ServiceState::Start,
                events,
                context,
            )[index] is Create) && !(service_trace(ServiceState::Start, events, context)[index]
                is Update),
{
    lemma_one_write_at_most(events, context);
    lemma_second_action(events, context);
}

} // verus!
