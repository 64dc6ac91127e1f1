//! One run over all services, one at a time and in the order of the
//! configuration. A service that fails is reported and left; the run goes on
//! with the next.

use crate::address::Address;
use crate::config::Config;
use crate::registry::Registry;
use crate::service::{
    begin_step, process_service, provider_chosen, service_step, ServiceAction, ServiceActionView,
    ServiceContext, ServiceErrorView, ServiceEvent, ServiceState,
};
use vstd::prelude::*;

verus! {

/// Where a run stands: the index of the service at work, and how far the
/// work on it has come.
#[derive(Clone, Copy, Debug, PartialEq, Eq, Structural)]
pub struct Run {
    pub position: usize,
    pub state: ServiceState,
}

/// What the caller does next in a run.
#[derive(Debug, PartialEq, Eq)]
pub enum RunAction {
    /// Do `action` for the service at `index`. On `Done`, note the result and
    /// report `Begin` for the next service; else report the provider's answer.
    Service { index: usize, action: ServiceAction },
    /// Every service was dealt with.
    Finished,
}

/// An action of a run as contracts speak of it.
pub enum RunActionView {
    Service { index: usize, action: ServiceActionView },
    Finished,
}

impl View for RunAction {
    type V = RunActionView;

    open spec fn view(&self) -> RunActionView {
        match self {
            RunAction::Service { index, action } => RunActionView::Service {
                index: *index,
                action: action@,
            },
            RunAction::Finished => RunActionView::Finished,
        }
    }
}

/// What the work on the service at `index` goes by.
pub open spec fn context_at(
    config: Config,
    providers: Seq<Seq<char>>,
    prefix: Address,
    index: int,
) -> ServiceContext {
    ServiceContext {
        name: config.service[index].0@,
        service: config.service[index].1,
        default_provider: config.default_provider,
        providers,
        prefix,
    }
}

/// One step of a run. While services are left, it is a step of the service
/// at work; when that service is done with, the run moves to the next and
/// starts afresh there. With no service left, the run is finished.
pub open spec fn run_step(
    run: Run,
    event: ServiceEvent,
    config: Config,
    providers: Seq<Seq<char>>,
    prefix: Address,
) -> (Run, RunActionView) {
    if run.position >= config.service.len() {
        (run, RunActionView::Finished)
    } else {
        let step = service_step(
            run.state,
            event,
            context_at(config, providers, prefix, run.position as int),
        );
        let next = if step.1 is Done {
            Run { position: (run.position + 1) as usize, state: ServiceState::Start }
        } else {
            Run { position: run.position, state: step.0 }
        };
        (next, RunActionView::Service { index: run.position, action: step.1 })
    }
}

fn is_done(action: &ServiceAction) -> (done: bool)
    ensures
        done == (action@ is Done),
{
    match action {
        ServiceAction::Done(_) => true,
        _ => false,
    }
}

impl Run {
    /// A run that has not begun: the first service is at work, if there is
    /// one, and nothing was done for it.
    pub fn new() -> (run: Run)
        ensures
            run == (Run { position: 0, state: ServiceState::Start }),
    {
        Run { position: 0, state: ServiceState::Start }
    }

    /// One step of the run over the services of `config`, with the providers
    /// of `registry` and the network prefix `prefix`. The caller begins with
    /// `ServiceEvent::Begin` and goes on until the action is `Finished`.
    pub fn step(
        &mut self,
        event: ServiceEvent,
        config: &Config,
        registry: &Registry,
        prefix: Address,
    ) -> (action: RunAction)
        ensures
            (*final(self), action@) == run_step(
                *old(self),
                event,
                *config,
                registry.names_view(),
                prefix,
            ),
    {
        if self.position >= config.service.len() {
            return RunAction::Finished;
        }
        let index: usize = self.position;
        let (state, action) = process_service(
            self.state,
            event,
            config.service[index].0.as_str(),
            &config.service[index].1,
            registry,
            config,
            prefix,
        );
        if is_done(&action) {
            self.position = index + 1;
            self.state = ServiceState::Start;
        } else {
            self.state = state;
        }
        RunAction::Service { index, action }
    }
}

/// A service whose provider was not set up is given up in its first step,
/// with the error that names the service and the provider, and the run stands
/// at the start of the next service.
pub proof fn lemma_unknown_provider_is_skipped(
    run: Run,
    config: Config,
    providers: Seq<Seq<char>>,
    prefix: Address,
)
    requires
        run.position < config.service@.len(),
        run.state == ServiceState::Start,
        provider_chosen(config.service[run.position as int].1, config.default_provider) is Some,
        !providers.contains(
            provider_chosen(config.service[run.position as int].1, config.default_provider)->0,
        ),
    ensures
        run_step(run, ServiceEvent::Begin, config, providers, prefix) == (
            Run { position: (run.position + 1) as usize, state: ServiceState::Start },
            RunActionView::Service {
                index: run.position,
                action: ServiceActionView::Done(
                    Err(
                        ServiceErrorView::ProviderUnknown {
                            service_name: config.service[run.position as int].0@,
                            provider_name: provider_chosen(
                                config.service[run.position as int].1,
                                config.default_provider,
                            )->0,
                        },
                    ),
                ),
            },
        ),
{
}

/// A service that names no provider, in a run without a default one, is
/// given up in its first step, with the error that names the service, and the
/// run stands at the start of the next service.
pub proof fn lemma_undefined_provider_is_skipped(
    run: Run,
    config: Config,
    providers: Seq<Seq<char>>,
    prefix: Address,
)
    requires
        run.position < config.service@.len(),
        run.state == ServiceState::Start,
        provider_chosen(config.service[run.position as int].1, config.default_provider) is None,
    ensures
        run_step(run, ServiceEvent::Begin, config, providers, prefix) == (
            Run { position: (run.position + 1) as usize, state: ServiceState::Start },
            RunActionView::Service {
                index: run.position,
                action: ServiceActionView::Done(
                    Err(
                        ServiceErrorView::NoProviderDefined {
                            service_name: config.service[run.position as int].0@,
                        },
                    ),
                ),
            },
        ),
{
}

/// The most steps that a run can still take before it is finished: three for
/// each service not begun, and fewer for the one at work.
pub open spec fn steps_left(run: Run, services: nat) -> int {
    if run.position >= services {
        0
    } else {
        3 * (services - run.position) - match run.state {
            ServiceState::Start => 0int,
            ServiceState::AwaitingRecord => 1int,
            ServiceState::AwaitingWrite => 2int,
            ServiceState::Finished => 2int,
        }
    }
}

/// Where a run stands after the caller reported `events` in turn.
pub open spec fn run_after(
    run: Run,
    events: Seq<ServiceEvent>,
    config: Config,
    providers: Seq<Seq<char>>,
    prefix: Address,
) -> Run
    decreases events.len(),
{
    if events.len() == 0 {
        run
    } else {
        run_after(
            run_step(run, events[0], config, providers, prefix).0,
            events.drop_first(),
            config,
            providers,
            prefix,
        )
    }
}

/// While services are left, every step brings the run nearer to its end,
/// whatever is reported: it stays with the service at work or moves to the
/// next one, never further and never back.
pub proof fn lemma_step_makes_headway(
    run: Run,
    event: ServiceEvent,
    config: Config,
    providers: Seq<Seq<char>>,
    prefix: Address,
)
    requires
        run.position < config.service@.len(),
    ensures
        steps_left(run_step(run, event, config, providers, prefix).0, config.service@.len())
            < steps_left(run, config.service@.len()),
        run.position <= run_step(run, event, config, providers, prefix).0.position <= run.position
            + 1,
{
}

/// No service holds up the ones after it: whatever the providers answer, and
/// whichever services fail, a run has dealt with every service after at most
/// `steps_left` steps.
pub proof fn lemma_run_reaches_every_service(
    run: Run,
    events: Seq<ServiceEvent>,
    config: Config,
    providers: Seq<Seq<char>>,
    prefix: Address,
)
    requires
        run.position <= config.service@.len(),
        events.len() >= steps_left(run, config.service@.len()),
    ensures
        run_after(run, events, config, providers, prefix).position == config.service@.len(),
    decreases events.len(),
{
    if events.len() > 0 {
        if run.position < config.service@.len() {
            lemma_step_makes_headway(run, events[0], config, providers, prefix);
        }
        lemma_run_reaches_every_service(
            run_step(run, events[0], config, providers, prefix).0,
            events.drop_first(),
            config,
            providers,
            prefix,
        );
    }
}

} // verus!
