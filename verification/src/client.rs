use vstd::prelude::*;

use crate::error::ClientError;
use crate::host::Host;
use crate::http::{HttpMethod, RequestBody};
use crate::params::OperationSpec;
use crate::request::{
    build_request, spec_apply_subs, spec_body_conflict, spec_bundle_headers, spec_bundle_query,
    spec_bundle_subs, spec_effective_body, ArgsBundle, RequestPlan,
};
use crate::state::State;

verus! {

/// A callable client: the host strategy, the base path prefixed to every
/// operation's path, and the optional typed state. Immutable after
/// `build()`, but for the resolver's cursor, which every call advances.
#[derive(Debug)]
pub struct Client<H: Host, S> {
    pub host: H,
    pub path: String,
    pub state: State<S>,
}

impl<H: Host, S: 'static> Client<H, S> {
    /// The host resolver is in shape.
    pub open spec fn wf(&self) -> bool {
        self.host.wf()
    }

    /// Reads the host to use for one call, advancing the resolver.
    pub fn resolve_host(&mut self) -> (r: String)
        requires
            old(self).wf(),
        ensures
            final(self).wf(),
            final(self).host.hosts() == old(self).host.hosts(),
            final(self).host.cursor() == (old(self).host.cursor() + 1) % (
            old(self).host.hosts().len() as int),
            final(self).path == old(self).path,
            final(self).state == old(self).state,
            r@ == old(self).host.hosts()[old(self).host.cursor()],
    {
        self.host.host()
    }

    /// The attached typed state.
    pub fn state(&self) -> (r: &State<S>)
        ensures
            *r == self.state,
    {
        &self.state
    }

    /// Builds the complete request for one call of an operation: reads
    /// the host, joins it with the base path and the resolved operation
    /// path, and carries the call's query, body and headers over, the
    /// bundle's contributions after the scalar ones. Fails only when a
    /// body is supplied twice; the resolver advances either way.
    pub fn prepare<B>(
        &mut self,
        method: HttpMethod,
        path_template: &str,
        path_subs: &Vec<(String, String)>,
        query: &Vec<(String, String)>,
        body: RequestBody<B>,
        headers: &Vec<(String, String)>,
        bundle: Option<ArgsBundle<B>>,
    ) -> (r: Result<RequestPlan<B>, ClientError>)
        requires
            old(self).wf(),
        ensures
            final(self).wf(),
            final(self).host.hosts() == old(self).host.hosts(),
            final(self).host.cursor() == (old(self).host.cursor() + 1) % (
            old(self).host.hosts().len() as int),
            final(self).path == old(self).path,
            final(self).state == old(self).state,
            (r is Ok) == !spec_body_conflict(body, bundle),
            r matches Ok(plan) ==> {
                &&& plan.method == method
                &&& plan.host@ == old(self).host.hosts()[old(self).host.cursor()]
                &&& plan.base_path@ == old(self).path@
                &&& plan.path@ == spec_apply_subs(
                    path_template@,
                    path_subs.deep_view() + spec_bundle_subs(bundle),
                )
                &&& plan.wf()
                &&& plan.url@ == old(self).host.hosts()[old(self).host.cursor()] + old(
                    self,
                ).path@ + spec_apply_subs(
                    path_template@,
                    path_subs.deep_view() + spec_bundle_subs(bundle),
                )
                &&& plan.query.deep_view() == query.deep_view() + spec_bundle_query(bundle)
                &&& plan.body == spec_effective_body(body, bundle)
                &&& plan.headers.deep_view() == headers.deep_view() + spec_bundle_headers(bundle)
            },
            r matches Err(e) ==> e == ClientError::BodyDeclaredTwice,
    {
        let host = self.resolve_host();
        build_request(
            method,
            host,
            self.path.as_str(),
            path_template,
            path_subs,
            query,
            body,
            headers,
            bundle,
        )
    }

    /// Builds the complete request for one call of a compiled operation:
    /// interprets the operation's entry of the table — its verb and its
    /// path template — exactly as `prepare` does.
    pub fn prepare_operation<B>(
        &mut self,
        op: &OperationSpec,
        path_subs: &Vec<(String, String)>,
        query: &Vec<(String, String)>,
        body: RequestBody<B>,
        headers: &Vec<(String, String)>,
        bundle: Option<ArgsBundle<B>>,
    ) -> (r: Result<RequestPlan<B>, ClientError>)
        requires
            old(self).wf(),
        ensures
            final(self).wf(),
            final(self).host.hosts() == old(self).host.hosts(),
            final(self).host.cursor() == (old(self).host.cursor() + 1) % (
            old(self).host.hosts().len() as int),
            final(self).path == old(self).path,
            final(self).state == old(self).state,
            (r is Ok) == !spec_body_conflict(body, bundle),
            r matches Ok(plan) ==> {
                &&& plan.method == op.method
                &&& plan.host@ == old(self).host.hosts()[old(self).host.cursor()]
                &&& plan.base_path@ == old(self).path@
                &&& plan.path@ == spec_apply_subs(
                    op.path_template@,
                    path_subs.deep_view() + spec_bundle_subs(bundle),
                )
                &&& plan.wf()
                &&& plan.url@ == old(self).host.hosts()[old(self).host.cursor()] + old(
                    self,
                ).path@ + spec_apply_subs(
                    op.path_template@,
                    path_subs.deep_view() + spec_bundle_subs(bundle),
                )
                &&& plan.query.deep_view() == query.deep_view() + spec_bundle_query(bundle)
                &&& plan.body == spec_effective_body(body, bundle)
                &&& plan.headers.deep_view() == headers.deep_view() + spec_bundle_headers(bundle)
            },
            r matches Err(e) ==> e == ClientError::BodyDeclaredTwice,
    {
        self.prepare(
            op.method,
            op.path_template.as_str(),
            path_subs,
            query,
            body,
            headers,
            bundle,
        )
    }
}

/// Assembles a client step by step: host strategy, base path and typed
/// state, then `build()` freezes them. The builder is consumed by
/// `build()` and by every step that changes a type parameter.
pub struct ClientBuilder<H: Host, S> {
    pub client: Client<H, S>,
}

impl ClientBuilder<String, ()> {
    /// An empty start: a fixed empty host, an empty base path, no state.
    pub fn new() -> (r: Self)
        ensures
            r.client.host@ == Seq::<char>::empty(),
            r.client.path@ == Seq::<char>::empty(),
            r.client.wf(),
    {
        ClientBuilder {
            client: Client { host: String::new(), path: String::new(), state: State::new(()) },
        }
    }
}

impl<H: Host, S: 'static> ClientBuilder<H, S> {
    /// Freezes the configuration into the client.
    pub fn build(self) -> (r: Client<H, S>)
        ensures
            r == self.client,
    {
        self.client
    }

    /// Sets a fixed host.
    pub fn with_host(self, host: String) -> (r: ClientBuilder<String, S>)
        ensures
            r.client.host == host,
            r.client.path == self.client.path,
            r.client.state == self.client.state,
    {
        ClientBuilder {
            client: Client { host, path: self.client.path, state: self.client.state },
        }
    }

    /// Sets the host strategy.
    pub fn with_host_resolver<H2: Host>(self, resolver: H2) -> (r: ClientBuilder<H2, S>)
        ensures
            r.client.host == resolver,
            r.client.path == self.client.path,
            r.client.state == self.client.state,
    {
        ClientBuilder {
            client: Client { host: resolver, path: self.client.path, state: self.client.state },
        }
    }

    /// Sets the base path prefixed to every operation's path.
    pub fn with_base_path(self, path: String) -> (r: ClientBuilder<H, S>)
        ensures
            r.client.host == self.client.host,
            r.client.path == path,
            r.client.state == self.client.state,
    {
        ClientBuilder {
            client: Client { host: self.client.host, path, state: self.client.state },
        }
    }

    /// Attaches the typed state, changing the builder's state type.
    pub fn with_state<S2: 'static>(self, state: S2) -> (r: ClientBuilder<H, S2>)
        ensures
            r.client.host == self.client.host,
            r.client.path == self.client.path,
            r.client.state@ == state,
    {
        ClientBuilder {
            client: Client {
                host: self.client.host,
                path: self.client.path,
                state: State::new(state),
            },
        }
    }
}

} // verus!
