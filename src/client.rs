//! The client handle and the connection builder that produces it.
use vstd::prelude::*;
use http::uri::InvalidUri;
use tonic::service::interceptor::InterceptedService;
use tonic::transport::{Channel, ClientTlsConfig, Endpoint};
use tonic_health::pb::health_client::HealthClient;
use yellowstone_grpc_proto::geyser::geyser_client::GeyserClient;
use crate::error::{GeyserGrpcClientError, GeyserGrpcClientResult};
use crate::interceptor::{is_credential_text, first_bad_byte, InterceptorFn};

verus! {

/// `tonic::transport::Endpoint`: a parsed endpoint with its channel settings.
#[verifier::external_type_specification]
#[verifier::external_body]
pub struct ExEndpoint(Endpoint);

/// `tonic::transport::Channel`: the shared transport channel.
#[verifier::external_type_specification]
#[verifier::external_body]
pub struct ExChannel(Channel);

/// `tonic::transport::ClientTlsConfig`: encryption settings.
#[verifier::external_type_specification]
#[verifier::external_body]
pub struct ExClientTlsConfig(ClientTlsConfig);

/// `InterceptedService`: a service whose calls pass through an interceptor.
#[verifier::external_type_specification]
#[verifier::external_body]
#[verifier::reject_recursive_types(S)]
#[verifier::reject_recursive_types(I)]
pub struct ExInterceptedService<S, I>(InterceptedService<S, I>);

/// The health protocol's generated client stub.
#[verifier::external_type_specification]
#[verifier::external_body]
#[verifier::reject_recursive_types(T)]
pub struct ExHealthClient<T>(HealthClient<T>);

/// The Geyser service's generated client stub.
#[verifier::external_type_specification]
#[verifier::external_body]
#[verifier::reject_recursive_types(T)]
pub struct ExGeyserClient<T>(GeyserClient<T>);

/// Whether `s` parses as a URI (`Channel::from_shared`).
pub uninterp spec fn uri_parses(s: Seq<char>) -> bool;

/// The scheme that the URI parser finds in `s` (`Uri::scheme_str`).
pub uninterp spec fn uri_scheme(s: Seq<char>) -> Option<Seq<char>>;

/// The text of an optional owned string.
pub open spec fn opt_string_view(s: Option<String>) -> Option<Seq<char>> {
    match s {
        Some(x) => Some(x@),
        None => None,
    }
}

/// The text of an optional string slice.
pub open spec fn opt_str_view(s: Option<&str>) -> Option<Seq<char>> {
    match s {
        Some(x) => Some(x@),
        None => None,
    }
}

/// Relies on `Channel::from_shared`, which fails exactly when the text is not
/// a URI, and on `Uri::scheme_str` of the endpoint it builds.
#[verifier::external_body]
fn parse_endpoint(s: &str) -> (r: Result<(Endpoint, Option<String>), InvalidUri>)
    ensures
        r.is_ok() == uri_parses(s@),
        r matches Ok((_, scheme)) ==> opt_string_view(scheme) == uri_scheme(s@),
{
    match Channel::from_shared(s.to_owned()) {
        Ok(endpoint) => {
            let scheme = endpoint.uri().scheme_str().map(str::to_owned);
            Ok((endpoint, scheme))
        },
        Err(e) => Err(e),
    }
}

/// Relies on `Endpoint::tls_config`; whether it succeeds depends on the
/// settings and the endpoint's host.
#[verifier::external_body]
fn apply_tls(endpoint: Endpoint, config: ClientTlsConfig) -> (r: Result<
    Endpoint,
    tonic::transport::Error,
>) {
    endpoint.tls_config(config)
}

/// Relies on `ClientTlsConfig::new`: the default encryption settings.
#[verifier::external_body]
fn default_tls_config() -> (r: ClientTlsConfig) {
    ClientTlsConfig::new()
}

/// Relies on `Endpoint::connect_lazy`: a channel that connects on first use.
/// It starts the channel's worker with `tokio::spawn`, which panics unless a
/// Tokio runtime is entered on this thread; `Handle::try_current` (which never
/// panics) tells whether one is, and without one no channel is made.
#[verifier::external_body]
fn connect_lazy(endpoint: &Endpoint) -> (r: Option<Channel>) {
    match tokio::runtime::Handle::try_current() {
        Ok(_) => Some(endpoint.connect_lazy()),
        Err(_) => None,
    }
}

/// Relies on `Channel::clone`: another handle to the same channel.
#[verifier::external_body]
fn share_channel(channel: &Channel) -> (r: Channel) {
    channel.clone()
}

/// The credential of the interceptor that every call of a health stub passes
/// through.
pub uninterp spec fn health_stub_credential(
    stub: HealthClient<InterceptedService<Channel, InterceptorFn>>,
) -> Option<Seq<char>>;

/// The credential of the interceptor that every call of a service stub passes
/// through.
pub uninterp spec fn geyser_stub_credential(
    stub: GeyserClient<InterceptedService<Channel, InterceptorFn>>,
) -> Option<Seq<char>>;

/// Relies on `HealthClient::with_interceptor`, which wraps the channel in an
/// `InterceptedService` holding the interceptor given.
#[verifier::external_body]
fn health_stub(channel: Channel, interceptor: InterceptorFn) -> (r: HealthClient<
    InterceptedService<Channel, InterceptorFn>,
>)
    ensures
        health_stub_credential(r) == interceptor.token(),
{
    HealthClient::with_interceptor(channel, interceptor)
}

/// Relies on `GeyserClient::with_interceptor`, which wraps the channel in an
/// `InterceptedService` holding the interceptor given.
#[verifier::external_body]
fn geyser_stub(channel: Channel, interceptor: InterceptorFn) -> (r: GeyserClient<
    InterceptedService<Channel, InterceptorFn>,
>)
    ensures
        geyser_stub_credential(r) == interceptor.token(),
{
    GeyserClient::with_interceptor(channel, interceptor)
}

/// The encryption a client's channel was built with.
#[derive(Debug, Clone, Copy, PartialEq, Eq, Structural)]
pub enum TransportSecurity {
    /// No encryption.
    Plain,
    /// The default encryption settings, chosen by a secure scheme.
    DefaultTls,
    /// The settings the caller supplied.
    ExplicitTls,
}

/// The scheme that asks for encryption.
pub open spec fn https_scheme() -> Option<Seq<char>> {
    Some(seq!['h', 't', 't', 'p', 's'])
}

/// Explicit settings win; else a secure scheme gets the default settings;
/// else no encryption.
pub open spec fn transport_for(explicit: bool, scheme: Option<Seq<char>>) -> TransportSecurity {
    if explicit {
        TransportSecurity::ExplicitTls
    } else if scheme == https_scheme() {
        TransportSecurity::DefaultTls
    } else {
        TransportSecurity::Plain
    }
}

/// Decides the encryption from whether settings were supplied and from the
/// endpoint's scheme.
pub fn choose_transport(explicit: bool, scheme: &Option<String>) -> (r: TransportSecurity)
    ensures
        r == transport_for(explicit, opt_string_view(*scheme)),
{
    let https = "https".to_owned();
    proof {
        reveal_strlit("https");
        assert(https@ =~= seq!['h', 't', 't', 'p', 's']);
    }
    if explicit {
        TransportSecurity::ExplicitTls
    } else {
        let secure = match scheme {
            Some(s) => *s == https,
            None => false,
        };
        if secure {
            TransportSecurity::DefaultTls
        } else {
            TransportSecurity::Plain
        }
    }
}

/// A handle on the service: a health stub and a service stub that share one
/// lazily connecting channel and carry copies of one interceptor.
#[verifier::reject_recursive_types(F)]
pub struct GeyserGrpcClient<F> {
    /// The health protocol stub.
    pub health: HealthClient<InterceptedService<Channel, F>>,
    /// The Geyser service stub.
    pub geyser: GeyserClient<InterceptedService<Channel, F>>,
    transport: TransportSecurity,
}

impl GeyserGrpcClient<InterceptorFn> {
    /// The credential that every call of this client carries, if any.
    pub closed spec fn x_token(&self) -> Option<Seq<char>> {
        health_stub_credential(self.health)
    }

    /// Both stubs pass their calls through an interceptor holding `token`.
    pub closed spec fn carries(&self, token: Option<Seq<char>>) -> bool {
        health_stub_credential(self.health) == token && geyser_stub_credential(self.geyser) == token
    }
}

impl<F> GeyserGrpcClient<F> {
    /// The encryption this client's channel was built with.
    pub closed spec fn spec_transport(&self) -> TransportSecurity {
        self.transport
    }

    /// The encryption this client's channel was built with.
    pub fn transport(&self) -> (r: TransportSecurity)
        ensures
            r == self.spec_transport(),
    {
        self.transport
    }
}

/// A client built with `transport` whose both stubs carry `token`, or, where
/// no async runtime was entered, `NoAsyncRuntime`.
pub open spec fn built_or_no_runtime(
    token: Option<Seq<char>>,
    transport: TransportSecurity,
    r: GeyserGrpcClientResult<GeyserGrpcClient<InterceptorFn>>,
) -> bool {
    ||| r matches Ok(c) && c.spec_transport() == transport && c.carries(token)
    ||| r matches Err(GeyserGrpcClientError::NoAsyncRuntime)
}

/// What the credential step yields for a client built with `transport`:
/// text that is not printable ASCII is a `MetadataValueError` naming the first
/// bad byte; an empty credential is an `InvalidXTokenLength(0)`; an absent or
/// good one gives a client carrying it (unless no async runtime is entered).
pub open spec fn credential_outcome(
    x_token: Option<Seq<char>>,
    transport: TransportSecurity,
    r: GeyserGrpcClientResult<GeyserGrpcClient<InterceptorFn>>,
) -> bool {
    match x_token {
        None => built_or_no_runtime(None, transport, r),
        Some(s) => if !is_credential_text(s) {
            r matches Err(GeyserGrpcClientError::MetadataValueError(e)) && first_bad_byte(s, e)
        } else if s.len() == 0 {
            r matches Err(GeyserGrpcClientError::InvalidXTokenLength(n)) && n == 0
        } else {
            built_or_no_runtime(Some(s), transport, r)
        },
    }
}

/// What building a client from `endpoint`, `x_token` and (when `explicit`)
/// caller-supplied encryption settings yields. An unparsable endpoint is an
/// `InvalidUri`. Without encryption the credential decides. With it, the
/// encryption step may fail first with a `TonicError`; if it does not, the
/// credential decides.
pub open spec fn connect_outcome(
    endpoint: Seq<char>,
    x_token: Option<Seq<char>>,
    explicit: bool,
    r: GeyserGrpcClientResult<GeyserGrpcClient<InterceptorFn>>,
) -> bool {
    let t = transport_for(explicit, uri_scheme(endpoint));
    if !uri_parses(endpoint) {
        r matches Err(GeyserGrpcClientError::InvalidUri(_))
    } else if t == TransportSecurity::Plain {
        credential_outcome(x_token, t, r)
    } else {
        r matches Err(GeyserGrpcClientError::TonicError(_)) || credential_outcome(x_token, t, r)
    }
}

impl GeyserGrpcClient<()> {
    /// Builds a client without touching the network: parses the endpoint,
    /// picks the encryption, applies it, then hands over to
    /// `from_configured_endpoint`. The channel's worker runs on the Tokio
    /// runtime entered on the calling thread; without one the result is
    /// `NoAsyncRuntime`, never a panic.
    pub fn connect(
        endpoint: &str,
        x_token: Option<&str>,
        tls_config: Option<ClientTlsConfig>,
    ) -> (r: GeyserGrpcClientResult<GeyserGrpcClient<InterceptorFn>>)
        ensures
            connect_outcome(endpoint@, opt_str_view(x_token), tls_config is Some, r),
    {
        let (parsed, scheme) = match parse_endpoint(endpoint) {
            Ok(p) => p,
            Err(e) => {
                return Err(GeyserGrpcClientError::InvalidUri(e));
            },
        };
        let transport = choose_transport(tls_config.is_some(), &scheme);
        let configured = match tls_config {
            Some(config) => apply_tls(parsed, config),
            None => if transport == TransportSecurity::DefaultTls {
                apply_tls(parsed, default_tls_config())
            } else {
                Ok(parsed)
            },
        };
        Self::from_configured_endpoint(configured, transport, x_token)
    }

    /// Finishes a client once the encryption step has run: its failure is a
    /// `TonicError`; otherwise the credential is validated, a lazy channel is
    /// made and `from_channel` binds the stubs.
    pub fn from_configured_endpoint(
        configured: Result<Endpoint, tonic::transport::Error>,
        transport: TransportSecurity,
        x_token: Option<&str>,
    ) -> (r: GeyserGrpcClientResult<GeyserGrpcClient<InterceptorFn>>)
        ensures
            configured is Err ==> r matches Err(GeyserGrpcClientError::TonicError(_)),
            configured is Ok ==> credential_outcome(opt_str_view(x_token), transport, r),
    {
        let endpoint = match configured {
            Ok(e) => e,
            Err(e) => {
                return Err(GeyserGrpcClientError::TonicError(e));
            },
        };
        let interceptor = InterceptorFn::new(x_token)?;
        Self::from_channel(connect_lazy(&endpoint), interceptor, transport)
    }

    /// Binds both stubs to the channel, each through a copy of the
    /// interceptor; without a channel (no async runtime was entered) it is
    /// `NoAsyncRuntime`.
    pub fn from_channel(
        channel: Option<Channel>,
        interceptor: InterceptorFn,
        transport: TransportSecurity,
    ) -> (r: GeyserGrpcClientResult<GeyserGrpcClient<InterceptorFn>>)
        ensures
            channel is None ==> r matches Err(GeyserGrpcClientError::NoAsyncRuntime),
            channel is Some ==> (r matches Ok(c) && c.spec_transport() == transport && c.carries(
                interceptor.token(),
            )),
    {
        let channel = match channel {
            Some(c) => c,
            None => {
                return Err(GeyserGrpcClientError::NoAsyncRuntime);
            },
        };
        let copy = interceptor.clone();
        Ok(GeyserGrpcClient {
            health: health_stub(share_channel(&channel), copy),
            geyser: geyser_stub(channel, interceptor),
            transport,
        })
    }
}

/// A secure-scheme endpoint with a good credential and no explicit settings
/// never fails on the credential: unless the encryption step fails or no
/// async runtime is entered, the client uses the default encryption and both
/// stubs carry the credential.
pub proof fn secure_endpoint_uses_default_tls(
    endpoint: Seq<char>,
    token: Seq<char>,
    r: GeyserGrpcClientResult<GeyserGrpcClient<InterceptorFn>>,
)
    requires
        connect_outcome(endpoint, Some(token), false, r),
        uri_parses(endpoint),
        uri_scheme(endpoint) == https_scheme(),
        is_credential_text(token),
        token.len() > 0,
    ensures
        r matches Ok(c) ==> c.spec_transport() == TransportSecurity::DefaultTls && c.carries(
            Some(token),
        ),
        r is Err ==> (r matches Err(GeyserGrpcClientError::TonicError(_)) || r matches Err(
            GeyserGrpcClientError::NoAsyncRuntime,
        )),
{
}

/// An endpoint whose scheme is not the secure one, with a good credential and
/// no explicit settings, yields an unencrypted client carrying the credential
/// whenever an async runtime is entered.
pub proof fn insecure_endpoint_connects(
    endpoint: Seq<char>,
    token: Seq<char>,
    r: GeyserGrpcClientResult<GeyserGrpcClient<InterceptorFn>>,
)
    requires
        connect_outcome(endpoint, Some(token), false, r),
        uri_parses(endpoint),
        uri_scheme(endpoint) != https_scheme(),
        is_credential_text(token),
        token.len() > 0,
    ensures
        built_or_no_runtime(Some(token), TransportSecurity::Plain, r),
{
}

/// An empty credential is never reported as malformed text: construction
/// fails, and once the endpoint and encryption are past, with the length
/// error.
pub proof fn empty_credential_is_a_length_error(
    endpoint: Seq<char>,
    explicit: bool,
    r: GeyserGrpcClientResult<GeyserGrpcClient<InterceptorFn>>,
)
    requires
        connect_outcome(endpoint, Some(Seq::<char>::empty()), explicit, r),
    ensures
        r is Err,
        !(r matches Err(GeyserGrpcClientError::MetadataValueError(_))),
        uri_parses(endpoint) && transport_for(explicit, uri_scheme(endpoint))
            == TransportSecurity::Plain ==> (r matches Err(
            GeyserGrpcClientError::InvalidXTokenLength(n),
        ) && n == 0),
{
    assert(is_credential_text(Seq::<char>::empty()));
}

/// Without a credential nothing about the credential can fail, and no stub of
/// the client carries one, so no call of it carries the credential key.
pub proof fn missing_credential_connects(
    endpoint: Seq<char>,
    explicit: bool,
    r: GeyserGrpcClientResult<GeyserGrpcClient<InterceptorFn>>,
)
    requires
        connect_outcome(endpoint, None, explicit, r),
    ensures
        r matches Ok(c) ==> c.carries(None),
        !(r matches Err(GeyserGrpcClientError::MetadataValueError(_))),
        !(r matches Err(GeyserGrpcClientError::InvalidXTokenLength(_))),
        uri_parses(endpoint) && transport_for(explicit, uri_scheme(endpoint))
            == TransportSecurity::Plain ==> built_or_no_runtime(None, TransportSecurity::Plain, r),
{
}

/// An endpoint that does not parse always fails with the URI error, whatever
/// the credential and settings.
pub proof fn unparsable_endpoint_is_a_uri_error(
    endpoint: Seq<char>,
    x_token: Option<Seq<char>>,
    explicit: bool,
    r: GeyserGrpcClientResult<GeyserGrpcClient<InterceptorFn>>,
)
    requires
        connect_outcome(endpoint, x_token, explicit, r),
        !uri_parses(endpoint),
    ensures
        r matches Err(GeyserGrpcClientError::InvalidUri(_)),
{
}

} // verus!
