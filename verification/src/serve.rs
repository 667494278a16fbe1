//! The event publication service: what its configuration asks of the
//! transport, and how its failures are told apart. The caller binds, reads
//! the certificate file and serves.

use vstd::prelude::*;

verus! {

/// The configuration of the publication service.
#[derive(Clone, Debug, PartialEq, Eq)]
pub struct Config {
    listen_address: String,
    tls_client_ca_root: Option<String>,
}

/// The kinds of failure of the publication service.
#[derive(Clone, Copy, Debug, PartialEq, Eq, Structural)]
pub enum ServeError {
    /// The configuration cannot be used: fails at start-up, never retried.
    Config,
    /// The transport failed to bind or to serve.
    Server,
}

/// The steps of starting the service that can fail.
#[derive(Clone, Copy, Debug, PartialEq, Eq, Structural)]
pub enum Startup {
    /// Reading the file of the client certificate authority.
    ReadCaRoot,
    /// Setting up mutual authentication with the certificate read.
    ConfigureTls,
    /// Binding the listen address and serving.
    Serve,
}

/// What the transport is asked to do.
#[derive(Clone, Debug, PartialEq, Eq)]
pub struct Transport {
    /// The endpoint to bind, as host and port.
    pub listen_address: String,
    /// Whether plain HTTP/1.1 requests are accepted beside the native
    /// streaming transport.
    pub accept_http1: bool,
    /// Whether the browser-compatible shim is layered over the service.
    pub grpc_web: bool,
    /// The certificate bundle against which client certificates are verified,
    /// as a path relative to the working directory; without one, clients are
    /// not asked for a certificate.
    pub client_ca_root: Option<String>,
}

/// Mathematical value of a [`Transport`].
pub struct TransportView {
    pub listen_address: Seq<char>,
    pub accept_http1: bool,
    pub grpc_web: bool,
    pub client_ca_root: Option<Seq<char>>,
}

impl View for Transport {
    type V = TransportView;

    open spec fn view(&self) -> TransportView {
        TransportView {
            listen_address: self.listen_address@,
            accept_http1: self.accept_http1,
            grpc_web: self.grpc_web,
            client_ca_root: match self.client_ca_root {
                Some(path) => Some(path@),
                None => None,
            },
        }
    }
}

impl Transport {
    /// Whether clients must present a certificate.
    pub open spec fn spec_requires_client_certificate(&self) -> bool {
        self.client_ca_root is Some
    }

    /// Whether clients must present a certificate.
    #[verifier::when_used_as_spec(spec_requires_client_certificate)]
    pub fn requires_client_certificate(&self) -> (required: bool)
        ensures
            required == self.spec_requires_client_certificate(),
    {
        self.client_ca_root.is_some()
    }
}

impl Config {
    /// The endpoint to bind.
    pub closed spec fn spec_listen_address(&self) -> &String {
        &self.listen_address
    }

    /// The path of the client certificate authority's bundle, if one is set.
    pub closed spec fn spec_tls_client_ca_root(&self) -> &Option<String> {
        &self.tls_client_ca_root
    }

    /// A configuration that listens on `listen_address` and, with a
    /// `tls_client_ca_root`, verifies client certificates against it.
    pub fn new(listen_address: String, tls_client_ca_root: Option<String>) -> (config: Config)
        ensures
            config.listen_address() == listen_address,
            config.tls_client_ca_root() == tls_client_ca_root,
    {
        Config { listen_address, tls_client_ca_root }
    }

    /// The endpoint to bind.
    #[verifier::when_used_as_spec(spec_listen_address)]
    pub fn listen_address(&self) -> (address: &String)
        ensures
            address == self.spec_listen_address(),
    {
        &self.listen_address
    }

    /// The path of the client certificate authority's bundle, if one is set.
    #[verifier::when_used_as_spec(spec_tls_client_ca_root)]
    pub fn tls_client_ca_root(&self) -> (path: &Option<String>)
        ensures
            path == self.spec_tls_client_ca_root(),
    {
        &self.tls_client_ca_root
    }
}

/// What `config` asks of the transport: its address, HTTP/1.1 and the
/// browser-compatible shim always, and client certificates exactly where a
/// certificate authority is configured.
pub open spec fn spec_serve(config: Config) -> Transport {
    Transport {
        listen_address: *config.listen_address(),
        accept_http1: true,
        grpc_web: true,
        client_ca_root: *config.tls_client_ca_root(),
    }
}

/// Plans the transport of the publication service from its configuration.
pub fn serve(config: Config) -> (transport: Transport)
    ensures
        transport == spec_serve(config),
{
    Transport {
        listen_address: config.listen_address,
        accept_http1: true,
        grpc_web: true,
        client_ca_root: config.tls_client_ca_root,
    }
}

/// The kind of failure for each step of the start-up.
pub open spec fn spec_failure(step: Startup) -> ServeError {
    match step {
        Startup::ReadCaRoot => ServeError::Config,
        Startup::ConfigureTls => ServeError::Config,
        Startup::Serve => ServeError::Server,
    }
}

/// The kind of the failure of `step`: what goes wrong with the certificate
/// is a configuration error, what goes wrong while binding or serving is a
/// server error.
#[verifier::when_used_as_spec(spec_failure)]
pub fn failure(step: Startup) -> (error: ServeError)
    ensures
        error == spec_failure(step),
{
    match step {
        Startup::ReadCaRoot => ServeError::Config,
        Startup::ConfigureTls => ServeError::Config,
        Startup::Serve => ServeError::Server,
    }
}

} // verus!
