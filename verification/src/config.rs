//! Construction-time configuration.
//!
//! All of these values are consumed once when the client is built and are
//! immutable afterwards.

use vstd::prelude::*;

use crate::records::{Cloud, Framework, Language, Process, Runtime, ServiceNode, System, User};

verus! {

/// Name for the trace id field, if one needs to be supplied manually.
pub const TRACE_ID_FIELD_NAME: &'static str = "trace_id";

/// Descriptor of the instrumented service.
pub struct Service {
    pub version: Option<String>,
    pub environment: Option<String>,
    pub language: Option<Language>,
    pub runtime: Option<Runtime>,
    pub framework: Option<Framework>,
    pub node: Option<ServiceNode>,
}

impl Service {
    pub fn new(
        version: Option<String>,
        environment: Option<String>,
        language: Option<Language>,
        runtime: Option<Runtime>,
        framework: Option<Framework>,
        node: Option<ServiceNode>,
    ) -> (r: Self)
        ensures
            r == (Service { version, environment, language, runtime, framework, node }),
    {
        Service { version, environment, language, runtime, framework, node }
    }
}

/// An API-key credential: an identifier together with its secret key.
pub struct ApiKey {
    pub id: String,
    pub key: String,
}

impl ApiKey {
    pub fn new(id: String, key: String) -> (r: Self)
        ensures
            r == (ApiKey { id, key }),
    {
        ApiKey { id, key }
    }
}

/// Credential used to authorize against the collector.
pub enum Authorization {
    SecretToken(String),
    ApiKey(ApiKey),
}

/// The full construction-time configuration of the client.
pub struct Config {
    pub apm_address: String,
    pub authorization: Option<Authorization>,
    pub service: Option<Service>,
    pub process: Option<Process>,
    pub system: Option<System>,
    pub user: Option<User>,
    pub cloud: Option<Cloud>,
    pub allow_invalid_certs: bool,
    pub root_cert_path: Option<String>,
    pub sleep_millis: u64,
}

/// The flush interval used when none is configured, in milliseconds.
pub const DEFAULT_SLEEP_MILLIS: u64 = 1000;

impl Config {
    /// A configuration with only the collector address set: no credential,
    /// platform TLS trust, and the default flush interval.
    pub fn new(apm_address: String) -> (r: Self)
        ensures
            r.apm_address == apm_address,
            r.authorization is None,
            r.service is None,
            r.process is None,
            r.system is None,
            r.user is None,
            r.cloud is None,
            !r.allow_invalid_certs,
            r.root_cert_path is None,
            r.sleep_millis == DEFAULT_SLEEP_MILLIS,
    {
        Config {
            apm_address,
            authorization: None,
            service: None,
            process: None,
            system: None,
            user: None,
            cloud: None,
            allow_invalid_certs: false,
            root_cert_path: None,
            sleep_millis: DEFAULT_SLEEP_MILLIS,
        }
    }

    pub fn allow_invalid_certificates(self, verify: bool) -> (r: Self)
        ensures
            r == (Config { allow_invalid_certs: verify, ..self }),
    {
        Config { allow_invalid_certs: verify, ..self }
    }

    pub fn with_root_cert_path(self, cert_path: String) -> (r: Self)
        ensures
            r == (Config { root_cert_path: Some(cert_path), ..self }),
    {
        Config { root_cert_path: Some(cert_path), ..self }
    }

    pub fn with_authorization(self, authorization: Authorization) -> (r: Self)
        ensures
            r == (Config { authorization: Some(authorization), ..self }),
    {
        Config { authorization: Some(authorization), ..self }
    }

    pub fn with_service(self, service: Service) -> (r: Self)
        ensures
            r == (Config { service: Some(service), ..self }),
    {
        Config { service: Some(service), ..self }
    }

    pub fn with_process(self, process: Process) -> (r: Self)
        ensures
            r == (Config { process: Some(process), ..self }),
    {
        Config { process: Some(process), ..self }
    }

    pub fn with_system(self, system: System) -> (r: Self)
        ensures
            r == (Config { system: Some(system), ..self }),
    {
        Config { system: Some(system), ..self }
    }

    pub fn with_user(self, user: User) -> (r: Self)
        ensures
            r == (Config { user: Some(user), ..self }),
    {
        Config { user: Some(user), ..self }
    }

    pub fn with_cloud(self, cloud: Cloud) -> (r: Self)
        ensures
            r == (Config { cloud: Some(cloud), ..self }),
    {
        Config { cloud: Some(cloud), ..self }
    }

    /// Sets the flush interval, in milliseconds.
    pub fn with_sleep_time(self, sleep_millis: u64) -> (r: Self)
        ensures
            r == (Config { sleep_millis, ..self }),
    {
        Config { sleep_millis, ..self }
    }
}

} // verus!
