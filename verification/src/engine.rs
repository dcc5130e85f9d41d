//! Engine abstraction layer: the tag naming which orchestrator backend
//! is configured, the factory that resolves a tag to a connection plan,
//! and the interpretation of a backend's answer to the version/identity
//! query. The transport itself (daemon sockets, async calls) lives
//! outside this crate and hands its outcome in as a plain value.

use vstd::prelude::*;
use vstd::string::StrSliceExecFns;
use vstd::string::StringExecFns;

use crate::error::ApiError;

verus! {

/// The tag identifying which orchestrator backend is configured.
#[derive(Clone, Copy, PartialEq, Eq, Structural, Debug)]
pub enum ContainerEngineKind {
    Docker,
    Kubernetes,
}

impl Default for ContainerEngineKind {
    /// A fresh instance starts on the Docker backend.
    fn default() -> (r: Self)
        ensures
            r == ContainerEngineKind::Docker,
    {
        ContainerEngineKind::Docker
    }
}

/// The engine kind a request string selects: exactly "docker" and
/// "kubernetes" are accepted.
pub open spec fn spec_kind_of(s: Seq<char>) -> Option<ContainerEngineKind> {
    if s == "docker"@ {
        Some(ContainerEngineKind::Docker)
    } else if s == "kubernetes"@ {
        Some(ContainerEngineKind::Kubernetes)
    } else {
        None
    }
}

/// Maps an engine-kind request string to the kind it names, or `None`
/// for any string outside the accepted set.
pub fn kind_from_str(s: &String) -> (r: Option<ContainerEngineKind>)
    ensures
        r == spec_kind_of(s@),
{
    let docker = String::from_str("docker");
    let kubernetes = String::from_str("kubernetes");
    if s.eq(&docker) {
        Some(ContainerEngineKind::Docker)
    } else if s.eq(&kubernetes) {
        Some(ContainerEngineKind::Kubernetes)
    } else {
        None
    }
}

/// The canonical request string for an engine kind.
pub open spec fn spec_kind_str(k: ContainerEngineKind) -> Seq<char> {
    match k {
        ContainerEngineKind::Docker => "docker"@,
        ContainerEngineKind::Kubernetes => "kubernetes"@,
    }
}

/// The request string that names the given kind.
pub fn kind_str(k: ContainerEngineKind) -> (r: &'static str)
    ensures
        r@ == spec_kind_str(k),
{
    match k {
        ContainerEngineKind::Docker => "docker",
        ContainerEngineKind::Kubernetes => "kubernetes",
    }
}

/// The daemon endpoint used when the environment names none.
pub open spec fn spec_default_endpoint() -> Seq<char> {
    "tcp://localhost:2375"@
}

/// The capability surface every orchestrator backend must offer. The
/// process's live backend (a daemon connection) implements it outside
/// this crate; future lifecycle operations extend this same interface.
pub trait ContainerEngine {
    /// True only when the backend answered the version/identity query
    /// with a well-formed, non-empty identifier; a transport failure is
    /// an error, never `false`.
    fn healthcheck(&self) -> Result<bool, ApiError>;
}

/// A resolved engine: the backend kind together with the daemon
/// endpoint a connection must be made to. Construction decides
/// everything that does not require the network; the caller performs
/// the connection and must treat its failure as fatal to startup.
#[derive(Debug)]
pub struct ServerEngine {
    pub kind: ContainerEngineKind,
    pub endpoint: String,
}

impl ServerEngine {
    /// Resolves a configured engine kind to a connection plan. The
    /// Docker backend connects to the endpoint named by the
    /// environment, defaulting to the well-known local address; the
    /// Kubernetes backend is not supported yet and is refused with a
    /// clearly named error, distinct from any connection failure.
    pub fn new(kind: ContainerEngineKind, env_endpoint: Option<String>) -> (r: Result<
        ServerEngine,
        ApiError,
    >)
        ensures
            kind == ContainerEngineKind::Docker ==> (r matches Ok(e) && e.kind
                == ContainerEngineKind::Docker && (match env_endpoint {
                Some(s) => e.endpoint@ == s@,
                None => e.endpoint@ == spec_default_endpoint(),
            })),
            kind == ContainerEngineKind::Kubernetes ==> (r matches Err(e) && e matches
                ApiError::Unsupported(_)),
    {
        match kind {
            ContainerEngineKind::Docker => {
                let endpoint = match env_endpoint {
                    Some(s) => s,
                    None => String::from_str("tcp://localhost:2375"),
                };
                Ok(ServerEngine { kind: ContainerEngineKind::Docker, endpoint })
            },
            ContainerEngineKind::Kubernetes => Err(
                ApiError::Unsupported(String::from_str("Kubernetes is not supported yet")),
            ),
        }
    }
}

/// What the version/identity query against a backend yielded, as the
/// transport reports it.
pub enum EngineProbe {
    /// The daemon answered; the version identifier it reported, if any.
    Reached(Option<String>),
    /// The daemon could not be reached; the transport's description.
    Unreachable(String),
}

/// Interprets a probe of the backend: a reachable backend is healthy
/// exactly when it reported a non-empty identifier; an unreachable one
/// is an engine error, never `false`.
pub fn healthcheck_verdict(probe: &EngineProbe) -> (r: Result<bool, ApiError>)
    ensures
        probe matches EngineProbe::Unreachable(m) ==> (r matches Err(e) && (e matches
            ApiError::Engine(em) && em@ == m@)),
        probe matches EngineProbe::Reached(v) ==> (r matches Ok(healthy) && healthy == (
        v matches Some(id) && id@.len() > 0)),
{
    match probe {
        EngineProbe::Reached(Some(id)) => Ok(!id.as_str().is_empty()),
        EngineProbe::Reached(None) => Ok(false),
        EngineProbe::Unreachable(m) => Err(ApiError::Engine(m.clone())),
    }
}

} // verus!
