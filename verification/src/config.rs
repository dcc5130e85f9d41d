//! Instance-wide configuration: the durable record (onboarding flag and
//! selected engine kind), its canonical on-disk encoding, and the
//! in-process store it is read from and updated through. The store is
//! wrapped in the process's reader/writer lock outside this crate;
//! reads take a consistent snapshot and updates mutate in place and
//! hand back the complete record to persist, so a persistence failure
//! never loses the in-memory state.

use vstd::prelude::*;
use vstd::string::StringExecFns;

use crate::engine::ContainerEngineKind;
use crate::engine::kind_str;
use crate::engine::spec_kind_str;

verus! {

/// The durable instance configuration. `engine` is only mutated while
/// `is_onboarded` is still false; the onboarding state machine
/// enforces that rule.
#[derive(Clone, Copy, PartialEq, Eq, Structural, Debug)]
pub struct MineHelmConfig {
    pub is_onboarded: bool,
    pub engine: ContainerEngineKind,
}

/// The configuration a fresh instance starts from: not onboarded, on
/// the Docker backend.
pub open spec fn spec_default_config() -> MineHelmConfig {
    MineHelmConfig { is_onboarded: false, engine: ContainerEngineKind::Docker }
}

impl Default for MineHelmConfig {
    fn default() -> (r: Self)
        ensures
            r == spec_default_config(),
    {
        MineHelmConfig { is_onboarded: false, engine: ContainerEngineKind::Docker }
    }
}

/// The canonical persisted form of a configuration: one JSON object
/// with the onboarding flag and the engine tag. Writing then reading
/// this form reproduces the record exactly.
pub open spec fn spec_encode_config(c: MineHelmConfig) -> Seq<char> {
    "{\"isOnboarded\":"@ + (if c.is_onboarded {
        "true"@
    } else {
        "false"@
    }) + ",\"engine\":\""@ + spec_kind_str(c.engine) + "\"}"@
}

/// What a persisted record decodes to: exactly the four canonical
/// encodings are accepted, anything else is rejected.
pub open spec fn spec_parse_config(s: Seq<char>) -> Option<MineHelmConfig> {
    if s == spec_encode_config(MineHelmConfig { is_onboarded: false, engine: ContainerEngineKind::Docker }) {
        Some(MineHelmConfig { is_onboarded: false, engine: ContainerEngineKind::Docker })
    } else if s == spec_encode_config(MineHelmConfig { is_onboarded: true, engine: ContainerEngineKind::Docker }) {
        Some(MineHelmConfig { is_onboarded: true, engine: ContainerEngineKind::Docker })
    } else if s == spec_encode_config(MineHelmConfig { is_onboarded: false, engine: ContainerEngineKind::Kubernetes }) {
        Some(MineHelmConfig { is_onboarded: false, engine: ContainerEngineKind::Kubernetes })
    } else if s == spec_encode_config(MineHelmConfig { is_onboarded: true, engine: ContainerEngineKind::Kubernetes }) {
        Some(MineHelmConfig { is_onboarded: true, engine: ContainerEngineKind::Kubernetes })
    } else {
        None
    }
}

impl MineHelmConfig {
    /// Serializes the record into its canonical persisted form. The
    /// caller writes the returned text to durable storage whole.
    pub fn encode(&self) -> (r: String)
        ensures
            r@ == spec_encode_config(*self),
    {
        let mut out = String::from_str("{\"isOnboarded\":");
        out.append(if self.is_onboarded {
            "true"
        } else {
            "false"
        });
        out.append(",\"engine\":\"");
        out.append(kind_str(self.engine));
        out.append("\"}");
        out
    }

    /// Decodes a persisted record; returns `None` for anything but a
    /// canonical encoding, so a malformed or truncated file is never
    /// mistaken for a configuration.
    pub fn parse(s: &String) -> (r: Option<MineHelmConfig>)
        ensures
            r == spec_parse_config(s@),
    {
        let c0 = MineHelmConfig { is_onboarded: false, engine: ContainerEngineKind::Docker };
        if s.eq(&c0.encode()) {
            return Some(c0);
        }
        let c1 = MineHelmConfig { is_onboarded: true, engine: ContainerEngineKind::Docker };
        if s.eq(&c1.encode()) {
            return Some(c1);
        }
        let c2 = MineHelmConfig { is_onboarded: false, engine: ContainerEngineKind::Kubernetes };
        if s.eq(&c2.encode()) {
            return Some(c2);
        }
        let c3 = MineHelmConfig { is_onboarded: true, engine: ContainerEngineKind::Kubernetes };
        if s.eq(&c3.encode()) {
            return Some(c3);
        }
        None
    }

    /// Decides the startup configuration from what durable storage
    /// yielded (`None` when the file was missing or unreadable). A
    /// canonical record is adopted as it stands; on any failure the
    /// hard-coded default is adopted and returned a second time in
    /// encoded form, for the caller to persist immediately so
    /// subsequent reads are consistent.
    pub fn load_or_init(disk: Option<String>) -> (r: (MineHelmConfig, Option<String>))
        ensures
            disk matches Some(s) ==> (match spec_parse_config(s@) {
                Some(c) => r.0 == c && r.1 is None,
                None => r.0 == spec_default_config() && (r.1 matches Some(rec) && rec@
                    == spec_encode_config(spec_default_config())),
            }),
            disk is None ==> (r.0 == spec_default_config() && (r.1 matches Some(rec) && rec@
                == spec_encode_config(spec_default_config()))),
    {
        match disk {
            Some(s) => {
                match MineHelmConfig::parse(&s) {
                    Some(c) => (c, None),
                    None => {
                        let d = MineHelmConfig { is_onboarded: false, engine: ContainerEngineKind::Docker };
                        let rec = d.encode();
                        (d, Some(rec))
                    },
                }
            },
            None => {
                let d = MineHelmConfig { is_onboarded: false, engine: ContainerEngineKind::Docker };
                let rec = d.encode();
                (d, Some(rec))
            },
        }
    }
}

/// Writing a configuration to its canonical form and reading it back
/// reproduces identical `is_onboarded` and `engine` values, for every
/// configuration.
pub proof fn lemma_config_round_trip(c: MineHelmConfig)
    ensures
        spec_parse_config(spec_encode_config(c)) == Some(c),
{
    reveal_strlit("{\"isOnboarded\":");
    reveal_strlit("true");
    reveal_strlit("false");
    reveal_strlit(",\"engine\":\"");
    reveal_strlit("docker");
    reveal_strlit("kubernetes");
    reveal_strlit("\"}");
    // The four canonical encodings all have different lengths, so the
    // decoder's comparison chain recognizes exactly the right one.
    assert(spec_encode_config(
        MineHelmConfig { is_onboarded: false, engine: ContainerEngineKind::Docker },
    ).len() == 39);
    assert(spec_encode_config(
        MineHelmConfig { is_onboarded: true, engine: ContainerEngineKind::Docker },
    ).len() == 38);
    assert(spec_encode_config(
        MineHelmConfig { is_onboarded: false, engine: ContainerEngineKind::Kubernetes },
    ).len() == 43);
    assert(spec_encode_config(
        MineHelmConfig { is_onboarded: true, engine: ContainerEngineKind::Kubernetes },
    ).len() == 42);
}

/// The shared handle to the instance configuration. The process keeps
/// one instance for all request handlers; concurrent access goes
/// through the surrounding reader/writer lock, whose exclusive side is
/// held for the whole read-modify-persist sequence of `update`.
pub struct MHConfig {
    config: MineHelmConfig,
}

impl View for MHConfig {
    type V = MineHelmConfig;

    closed spec fn view(&self) -> MineHelmConfig {
        self.config
    }
}

impl MHConfig {
    /// Wraps the configuration the process starts with.
    pub fn new(config: MineHelmConfig) -> (s: Self)
        ensures
            s@ == config,
    {
        MHConfig { config }
    }

    /// A consistent snapshot of the configuration.
    pub fn read(&self) -> (c: MineHelmConfig)
        ensures
            c == self@,
    {
        self.config
    }

    /// Replaces the configuration in place, without persisting it.
    /// Callers that need durability use `update`.
    pub fn write(&mut self, new_config: MineHelmConfig)
        ensures
            final(self)@ == new_config,
    {
        self.config = new_config;
    }

    /// Applies a mutation atomically and hands back the complete
    /// canonical record of the single resulting state, for the caller
    /// to write to durable storage whole; the persisted file is never
    /// an interleaving of two updates. The in-memory state keeps the
    /// mutation even if that write later fails.
    pub fn update<F: FnOnce(MineHelmConfig) -> MineHelmConfig>(&mut self, update_fn: F) -> (record:
        String)
        requires
            call_requires(update_fn, (old(self)@,)),
        ensures
            call_ensures(update_fn, (old(self)@,), final(self)@),
            record@ == spec_encode_config(final(self)@),
    {
        let current = self.config;
        self.config = update_fn(current);
        self.config.encode()
    }
}

} // verus!
