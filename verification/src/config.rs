//! Runtime-tunable settings, and the run modes of the server process.

use crate::text::str_eq;
use vstd::prelude::*;

verus! {

/// Settings for authentication, sessions and invitations (config key `auth`).
#[derive(Debug, Clone, Copy, PartialEq, Eq, Structural)]
pub struct AuthConfig {
    /// Sliding session window in seconds: a session expires if not refreshed
    /// within this period.
    pub session_refresh_ttl_secs: u64,
    /// Absolute session lifespan in seconds (hard cap regardless of refresh).
    pub session_absolute_lifespan_secs: u64,
    /// How long a sent (pending) invitation stays valid before it expires and
    /// its slot returns to the sender as `Free`.
    pub invitation_expiry_secs: u64,
}

/// Key under which [`AuthConfig`] is stored.
pub const AUTH_CONFIG_KEY: &'static str = "auth";

/// The default settings: one week of sliding refresh, thirty days of absolute
/// lifespan, two weeks of invitation validity.
pub open spec fn default_auth_config() -> AuthConfig {
    AuthConfig {
        session_refresh_ttl_secs: 604_800,
        session_absolute_lifespan_secs: 2_592_000,
        invitation_expiry_secs: 1_209_600,
    }
}

impl Default for AuthConfig {
    fn default() -> (r: Self)
        ensures
            r == default_auth_config(),
    {
        AuthConfig {
            session_refresh_ttl_secs: 604_800,
            session_absolute_lifespan_secs: 2_592_000,
            invitation_expiry_secs: 1_209_600,
        }
    }
}

/// The run mode of a server process.
#[derive(Debug, Clone, Copy, PartialEq, Eq, Structural)]
pub enum WorkMode {
    Grpc,
    InternalGrpc,
    Consumer,
    Cron,
    OpenApi,
}

/// Name of a run mode in the `WORK_MODE` setting.
pub open spec fn work_mode_name(mode: WorkMode) -> Seq<char> {
    match mode {
        WorkMode::Grpc => "grpc"@,
        WorkMode::InternalGrpc => "internal_grpc"@,
        WorkMode::Consumer => "consumer"@,
        WorkMode::Cron => "cron"@,
        WorkMode::OpenApi => "openapi"@,
    }
}

impl WorkMode {
    /// The run mode named by a `WORK_MODE` value, if any.
    pub fn parse(s: &str) -> (r: Option<WorkMode>)
        ensures
            r matches Some(mode) ==> work_mode_name(mode) == s@,
            r is None ==> forall|mode: WorkMode| work_mode_name(mode) != s@,
    {
        proof {
            reveal_strlit("grpc");
            reveal_strlit("internal_grpc");
            reveal_strlit("consumer");
            reveal_strlit("cron");
            reveal_strlit("openapi");
        }
        if str_eq(s, "grpc") {
            Some(WorkMode::Grpc)
        } else if str_eq(s, "internal_grpc") {
            Some(WorkMode::InternalGrpc)
        } else if str_eq(s, "consumer") {
            Some(WorkMode::Consumer)
        } else if str_eq(s, "cron") {
            Some(WorkMode::Cron)
        } else if str_eq(s, "openapi") {
            Some(WorkMode::OpenApi)
        } else {
            proof {
                assert forall|mode: WorkMode| work_mode_name(mode) != s@ by {
                    match mode {
                        WorkMode::Grpc => {},
                        WorkMode::InternalGrpc => {},
                        WorkMode::Consumer => {},
                        WorkMode::Cron => {},
                        WorkMode::OpenApi => {},
                    }
                }
            }
            None
        }
    }
}

} // verus!
