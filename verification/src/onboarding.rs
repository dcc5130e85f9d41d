//! Onboarding state machine: the one-time bootstrap sequence that takes
//! an instance from unconfigured to operational. Only the aggregate
//! `is_onboarded` flag is durable; every call re-derives its guard from
//! it. Once the flag is set, every bootstrap operation is rejected with
//! a client error and mutates nothing.

use vstd::prelude::*;
use vstd::string::StringExecFns;

use crate::config::MHConfig;
use crate::config::MineHelmConfig;
use crate::config::spec_encode_config;
use crate::engine::ContainerEngineKind;
use crate::engine::kind_from_str;
use crate::engine::spec_kind_of;
use crate::error::ApiError;
use crate::keys::ApiKey;
use crate::keys::KeyTags;
use crate::users::CreateUserPayload;
use crate::users::CreatedUser;
use crate::users::MAX_USERNAME_LEN;
use crate::users::NewUserRecord;
use crate::users::UsersService;

verus! {

/// The request body for selecting an engine.
pub struct SelectEnginePayload {
    pub engine: String,
}

/// The controlled-restart request that finishing onboarding hands to
/// the surrounding process manager, so the freshly selected engine is
/// loaded for live traffic. The caller must deliver the success
/// response before acting on it.
#[derive(Debug)]
pub struct RestartSignal;

/// Whether onboarding still has to be done. The source of truth is the
/// durable flag alone: creating the administrative account does not
/// change the answer; only `finish` does.
pub fn check(store: &MHConfig) -> (should_onboard: bool)
    ensures
        should_onboard == !store@.is_onboarded,
{
    !store.read().is_onboarded
}

/// Selects the engine kind for this instance. Permitted only while the
/// instance is not onboarded, and only for a string naming a known
/// kind; every rejection is a client error and leaves the
/// configuration untouched. On success the new kind is stored and the
/// complete record to persist is returned alongside.
pub fn select_engine(store: &mut MHConfig, payload: &SelectEnginePayload) -> (r: (Result<
    ContainerEngineKind,
    ApiError,
>, Option<String>))
    ensures
        old(store)@.is_onboarded ==> (r.0 matches Err(e) && e.is_client_error()
            && e.spec_status_code() == 400 && final(store)@ == old(store)@ && r.1 is None),
        !old(store)@.is_onboarded ==> (match spec_kind_of(payload.engine@) {
            None => r.0 matches Err(e) && e.is_client_error() && e.spec_status_code() == 400
                && final(store)@ == old(store)@ && r.1 is None,
            Some(k) => r.0 matches Ok(kind) && kind == k && final(store)@.engine == k
                && final(store)@.is_onboarded == old(store)@.is_onboarded && (r.1 matches Some(rec)
                && rec@ == spec_encode_config(final(store)@)),
        }),
{
    if store.read().is_onboarded {
        return (Err(ApiError::message(400, "Onboarding is already finished.")), None);
    }
    match kind_from_str(&payload.engine) {
        None => (Err(ApiError::message(400, "The requested engine is not a valid engine.")), None),
        Some(kind) => {
            let record = store.update(
                (|cfg: MineHelmConfig| -> (out: MineHelmConfig)
                    ensures
                        out.is_onboarded == cfg.is_onboarded && out.engine == kind,
                    {
                        MineHelmConfig { is_onboarded: cfg.is_onboarded, engine: kind }
                    }),
            );
            (Ok(kind), Some(record))
        },
    }
}

/// Creates the first administrative account: permitted only while the
/// instance is not onboarded, and delegating to the account service
/// with the ADMIN capability tag. The returned record still has to be
/// inserted — as one transaction — by the persistence store;
/// `complete_create_admin` interprets that store's answer.
pub fn create_admin(store: &MHConfig, payload: &CreateUserPayload) -> (r: Result<
    NewUserRecord,
    ApiError,
>)
    ensures
        store@.is_onboarded ==> (r matches Err(e) && e.is_client_error() && e.spec_status_code()
            == 400),
        !store@.is_onboarded && payload.username@.len() > MAX_USERNAME_LEN ==> (r matches Err(e)
            && e.is_client_error() && e.spec_status_code() == 400),
        r matches Ok(rec) ==> (!store@.is_onboarded && payload.username@.len() <= MAX_USERNAME_LEN
            && rec.username@ == payload.username@ && crate::keys::valid_key(rec.key@)
            && rec.tags.spec_bits() == 1 && rec.password_hash@.len() > 0 && rec.password_hash@[0]
            == '$'),
        r matches Err(e) ==> (store@.is_onboarded || payload.username@.len() > MAX_USERNAME_LEN
            || e matches ApiError::Internal(_)),
{
    if store.read().is_onboarded {
        return Err(ApiError::message(400, "Onboarding is already finished."));
    }
    UsersService::create_user(payload, KeyTags::admin())
}

/// Interprets the persistence store's answer to the one-transaction
/// insert of the account and its credential: a store-assigned id must
/// be a positive integer, anything else is an infrastructure failure.
/// On success the caller receives the id and the raw token, together
/// and exactly once.
pub fn complete_create_admin(key: ApiKey, outcome: Result<i32, String>) -> (r: Result<
    CreatedUser,
    ApiError,
>)
    ensures
        outcome matches Ok(id) ==> (if id >= 1 {
            r matches Ok(u) && u.id == id && u.key@ == key@
        } else {
            r matches Err(e) && e matches ApiError::Internal(_)
        }),
        outcome matches Err(m) ==> (r matches Err(e) && e matches ApiError::Internal(_)),
{
    match outcome {
        Ok(id) => {
            if id >= 1 {
                Ok(CreatedUser { id, key })
            } else {
                Err(
                    ApiError::Internal(
                        String::from_str("The store assigned a non-positive account id."),
                    ),
                )
            }
        },
        Err(m) => Err(ApiError::Internal(m)),
    }
}

/// Finishes onboarding: flips the durable flag, hands back the complete
/// record to persist, and requests a controlled restart. Once the
/// instance is onboarded, finishing again is a client error and
/// mutates nothing.
pub fn finish(store: &mut MHConfig) -> (r: (Result<RestartSignal, ApiError>, Option<String>))
    ensures
        old(store)@.is_onboarded ==> (r.0 matches Err(e) && e.is_client_error()
            && e.spec_status_code() == 400 && final(store)@ == old(store)@ && r.1 is None),
        !old(store)@.is_onboarded ==> (r.0 matches Ok(_) && final(store)@.is_onboarded
            && final(store)@.engine == old(store)@.engine && (r.1 matches Some(rec) && rec@
            == spec_encode_config(final(store)@))),
{
    if store.read().is_onboarded {
        return (Err(ApiError::message(400, "Onboarding is already finished.")), None);
    }
    let record = store.update(
        (|cfg: MineHelmConfig| -> (out: MineHelmConfig)
            ensures
                out.is_onboarded && out.engine == cfg.engine,
            {
                MineHelmConfig { is_onboarded: true, engine: cfg.engine }
            }),
    );
    (Ok(RestartSignal), Some(record))
}

} // verus!
