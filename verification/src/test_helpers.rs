//! Helpers that bring a device into a known state.

use crate::channel::Channel;
use crate::command::{
    AuthenticatorConfigParameters, AuthenticatorConfigView, Command, CommandView,
    ConfigSubCommand, ConfigSubCommandParams, ConfigSubCommandParamsView, ReplyView,
    ResponseView,
};
use crate::ctap::{fenced, process, CtapState, Outcome};
use crate::env::Env;
use crate::persist::{
    lemma_apply_pair, Attestation, AttestationId, AttestationView, Persist, UpdateView,
};
use crate::secret::Secret;
use crate::status::{CtapError, CtapResult};
use vstd::prelude::*;

verus! {

/// The channel that the helpers send their commands on.  Where the check of
/// user presence returns at once the channel does not matter, so the
/// helpers pass this valid one.
pub open spec fn dummy_channel_spec() -> Channel {
    Channel::MainHid([0x12u8, 0x34u8, 0x56u8, 0x78u8])
}

/// The channel that the helpers send their commands on.
#[verifier::when_used_as_spec(dummy_channel_spec)]
pub fn dummy_channel() -> (channel: Channel)
    ensures
        channel == dummy_channel_spec(),
{
    Channel::MainHid([0x12, 0x34, 0x56, 0x78])
}

/// The byte string that holds `value` at each of its `length` places.
pub open spec fn repeated(value: u8, length: nat) -> Seq<u8> {
    Seq::new(length, |i: int| value)
}

fn repeat(value: u8, length: usize) -> (bytes: Vec<u8>)
    ensures
        bytes@ == repeated(value, length as nat),
{
    let mut bytes: Vec<u8> = Vec::new();
    let mut i: usize = 0;
    while i < length
        invariant
            i <= length,
            bytes.len() == i,
            forall|k: int| 0 <= k < i ==> bytes@[k] == value,
        decreases length - i,
    {
        bytes.push(value);
        i = i + 1;
    }
    assert(bytes@ =~= repeated(value, length as nat));
    bytes
}

/// The attestation that [`enable_enterprise_attestation`] provisions: a
/// private key of 32 bytes `0x41` and a certificate of 20 bytes `0xdd`.
pub open spec fn enterprise_attestation() -> AttestationView {
    AttestationView { private_key: repeated(0x41, 32), certificate: repeated(0xdd, 20) }
}

/// The command that [`enable_enterprise_attestation`] sends: it carries the
/// attestation and no token.
pub open spec fn enable_command() -> CommandView {
    CommandView::AuthenticatorConfig(
        AuthenticatorConfigView {
            sub_command: ConfigSubCommand::EnableEnterpriseAttestation,
            sub_command_params: Some(
                ConfigSubCommandParamsView::EnterpriseAttestation(enterprise_attestation()),
            ),
            pin_uv_auth_param: None,
            pin_uv_auth_protocol: None,
        },
    )
}

/// The one write that enabling makes: the attestation, then the flag.
pub open spec fn enable_batch() -> Seq<UpdateView> {
    seq![
        UpdateView::SetAttestation {
            id: AttestationId::Enterprise,
            attestation: Some(enterprise_attestation()),
        },
        UpdateView::SetEnterpriseAttestation(true),
    ]
}

/// The error that stops the helper on a device, or `None` where it goes
/// through.  The checks come in the order of the dispatcher: the
/// transaction lock, which stops the helper while another channel than the
/// dummy channel holds it, the authorization (the helper has no token, so a
/// PIN stops it), the feature flag, and last the write.
pub open spec fn enable_obstacle<E: Env>(state: CtapState<E>, env: E) -> Option<CtapError> {
    if fenced(state@, dummy_channel()) {
        Some(CtapError::ChannelBusy)
    } else if env.store().pin is Some {
        if env.store().pin->0.retries == 0 {
            Some(CtapError::PinBlocked)
        } else {
            Some(CtapError::AuthorizationRequired)
        }
    } else if !state@.customization.enterprise_attestation {
        Some(CtapError::FeatureDisabled)
    } else if !env.accepts(enable_batch()) {
        Some(CtapError::StorageFailure)
    } else {
        None
    }
}

/// Provisions the enterprise attestation and enables it, with one
/// configuration command on the dummy channel, and returns the attestation.
///
/// On success the store holds exactly the returned key pair and
/// certificate for the enterprise identity and the enabled flag is set.  On
/// failure the store is as it was; so it is where the feature flag is off,
/// which is reported as `FeatureDisabled`.  Where the helper is stopped
/// before its write, the whole environment is as it was.
pub fn enable_enterprise_attestation<E: Env>(state: &mut CtapState<E>, env: &mut E) -> (outcome:
    CtapResult<Attestation>)
    ensures
        (Outcome {
            session: final(state)@,
            store: final(env).store(),
            result: match outcome {
                Ok(_) => Ok(ReplyView::Done(ResponseView::AuthenticatorConfig)),
                Err(error) => Err(error),
            },
        }) == process::<E>(old(state)@, *old(env), enable_command(), dummy_channel(), seq![]),
        match enable_obstacle(*old(state), *old(env)) {
            Some(error) => outcome == Err::<Attestation, CtapError>(error) && final(env).store()
                == old(env).store(),
            None => outcome is Ok && final(env).store() == old(env).store().apply(
                enable_batch()[0],
            ).apply(enable_batch()[1]),
        },
        enable_obstacle(*old(state), *old(env)) matches Some(error) && error
            != CtapError::StorageFailure ==> *final(env) == *old(env),
        outcome matches Ok(attestation) ==> {
            &&& attestation@ == enterprise_attestation()
            &&& final(env).store().attestation(AttestationId::Enterprise) == Some(attestation@)
            &&& final(env).store().enterprise_attestation_enabled
        },
{
    let attestation = Attestation {
        private_key: Secret::from_exposed_secret(repeat(0x41, 32)),
        certificate: repeat(0xdd, 20),
    };
    let config_params = AuthenticatorConfigParameters {
        sub_command: ConfigSubCommand::EnableEnterpriseAttestation,
        sub_command_params: Some(
            ConfigSubCommandParams::EnterpriseAttestation(attestation.duplicate()),
        ),
        pin_uv_auth_param: None,
        pin_uv_auth_protocol: None,
    };
    let config_command = Command::AuthenticatorConfig(config_params);
    proof {
        assert(config_command@ == enable_command());
        lemma_apply_pair(env.store(), enable_batch()[0], enable_batch()[1]);
        assert(enable_batch() =~= seq![enable_batch()[0], enable_batch()[1]]);
    }
    match state.process_parsed_command(env, config_command, dummy_channel()) {
        Ok(_) => Ok(attestation),
        Err(error) => Err(error),
    }
}

} // verus!
