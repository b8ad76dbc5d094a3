//! The authenticator state machine: the single entry point for parsed
//! commands, and the session state it owns.
//!
//! A command is handled in a fixed order.  The transaction lock is checked
//! first: a command is turned away as busy while another channel holds it.
//! Then comes the authorization token, then what the command itself
//! demands.  Only then is anything written, and all of it in one atomic
//! write, so that a command that is turned away, or whose write the medium
//! refuses, leaves the store as it was.  (A wrong PIN is counted in the
//! store before it is reported; a factory reset alone takes several writes,
//! under a marker.)  A command that needs the user's presence is not run at
//! once: it takes the transaction lock for its channel and is run, or
//! dropped, when the wait ends.  A channel has one command in flight at
//! most: a command on the channel that holds the lock ends the wait there,
//! as a cancel directive would, and takes its place.

use crate::channel::Channel;
use crate::command::{
    AuthenticatorConfigParameters, AuthenticatorConfigView, ClientPinParameters,
    ClientPinSubCommand, ClientPinView, Command, CommandView, ConfigSubCommandParams,
    ConfigSubCommandParamsView, CredentialManagementParameters, CredentialManagementSubCommand,
    CredentialManagementView, GetAssertionParameters, GetAssertionView, MakeCredentialParameters,
    MakeCredentialView, Reply, ReplyView, ResponseData, ResponseView, UserPresence, result_view,
};
use crate::env::{Customization, Env, FRESH_SECRET_LENGTH};
use crate::persist::{
    batch_view, bytes_equal, copy_bytes, factory_reset, find_credential, lookup, option_view,
    reset_stopped, single, AttestationId, Credential, CredentialView, Persist, PinRecord, PinView, StoreModel,
    Update, UpdateView, ATTESTATION_PRIVATE_KEY_LENGTH,
};
use crate::pin::{
    attempt, failure, failure_of, gate, on_channel, verify, Permission, PinUvAuth, Token,
    TokenView,
};
use crate::secret::{zeros, Secret};
use crate::status::{CtapError, CtapResult};
use core::marker::PhantomData;
use vstd::prelude::*;

verus! {

/// An operation that waits for the user, with what it needs to complete.
pub enum PendingOperation {
    MakeCredential { rp_id: Vec<u8>, user_handle: Vec<u8>, attestation: Option<AttestationId> },
    GetAssertion { credential_id: Vec<u8>, user_handle: Vec<u8> },
    Reset,
}

/// What a [`PendingOperation`] holds.
pub enum PendingView {
    MakeCredential { rp_id: Seq<u8>, user_handle: Seq<u8>, attestation: Option<AttestationId> },
    GetAssertion { credential_id: Seq<u8>, user_handle: Seq<u8> },
    Reset,
}

impl View for PendingOperation {
    type V = PendingView;

    open spec fn view(&self) -> PendingView {
        match *self {
            PendingOperation::MakeCredential { rp_id, user_handle, attestation } => {
                PendingView::MakeCredential {
                    rp_id: rp_id@,
                    user_handle: user_handle@,
                    attestation,
                }
            },
            PendingOperation::GetAssertion { credential_id, user_handle } => {
                PendingView::GetAssertion {
                    credential_id: credential_id@,
                    user_handle: user_handle@,
                }
            },
            PendingOperation::Reset => PendingView::Reset,
        }
    }
}

/// The transaction lock: the channel that holds it and the operation that
/// waits on it.
pub struct Pending {
    pub channel: Channel,
    pub operation: PendingOperation,
}

/// What a [`Pending`] holds.
pub struct PendingLock {
    pub channel: Channel,
    pub operation: PendingView,
}

impl View for Pending {
    type V = PendingLock;

    open spec fn view(&self) -> PendingLock {
        PendingLock { channel: self.channel, operation: self.operation@ }
    }
}

/// The session state that the state machine owns.
pub struct SessionView {
    pub customization: Customization,
    /// The live authorization token.
    pub token: Option<TokenView>,
    /// The transaction lock; `None` while no operation waits for the user.
    pub pending: Option<PendingLock>,
}

/// What the state machine has decided to do with a command.
pub struct Plan {
    /// The session after the command was examined.
    pub session: SessionView,
    /// The atomic write to make; empty where the command writes nothing.
    pub batch: Seq<UpdateView>,
    /// The token to hold once the write is made.
    pub mint: Option<TokenView>,
    /// The outcome to report: at once where nothing is written, else once
    /// the write is made.
    pub result: Result<ReplyView, CtapError>,
}

/// Where a command leaves the device.
pub struct Outcome {
    pub session: SessionView,
    pub store: StoreModel,
    pub result: Result<ReplyView, CtapError>,
}

/// The plan that reports an error and writes nothing.
pub open spec fn reject(session: SessionView, error: CtapError) -> Plan {
    Plan { session, batch: Seq::empty(), mint: None, result: Err(error) }
}

/// The plan that reports a payload and writes nothing.
pub open spec fn done(session: SessionView, response: ResponseView) -> Plan {
    Plan { session, batch: Seq::empty(), mint: None, result: Ok(ReplyView::Done(response)) }
}

/// The plan that takes the transaction lock for an operation that waits
/// for the user.
pub open spec fn suspend(session: SessionView, channel: Channel, operation: PendingView) -> Plan {
    Plan {
        session: SessionView { pending: Some(PendingLock { channel, operation }), ..session },
        batch: Seq::empty(),
        mint: None,
        result: Ok(ReplyView::UserPresenceNeeded),
    }
}

/// Carries a plan out: what it writes is written in one atomic write, and
/// only once that is made does the plan's outcome stand.  A write that the
/// medium refuses leaves the store as it was and is reported as a storage
/// failure.
pub open spec fn settle(plan: Plan, store: StoreModel, accepted: bool) -> Outcome {
    if plan.batch.len() == 0 {
        Outcome { session: plan.session, store, result: plan.result }
    } else if accepted {
        Outcome {
            session: match plan.mint {
                Some(token) => SessionView { token: Some(token), ..plan.session },
                None => plan.session,
            },
            store: store.apply_all(plan.batch),
            result: plan.result,
        }
    } else {
        Outcome { session: plan.session, store, result: Err(CtapError::StorageFailure) }
    }
}

/// The plan for a configuration command.
///
/// Enabling enterprise attestation needs the token where a PIN is set, and a
/// device that is built for the feature.  With a key pair and certificate it
/// writes them and the enabled flag in one write; without, it sets the flag
/// for the attestation that is already provisioned.
pub open spec fn plan_config(
    session: SessionView,
    store: StoreModel,
    parameters: AuthenticatorConfigView,
    channel: Channel,
) -> Plan {
    let checked = gate(
        session.token,
        store.pin,
        channel,
        Permission::AuthenticatorConfiguration,
        parameters.pin_uv_auth_param,
        parameters.pin_uv_auth_protocol,
        false,
    );
    let session = SessionView { token: checked.token, ..session };
    match checked.verdict {
        Err(error) => reject(session, error),
        Ok(()) => if !session.customization.enterprise_attestation {
            reject(session, CtapError::FeatureDisabled)
        } else {
            match parameters.sub_command_params {
                Some(ConfigSubCommandParamsView::EnterpriseAttestation(attestation)) => {
                    if attestation.private_key.len() != ATTESTATION_PRIVATE_KEY_LENGTH {
                        reject(session, CtapError::InvalidCommand)
                    } else {
                        Plan {
                            session,
                            batch: seq![
                                UpdateView::SetAttestation {
                                    id: AttestationId::Enterprise,
                                    attestation: Some(attestation),
                                },
                                UpdateView::SetEnterpriseAttestation(true),
                            ],
                            mint: None,
                            result: Ok(ReplyView::Done(ResponseView::AuthenticatorConfig)),
                        }
                    }
                },
                None => if store.enterprise_attestation is None {
                    reject(session, CtapError::InvalidCommand)
                } else {
                    Plan {
                        session,
                        batch: seq![UpdateView::SetEnterpriseAttestation(true)],
                        mint: None,
                        result: Ok(ReplyView::Done(ResponseView::AuthenticatorConfig)),
                    }
                },
            }
        },
    }
}

/// The PIN record that a new PIN is stored as: hashed under a fresh salt,
/// with the full retry budget.
pub open spec fn new_pin_record<E: Env>(
    customization: Customization,
    new_pin: Seq<u8>,
    fresh: Seq<u8>,
) -> PinView {
    PinView {
        hash: E::pin_hash(fresh, new_pin),
        salt: fresh,
        retries: customization.max_pin_retries,
    }
}

/// The plan for a PIN command.
///
/// Setting a PIN needs a device without one.  Changing the PIN and asking
/// for a token verify the presented PIN against the stored hash: a match
/// restores the retry budget, and a mismatch takes one attempt away.  Either
/// is written before the result is reported, and a device without attempts
/// left verifies nothing.  Every verification withdraws the held token, and
/// a token is minted only by a match.
pub open spec fn plan_client_pin<E: Env>(
    session: SessionView,
    store: StoreModel,
    parameters: ClientPinView,
    channel: Channel,
    fresh: Seq<u8>,
) -> Plan {
    let unauthorized = SessionView { token: None, ..session };
    let max_retries = session.customization.max_pin_retries;
    match parameters.sub_command {
        ClientPinSubCommand::GetPinRetries => done(
            session,
            ResponseView::PinRetries(
                match store.pin {
                    Some(record) => record.retries,
                    None => max_retries,
                },
            ),
        ),
        ClientPinSubCommand::SetPin => match (store.pin, parameters.new_pin) {
            (None, Some(new_pin)) => Plan {
                session: unauthorized,
                batch: seq![
                    UpdateView::SetPin(
                        Some(new_pin_record::<E>(session.customization, new_pin, fresh)),
                    ),
                ],
                mint: None,
                result: Ok(ReplyView::Done(ResponseView::PinSet)),
            },
            _ => reject(session, CtapError::InvalidCommand),
        },
        ClientPinSubCommand::ChangePin => match store.pin {
            None => reject(session, CtapError::InvalidCommand),
            Some(record) => if record.retries == 0 {
                reject(unauthorized, CtapError::PinBlocked)
            } else {
                match (parameters.pin, parameters.new_pin) {
                    (Some(pin), Some(new_pin)) => {
                        let verified = attempt(
                            record,
                            E::pin_hash(record.salt, pin),
                            max_retries,
                        );
                        if verified.matched {
                            Plan {
                                session: unauthorized,
                                batch: seq![
                                    UpdateView::SetPin(
                                        Some(
                                            new_pin_record::<E>(
                                                session.customization,
                                                new_pin,
                                                fresh,
                                            ),
                                        ),
                                    ),
                                ],
                                mint: None,
                                result: Ok(ReplyView::Done(ResponseView::PinSet)),
                            }
                        } else {
                            Plan {
                                session: unauthorized,
                                batch: seq![UpdateView::SetPin(Some(verified.record))],
                                mint: None,
                                result: Err(failure(verified.record.retries)),
                            }
                        }
                    },
                    _ => reject(session, CtapError::InvalidCommand),
                }
            },
        },
        ClientPinSubCommand::GetPinToken => match store.pin {
            None => reject(session, CtapError::InvalidCommand),
            Some(record) => if record.retries == 0 {
                reject(unauthorized, CtapError::PinBlocked)
            } else {
                match (parameters.pin, parameters.permissions) {
                    (Some(pin), Some(scope)) if !scope.is_empty() => {
                        let verified = attempt(
                            record,
                            E::pin_hash(record.salt, pin),
                            max_retries,
                        );
                        if verified.matched {
                            Plan {
                                session: unauthorized,
                                batch: seq![UpdateView::SetPin(Some(verified.record))],
                                mint: Some(
                                    TokenView {
                                        value: fresh,
                                        channel,
                                        protocol: parameters.pin_uv_auth_protocol,
                                        scope,
                                        uses_left: session.customization.token_window,
                                    },
                                ),
                                result: Ok(ReplyView::Done(ResponseView::PinToken(fresh))),
                            }
                        } else {
                            Plan {
                                session: unauthorized,
                                batch: seq![UpdateView::SetPin(Some(verified.record))],
                                mint: None,
                                result: Err(failure(verified.record.retries)),
                            }
                        }
                    },
                    _ => reject(session, CtapError::InvalidCommand),
                }
            },
        },
    }
}

/// The plan for the creation of a credential: once authorized, and once the
/// attestation that is asked for is known to be there, the command waits
/// for the user.  Enterprise attestation must be enabled and provisioned to
/// be asked for.
pub open spec fn plan_make_credential(
    session: SessionView,
    store: StoreModel,
    parameters: MakeCredentialView,
    channel: Channel,
) -> Plan {
    let checked = gate(
        session.token,
        store.pin,
        channel,
        Permission::MakeCredential,
        parameters.pin_uv_auth_param,
        parameters.pin_uv_auth_protocol,
        true,
    );
    let session = SessionView { token: checked.token, ..session };
    match checked.verdict {
        Err(error) => reject(session, error),
        Ok(()) => if parameters.enterprise_attestation {
            if store.enterprise_attestation_enabled && store.enterprise_attestation is Some {
                suspend(
                    session,
                    channel,
                    PendingView::MakeCredential {
                        rp_id: parameters.rp_id,
                        user_handle: parameters.user_handle,
                        attestation: Some(AttestationId::Enterprise),
                    },
                )
            } else {
                reject(session, CtapError::FeatureDisabled)
            }
        } else {
            suspend(
                session,
                channel,
                PendingView::MakeCredential {
                    rp_id: parameters.rp_id,
                    user_handle: parameters.user_handle,
                    attestation: if store.batch_attestation is Some {
                        Some(AttestationId::Batch)
                    } else {
                        None
                    },
                },
            )
        },
    }
}

/// The plan for an assertion: once authorized, and once the credential is
/// found for the relying party, the command waits for the user.
pub open spec fn plan_get_assertion(
    session: SessionView,
    store: StoreModel,
    parameters: GetAssertionView,
    channel: Channel,
) -> Plan {
    let checked = gate(
        session.token,
        store.pin,
        channel,
        Permission::GetAssertion,
        parameters.pin_uv_auth_param,
        parameters.pin_uv_auth_protocol,
        true,
    );
    let session = SessionView { token: checked.token, ..session };
    match checked.verdict {
        Err(error) => reject(session, error),
        Ok(()) => match lookup(store.credentials, parameters.credential_id) {
            Some(credential) if credential.rp_id == parameters.rp_id => suspend(
                session,
                channel,
                PendingView::GetAssertion {
                    credential_id: parameters.credential_id,
                    user_handle: credential.user_handle,
                },
            ),
            _ => reject(session, CtapError::InvalidCommand),
        },
    }
}

/// The plan for a credential-management command.
pub open spec fn plan_credential_management(
    session: SessionView,
    store: StoreModel,
    parameters: CredentialManagementView,
    channel: Channel,
) -> Plan {
    let checked = gate(
        session.token,
        store.pin,
        channel,
        Permission::CredentialManagement,
        parameters.pin_uv_auth_param,
        parameters.pin_uv_auth_protocol,
        false,
    );
    let session = SessionView { token: checked.token, ..session };
    match checked.verdict {
        Err(error) => reject(session, error),
        Ok(()) => match parameters.sub_command {
            CredentialManagementSubCommand::GetCredsMetadata => done(
                session,
                ResponseView::CredentialsMetadata {
                    existing: store.credentials.len() as usize,
                },
            ),
            CredentialManagementSubCommand::EnumerateCredential => match parameters.index {
                Some(index) if index < store.credentials.len() => done(
                    session,
                    ResponseView::CredentialSummary {
                        credential_id: store.credentials[index as int].id,
                        rp_id: store.credentials[index as int].rp_id,
                        user_handle: store.credentials[index as int].user_handle,
                        total: store.credentials.len() as usize,
                    },
                ),
                _ => reject(session, CtapError::InvalidCommand),
            },
            CredentialManagementSubCommand::DeleteCredential => match parameters.credential_id {
                Some(id) if lookup(store.credentials, id) is Some => Plan {
                    session,
                    batch: seq![UpdateView::DeleteCredential(id)],
                    mint: None,
                    result: Ok(ReplyView::Done(ResponseView::CredentialDeleted)),
                },
                _ => reject(session, CtapError::InvalidCommand),
            },
        },
    }
}

/// Whether a command on `channel` is fenced off: an operation waits for the
/// user, and the channel that holds the transaction lock is another one.
pub open spec fn fenced(session: SessionView, channel: Channel) -> bool {
    session.pending is Some && session.pending->0.channel != channel
}

/// The plan for a command that arrives on a channel.
///
/// While an operation of another channel waits for the user, the command is
/// turned away as busy and changes nothing.  A command on the channel that
/// holds the lock ends the wait there, as a cancel directive would, and is
/// then handled as on a free device.  A token that was minted on another
/// channel is withdrawn before the command is looked at.
pub open spec fn plan<E: Env>(
    session: SessionView,
    store: StoreModel,
    command: CommandView,
    channel: Channel,
    fresh: Seq<u8>,
) -> Plan {
    if fenced(session, channel) {
        reject(session, CtapError::ChannelBusy)
    } else {
        let session = cancelled(session, channel);
        let session = SessionView { token: on_channel(session.token, channel), ..session };
        match command {
            CommandView::MakeCredential(parameters) => plan_make_credential(
                session,
                store,
                parameters,
                channel,
            ),
            CommandView::GetAssertion(parameters) => plan_get_assertion(
                session,
                store,
                parameters,
                channel,
            ),
            CommandView::ClientPin(parameters) => plan_client_pin::<E>(
                session,
                store,
                parameters,
                channel,
                fresh,
            ),
            CommandView::AuthenticatorConfig(parameters) => plan_config(
                session,
                store,
                parameters,
                channel,
            ),
            CommandView::CredentialManagement(parameters) => plan_credential_management(
                session,
                store,
                parameters,
                channel,
            ),
            CommandView::Reset => suspend(session, channel, PendingView::Reset),
        }
    }
}

/// Where a command that arrives on a channel leaves a device, given the
/// fresh secret that the device draws for it.
pub open spec fn process<E: Env>(
    session: SessionView,
    env: E,
    command: CommandView,
    channel: Channel,
    fresh: Seq<u8>,
) -> Outcome {
    let planned = plan::<E>(session, env.store(), command, channel, fresh);
    settle(planned, env.store(), env.accepts(planned.batch))
}

/// The plan for the end of a wait for the user.
///
/// The transaction lock is released however the wait ended.  A wait that
/// timed out or was cancelled fails the operation, and a cancelled one
/// withdraws the token as well.  A confirmed creation stores the credential
/// under a fresh identifier with a fresh private key; a confirmed assertion
/// reports the credential.  For a confirmed reset the plan gives the session
/// and the payload of a reset that goes through; the erasing itself is
/// several writes (see [`crate::persist::factory_reset`]).
pub open spec fn plan_resume(
    session: SessionView,
    presence: UserPresence,
    fresh_id: Seq<u8>,
    fresh_key: Seq<u8>,
) -> Plan {
    match session.pending {
        None => reject(session, CtapError::InvalidCommand),
        Some(lock) => {
            let idle = SessionView { pending: None, ..session };
            match presence {
                UserPresence::TimedOut => reject(idle, CtapError::Timeout),
                UserPresence::Cancelled => reject(
                    SessionView { token: None, ..idle },
                    CtapError::Cancelled,
                ),
                UserPresence::Confirmed => match lock.operation {
                    PendingView::MakeCredential { rp_id, user_handle, attestation } => Plan {
                        session: idle,
                        batch: seq![
                            UpdateView::PutCredential(
                                CredentialView {
                                    id: fresh_id,
                                    rp_id,
                                    user_handle,
                                    private_key: fresh_key,
                                },
                            ),
                        ],
                        mint: None,
                        result: Ok(
                            ReplyView::Done(
                                ResponseView::MakeCredential {
                                    credential_id: fresh_id,
                                    attestation,
                                },
                            ),
                        ),
                    },
                    PendingView::GetAssertion { credential_id, user_handle } => done(
                        idle,
                        ResponseView::GetAssertion { credential_id, user_handle },
                    ),
                    PendingView::Reset => done(
                        SessionView { token: None, ..idle },
                        ResponseView::Reset,
                    ),
                },
            }
        },
    }
}

/// Whether the end of a wait sets a factory reset off.
pub open spec fn resets(session: SessionView, presence: UserPresence) -> bool {
    session.pending matches Some(lock) && lock.operation is Reset && presence
        == UserPresence::Confirmed
}

/// Where the end of a wait for the user leaves a device, for every wait but
/// one that sets a factory reset off.
pub open spec fn resume<E: Env>(
    session: SessionView,
    env: E,
    presence: UserPresence,
    fresh_id: Seq<u8>,
    fresh_key: Seq<u8>,
) -> Outcome {
    let planned = plan_resume(session, presence, fresh_id, fresh_key);
    settle(planned, env.store(), env.accepts(planned.batch))
}

/// The session after a cancel directive for `channel`: it ends the wait of
/// that channel and withdraws the token, and does nothing to another's.
pub open spec fn cancelled(session: SessionView, channel: Channel) -> SessionView {
    match session.pending {
        Some(lock) if lock.channel == channel => SessionView {
            token: None,
            pending: None,
            ..session
        },
        _ => session,
    }
}

/// The view of a payload that completes a command.
pub open spec fn done_view(outcome: CtapResult<ResponseData>) -> Result<ReplyView, CtapError> {
    match outcome {
        Ok(response) => Ok(ReplyView::Done(response@)),
        Err(error) => Err(error),
    }
}

/// What a handler hands to the one place that writes.
struct Step {
    batch: Vec<Update>,
    mint: Option<Token>,
    result: CtapResult<Reply>,
}

impl Step {
    spec fn plan(self, session: SessionView) -> Plan {
        Plan {
            session,
            batch: batch_view(self.batch@),
            mint: option_view(self.mint),
            result: result_view(self.result),
        }
    }

    fn reject(error: CtapError) -> (step: Step)
        ensures
            forall|session: SessionView| step.plan(session) == reject(session, error),
    {
        let step = Step { batch: Vec::new(), mint: None, result: Err(error) };
        assert(batch_view(step.batch@) =~= Seq::<UpdateView>::empty());
        step
    }

    fn done(response: ResponseData) -> (step: Step)
        ensures
            forall|session: SessionView| step.plan(session) == done(session, response@),
    {
        let step = Step { batch: Vec::new(), mint: None, result: Ok(Reply::Done(response)) };
        assert(batch_view(step.batch@) =~= Seq::<UpdateView>::empty());
        step
    }

    fn waiting() -> (step: Step)
        ensures
            forall|session: SessionView| #[trigger]
                step.plan(session) == (Plan {
                    session,
                    batch: Seq::empty(),
                    mint: None,
                    result: Ok(ReplyView::UserPresenceNeeded),
                }),
    {
        let step = Step { batch: Vec::new(), mint: None, result: Ok(Reply::UserPresenceNeeded) };
        assert(batch_view(step.batch@) =~= Seq::<UpdateView>::empty());
        step
    }
}

fn pair(first: Update, second: Update) -> (batch: Vec<Update>)
    ensures
        batch_view(batch@) == seq![first@, second@],
{
    let mut batch: Vec<Update> = Vec::new();
    batch.push(first);
    batch.push(second);
    assert(batch_view(batch@) =~= seq![first@, second@]);
    batch
}

/// The state machine of one authenticator.
pub struct CtapState<E: Env> {
    customization: Customization,
    auth: PinUvAuth,
    pending: Option<Pending>,
    env: PhantomData<E>,
}

impl<E: Env> View for CtapState<E> {
    type V = SessionView;

    closed spec fn view(&self) -> SessionView {
        SessionView {
            customization: self.customization,
            token: self.auth@,
            pending: option_view(self.pending),
        }
    }
}

impl<E: Env> CtapState<E> {
    /// The state of a device that was just powered: no token is held and no
    /// operation waits.
    pub fn new(customization: Customization) -> (state: Self)
        ensures
            state@ == (SessionView { customization, token: None, pending: None }),
    {
        CtapState { customization, auth: PinUvAuth::new(), pending: None, env: PhantomData }
    }

    /// The state of a device that was just powered, on a store that may hold
    /// an unfinished factory reset.  Where no marker is set the environment
    /// is left as it is.  A reset whose marker is set is taken up again
    /// before any command is looked at, and goes on until the store is empty
    /// or the medium refuses a write; then the marker stays set for the next
    /// power-up or reset.
    pub fn power_up(customization: Customization, env: &mut E) -> (state: Self)
        ensures
            state@ == (SessionView { customization, token: None, pending: None }),
            !old(env).store().reset_in_progress ==> *final(env) == *old(env),
            old(env).store().reset_in_progress ==> old(env).store().reset_to(
                old(env).accepts(seq![UpdateView::SetResetInProgress(true)]),
                !final(env).store().reset_in_progress,
                final(env).store(),
            ),
            old(env).store().reset_in_progress && final(env).store().reset_in_progress && old(
                env,
            ).accepts(seq![UpdateView::SetResetInProgress(true)]) ==> reset_stopped::<E>(
                final(env).store(),
            ),
    {
        if env.reset_in_progress() {
            let _ = factory_reset(env);
        }
        CtapState { customization, auth: PinUvAuth::new(), pending: None, env: PhantomData }
    }

    /// The settings the device is built with.
    pub fn customization(&self) -> (customization: Customization)
        ensures
            customization == self@.customization,
    {
        self.customization
    }

    /// Whether a token is held.
    pub fn is_authorized(&self) -> (authorized: bool)
        ensures
            authorized == self@.token is Some,
    {
        self.auth.is_authorized()
    }

    /// The channel that holds the transaction lock, if one does.
    pub fn lock_holder(&self) -> (holder: Option<Channel>)
        ensures
            holder == (match self@.pending {
                Some(lock) => Some(lock.channel),
                None => None,
            }),
    {
        match &self.pending {
            Some(pending) => Some(pending.channel),
            None => None,
        }
    }

    fn plan_config(
        &mut self,
        env: &E,
        parameters: AuthenticatorConfigParameters,
        channel: Channel,
    ) -> (step: Step)
        requires
            old(self)@.pending is None,
        ensures
            step.plan(final(self)@) == plan_config(old(self)@, env.store(), parameters@, channel),
    {
        let pin = env.pin();
        let verdict = self.auth.authorize(
            &pin,
            &channel,
            Permission::AuthenticatorConfiguration,
            &parameters.pin_uv_auth_param,
            parameters.pin_uv_auth_protocol,
            false,
        );
        if let Err(error) = verdict {
            return Step::reject(error);
        }
        if !self.customization.enterprise_attestation {
            return Step::reject(CtapError::FeatureDisabled);
        }
        match parameters.sub_command_params {
            Some(ConfigSubCommandParams::EnterpriseAttestation(attestation)) => {
                if !attestation.has_valid_key() {
                    return Step::reject(CtapError::InvalidCommand);
                }
                Step {
                    batch: pair(
                        Update::SetAttestation {
                            id: AttestationId::Enterprise,
                            attestation: Some(attestation),
                        },
                        Update::SetEnterpriseAttestation(true),
                    ),
                    mint: None,
                    result: Ok(Reply::Done(ResponseData::AuthenticatorConfig)),
                }
            },
            None => {
                if env.get_attestation(AttestationId::Enterprise).is_none() {
                    return Step::reject(CtapError::InvalidCommand);
                }
                Step {
                    batch: single(Update::SetEnterpriseAttestation(true)),
                    mint: None,
                    result: Ok(Reply::Done(ResponseData::AuthenticatorConfig)),
                }
            },
        }
    }

    fn plan_client_pin(
        &mut self,
        env: &E,
        parameters: ClientPinParameters,
        channel: Channel,
        fresh: Secret,
    ) -> (step: Step)
        requires
            old(self)@.pending is None,
        ensures
            step.plan(final(self)@) == plan_client_pin::<E>(
                old(self)@,
                env.store(),
                parameters@,
                channel,
                fresh@,
            ),
    {
        let max_retries = self.customization.max_pin_retries;
        let stored = env.pin();
        match parameters.sub_command {
            ClientPinSubCommand::GetPinRetries => {
                let retries = match &stored {
                    Some(record) => record.retries,
                    None => max_retries,
                };
                Step::done(ResponseData::PinRetries(retries))
            },
            ClientPinSubCommand::SetPin => {
                let new_pin = match (&stored, parameters.new_pin) {
                    (None, Some(new_pin)) => new_pin,
                    _ => {
                        return Step::reject(CtapError::InvalidCommand);
                    },
                };
                self.auth.invalidate();
                let record = Self::new_pin_record(env, max_retries, &new_pin, &fresh);
                Step {
                    batch: single(Update::SetPin(Some(record))),
                    mint: None,
                    result: Ok(Reply::Done(ResponseData::PinSet)),
                }
            },
            ClientPinSubCommand::ChangePin => {
                let record = match stored {
                    None => {
                        return Step::reject(CtapError::InvalidCommand);
                    },
                    Some(record) => record,
                };
                if record.retries == 0 {
                    self.auth.invalidate();
                    return Step::reject(CtapError::PinBlocked);
                }
                let (pin, new_pin) = match (parameters.pin, parameters.new_pin) {
                    (Some(pin), Some(new_pin)) => (pin, new_pin),
                    _ => {
                        return Step::reject(CtapError::InvalidCommand);
                    },
                };
                let presented = env.hash_pin(&record.salt, &pin);
                let (matched, updated) = verify(&record, &presented, max_retries);
                self.auth.invalidate();
                if matched {
                    let replaced = Self::new_pin_record(env, max_retries, &new_pin, &fresh);
                    Step {
                        batch: single(Update::SetPin(Some(replaced))),
                        mint: None,
                        result: Ok(Reply::Done(ResponseData::PinSet)),
                    }
                } else {
                    let error = failure_of(updated.retries);
                    Step {
                        batch: single(Update::SetPin(Some(updated))),
                        mint: None,
                        result: Err(error),
                    }
                }
            },
            ClientPinSubCommand::GetPinToken => {
                let record = match stored {
                    None => {
                        return Step::reject(CtapError::InvalidCommand);
                    },
                    Some(record) => record,
                };
                if record.retries == 0 {
                    self.auth.invalidate();
                    return Step::reject(CtapError::PinBlocked);
                }
                let (pin, scope) = match (parameters.pin, parameters.permissions) {
                    (Some(pin), Some(scope)) => (pin, scope),
                    _ => {
                        return Step::reject(CtapError::InvalidCommand);
                    },
                };
                if scope.is_empty() {
                    return Step::reject(CtapError::InvalidCommand);
                }
                let presented = env.hash_pin(&record.salt, &pin);
                let (matched, updated) = verify(&record, &presented, max_retries);
                self.auth.invalidate();
                if matched {
                    let token = Token {
                        value: fresh.duplicate(),
                        channel,
                        protocol: parameters.pin_uv_auth_protocol,
                        scope,
                        uses_left: self.customization.token_window,
                    };
                    Step {
                        batch: single(Update::SetPin(Some(updated))),
                        mint: Some(token),
                        result: Ok(Reply::Done(ResponseData::PinToken(fresh))),
                    }
                } else {
                    let error = failure_of(updated.retries);
                    Step {
                        batch: single(Update::SetPin(Some(updated))),
                        mint: None,
                        result: Err(error),
                    }
                }
            },
        }
    }

    fn new_pin_record(env: &E, max_retries: u8, new_pin: &Secret, fresh: &Secret) -> (record:
        PinRecord)
        ensures
            record@ == (PinView {
                hash: E::pin_hash(fresh@, new_pin@),
                salt: fresh@,
                retries: max_retries,
            }),
    {
        let salt = copy_bytes(fresh.expose());
        let hash = env.hash_pin(&salt, new_pin);
        PinRecord { hash, salt, retries: max_retries }
    }

    fn plan_make_credential(
        &mut self,
        env: &E,
        parameters: MakeCredentialParameters,
        channel: Channel,
    ) -> (step: Step)
        requires
            old(self)@.pending is None,
        ensures
            step.plan(final(self)@) == plan_make_credential(
                old(self)@,
                env.store(),
                parameters@,
                channel,
            ),
    {
        let pin = env.pin();
        let verdict = self.auth.authorize(
            &pin,
            &channel,
            Permission::MakeCredential,
            &parameters.pin_uv_auth_param,
            parameters.pin_uv_auth_protocol,
            true,
        );
        if let Err(error) = verdict {
            return Step::reject(error);
        }
        let attestation = if parameters.enterprise_attestation {
            if !env.enterprise_attestation_enabled() || env.get_attestation(
                AttestationId::Enterprise,
            ).is_none() {
                return Step::reject(CtapError::FeatureDisabled);
            }
            Some(AttestationId::Enterprise)
        } else if env.get_attestation(AttestationId::Batch).is_some() {
            Some(AttestationId::Batch)
        } else {
            None
        };
        self.pending = Some(
            Pending {
                channel,
                operation: PendingOperation::MakeCredential {
                    rp_id: parameters.rp_id,
                    user_handle: parameters.user_handle,
                    attestation,
                },
            },
        );
        Step::waiting()
    }

    fn plan_get_assertion(
        &mut self,
        env: &E,
        parameters: GetAssertionParameters,
        channel: Channel,
    ) -> (step: Step)
        requires
            old(self)@.pending is None,
        ensures
            step.plan(final(self)@) == plan_get_assertion(
                old(self)@,
                env.store(),
                parameters@,
                channel,
            ),
    {
        let pin = env.pin();
        let verdict = self.auth.authorize(
            &pin,
            &channel,
            Permission::GetAssertion,
            &parameters.pin_uv_auth_param,
            parameters.pin_uv_auth_protocol,
            true,
        );
        if let Err(error) = verdict {
            return Step::reject(error);
        }
        let credential = match find_credential(env, &parameters.credential_id) {
            Some(credential) => credential,
            None => {
                return Step::reject(CtapError::InvalidCommand);
            },
        };
        if !bytes_equal(&credential.rp_id, &parameters.rp_id) {
            return Step::reject(CtapError::InvalidCommand);
        }
        self.pending = Some(
            Pending {
                channel,
                operation: PendingOperation::GetAssertion {
                    credential_id: parameters.credential_id,
                    user_handle: copy_bytes(&credential.user_handle),
                },
            },
        );
        Step::waiting()
    }

    fn plan_credential_management(
        &mut self,
        env: &E,
        parameters: CredentialManagementParameters,
        channel: Channel,
    ) -> (step: Step)
        requires
            old(self)@.pending is None,
        ensures
            step.plan(final(self)@) == plan_credential_management(
                old(self)@,
                env.store(),
                parameters@,
                channel,
            ),
    {
        let pin = env.pin();
        let verdict = self.auth.authorize(
            &pin,
            &channel,
            Permission::CredentialManagement,
            &parameters.pin_uv_auth_param,
            parameters.pin_uv_auth_protocol,
            false,
        );
        if let Err(error) = verdict {
            return Step::reject(error);
        }
        let total = env.credential_count();
        match parameters.sub_command {
            CredentialManagementSubCommand::GetCredsMetadata => Step::done(
                ResponseData::CredentialsMetadata { existing: total },
            ),
            CredentialManagementSubCommand::EnumerateCredential => {
                let index = match parameters.index {
                    Some(index) => index,
                    None => {
                        return Step::reject(CtapError::InvalidCommand);
                    },
                };
                if index >= total {
                    return Step::reject(CtapError::InvalidCommand);
                }
                let credential = env.credential_at(index);
                Step::done(
                    ResponseData::CredentialSummary {
                        credential_id: copy_bytes(&credential.id),
                        rp_id: copy_bytes(&credential.rp_id),
                        user_handle: copy_bytes(&credential.user_handle),
                        total,
                    },
                )
            },
            CredentialManagementSubCommand::DeleteCredential => {
                let id = match parameters.credential_id {
                    Some(id) => id,
                    None => {
                        return Step::reject(CtapError::InvalidCommand);
                    },
                };
                if find_credential(env, &id).is_none() {
                    return Step::reject(CtapError::InvalidCommand);
                }
                Step {
                    batch: single(Update::DeleteCredential(id)),
                    mint: None,
                    result: Ok(Reply::Done(ResponseData::CredentialDeleted)),
                }
            },
        }
    }

    /// Makes the one write of a plan and reports its outcome.
    fn settle(&mut self, env: &mut E, step: Step) -> (outcome: CtapResult<Reply>)
        ensures
            (Outcome {
                session: final(self)@,
                store: final(env).store(),
                result: result_view(outcome),
            }) == settle(
                step.plan(old(self)@),
                old(env).store(),
                old(env).accepts(batch_view(step.batch@)),
            ),
            step.batch@.len() == 0 ==> *final(env) == *old(env),
    {
        let Step { batch, mint, result } = step;
        if batch.len() == 0 {
            return result;
        }
        match env.commit(&batch) {
            Err(_) => Err(CtapError::StorageFailure),
            Ok(()) => {
                if let Some(token) = mint {
                    self.auth.install(token);
                }
                result
            },
        }
    }

    /// Handles one parsed command that arrived on `channel`.
    ///
    /// The command is consumed, and the result is its one outcome: a reply
    /// or an error.  The device ends where [`process`] says, for the fresh
    /// secret that was drawn.  A command whose plan writes nothing leaves
    /// the environment as it was.
    pub fn process_parsed_command(&mut self, env: &mut E, command: Command, channel: Channel) -> (outcome:
        CtapResult<Reply>)
        ensures
            exists|fresh: Seq<u8>|
                {
                    &&& fresh.len() == FRESH_SECRET_LENGTH
                    &&& (Outcome {
                        session: final(self)@,
                        store: final(env).store(),
                        result: result_view(outcome),
                    }) == #[trigger] process::<E>(old(self)@, *old(env), command@, channel, fresh)
                    &&& plan::<E>(
                        old(self)@,
                        old(env).store(),
                        command@,
                        channel,
                        fresh,
                    ).batch.len() == 0 ==> *final(env) == *old(env)
                },
    {
        let ghost mut fresh = zeros(FRESH_SECRET_LENGTH as nat);
        let busy = match &self.pending {
            Some(pending) => !pending.channel.same(&channel),
            None => false,
        };
        if busy {
            assert((Outcome {
                session: self@,
                store: env.store(),
                result: result_view::<Reply>(Err(CtapError::ChannelBusy)),
            }) == process::<E>(old(self)@, *old(env), command@, channel, fresh));
            return Err(CtapError::ChannelBusy);
        }
        let _ = self.cancel(channel);
        self.auth.note_channel(&channel);
        let step = match command {
            Command::MakeCredential(parameters) => self.plan_make_credential(
                env,
                parameters,
                channel,
            ),
            Command::GetAssertion(parameters) => self.plan_get_assertion(env, parameters, channel),
            Command::ClientPin(parameters) => {
                let drawn = env.generate_secret();
                proof {
                    fresh = drawn@;
                }
                self.plan_client_pin(env, parameters, channel, drawn)
            },
            Command::AuthenticatorConfig(parameters) => self.plan_config(env, parameters, channel),
            Command::CredentialManagement(parameters) => self.plan_credential_management(
                env,
                parameters,
                channel,
            ),
            Command::Reset => {
                self.pending = Some(Pending { channel, operation: PendingOperation::Reset });
                Step::waiting()
            },
        };
        assert(step.plan(self@) == plan::<E>(old(self)@, old(env).store(), command@, channel, fresh));
        let outcome = self.settle(env, step);
        assert((Outcome {
            session: self@,
            store: env.store(),
            result: result_view(outcome),
        }) == process::<E>(old(self)@, *old(env), command@, channel, fresh));
        outcome
    }

    /// Ends the wait for the user of the operation that holds the
    /// transaction lock.
    ///
    /// The lock is released however the wait ended.  A confirmed reset
    /// erases the device as [`factory_reset`] does: it ends with the store
    /// empty, or, at the first write that the medium refuses, with a storage
    /// failure and the store as it was or partly erased with the reset
    /// marker set.  Every other wait leaves the device where [`resume`]
    /// says, for the fresh secrets that were drawn, and leaves the
    /// environment as it was where its plan writes nothing.
    pub fn complete_user_presence(&mut self, env: &mut E, presence: UserPresence) -> (outcome:
        CtapResult<ResponseData>)
        ensures
            resets(old(self)@, presence) ==> {
                &&& final(self)@ == plan_resume(old(self)@, presence, seq![], seq![]).session
                &&& outcome is Ok ==> done_view(outcome) == plan_resume(
                    old(self)@,
                    presence,
                    seq![],
                    seq![],
                ).result
                &&& outcome is Err ==> outcome == Err::<ResponseData, CtapError>(
                    CtapError::StorageFailure,
                )
                &&& old(env).store().reset_to(
                    old(env).accepts(seq![UpdateView::SetResetInProgress(true)]),
                    outcome is Ok,
                    final(env).store(),
                )
                &&& outcome is Err && old(env).accepts(
                    seq![UpdateView::SetResetInProgress(true)],
                ) ==> reset_stopped::<E>(final(env).store())
            },
            !resets(old(self)@, presence) ==> exists|fresh_id: Seq<u8>, fresh_key: Seq<u8>|
                {
                    &&& fresh_id.len() == FRESH_SECRET_LENGTH
                    &&& fresh_key.len() == FRESH_SECRET_LENGTH
                    &&& (Outcome {
                        session: final(self)@,
                        store: final(env).store(),
                        result: done_view(outcome),
                    }) == #[trigger] resume::<E>(
                        old(self)@,
                        *old(env),
                        presence,
                        fresh_id,
                        fresh_key,
                    )
                    &&& plan_resume(old(self)@, presence, fresh_id, fresh_key).batch.len() == 0
                        ==> *final(env) == *old(env)
                },
    {
        let ghost fresh = zeros(FRESH_SECRET_LENGTH as nat);
        let mut held: Option<Pending> = None;
        core::mem::swap(&mut self.pending, &mut held);
        let pending = match held {
            None => {
                assert((Outcome {
                    session: self@,
                    store: env.store(),
                    result: done_view(Err(CtapError::InvalidCommand)),
                }) == resume::<E>(old(self)@, *old(env), presence, fresh, fresh));
                return Err(CtapError::InvalidCommand);
            },
            Some(pending) => pending,
        };
        match presence {
            UserPresence::TimedOut => {
                assert((Outcome {
                    session: self@,
                    store: env.store(),
                    result: done_view(Err(CtapError::Timeout)),
                }) == resume::<E>(old(self)@, *old(env), presence, fresh, fresh));
                return Err(CtapError::Timeout);
            },
            UserPresence::Cancelled => {
                self.auth.invalidate();
                assert((Outcome {
                    session: self@,
                    store: env.store(),
                    result: done_view(Err(CtapError::Cancelled)),
                }) == resume::<E>(old(self)@, *old(env), presence, fresh, fresh));
                return Err(CtapError::Cancelled);
            },
            UserPresence::Confirmed => {},
        }
        match pending.operation {
            PendingOperation::MakeCredential { rp_id, user_handle, attestation } => {
                let id = env.generate_secret();
                let private_key = env.generate_secret();
                let credential_id = copy_bytes(id.expose());
                let credential = Credential {
                    id: copy_bytes(id.expose()),
                    rp_id,
                    user_handle,
                    private_key,
                };
                let step = Step {
                    batch: single(Update::PutCredential(credential)),
                    mint: None,
                    result: Ok(
                        Reply::Done(ResponseData::MakeCredential { credential_id, attestation }),
                    ),
                };
                assert(step.plan(self@) == plan_resume(
                    old(self)@,
                    presence,
                    id@,
                    credential.private_key@,
                ));
                let outcome = match self.settle(env, step) {
                    Ok(Reply::Done(response)) => Ok(response),
                    Ok(Reply::UserPresenceNeeded) => Err(CtapError::InvalidCommand),
                    Err(error) => Err(error),
                };
                assert((Outcome {
                    session: self@,
                    store: env.store(),
                    result: done_view(outcome),
                }) == resume::<E>(old(self)@, *old(env), presence, id@, credential.private_key@));
                outcome
            },
            PendingOperation::GetAssertion { credential_id, user_handle } => {
                let outcome = Ok(ResponseData::GetAssertion { credential_id, user_handle });
                assert((Outcome {
                    session: self@,
                    store: env.store(),
                    result: done_view(outcome),
                }) == resume::<E>(old(self)@, *old(env), presence, fresh, fresh));
                outcome
            },
            PendingOperation::Reset => {
                self.auth.invalidate();
                match factory_reset(env) {
                    Ok(()) => Ok(ResponseData::Reset),
                    Err(error) => Err(error),
                }
            },
        }
    }

    /// Handles a cancel directive that arrived on `channel`.
    ///
    /// A directive for the channel that holds the transaction lock ends the
    /// wait, withdraws the token and gives the error that the operation
    /// fails with.  One for another channel does nothing.
    pub fn cancel(&mut self, channel: Channel) -> (aborted: Option<CtapError>)
        ensures
            final(self)@ == cancelled(old(self)@, channel),
            aborted == (match old(self)@.pending {
                Some(lock) if lock.channel == channel => Some(CtapError::Cancelled),
                _ => None,
            }),
    {
        let holds = match &self.pending {
            Some(pending) => pending.channel.same(&channel),
            None => false,
        };
        if holds {
            self.pending = None;
            self.auth.invalidate();
            Some(CtapError::Cancelled)
        } else {
            None
        }
    }
}

} // verus!
