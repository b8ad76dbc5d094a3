//! What holds of the state machine on every input: the laws that its users
//! rely on, stated over the models of the other modules and proved from
//! them.

use crate::channel::Channel;
use crate::command::{
    AuthenticatorConfigView, ClientPinSubCommand, ClientPinView, CommandView,
    ConfigSubCommandParamsView, ReplyView, ResponseView, UserPresence,
};
use crate::ctap::{
    cancelled, fenced, plan, plan_resume, process, resume, settle, Outcome, SessionView,
};
use crate::env::Env;
use crate::persist::{
    lemma_apply_pair, lemma_apply_single, AttestationId, AttestationView, Persist, PinView,
    StoreModel, UpdateView,
};
use crate::pin::{attempt, failure, gate, on_channel, Permission, Scope, TokenView};
use crate::status::CtapError;
use vstd::prelude::*;

verus! {

/// The category of commands that a command belongs to, where it is gated
/// by the PIN.
pub open spec fn required_permission(command: CommandView) -> Option<Permission> {
    match command {
        CommandView::MakeCredential(_) => Some(Permission::MakeCredential),
        CommandView::GetAssertion(_) => Some(Permission::GetAssertion),
        CommandView::AuthenticatorConfig(_) => Some(Permission::AuthenticatorConfiguration),
        CommandView::CredentialManagement(_) => Some(Permission::CredentialManagement),
        CommandView::ClientPin(_) => None,
        CommandView::Reset => None,
    }
}

/// The token that a command presents.
pub open spec fn presented_token(command: CommandView) -> Option<Seq<u8>> {
    match command {
        CommandView::MakeCredential(parameters) => parameters.pin_uv_auth_param,
        CommandView::GetAssertion(parameters) => parameters.pin_uv_auth_param,
        CommandView::AuthenticatorConfig(parameters) => parameters.pin_uv_auth_param,
        CommandView::CredentialManagement(parameters) => parameters.pin_uv_auth_param,
        CommandView::ClientPin(_) => None,
        CommandView::Reset => None,
    }
}

/// Whether the retry counter of the device is exhausted.
pub open spec fn locked(store: StoreModel) -> bool {
    store.pin is Some && store.pin->0.retries == 0
}

/// The token that is held when a command that arrived on `channel` is
/// looked at: the held one, unless the command ended a wait on its channel
/// or the token was minted on another channel.
pub open spec fn token_on_arrival(session: SessionView, channel: Channel) -> Option<TokenView> {
    on_channel(cancelled(session, channel).token, channel)
}

/// Atomic provisioning, on success: a command that enables enterprise
/// attestation with a key pair and certificate, and that succeeds, leaves
/// exactly that key pair and certificate as the enterprise attestation,
/// sets the enabled flag, and changes nothing else.
pub proof fn law_provisioning_stores_the_attestation<E: Env>(
    session: SessionView,
    env: E,
    parameters: AuthenticatorConfigView,
    channel: Channel,
    fresh: Seq<u8>,
    attestation: AttestationView,
)
    requires
        parameters.sub_command_params == Some(
            ConfigSubCommandParamsView::EnterpriseAttestation(attestation),
        ),
        process::<E>(
            session,
            env,
            CommandView::AuthenticatorConfig(parameters),
            channel,
            fresh,
        ).result is Ok,
    ensures
        ({
            let after = process::<E>(
                session,
                env,
                CommandView::AuthenticatorConfig(parameters),
                channel,
                fresh,
            );
            &&& after.store.attestation(AttestationId::Enterprise) == Some(attestation)
            &&& after.store.enterprise_attestation_enabled
            &&& after.store == (StoreModel {
                enterprise_attestation: Some(attestation),
                enterprise_attestation_enabled: true,
                ..env.store()
            })
            &&& after.result == Ok::<ReplyView, CtapError>(
                ReplyView::Done(ResponseView::AuthenticatorConfig),
            )
        }),
{
    let first = UpdateView::SetAttestation {
        id: AttestationId::Enterprise,
        attestation: Some(attestation),
    };
    let second = UpdateView::SetEnterpriseAttestation(true);
    lemma_apply_pair(env.store(), first, second);
}

/// Atomic provisioning, with the feature off: on a device that is not
/// built for enterprise attestation the command fails and the store stays
/// as it was.  The failure is `FeatureDisabled` wherever the checks that
/// come first let the command through: no other channel holds the
/// transaction lock, and the command is authorized.
pub proof fn law_provisioning_needs_the_feature<E: Env>(
    session: SessionView,
    env: E,
    parameters: AuthenticatorConfigView,
    channel: Channel,
    fresh: Seq<u8>,
)
    requires
        !session.customization.enterprise_attestation,
    ensures
        ({
            let after = process::<E>(
                session,
                env,
                CommandView::AuthenticatorConfig(parameters),
                channel,
                fresh,
            );
            &&& after.result is Err
            &&& after.store == env.store()
            &&& (!fenced(session, channel) && gate(
                token_on_arrival(session, channel),
                env.store().pin,
                channel,
                Permission::AuthenticatorConfiguration,
                parameters.pin_uv_auth_param,
                parameters.pin_uv_auth_protocol,
                false,
            ).verdict is Ok) ==> after.result == Err::<ReplyView, CtapError>(
                CtapError::FeatureDisabled,
            )
        }),
{
}

/// The PIN record after a run of verifications, each with one of the
/// presented hashes.
pub open spec fn after_attempts(record: PinView, presented: Seq<Seq<u8>>, max_retries: u8) -> PinView
    decreases presented.len(),
{
    if presented.len() == 0 {
        record
    } else {
        attempt(
            after_attempts(record, presented.drop_last(), max_retries),
            presented.last(),
            max_retries,
        ).record
    }
}

/// Retry monotonicity of a run: consecutive failed verifications, no more
/// than there are attempts, take one attempt away each; the hash and the
/// salt stay.  The failure that uses up the last attempt reports
/// `PinBlocked`, and each failure before it `AuthorizationInvalid`.
pub proof fn law_failures_count_down(record: PinView, presented: Seq<Seq<u8>>, max_retries: u8)
    requires
        presented.len() <= record.retries,
        forall|i: int| 0 <= i < presented.len() ==> presented[i] != record.hash,
    ensures
        after_attempts(record, presented, max_retries) == (PinView {
            retries: (record.retries - presented.len()) as u8,
            ..record
        }),
        presented.len() > 0 ==> {
            let before = after_attempts(record, presented.drop_last(), max_retries);
            let last = attempt(before, presented.last(), max_retries);
            &&& !last.matched
            &&& last.record.retries == before.retries - 1
            &&& failure(last.record.retries) == (if presented.len() == record.retries {
                CtapError::PinBlocked
            } else {
                CtapError::AuthorizationInvalid
            })
        },
    decreases presented.len(),
{
    if presented.len() > 0 {
        let earlier = presented.drop_last();
        assert forall|i: int| 0 <= i < earlier.len() implies earlier[i] != record.hash by {
            assert(earlier[i] == presented[i]);
        }
        law_failures_count_down(record, earlier, max_retries);
    }
}

/// Retry monotonicity, on success: a verification that matches restores
/// the full budget, however many attempts were left.
pub proof fn law_match_restores_the_budget(record: PinView, max_retries: u8)
    ensures
        attempt(record, record.hash, max_retries).matched,
        attempt(record, record.hash, max_retries).record == (PinView {
            retries: max_retries,
            ..record
        }),
{
}

/// Whether a PIN command verifies the presented PIN: it asks for a token or
/// changes the PIN, and carries what that takes.
pub open spec fn verifies(parameters: ClientPinView) -> bool {
    match parameters.sub_command {
        ClientPinSubCommand::GetPinToken => parameters.pin is Some && parameters.permissions
            is Some && !parameters.permissions->0.is_empty(),
        ClientPinSubCommand::ChangePin => parameters.pin is Some && parameters.new_pin is Some,
        _ => false,
    }
}

/// Retry monotonicity of the dispatcher: a command that verifies a wrong
/// PIN on a device with attempts left writes the counter, one lower,
/// before it reports the failure; the failure is `PinBlocked` where that
/// was the last attempt and `AuthorizationInvalid` else, and no token is
/// held after it.  Where the medium refuses the write, the command reports
/// a storage failure in place of the verdict and the store stays as it was.
pub proof fn law_wrong_pin_is_counted<E: Env>(
    session: SessionView,
    env: E,
    parameters: ClientPinView,
    channel: Channel,
    fresh: Seq<u8>,
    record: PinView,
)
    requires
        !fenced(session, channel),
        env.store().pin == Some(record),
        record.retries > 0,
        verifies(parameters),
        E::pin_hash(record.salt, parameters.pin->0) != record.hash,
    ensures
        ({
            let after = process::<E>(
                session,
                env,
                CommandView::ClientPin(parameters),
                channel,
                fresh,
            );
            let counted = PinView { retries: (record.retries - 1) as u8, ..record };
            &&& after.session.token is None
            &&& env.accepts(seq![UpdateView::SetPin(Some(counted))]) ==> {
                &&& after.store == (StoreModel { pin: Some(counted), ..env.store() })
                &&& after.result == Err::<ReplyView, CtapError>(
                    if record.retries == 1 {
                        CtapError::PinBlocked
                    } else {
                        CtapError::AuthorizationInvalid
                    },
                )
            }
            &&& !env.accepts(seq![UpdateView::SetPin(Some(counted))]) ==> {
                &&& after.store == env.store()
                &&& after.result == Err::<ReplyView, CtapError>(CtapError::StorageFailure)
            }
        }),
{
    let counted = PinView { retries: (record.retries - 1) as u8, ..record };
    lemma_apply_single(env.store(), UpdateView::SetPin(Some(counted)));
}

/// A command as it arrives: on a channel, with the fresh secret that the
/// device draws for it.
pub struct Arrival {
    pub command: CommandView,
    pub channel: Channel,
    pub fresh: Seq<u8>,
}

/// Where one command leaves a device whose medium takes the write.
pub open spec fn step<E: Env>(session: SessionView, store: StoreModel, arrival: Arrival) -> Outcome {
    settle(
        plan::<E>(session, store, arrival.command, arrival.channel, arrival.fresh),
        store,
        true,
    )
}

/// Where a run of commands, one after the other, leaves a device whose
/// medium takes every write.  The result is that of the last command.
pub open spec fn run<E: Env>(session: SessionView, store: StoreModel, arrivals: Seq<Arrival>) -> Outcome
    decreases arrivals.len(),
{
    if arrivals.len() == 0 {
        Outcome { session, store, result: Ok(ReplyView::UserPresenceNeeded) }
    } else {
        let before = run::<E>(session, store, arrivals.drop_last());
        step::<E>(before.session, before.store, arrivals.last())
    }
}

/// Whether a command verifies a PIN that is not the one of the record.
pub open spec fn presents_wrong_pin<E: Env>(arrival: Arrival, record: PinView) -> bool {
    &&& arrival.command is ClientPin
    &&& verifies(arrival.command->ClientPin_0)
    &&& E::pin_hash(record.salt, arrival.command->ClientPin_0.pin->0) != record.hash
}

/// Retry monotonicity of a run of commands: on a device whose lock does
/// not fence the first of them, a run of commands that each verify a wrong
/// PIN, no longer than there are attempts, takes one attempt away with each
/// command and changes nothing else in the store.  The command that uses up the last attempt
/// fails with `PinBlocked`, each one before it with `AuthorizationInvalid`,
/// and no token is held after any of them.  So a run of as many wrong PINs
/// as the full budget holds, after a PIN was set, ends blocked.
pub proof fn law_wrong_pins_run_down<E: Env>(
    session: SessionView,
    store: StoreModel,
    arrivals: Seq<Arrival>,
    record: PinView,
)
    requires
        arrivals.len() > 0 ==> !fenced(session, arrivals.first().channel),
        store.pin == Some(record),
        arrivals.len() <= record.retries,
        forall|i: int| 0 <= i < arrivals.len() ==> presents_wrong_pin::<E>(arrivals[i], record),
    ensures
        run::<E>(session, store, arrivals).store == (StoreModel {
            pin: Some(PinView { retries: (record.retries - arrivals.len()) as u8, ..record }),
            ..store
        }),
        arrivals.len() > 0 ==> {
            &&& run::<E>(session, store, arrivals).session.pending is None
            &&& run::<E>(session, store, arrivals).session.token is None
            &&& run::<E>(session, store, arrivals).result == Err::<ReplyView, CtapError>(
                if arrivals.len() == record.retries {
                    CtapError::PinBlocked
                } else {
                    CtapError::AuthorizationInvalid
                },
            )
        },
    decreases arrivals.len(),
{
    if arrivals.len() > 0 {
        let earlier = arrivals.drop_last();
        assert forall|i: int| 0 <= i < earlier.len() implies presents_wrong_pin::<E>(
            earlier[i],
            record,
        ) by {
            assert(earlier[i] == arrivals[i]);
        }
        if earlier.len() > 0 {
            assert(earlier.first() == arrivals.first());
        }
        law_wrong_pins_run_down::<E>(session, store, earlier, record);
        let before = run::<E>(session, store, earlier);
        let last = arrivals.last();
        assert(!fenced(before.session, last.channel));
        assert(presents_wrong_pin::<E>(last, record));
        let left = PinView { retries: (record.retries - earlier.len()) as u8, ..record };
        let counted = PinView { retries: (left.retries - 1) as u8, ..left };
        lemma_apply_single(before.store, UpdateView::SetPin(Some(counted)));
    }
}

/// Retry monotonicity of the dispatcher, on success: a request for a token
/// that presents the right PIN on a device with attempts left restores the
/// full budget, and holds the token it reports once that is written.
pub proof fn law_right_pin_restores_the_budget<E: Env>(
    session: SessionView,
    env: E,
    parameters: ClientPinView,
    channel: Channel,
    fresh: Seq<u8>,
    record: PinView,
)
    requires
        !fenced(session, channel),
        env.store().pin == Some(record),
        record.retries > 0,
        parameters.sub_command == ClientPinSubCommand::GetPinToken,
        verifies(parameters),
        E::pin_hash(record.salt, parameters.pin->0) == record.hash,
        env.accepts(
            seq![
                UpdateView::SetPin(
                    Some(PinView { retries: session.customization.max_pin_retries, ..record }),
                ),
            ],
        ),
    ensures
        ({
            let after = process::<E>(
                session,
                env,
                CommandView::ClientPin(parameters),
                channel,
                fresh,
            );
            &&& after.store == (StoreModel {
                pin: Some(PinView { retries: session.customization.max_pin_retries, ..record }),
                ..env.store()
            })
            &&& after.result == Ok::<ReplyView, CtapError>(
                ReplyView::Done(ResponseView::PinToken(fresh)),
            )
            &&& after.session.token == Some(
                TokenView {
                    value: fresh,
                    channel,
                    protocol: parameters.pin_uv_auth_protocol,
                    scope: parameters.permissions->0,
                    uses_left: session.customization.token_window,
                },
            )
        }),
{
    let restored = PinView { retries: session.customization.max_pin_retries, ..record };
    lemma_apply_single(env.store(), UpdateView::SetPin(Some(restored)));
}

/// The block is terminal: on a device whose retry counter is exhausted no
/// command changes the PIN record, and every command that is gated by the
/// PIN, and that the transaction lock lets through, fails with
/// `PinBlocked`.  Neither does the end of a wait change the
/// record, unless it sets a factory reset off, which alone lifts the block.
pub proof fn law_block_is_terminal<E: Env>(
    session: SessionView,
    env: E,
    command: CommandView,
    channel: Channel,
    fresh: Seq<u8>,
    presence: UserPresence,
    fresh_key: Seq<u8>,
)
    requires
        locked(env.store()),
    ensures
        process::<E>(session, env, command, channel, fresh).store.pin == env.store().pin,
        !fenced(session, channel) && required_permission(command) is Some ==> process::<E>(
            session,
            env,
            command,
            channel,
            fresh,
        ).result == Err::<ReplyView, CtapError>(CtapError::PinBlocked),
        resume::<E>(session, env, presence, fresh, fresh_key).store.pin == env.store().pin,
{
    let planned = plan::<E>(session, env.store(), command, channel, fresh);
    if planned.batch.len() == 1 {
        lemma_apply_single(env.store(), planned.batch[0]);
        assert(planned.batch =~= seq![planned.batch[0]]);
    }
    let resumed = plan_resume(session, presence, fresh, fresh_key);
    if resumed.batch.len() == 1 {
        lemma_apply_single(env.store(), resumed.batch[0]);
        assert(resumed.batch =~= seq![resumed.batch[0]]);
    }
}

/// Token scope enforcement: a command that presents a token for a category
/// that is not in the scope of the held token is rejected with
/// `AuthorizationInvalid`.  Nothing of the command is done: the store stays
/// as it was and no operation waits after it.  The token is withdrawn.
/// (A command that another channel's lock fences off is rejected as busy,
/// and a device whose retry counter is exhausted rejects with `PinBlocked`,
/// before the token is looked at.)
pub proof fn law_token_scope_is_enforced<E: Env>(
    session: SessionView,
    env: E,
    command: CommandView,
    channel: Channel,
    fresh: Seq<u8>,
    held: TokenView,
    permission: Permission,
)
    requires
        !fenced(session, channel),
        !locked(env.store()),
        session.token == Some(held),
        required_permission(command) == Some(permission),
        presented_token(command) is Some,
        !held.scope.permits(permission),
    ensures
        ({
            let after = process::<E>(session, env, command, channel, fresh);
            &&& after.result == Err::<ReplyView, CtapError>(CtapError::AuthorizationInvalid)
            &&& after.store == env.store()
            &&& after.session == (SessionView { token: None, pending: None, ..session })
        }),
{
}

/// Token scope enforcement, for scopes of one category: a token that was
/// minted for one category does not pass for another.
pub proof fn law_token_of_one_category<E: Env>(
    session: SessionView,
    env: E,
    command: CommandView,
    channel: Channel,
    fresh: Seq<u8>,
    held: TokenView,
    minted_for: Permission,
    needed: Permission,
)
    requires
        !fenced(session, channel),
        !locked(env.store()),
        session.token == Some(held),
        held.scope == Scope::only_spec(minted_for),
        required_permission(command) == Some(needed),
        presented_token(command) is Some,
        needed != minted_for,
    ensures
        process::<E>(session, env, command, channel, fresh).result == Err::<ReplyView, CtapError>(
            CtapError::AuthorizationInvalid,
        ),
        process::<E>(session, env, command, channel, fresh).store == env.store(),
{
    law_token_scope_is_enforced::<E>(session, env, command, channel, fresh, held, needed);
}

/// Channel fencing, while the lock is held: a command that arrives on
/// another channel than the one whose operation waits for the user is
/// rejected with `ChannelBusy`, and changes neither the session, the
/// operation that waits and its lock included, nor the store.
pub proof fn law_waiting_fences_commands<E: Env>(
    session: SessionView,
    env: E,
    command: CommandView,
    channel: Channel,
    fresh: Seq<u8>,
)
    requires
        session.pending is Some,
        session.pending->0.channel != channel,
    ensures
        process::<E>(session, env, command, channel, fresh).result == Err::<ReplyView, CtapError>(
            CtapError::ChannelBusy,
        ),
        process::<E>(session, env, command, channel, fresh).session == session,
        process::<E>(session, env, command, channel, fresh).store == env.store(),
{
}

/// Channel fencing, on the channel that holds the lock: a command on that
/// channel is not rejected as busy.  It ends the wait as a cancel directive
/// for the channel does, and is then handled as on the device that the
/// directive leaves.
pub proof fn law_own_channel_takes_the_place<E: Env>(
    session: SessionView,
    env: E,
    command: CommandView,
    channel: Channel,
    fresh: Seq<u8>,
)
    requires
        session.pending is Some,
        session.pending->0.channel == channel,
    ensures
        process::<E>(session, env, command, channel, fresh) == process::<E>(
            cancelled(session, channel),
            env,
            command,
            channel,
            fresh,
        ),
        cancelled(session, channel) == (SessionView { token: None, pending: None, ..session }),
        process::<E>(session, env, command, channel, fresh).result != Err::<ReplyView, CtapError>(
            CtapError::ChannelBusy,
        ),
{
}

/// Channel fencing, after the wait: however the wait for the user ends
/// (confirmed, timed out or cancelled), the lock is released; a wait that
/// timed out fails with `Timeout` and a cancelled one with `Cancelled`, and
/// neither writes.  A cancel directive releases the lock of its own channel
/// and leaves that of another alone.
pub proof fn law_wait_releases_the_lock<E: Env>(
    session: SessionView,
    env: E,
    presence: UserPresence,
    fresh_id: Seq<u8>,
    fresh_key: Seq<u8>,
    channel: Channel,
)
    ensures
        plan_resume(session, presence, fresh_id, fresh_key).session.pending is None,
        resume::<E>(session, env, presence, fresh_id, fresh_key).session.pending is None,
        session.pending is Some && presence == UserPresence::TimedOut ==> {
            &&& resume::<E>(session, env, presence, fresh_id, fresh_key).result == Err::<
                ReplyView,
                CtapError,
            >(CtapError::Timeout)
            &&& resume::<E>(session, env, presence, fresh_id, fresh_key).store == env.store()
        },
        session.pending is Some && presence == UserPresence::Cancelled ==> {
            &&& resume::<E>(session, env, presence, fresh_id, fresh_key).result == Err::<
                ReplyView,
                CtapError,
            >(CtapError::Cancelled)
            &&& resume::<E>(session, env, presence, fresh_id, fresh_key).store == env.store()
        },
        session.pending is Some ==> (cancelled(session, channel).pending is None
            <==> session.pending->0.channel == channel),
{
}

/// Channel fencing, exactly: a command is rejected with `ChannelBusy` if and
/// only if an operation waits for the user and another channel than that of
/// the command holds the lock.  So once the wait has ended, by completion,
/// timeout or cancellation, a command on any channel proceeds.
pub proof fn law_busy_means_another_channel<E: Env>(
    session: SessionView,
    env: E,
    command: CommandView,
    channel: Channel,
    fresh: Seq<u8>,
)
    ensures
        process::<E>(session, env, command, channel, fresh).result == Err::<ReplyView, CtapError>(
            CtapError::ChannelBusy,
        ) <==> fenced(session, channel),
{
}

/// One write per command: a command leaves the store as it was, or as the
/// one batch of its plan makes it; and it leaves it as it was whenever the
/// medium refuses that batch.
pub proof fn law_one_atomic_write<E: Env>(
    session: SessionView,
    env: E,
    command: CommandView,
    channel: Channel,
    fresh: Seq<u8>,
)
    ensures
        ({
            let planned = plan::<E>(session, env.store(), command, channel, fresh);
            let after = process::<E>(session, env, command, channel, fresh);
            &&& after.store == env.store() || after.store == env.store().apply_all(planned.batch)
            &&& !env.accepts(planned.batch) ==> after.store == env.store()
            &&& after.result == Err::<ReplyView, CtapError>(CtapError::InvalidCommand)
                || after.result == Err::<ReplyView, CtapError>(CtapError::AuthorizationRequired)
                || after.result == Err::<ReplyView, CtapError>(CtapError::FeatureDisabled)
                || after.result == Err::<ReplyView, CtapError>(CtapError::ChannelBusy)
                || after.result == Err::<ReplyView, CtapError>(CtapError::StorageFailure)
                ==> after.store == env.store()
        }),
{
}

} // verus!
