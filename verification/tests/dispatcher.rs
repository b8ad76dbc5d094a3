use opensk::channel::Channel;
use opensk::command::{
    AuthenticatorConfigParameters, ClientPinParameters, ClientPinSubCommand, Command,
    ConfigSubCommand, ConfigSubCommandParams, CredentialManagementParameters,
    CredentialManagementSubCommand, GetAssertionParameters, MakeCredentialParameters, Reply,
    ResponseData, UserPresence,
};
use opensk::ctap::CtapState;
use opensk::env::Customization;
use opensk::memory_store::CrashPoint;
use opensk::persist::{
    set_attestation, single, Attestation, AttestationId, Credential, Persist, Update,
};
use opensk::pin::{Permission, PinUvAuthProtocol, Scope};
use opensk::secret::Secret;
use opensk::status::{CtapError, CtapResult};
use opensk::test_env::TestEnv;

const X: Channel = Channel::MainHid([0, 0, 0, 1]);
const Y: Channel = Channel::MainHid([0, 0, 0, 2]);

struct Device {
    state: CtapState<TestEnv>,
    env: TestEnv,
}

fn device_with(customization: Customization, capacity: usize) -> Device {
    Device { state: CtapState::new(customization), env: TestEnv::new(capacity) }
}

fn device() -> Device {
    device_with(Customization { enterprise_attestation: true, max_pin_retries: 3, token_window: 2 }, 4)
}

fn secret(bytes: &[u8]) -> Option<Secret> {
    Some(Secret::from_exposed_secret(bytes.to_vec()))
}

fn all() -> Scope {
    Scope {
        make_credential: true,
        get_assertion: true,
        credential_management: true,
        authenticator_configuration: true,
    }
}

fn client_pin(
    sub_command: ClientPinSubCommand,
    pin: Option<Secret>,
    new_pin: Option<Secret>,
    permissions: Option<Scope>,
) -> Command {
    Command::ClientPin(ClientPinParameters {
        sub_command,
        pin_uv_auth_protocol: PinUvAuthProtocol::V2,
        pin,
        new_pin,
        permissions,
    })
}

fn error(outcome: CtapResult<Reply>) -> CtapError {
    match outcome {
        Err(error) => error,
        Ok(_) => panic!("the command went through"),
    }
}

fn response(outcome: CtapResult<Reply>) -> ResponseData {
    match outcome {
        Ok(Reply::Done(response)) => response,
        Ok(Reply::UserPresenceNeeded) => panic!("the command waits for the user"),
        Err(error) => panic!("the command failed: {:?}", error),
    }
}

fn waits(outcome: CtapResult<Reply>) -> bool {
    matches!(outcome, Ok(Reply::UserPresenceNeeded))
}

impl Device {
    fn send(&mut self, command: Command, channel: Channel) -> CtapResult<Reply> {
        self.state.process_parsed_command(&mut self.env, command, channel)
    }

    fn set_pin(&mut self, pin: &[u8]) {
        let outcome = self.send(client_pin(ClientPinSubCommand::SetPin, None, secret(pin), None), X);
        assert!(matches!(response(outcome), ResponseData::PinSet));
    }

    fn retries(&mut self) -> u8 {
        let outcome = self.send(client_pin(ClientPinSubCommand::GetPinRetries, None, None, None), X);
        match response(outcome) {
            ResponseData::PinRetries(retries) => retries,
            _ => panic!("not the retries"),
        }
    }

    fn ask_token(&mut self, pin: &[u8], scope: Scope, channel: Channel) -> CtapResult<Reply> {
        self.send(client_pin(ClientPinSubCommand::GetPinToken, secret(pin), None, Some(scope)), channel)
    }

    fn token(&mut self, pin: &[u8], scope: Scope, channel: Channel) -> Vec<u8> {
        let outcome = self.ask_token(pin, scope, channel);
        match response(outcome) {
            ResponseData::PinToken(value) => value.expose().clone(),
            _ => panic!("not a token"),
        }
    }

    fn make(&mut self, token: Option<&[u8]>, channel: Channel) -> CtapResult<Reply> {
        self.send(make_credential(token, false), channel)
    }

    fn confirm(&mut self) -> CtapResult<ResponseData> {
        self.state.complete_user_presence(&mut self.env, UserPresence::Confirmed)
    }

    fn credential_ids(&self) -> Vec<Vec<u8>> {
        (0..self.env.credential_count()).map(|index| self.env.credential_at(index).id).collect()
    }
}

fn make_credential(token: Option<&[u8]>, enterprise_attestation: bool) -> Command {
    Command::MakeCredential(MakeCredentialParameters {
        rp_id: b"example.com".to_vec(),
        user_handle: vec![0x1d],
        enterprise_attestation,
        pin_uv_auth_param: token.and_then(secret),
        pin_uv_auth_protocol: token.map(|_| PinUvAuthProtocol::V2),
    })
}

fn get_assertion(credential_id: &[u8], rp_id: &[u8], token: Option<&[u8]>) -> Command {
    Command::GetAssertion(GetAssertionParameters {
        rp_id: rp_id.to_vec(),
        credential_id: credential_id.to_vec(),
        pin_uv_auth_param: token.and_then(secret),
        pin_uv_auth_protocol: token.map(|_| PinUvAuthProtocol::V2),
    })
}

fn management(
    sub_command: CredentialManagementSubCommand,
    index: Option<usize>,
    credential_id: Option<Vec<u8>>,
    token: Option<&[u8]>,
) -> Command {
    Command::CredentialManagement(CredentialManagementParameters {
        sub_command,
        index,
        credential_id,
        pin_uv_auth_param: token.and_then(secret),
        pin_uv_auth_protocol: token.map(|_| PinUvAuthProtocol::V2),
    })
}

fn config(params: Option<ConfigSubCommandParams>, token: Option<&[u8]>) -> Command {
    Command::AuthenticatorConfig(AuthenticatorConfigParameters {
        sub_command: ConfigSubCommand::EnableEnterpriseAttestation,
        sub_command_params: params,
        pin_uv_auth_param: token.and_then(secret),
        pin_uv_auth_protocol: token.map(|_| PinUvAuthProtocol::V2),
    })
}

fn attestation(key_length: usize) -> Attestation {
    Attestation {
        private_key: Secret::from_exposed_secret(vec![0x41; key_length]),
        certificate: vec![0xdd; 20],
    }
}

#[test]
fn new_state_holds_nothing() {
    let customization = Customization { enterprise_attestation: false, max_pin_retries: 8, token_window: 1 };
    let state = CtapState::<TestEnv>::new(customization);
    assert_eq!(state.customization(), customization);
    assert!(!state.is_authorized());
    assert!(state.lock_holder().is_none());
}

#[test]
fn retries_without_a_pin_are_the_full_budget() {
    let mut device = device();
    assert_eq!(device.retries(), 3);
}

#[test]
fn set_pin_stores_the_salted_hash_with_the_full_budget() {
    let mut device = device();
    device.env.set_seed(0x5a);
    device.set_pin(b"1234");
    let record = device.env.pin().unwrap();
    assert_eq!(record.retries, 3);
    assert_eq!(record.salt, vec![0x5a; 32]);
    let mut hash = vec![0x5a; 32];
    hash.extend_from_slice(b"1234");
    assert_eq!(record.hash.expose(), &hash);
    assert_eq!(device.retries(), 3);
}

#[test]
fn set_pin_needs_a_pin_and_a_device_without_one() {
    let mut device = device();
    let outcome = device.send(client_pin(ClientPinSubCommand::SetPin, None, None, None), X);
    assert_eq!(error(outcome), CtapError::InvalidCommand);
    assert!(device.env.pin().is_none());
    device.set_pin(b"1234");
    let outcome = device.send(client_pin(ClientPinSubCommand::SetPin, None, secret(b"9999"), None), X);
    assert_eq!(error(outcome), CtapError::InvalidCommand);
    let mut hash = vec![0u8; 32];
    hash.extend_from_slice(b"1234");
    assert_eq!(device.env.pin().unwrap().hash.expose(), &hash);
}

#[test]
fn the_right_pin_mints_a_token() {
    let mut device = device();
    device.set_pin(b"1234");
    device.env.set_seed(0x77);
    let token = device.token(b"1234", all(), X);
    assert_eq!(token, vec![0x77; 32]);
    assert!(device.state.is_authorized());
    assert_eq!(device.retries(), 3);
}

#[test]
fn a_token_request_needs_a_pin_set_a_pin_and_a_scope() {
    let mut device = device();
    assert_eq!(error(device.ask_token(b"1234", all(), X)), CtapError::InvalidCommand);
    device.set_pin(b"1234");
    let outcome = device.send(client_pin(ClientPinSubCommand::GetPinToken, None, None, Some(all())), X);
    assert_eq!(error(outcome), CtapError::InvalidCommand);
    let outcome = device.send(client_pin(ClientPinSubCommand::GetPinToken, secret(b"1234"), None, None), X);
    assert_eq!(error(outcome), CtapError::InvalidCommand);
    let empty = Scope {
        make_credential: false,
        get_assertion: false,
        credential_management: false,
        authenticator_configuration: false,
    };
    assert_eq!(error(device.ask_token(b"1234", empty, X)), CtapError::InvalidCommand);
    assert_eq!(device.retries(), 3);
    assert!(!device.state.is_authorized());
}

#[test]
fn wrong_pins_count_down_to_pin_blocked() {
    let mut device = device();
    device.set_pin(b"1234");
    assert_eq!(error(device.ask_token(b"0000", all(), X)), CtapError::AuthorizationInvalid);
    assert_eq!(device.env.pin().unwrap().retries, 2);
    assert_eq!(error(device.ask_token(b"0001", all(), X)), CtapError::AuthorizationInvalid);
    assert_eq!(device.env.pin().unwrap().retries, 1);
    assert_eq!(error(device.ask_token(b"0002", all(), X)), CtapError::PinBlocked);
    assert_eq!(device.env.pin().unwrap().retries, 0);
    assert_eq!(device.retries(), 0);
    // Blocked for good: the right PIN does not help, and gated commands are turned away.
    assert_eq!(error(device.ask_token(b"1234", all(), X)), CtapError::PinBlocked);
    assert_eq!(device.env.pin().unwrap().retries, 0);
    assert_eq!(error(device.make(None, X)), CtapError::PinBlocked);
    let outcome = device.send(
        client_pin(ClientPinSubCommand::ChangePin, secret(b"1234"), secret(b"5678"), None),
        X,
    );
    assert_eq!(error(outcome), CtapError::PinBlocked);
    let outcome = device.send(management(CredentialManagementSubCommand::GetCredsMetadata, None, None, None), X);
    assert_eq!(error(outcome), CtapError::PinBlocked);
    assert_eq!(error(device.send(config(None, None), X)), CtapError::PinBlocked);
}

#[test]
fn the_right_pin_before_exhaustion_restores_the_budget() {
    let mut device = device();
    device.set_pin(b"1234");
    assert_eq!(error(device.ask_token(b"0000", all(), X)), CtapError::AuthorizationInvalid);
    assert_eq!(error(device.ask_token(b"0000", all(), X)), CtapError::AuthorizationInvalid);
    assert_eq!(device.retries(), 1);
    device.token(b"1234", all(), X);
    assert_eq!(device.retries(), 3);
    assert_eq!(device.env.pin().unwrap().retries, 3);
}

#[test]
fn a_wrong_pin_withdraws_the_token() {
    let mut device = device();
    device.set_pin(b"1234");
    let token = device.token(b"1234", all(), X);
    assert_eq!(error(device.ask_token(b"0000", all(), X)), CtapError::AuthorizationInvalid);
    assert!(!device.state.is_authorized());
    assert_eq!(error(device.make(Some(&token), X)), CtapError::AuthorizationInvalid);
}

#[test]
fn a_count_that_cannot_be_written_is_not_reported() {
    let mut device = device();
    device.set_pin(b"1234");
    device.env.set_faulty(true);
    assert_eq!(error(device.ask_token(b"0000", all(), X)), CtapError::StorageFailure);
    assert_eq!(error(device.ask_token(b"1234", all(), X)), CtapError::StorageFailure);
    assert!(!device.state.is_authorized());
    device.env.set_faulty(false);
    assert_eq!(device.retries(), 3);
}

#[test]
fn change_pin_verifies_the_old_pin() {
    let mut device = device();
    let outcome = device.send(
        client_pin(ClientPinSubCommand::ChangePin, secret(b"1234"), secret(b"5678"), None),
        X,
    );
    assert_eq!(error(outcome), CtapError::InvalidCommand);
    device.set_pin(b"1234");
    let outcome = device.send(client_pin(ClientPinSubCommand::ChangePin, secret(b"1234"), None, None), X);
    assert_eq!(error(outcome), CtapError::InvalidCommand);
    let outcome = device.send(
        client_pin(ClientPinSubCommand::ChangePin, secret(b"0000"), secret(b"5678"), None),
        X,
    );
    assert_eq!(error(outcome), CtapError::AuthorizationInvalid);
    assert_eq!(device.retries(), 2);
    device.env.set_seed(9);
    let outcome = device.send(
        client_pin(ClientPinSubCommand::ChangePin, secret(b"1234"), secret(b"5678"), None),
        X,
    );
    assert!(matches!(response(outcome), ResponseData::PinSet));
    let record = device.env.pin().unwrap();
    assert_eq!(record.retries, 3);
    assert_eq!(record.salt, vec![9; 32]);
    assert_eq!(error(device.ask_token(b"1234", all(), X)), CtapError::AuthorizationInvalid);
    device.token(b"5678", all(), X);
}

#[test]
fn a_gated_command_needs_the_token_once_a_pin_is_set() {
    let mut device = device();
    assert!(waits(device.make(None, X)));
    assert!(device.confirm().is_ok());
    device.set_pin(b"1234");
    assert_eq!(error(device.make(None, X)), CtapError::AuthorizationRequired);
    assert!(device.state.lock_holder().is_none());
    let token = device.token(b"1234", all(), X);
    assert!(waits(device.make(Some(&token), X)));
}

#[test]
fn a_token_is_invalid_on_a_device_without_a_pin() {
    let mut device = device();
    assert_eq!(error(device.make(Some(&[0x55; 32]), X)), CtapError::AuthorizationInvalid);
    assert!(device.state.lock_holder().is_none());
}

#[test]
fn a_token_for_another_scope_is_rejected_without_side_effects() {
    let mut device = device();
    device.set_pin(b"1234");
    let token = device.token(b"1234", Scope::only(Permission::GetAssertion), X);
    let outcome = device.send(config(Some(ConfigSubCommandParams::EnterpriseAttestation(attestation(32))), Some(&token)), X);
    assert_eq!(error(outcome), CtapError::AuthorizationInvalid);
    assert!(device.env.get_attestation(AttestationId::Enterprise).is_none());
    assert!(!device.env.enterprise_attestation_enabled());
    assert!(!device.state.is_authorized());
    // The token is withdrawn, not widened: it no longer passes for its own scope either.
    let token = device.token(b"1234", Scope::only(Permission::GetAssertion), X);
    assert_eq!(error(device.make(Some(&token), X)), CtapError::AuthorizationInvalid);
    assert!(device.state.lock_holder().is_none());
    assert_eq!(device.env.credential_count(), 0);
    let outcome = device.send(get_assertion(&[1], b"example.com", Some(&token)), X);
    assert_eq!(error(outcome), CtapError::AuthorizationInvalid);
    let token = device.token(b"1234", Scope::only(Permission::MakeCredential), X);
    let outcome = device.send(
        management(CredentialManagementSubCommand::GetCredsMetadata, None, None, Some(&token)),
        X,
    );
    assert_eq!(error(outcome), CtapError::AuthorizationInvalid);
}

#[test]
fn a_token_within_its_scope_passes() {
    let mut device = device();
    device.set_pin(b"1234");
    let token = device.token(b"1234", Scope::only(Permission::AuthenticatorConfiguration), X);
    let outcome = device.send(config(Some(ConfigSubCommandParams::EnterpriseAttestation(attestation(32))), Some(&token)), X);
    assert!(matches!(response(outcome), ResponseData::AuthenticatorConfig));
    assert!(device.env.enterprise_attestation_enabled());
    assert!(device.state.is_authorized());
}

#[test]
fn a_token_does_not_pass_on_another_channel() {
    let mut device = device();
    device.set_pin(b"1234");
    let token = device.token(b"1234", all(), X);
    assert_eq!(error(device.make(Some(&token), Y)), CtapError::AuthorizationInvalid);
    assert!(!device.state.is_authorized());
    assert_eq!(error(device.make(Some(&token), X)), CtapError::AuthorizationInvalid);
}

#[test]
fn a_command_on_another_channel_withdraws_the_token() {
    let mut device = device();
    device.set_pin(b"1234");
    let token = device.token(b"1234", all(), X);
    let outcome = device.send(client_pin(ClientPinSubCommand::GetPinRetries, None, None, None), Y);
    assert!(matches!(response(outcome), ResponseData::PinRetries(3)));
    assert!(!device.state.is_authorized());
    assert_eq!(error(device.make(Some(&token), X)), CtapError::AuthorizationInvalid);
}

#[test]
fn a_token_for_another_protocol_is_rejected() {
    let mut device = device();
    device.set_pin(b"1234");
    let token = device.token(b"1234", all(), X);
    let command = Command::MakeCredential(MakeCredentialParameters {
        rp_id: b"example.com".to_vec(),
        user_handle: vec![1],
        enterprise_attestation: false,
        pin_uv_auth_param: secret(&token),
        pin_uv_auth_protocol: Some(PinUvAuthProtocol::V1),
    });
    assert_eq!(error(device.send(command, X)), CtapError::AuthorizationInvalid);
    assert!(!device.state.is_authorized());
}

#[test]
fn a_token_covers_its_window_of_gated_operations() {
    let mut device = device();
    device.set_pin(b"1234");
    let token = device.token(b"1234", all(), X);
    for _ in 0..2 {
        assert!(waits(device.make(Some(&token), X)));
        assert!(device.confirm().is_ok());
    }
    assert!(!device.state.is_authorized());
    assert_eq!(error(device.make(Some(&token), X)), CtapError::AuthorizationInvalid);
}

#[test]
fn a_waiting_operation_fences_every_command() {
    let mut device = device();
    assert!(waits(device.make(None, X)));
    assert!(device.state.lock_holder().unwrap().same(&X));
    let outcome = device.send(client_pin(ClientPinSubCommand::GetPinRetries, None, None, None), Y);
    assert_eq!(error(outcome), CtapError::ChannelBusy);
    let outcome = device.send(config(Some(ConfigSubCommandParams::EnterpriseAttestation(attestation(32))), None), Y);
    assert_eq!(error(outcome), CtapError::ChannelBusy);
    assert!(device.env.get_attestation(AttestationId::Enterprise).is_none());
    assert_eq!(error(device.send(Command::Reset, Y)), CtapError::ChannelBusy);
    assert_eq!(error(device.make(None, Y)), CtapError::ChannelBusy);
    assert!(device.state.lock_holder().unwrap().same(&X));
    assert_eq!(device.env.credential_count(), 0);
    // Once the operation of X completes, Y proceeds.
    assert!(matches!(device.confirm(), Ok(ResponseData::MakeCredential { .. })));
    assert!(device.state.lock_holder().is_none());
    let outcome = device.send(client_pin(ClientPinSubCommand::GetPinRetries, None, None, None), Y);
    assert!(matches!(response(outcome), ResponseData::PinRetries(3)));
    assert!(waits(device.make(None, Y)));
}

#[test]
fn a_command_on_the_waiting_channel_takes_the_place_of_the_operation() {
    let mut device = device();
    assert!(waits(device.make(None, X)));
    let outcome = device.send(client_pin(ClientPinSubCommand::GetPinRetries, None, None, None), X);
    assert!(matches!(response(outcome), ResponseData::PinRetries(3)));
    // The wait has ended without a credential, and nothing is left to confirm.
    assert!(device.state.lock_holder().is_none());
    assert!(matches!(device.confirm(), Err(CtapError::InvalidCommand)));
    assert_eq!(device.env.credential_count(), 0);
    // A command that waits itself takes the lock anew, for the same channel.
    assert!(waits(device.make(None, X)));
    assert!(waits(device.send(Command::Reset, X)));
    assert!(device.state.lock_holder().unwrap().same(&X));
    assert_eq!(error(device.make(None, Y)), CtapError::ChannelBusy);
    let outcome = device.state.complete_user_presence(&mut device.env, UserPresence::TimedOut);
    assert!(matches!(outcome, Err(CtapError::Timeout)));
    assert_eq!(device.env.credential_count(), 0);
}

#[test]
fn a_command_that_ends_a_wait_withdraws_the_token() {
    let mut device = device();
    device.set_pin(b"1234");
    let token = device.token(b"1234", all(), X);
    assert!(waits(device.make(Some(&token), X)));
    assert!(device.state.is_authorized());
    // The wait ends as by a cancel directive: the token is withdrawn.
    assert_eq!(error(device.make(Some(&token), X)), CtapError::AuthorizationInvalid);
    assert!(device.state.lock_holder().is_none());
    assert!(!device.state.is_authorized());
    assert_eq!(device.env.credential_count(), 0);
}

#[test]
fn a_timeout_releases_the_lock() {
    let mut device = device();
    assert!(waits(device.make(None, X)));
    let outcome = device.state.complete_user_presence(&mut device.env, UserPresence::TimedOut);
    assert!(matches!(outcome, Err(CtapError::Timeout)));
    assert!(device.state.lock_holder().is_none());
    assert_eq!(device.env.credential_count(), 0);
    assert!(waits(device.make(None, Y)));
}

#[test]
fn a_cancelled_wait_releases_the_lock_and_withdraws_the_token() {
    let mut device = device();
    device.set_pin(b"1234");
    let token = device.token(b"1234", all(), X);
    assert!(waits(device.make(Some(&token), X)));
    let outcome = device.state.complete_user_presence(&mut device.env, UserPresence::Cancelled);
    assert!(matches!(outcome, Err(CtapError::Cancelled)));
    assert!(device.state.lock_holder().is_none());
    assert!(!device.state.is_authorized());
    assert_eq!(device.env.credential_count(), 0);
    assert!(matches!(response(device.send(client_pin(ClientPinSubCommand::GetPinRetries, None, None, None), Y)), ResponseData::PinRetries(3)));
}

#[test]
fn a_cancel_directive_ends_the_wait_of_its_channel_only() {
    let mut device = device();
    assert_eq!(device.state.cancel(X), None);
    assert!(waits(device.make(None, X)));
    assert_eq!(device.state.cancel(Y), None);
    assert!(device.state.lock_holder().unwrap().same(&X));
    assert_eq!(error(device.make(None, Y)), CtapError::ChannelBusy);
    assert_eq!(device.state.cancel(X), Some(CtapError::Cancelled));
    assert!(device.state.lock_holder().is_none());
    assert!(matches!(device.confirm(), Err(CtapError::InvalidCommand)));
    assert_eq!(device.env.credential_count(), 0);
    assert!(waits(device.make(None, Y)));
}

#[test]
fn the_end_of_a_wait_that_nobody_waits_for_is_invalid() {
    let mut device = device();
    assert!(matches!(device.confirm(), Err(CtapError::InvalidCommand)));
    let outcome = device.state.complete_user_presence(&mut device.env, UserPresence::TimedOut);
    assert!(matches!(outcome, Err(CtapError::InvalidCommand)));
}

#[test]
fn a_confirmed_creation_stores_a_fresh_credential() {
    let mut device = device();
    assert!(waits(device.make(None, X)));
    assert_eq!(device.env.credential_count(), 0);
    device.env.set_seed(0x21);
    match device.confirm() {
        Ok(ResponseData::MakeCredential { credential_id, attestation }) => {
            assert_eq!(credential_id, vec![0x21; 32]);
            assert_eq!(attestation, None);
        },
        _ => panic!("no credential"),
    }
    assert_eq!(device.env.credential_count(), 1);
    let stored = device.env.credential_at(0);
    assert_eq!(stored.id, vec![0x21; 32]);
    assert_eq!(stored.rp_id, b"example.com".to_vec());
    assert_eq!(stored.user_handle, vec![0x1d]);
    assert_eq!(stored.private_key.expose(), &vec![0x21; 32]);
}

#[test]
fn a_creation_names_the_attestation_that_vouches() {
    let mut device = device();
    assert!(set_attestation(&mut device.env, AttestationId::Batch, Some(&attestation(32))).is_ok());
    assert!(waits(device.make(None, X)));
    assert!(matches!(
        device.confirm(),
        Ok(ResponseData::MakeCredential { attestation: Some(AttestationId::Batch), .. })
    ));
    // Enterprise attestation must be enabled and provisioned to be asked for.
    assert_eq!(error(device.send(make_credential(None, true), X)), CtapError::FeatureDisabled);
    assert!(device.state.lock_holder().is_none());
    assert!(device.env.commit(&single(Update::SetEnterpriseAttestation(true))).is_ok());
    assert_eq!(error(device.send(make_credential(None, true), X)), CtapError::FeatureDisabled);
    let outcome = device.send(config(Some(ConfigSubCommandParams::EnterpriseAttestation(attestation(32))), None), X);
    assert!(matches!(response(outcome), ResponseData::AuthenticatorConfig));
    assert!(waits(device.send(make_credential(None, true), X)));
    assert!(matches!(
        device.confirm(),
        Ok(ResponseData::MakeCredential { attestation: Some(AttestationId::Enterprise), .. })
    ));
}

#[test]
fn a_creation_that_does_not_fit_fails_and_stores_nothing() {
    let mut device = device_with(
        Customization { enterprise_attestation: true, max_pin_retries: 3, token_window: 2 },
        1,
    );
    device.env.set_seed(1);
    assert!(waits(device.make(None, X)));
    assert!(device.confirm().is_ok());
    device.env.set_seed(2);
    assert!(waits(device.make(None, X)));
    assert!(matches!(device.confirm(), Err(CtapError::StorageFailure)));
    assert!(device.state.lock_holder().is_none());
    assert_eq!(device.credential_ids(), vec![vec![1u8; 32]]);
}

#[test]
fn an_assertion_reports_the_stored_credential() {
    let mut device = device();
    let stored = Credential {
        id: vec![7, 7],
        rp_id: b"example.com".to_vec(),
        user_handle: vec![4, 2],
        private_key: Secret::from_exposed_secret(vec![1; 32]),
    };
    assert!(device.env.commit(&single(Update::PutCredential(stored))).is_ok());
    assert_eq!(error(device.send(get_assertion(&[7, 8], b"example.com", None), X)), CtapError::InvalidCommand);
    assert_eq!(error(device.send(get_assertion(&[7, 7], b"example.org", None), X)), CtapError::InvalidCommand);
    assert!(device.state.lock_holder().is_none());
    assert!(waits(device.send(get_assertion(&[7, 7], b"example.com", None), X)));
    match device.confirm() {
        Ok(ResponseData::GetAssertion { credential_id, user_handle }) => {
            assert_eq!(credential_id, vec![7, 7]);
            assert_eq!(user_handle, vec![4, 2]);
        },
        _ => panic!("no assertion"),
    }
    assert!(device.state.lock_holder().is_none());
    assert_eq!(device.env.credential_count(), 1);
}

#[test]
fn credentials_are_counted_enumerated_and_deleted() {
    let mut device = device();
    for seed in 1..4u8 {
        device.env.set_seed(seed);
        assert!(waits(device.make(None, X)));
        assert!(device.confirm().is_ok());
    }
    let outcome = device.send(management(CredentialManagementSubCommand::GetCredsMetadata, None, None, None), X);
    assert!(matches!(response(outcome), ResponseData::CredentialsMetadata { existing: 3 }));
    let outcome = device.send(management(CredentialManagementSubCommand::EnumerateCredential, Some(1), None, None), X);
    match response(outcome) {
        ResponseData::CredentialSummary { credential_id, rp_id, user_handle, total } => {
            assert_eq!(credential_id, vec![2; 32]);
            assert_eq!(rp_id, b"example.com".to_vec());
            assert_eq!(user_handle, vec![0x1d]);
            assert_eq!(total, 3);
        },
        _ => panic!("no summary"),
    }
    // The enumeration can be taken up at any position, any number of times.
    let outcome = device.send(management(CredentialManagementSubCommand::EnumerateCredential, Some(0), None, None), X);
    assert!(matches!(response(outcome), ResponseData::CredentialSummary { .. }));
    let outcome = device.send(management(CredentialManagementSubCommand::EnumerateCredential, Some(3), None, None), X);
    assert_eq!(error(outcome), CtapError::InvalidCommand);
    let outcome = device.send(management(CredentialManagementSubCommand::EnumerateCredential, None, None, None), X);
    assert_eq!(error(outcome), CtapError::InvalidCommand);
    let outcome = device.send(
        management(CredentialManagementSubCommand::DeleteCredential, None, Some(vec![2; 32]), None),
        X,
    );
    assert!(matches!(response(outcome), ResponseData::CredentialDeleted));
    assert_eq!(device.credential_ids(), vec![vec![1u8; 32], vec![3u8; 32]]);
    let outcome = device.send(
        management(CredentialManagementSubCommand::DeleteCredential, None, Some(vec![2; 32]), None),
        X,
    );
    assert_eq!(error(outcome), CtapError::InvalidCommand);
    let outcome = device.send(management(CredentialManagementSubCommand::DeleteCredential, None, None, None), X);
    assert_eq!(error(outcome), CtapError::InvalidCommand);
    assert_eq!(device.credential_ids(), vec![vec![1u8; 32], vec![3u8; 32]]);
}

#[test]
fn enabling_needs_the_feature_and_valid_parameters() {
    let mut off = device_with(
        Customization { enterprise_attestation: false, max_pin_retries: 3, token_window: 2 },
        4,
    );
    let outcome = off.send(config(Some(ConfigSubCommandParams::EnterpriseAttestation(attestation(32))), None), X);
    assert_eq!(error(outcome), CtapError::FeatureDisabled);
    assert!(off.env.get_attestation(AttestationId::Enterprise).is_none());
    assert!(!off.env.enterprise_attestation_enabled());
    let mut device = device();
    let outcome = device.send(config(Some(ConfigSubCommandParams::EnterpriseAttestation(attestation(31))), None), X);
    assert_eq!(error(outcome), CtapError::InvalidCommand);
    assert_eq!(error(device.send(config(None, None), X)), CtapError::InvalidCommand);
    assert!(device.env.get_attestation(AttestationId::Enterprise).is_none());
    assert!(!device.env.enterprise_attestation_enabled());
    // An attestation that was provisioned beforehand is enabled without parameters.
    assert!(set_attestation(&mut device.env, AttestationId::Enterprise, Some(&attestation(32))).is_ok());
    assert!(matches!(response(device.send(config(None, None), X)), ResponseData::AuthenticatorConfig));
    assert!(device.env.enterprise_attestation_enabled());
}

#[test]
fn enabling_on_a_faulty_store_writes_nothing() {
    let mut device = device();
    device.env.set_faulty(true);
    let outcome = device.send(config(Some(ConfigSubCommandParams::EnterpriseAttestation(attestation(32))), None), X);
    assert_eq!(error(outcome), CtapError::StorageFailure);
    assert!(device.env.get_attestation(AttestationId::Enterprise).is_none());
    assert!(!device.env.enterprise_attestation_enabled());
}

#[test]
fn a_reset_erases_the_device_and_lifts_the_block() {
    let mut device = device();
    let outcome = device.send(config(Some(ConfigSubCommandParams::EnterpriseAttestation(attestation(32))), None), X);
    assert!(matches!(response(outcome), ResponseData::AuthenticatorConfig));
    assert!(waits(device.make(None, X)));
    assert!(device.confirm().is_ok());
    device.set_pin(b"1234");
    for _ in 0..3 {
        assert!(device.ask_token(b"0000", all(), X).is_err());
    }
    assert_eq!(error(device.ask_token(b"1234", all(), X)), CtapError::PinBlocked);
    assert!(waits(device.send(Command::Reset, X)));
    // Nothing is erased before the user confirms.
    assert_eq!(device.env.credential_count(), 1);
    assert!(matches!(device.confirm(), Ok(ResponseData::Reset)));
    assert!(device.state.lock_holder().is_none());
    assert!(device.env.get_attestation(AttestationId::Enterprise).is_none());
    assert!(!device.env.enterprise_attestation_enabled());
    assert_eq!(device.env.credential_count(), 0);
    assert!(device.env.pin().is_none());
    assert!(!device.env.reset_in_progress());
    device.set_pin(b"5678");
    device.token(b"5678", all(), X);
}

#[test]
fn a_reset_that_is_not_confirmed_erases_nothing() {
    let mut device = device();
    device.set_pin(b"1234");
    assert!(waits(device.send(Command::Reset, X)));
    let outcome = device.state.complete_user_presence(&mut device.env, UserPresence::TimedOut);
    assert!(matches!(outcome, Err(CtapError::Timeout)));
    assert!(device.env.pin().is_some());
    assert!(!device.env.reset_in_progress());
}

#[test]
fn a_reset_on_a_faulty_store_fails_and_erases_nothing() {
    let mut device = device();
    device.set_pin(b"1234");
    assert!(waits(device.send(Command::Reset, X)));
    device.env.set_faulty(true);
    assert!(matches!(device.confirm(), Err(CtapError::StorageFailure)));
    assert!(device.state.lock_holder().is_none());
    assert!(device.env.pin().is_some());
    assert!(!device.env.reset_in_progress());
}

#[test]
fn an_unfinished_reset_leaves_commands_their_outcomes() {
    let mut off = device_with(
        Customization { enterprise_attestation: false, max_pin_retries: 3, token_window: 2 },
        4,
    );
    assert!(off.env.commit(&single(Update::SetResetInProgress(true))).is_ok());
    let outcome = off.send(config(Some(ConfigSubCommandParams::EnterpriseAttestation(attestation(32))), None), X);
    assert_eq!(error(outcome), CtapError::FeatureDisabled);
    assert!(off.env.get_attestation(AttestationId::Enterprise).is_none());
    let mut device = device();
    device.set_pin(b"1234");
    let token = device.token(b"1234", Scope::only(Permission::GetAssertion), X);
    assert!(device.env.commit(&single(Update::SetResetInProgress(true))).is_ok());
    assert_eq!(device.retries(), 3);
    let outcome = device.send(config(Some(ConfigSubCommandParams::EnterpriseAttestation(attestation(32))), Some(&token)), X);
    assert_eq!(error(outcome), CtapError::AuthorizationInvalid);
    assert_eq!(error(device.send(config(None, None), X)), CtapError::AuthorizationRequired);
    assert_eq!(error(device.ask_token(b"0000", all(), X)), CtapError::AuthorizationInvalid);
    assert_eq!(device.env.pin().unwrap().retries, 2);
    assert!(device.env.reset_in_progress());
    // The reset is taken up by a reset command, and goes through.
    assert!(waits(device.send(Command::Reset, X)));
    assert!(matches!(device.confirm(), Ok(ResponseData::Reset)));
    assert!(device.env.pin().is_none());
    assert!(!device.env.reset_in_progress());
    assert_eq!(device.retries(), 3);
}

#[test]
fn a_reset_that_the_medium_stops_is_finished_by_the_next_one() {
    let mut device = device();
    device.set_pin(b"1234");
    for seed in 1..3u8 {
        device.env.set_seed(seed);
        let token = device.token(b"1234", all(), X);
        assert!(waits(device.make(Some(&token), X)));
        assert!(device.confirm().is_ok());
    }
    assert!(waits(device.send(Command::Reset, X)));
    device.env.fail_after(2);
    assert!(matches!(device.confirm(), Err(CtapError::StorageFailure)));
    assert!(device.state.lock_holder().is_none());
    assert!(!device.state.is_authorized());
    assert!(device.env.reset_in_progress());
    assert_eq!(device.credential_ids(), vec![vec![1u8; 32]]);
    assert!(device.env.pin().is_some());
    device.env.set_faulty(false);
    // The PIN still guards what is left.
    assert_eq!(error(device.make(None, X)), CtapError::AuthorizationRequired);
    assert!(waits(device.send(Command::Reset, Y)));
    assert!(matches!(device.confirm(), Ok(ResponseData::Reset)));
    assert_eq!(device.env.credential_count(), 0);
    assert!(device.env.pin().is_none());
    assert!(!device.env.reset_in_progress());
}

#[test]
fn power_up_takes_an_unfinished_reset_up_again() {
    let mut env = TestEnv::new(4);
    let customization = Customization { enterprise_attestation: true, max_pin_retries: 3, token_window: 2 };
    let stored = Credential {
        id: vec![7, 7],
        rp_id: b"example.com".to_vec(),
        user_handle: vec![4, 2],
        private_key: Secret::from_exposed_secret(vec![1; 32]),
    };
    assert!(env.commit(&single(Update::PutCredential(stored))).is_ok());
    let state = CtapState::power_up(customization, &mut env);
    assert!(state.lock_holder().is_none());
    assert_eq!(env.credential_count(), 1);
    assert!(env.commit(&single(Update::SetResetInProgress(true))).is_ok());
    let state = CtapState::power_up(customization, &mut env);
    assert!(!state.is_authorized());
    assert_eq!(env.credential_count(), 0);
    assert!(!env.reset_in_progress());
    // Where the medium refuses, the marker stays set for the next power-up.
    assert!(env.commit(&single(Update::SetResetInProgress(true))).is_ok());
    env.set_faulty(true);
    let _ = CtapState::power_up(customization, &mut env);
    assert!(env.reset_in_progress());
}

#[test]
fn an_interrupted_write_of_the_environment_is_atomic() {
    let mut env = TestEnv::new(4);
    let batch = vec![
        Update::SetAttestation { id: AttestationId::Enterprise, attestation: Some(attestation(32)) },
        Update::SetEnterpriseAttestation(true),
    ];
    env.commit_interrupted(&batch, CrashPoint::Staging { applied: 1 });
    assert!(env.get_attestation(AttestationId::Enterprise).is_none());
    assert!(!env.enterprise_attestation_enabled());
    env.commit_interrupted(&batch, CrashPoint::CopyingBack { copied: 1 });
    assert!(env.get_attestation(AttestationId::Enterprise).is_some());
    assert!(env.enterprise_attestation_enabled());
    env.recover();
    assert!(env.get_attestation(AttestationId::Enterprise).is_some());
    assert!(env.enterprise_attestation_enabled());
}
