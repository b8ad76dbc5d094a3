//! The parsed commands that the core accepts and the responses it gives.

use crate::persist::{option_view, Attestation, AttestationId, AttestationView};
use crate::pin::{PinUvAuthProtocol, Scope};
use crate::secret::Secret;
use crate::status::{CtapError, CtapResult};
use vstd::prelude::*;

verus! {

/// The request to create a credential.
pub struct MakeCredentialParameters {
    pub rp_id: Vec<u8>,
    pub user_handle: Vec<u8>,
    /// Whether the enterprise attestation is to vouch for the credential.
    pub enterprise_attestation: bool,
    pub pin_uv_auth_param: Option<Secret>,
    pub pin_uv_auth_protocol: Option<PinUvAuthProtocol>,
}

/// What a [`MakeCredentialParameters`] holds.
pub struct MakeCredentialView {
    pub rp_id: Seq<u8>,
    pub user_handle: Seq<u8>,
    pub enterprise_attestation: bool,
    pub pin_uv_auth_param: Option<Seq<u8>>,
    pub pin_uv_auth_protocol: Option<PinUvAuthProtocol>,
}

impl View for MakeCredentialParameters {
    type V = MakeCredentialView;

    open spec fn view(&self) -> MakeCredentialView {
        MakeCredentialView {
            rp_id: self.rp_id@,
            user_handle: self.user_handle@,
            enterprise_attestation: self.enterprise_attestation,
            pin_uv_auth_param: option_view(self.pin_uv_auth_param),
            pin_uv_auth_protocol: self.pin_uv_auth_protocol,
        }
    }
}

/// The request to assert a stored credential.
pub struct GetAssertionParameters {
    pub rp_id: Vec<u8>,
    pub credential_id: Vec<u8>,
    pub pin_uv_auth_param: Option<Secret>,
    pub pin_uv_auth_protocol: Option<PinUvAuthProtocol>,
}

/// What a [`GetAssertionParameters`] holds.
pub struct GetAssertionView {
    pub rp_id: Seq<u8>,
    pub credential_id: Seq<u8>,
    pub pin_uv_auth_param: Option<Seq<u8>>,
    pub pin_uv_auth_protocol: Option<PinUvAuthProtocol>,
}

impl View for GetAssertionParameters {
    type V = GetAssertionView;

    open spec fn view(&self) -> GetAssertionView {
        GetAssertionView {
            rp_id: self.rp_id@,
            credential_id: self.credential_id@,
            pin_uv_auth_param: option_view(self.pin_uv_auth_param),
            pin_uv_auth_protocol: self.pin_uv_auth_protocol,
        }
    }
}

/// The PIN operations.
#[derive(Clone, Copy, PartialEq, Eq, Structural, Debug)]
pub enum ClientPinSubCommand {
    GetPinRetries,
    SetPin,
    ChangePin,
    GetPinToken,
}

/// A PIN operation with its parameters.
pub struct ClientPinParameters {
    pub sub_command: ClientPinSubCommand,
    pub pin_uv_auth_protocol: PinUvAuthProtocol,
    /// The PIN that the user presented.
    pub pin: Option<Secret>,
    /// The PIN to set.
    pub new_pin: Option<Secret>,
    /// The command categories that a token is asked for.
    pub permissions: Option<Scope>,
}

/// What a [`ClientPinParameters`] holds.
pub struct ClientPinView {
    pub sub_command: ClientPinSubCommand,
    pub pin_uv_auth_protocol: PinUvAuthProtocol,
    pub pin: Option<Seq<u8>>,
    pub new_pin: Option<Seq<u8>>,
    pub permissions: Option<Scope>,
}

impl View for ClientPinParameters {
    type V = ClientPinView;

    open spec fn view(&self) -> ClientPinView {
        ClientPinView {
            sub_command: self.sub_command,
            pin_uv_auth_protocol: self.pin_uv_auth_protocol,
            pin: option_view(self.pin),
            new_pin: option_view(self.new_pin),
            permissions: self.permissions,
        }
    }
}

/// The configuration operations.
#[derive(Clone, Copy, PartialEq, Eq, Structural, Debug)]
pub enum ConfigSubCommand {
    EnableEnterpriseAttestation,
}

/// The parameters that a configuration operation can carry.
pub enum ConfigSubCommandParams {
    /// The key pair and certificate to provision for enterprise attestation.
    EnterpriseAttestation(Attestation),
}

/// What a [`ConfigSubCommandParams`] holds.
pub enum ConfigSubCommandParamsView {
    EnterpriseAttestation(AttestationView),
}

impl View for ConfigSubCommandParams {
    type V = ConfigSubCommandParamsView;

    open spec fn view(&self) -> ConfigSubCommandParamsView {
        match *self {
            ConfigSubCommandParams::EnterpriseAttestation(attestation) => {
                ConfigSubCommandParamsView::EnterpriseAttestation(attestation@)
            },
        }
    }
}

/// A configuration operation with its parameters.
pub struct AuthenticatorConfigParameters {
    pub sub_command: ConfigSubCommand,
    pub sub_command_params: Option<ConfigSubCommandParams>,
    pub pin_uv_auth_param: Option<Secret>,
    pub pin_uv_auth_protocol: Option<PinUvAuthProtocol>,
}

/// What an [`AuthenticatorConfigParameters`] holds.
pub struct AuthenticatorConfigView {
    pub sub_command: ConfigSubCommand,
    pub sub_command_params: Option<ConfigSubCommandParamsView>,
    pub pin_uv_auth_param: Option<Seq<u8>>,
    pub pin_uv_auth_protocol: Option<PinUvAuthProtocol>,
}

impl View for AuthenticatorConfigParameters {
    type V = AuthenticatorConfigView;

    open spec fn view(&self) -> AuthenticatorConfigView {
        AuthenticatorConfigView {
            sub_command: self.sub_command,
            sub_command_params: option_view(self.sub_command_params),
            pin_uv_auth_param: option_view(self.pin_uv_auth_param),
            pin_uv_auth_protocol: self.pin_uv_auth_protocol,
        }
    }
}

/// The credential-management operations.
#[derive(Clone, Copy, PartialEq, Eq, Structural, Debug)]
pub enum CredentialManagementSubCommand {
    GetCredsMetadata,
    EnumerateCredential,
    DeleteCredential,
}

/// A credential-management operation with its parameters.
pub struct CredentialManagementParameters {
    pub sub_command: CredentialManagementSubCommand,
    /// The position in the enumeration to report.
    pub index: Option<usize>,
    /// The credential to delete.
    pub credential_id: Option<Vec<u8>>,
    pub pin_uv_auth_param: Option<Secret>,
    pub pin_uv_auth_protocol: Option<PinUvAuthProtocol>,
}

/// What a [`CredentialManagementParameters`] holds.
pub struct CredentialManagementView {
    pub sub_command: CredentialManagementSubCommand,
    pub index: Option<usize>,
    pub credential_id: Option<Seq<u8>>,
    pub pin_uv_auth_param: Option<Seq<u8>>,
    pub pin_uv_auth_protocol: Option<PinUvAuthProtocol>,
}

impl View for CredentialManagementParameters {
    type V = CredentialManagementView;

    open spec fn view(&self) -> CredentialManagementView {
        CredentialManagementView {
            sub_command: self.sub_command,
            index: self.index,
            credential_id: option_view(self.credential_id),
            pin_uv_auth_param: option_view(self.pin_uv_auth_param),
            pin_uv_auth_protocol: self.pin_uv_auth_protocol,
        }
    }
}

/// A parsed command.  The set is closed; the dispatcher handles each variant.
pub enum Command {
    MakeCredential(MakeCredentialParameters),
    GetAssertion(GetAssertionParameters),
    ClientPin(ClientPinParameters),
    AuthenticatorConfig(AuthenticatorConfigParameters),
    CredentialManagement(CredentialManagementParameters),
    Reset,
}

/// What a [`Command`] holds.
pub enum CommandView {
    MakeCredential(MakeCredentialView),
    GetAssertion(GetAssertionView),
    ClientPin(ClientPinView),
    AuthenticatorConfig(AuthenticatorConfigView),
    CredentialManagement(CredentialManagementView),
    Reset,
}

impl View for Command {
    type V = CommandView;

    open spec fn view(&self) -> CommandView {
        match *self {
            Command::MakeCredential(parameters) => CommandView::MakeCredential(parameters@),
            Command::GetAssertion(parameters) => CommandView::GetAssertion(parameters@),
            Command::ClientPin(parameters) => CommandView::ClientPin(parameters@),
            Command::AuthenticatorConfig(parameters) => CommandView::AuthenticatorConfig(
                parameters@,
            ),
            Command::CredentialManagement(parameters) => CommandView::CredentialManagement(
                parameters@,
            ),
            Command::Reset => CommandView::Reset,
        }
    }
}

/// The payload of a command that succeeded.
pub enum ResponseData {
    /// A credential was created; which attestation vouches for it, if any.
    MakeCredential { credential_id: Vec<u8>, attestation: Option<AttestationId> },
    /// A credential was asserted.
    GetAssertion { credential_id: Vec<u8>, user_handle: Vec<u8> },
    /// The PIN attempts that are left.
    PinRetries(u8),
    /// The value of the token that was minted.
    PinToken(Secret),
    /// The PIN was set or changed.
    PinSet,
    /// The configuration was changed.
    AuthenticatorConfig,
    /// The number of stored credentials.
    CredentialsMetadata { existing: usize },
    /// One stored credential of the enumeration, and how many there are.
    CredentialSummary { credential_id: Vec<u8>, rp_id: Vec<u8>, user_handle: Vec<u8>, total: usize },
    /// The credential was deleted.
    CredentialDeleted,
    /// The device was reset to its factory state.
    Reset,
}

/// What a [`ResponseData`] holds.
pub enum ResponseView {
    MakeCredential { credential_id: Seq<u8>, attestation: Option<AttestationId> },
    GetAssertion { credential_id: Seq<u8>, user_handle: Seq<u8> },
    PinRetries(u8),
    PinToken(Seq<u8>),
    PinSet,
    AuthenticatorConfig,
    CredentialsMetadata { existing: usize },
    CredentialSummary { credential_id: Seq<u8>, rp_id: Seq<u8>, user_handle: Seq<u8>, total: usize },
    CredentialDeleted,
    Reset,
}

impl View for ResponseData {
    type V = ResponseView;

    open spec fn view(&self) -> ResponseView {
        match *self {
            ResponseData::MakeCredential { credential_id, attestation } => {
                ResponseView::MakeCredential { credential_id: credential_id@, attestation }
            },
            ResponseData::GetAssertion { credential_id, user_handle } => {
                ResponseView::GetAssertion {
                    credential_id: credential_id@,
                    user_handle: user_handle@,
                }
            },
            ResponseData::PinRetries(retries) => ResponseView::PinRetries(retries),
            ResponseData::PinToken(value) => ResponseView::PinToken(value@),
            ResponseData::PinSet => ResponseView::PinSet,
            ResponseData::AuthenticatorConfig => ResponseView::AuthenticatorConfig,
            ResponseData::CredentialsMetadata { existing } => ResponseView::CredentialsMetadata {
                existing,
            },
            ResponseData::CredentialSummary { credential_id, rp_id, user_handle, total } => {
                ResponseView::CredentialSummary {
                    credential_id: credential_id@,
                    rp_id: rp_id@,
                    user_handle: user_handle@,
                    total,
                }
            },
            ResponseData::CredentialDeleted => ResponseView::CredentialDeleted,
            ResponseData::Reset => ResponseView::Reset,
        }
    }
}

/// What the dispatcher answers to a command that did not fail.
pub enum Reply {
    /// The command is complete; this is its payload.
    Done(ResponseData),
    /// The command waits for the user; its channel holds the transaction
    /// lock until the wait ends.
    UserPresenceNeeded,
}

/// What a [`Reply`] holds.
pub enum ReplyView {
    Done(ResponseView),
    UserPresenceNeeded,
}

impl View for Reply {
    type V = ReplyView;

    open spec fn view(&self) -> ReplyView {
        match *self {
            Reply::Done(response) => ReplyView::Done(response@),
            Reply::UserPresenceNeeded => ReplyView::UserPresenceNeeded,
        }
    }
}

/// How a wait for user presence ended.
#[derive(Clone, Copy, PartialEq, Eq, Structural, Debug)]
pub enum UserPresence {
    Confirmed,
    TimedOut,
    Cancelled,
}

/// The view of an outcome: the view of its payload, or its error.
pub open spec fn result_view<T: View>(outcome: CtapResult<T>) -> Result<T::V, CtapError> {
    match outcome {
        Ok(payload) => Ok(payload@),
        Err(error) => Err(error),
    }
}

} // verus!
