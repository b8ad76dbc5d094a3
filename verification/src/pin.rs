//! The PIN/UV authorization manager: the live token with its scope, and the
//! retry budget of PIN verification.
//!
//! A device has no PIN, or a PIN with a number of attempts left.  While a
//! PIN is set the manager is unauthorized or holds one token, which was
//! minted on one channel, for one protocol version and for a set of command
//! categories.  A token that is presented where it does not fit is
//! withdrawn; it is never widened.

use crate::channel::Channel;
use crate::persist::{option_view, PinRecord, PinView};
use crate::secret::Secret;
use crate::status::CtapError;
use vstd::prelude::*;

verus! {

/// The version of the PIN/UV protocol that a token is bound to.
#[derive(Clone, Copy, PartialEq, Eq, Structural, Debug)]
pub enum PinUvAuthProtocol {
    V1,
    V2,
}

/// A category of commands that a token can permit.
#[derive(Clone, Copy, PartialEq, Eq, Structural, Debug)]
pub enum Permission {
    MakeCredential,
    GetAssertion,
    CredentialManagement,
    AuthenticatorConfiguration,
}

/// The set of command categories that a token permits.
#[derive(Clone, Copy, PartialEq, Eq, Structural, Debug)]
pub struct Scope {
    pub make_credential: bool,
    pub get_assertion: bool,
    pub credential_management: bool,
    pub authenticator_configuration: bool,
}

impl Scope {
    /// Whether the category is in the set.
    pub open spec fn permits_spec(&self, permission: Permission) -> bool {
        match permission {
            Permission::MakeCredential => self.make_credential,
            Permission::GetAssertion => self.get_assertion,
            Permission::CredentialManagement => self.credential_management,
            Permission::AuthenticatorConfiguration => self.authenticator_configuration,
        }
    }

    /// Whether the set holds no category.
    pub open spec fn is_empty_spec(&self) -> bool {
        !self.make_credential && !self.get_assertion && !self.credential_management
            && !self.authenticator_configuration
    }

    /// The set that holds one category.
    pub open spec fn only_spec(permission: Permission) -> Scope {
        Scope {
            make_credential: permission == Permission::MakeCredential,
            get_assertion: permission == Permission::GetAssertion,
            credential_management: permission == Permission::CredentialManagement,
            authenticator_configuration: permission == Permission::AuthenticatorConfiguration,
        }
    }

    /// Whether the category is in the set.
    #[verifier::when_used_as_spec(permits_spec)]
    pub fn permits(&self, permission: Permission) -> (permitted: bool)
        ensures
            permitted == self.permits_spec(permission),
    {
        match permission {
            Permission::MakeCredential => self.make_credential,
            Permission::GetAssertion => self.get_assertion,
            Permission::CredentialManagement => self.credential_management,
            Permission::AuthenticatorConfiguration => self.authenticator_configuration,
        }
    }

    /// Whether the set holds no category.
    #[verifier::when_used_as_spec(is_empty_spec)]
    pub fn is_empty(&self) -> (empty: bool)
        ensures
            empty == self.is_empty_spec(),
    {
        !self.make_credential && !self.get_assertion && !self.credential_management
            && !self.authenticator_configuration
    }

    /// The set that holds one category.
    pub fn only(permission: Permission) -> (scope: Scope)
        ensures
            scope == Scope::only_spec(permission),
            forall|other: Permission| scope.permits(other) <==> other == permission,
    {
        let scope = Scope {
            make_credential: matches!(permission, Permission::MakeCredential),
            get_assertion: matches!(permission, Permission::GetAssertion),
            credential_management: matches!(permission, Permission::CredentialManagement),
            authenticator_configuration: matches!(
                permission,
                Permission::AuthenticatorConfiguration
            ),
        };
        scope
    }
}

/// The proof of a successful PIN check.
pub struct Token {
    /// The value that a command presents.
    pub value: Secret,
    /// The channel the token was minted on.
    pub channel: Channel,
    /// The protocol version the token was minted for.
    pub protocol: PinUvAuthProtocol,
    /// The command categories the token permits.
    pub scope: Scope,
    /// The operations gated by user presence that the token still covers.
    pub uses_left: u8,
}

/// What a [`Token`] holds.
pub struct TokenView {
    pub value: Seq<u8>,
    pub channel: Channel,
    pub protocol: PinUvAuthProtocol,
    pub scope: Scope,
    pub uses_left: u8,
}

impl View for Token {
    type V = TokenView;

    open spec fn view(&self) -> TokenView {
        TokenView {
            value: self.value@,
            channel: self.channel,
            protocol: self.protocol,
            scope: self.scope,
            uses_left: self.uses_left,
        }
    }
}

/// The token after it covered one operation gated by user presence: it is
/// gone once its window is used up.
pub open spec fn spent(token: TokenView) -> Option<TokenView> {
    if token.uses_left <= 1 {
        None
    } else {
        Some(TokenView { uses_left: (token.uses_left - 1) as u8, ..token })
    }
}

/// The token after a command arrived on `channel`: a token of another
/// channel is withdrawn.
pub open spec fn on_channel(token: Option<TokenView>, channel: Channel) -> Option<TokenView> {
    match token {
        Some(held) if held.channel == channel => token,
        _ => None,
    }
}

/// Whether a presented value and protocol fit the held token for a command
/// of the given category on the given channel.
pub open spec fn fits(
    token: TokenView,
    channel: Channel,
    permission: Permission,
    presented: Seq<u8>,
    protocol: Option<PinUvAuthProtocol>,
) -> bool {
    &&& token.channel == channel
    &&& protocol == Some(token.protocol)
    &&& token.scope.permits(permission)
    &&& token.uses_left > 0
    &&& token.value == presented
}

/// The decision on a PIN-gated command, and the token that is left after it.
pub struct Gate {
    pub token: Option<TokenView>,
    pub verdict: Result<(), CtapError>,
}

/// Decides whether a PIN-gated command may run.
///
/// Without a PIN the command runs, unless it presents a token, which cannot
/// be valid.  With an exhausted retry counter nothing runs.  Otherwise the
/// command must present the held token, on the channel and for the protocol
/// it was minted with, for a category in its scope; any mismatch withdraws
/// the token.  A token that covers an operation gated by user presence
/// (`consumes`) spends one use of its window.
pub open spec fn gate(
    token: Option<TokenView>,
    pin: Option<PinView>,
    channel: Channel,
    permission: Permission,
    presented: Option<Seq<u8>>,
    protocol: Option<PinUvAuthProtocol>,
    consumes: bool,
) -> Gate {
    match pin {
        None => match presented {
            None => Gate { token, verdict: Ok(()) },
            Some(_) => Gate { token: None, verdict: Err(CtapError::AuthorizationInvalid) },
        },
        Some(record) => if record.retries == 0 {
            Gate { token: None, verdict: Err(CtapError::PinBlocked) }
        } else {
            match presented {
                None => Gate { token, verdict: Err(CtapError::AuthorizationRequired) },
                Some(value) => match token {
                    Some(held) if fits(held, channel, permission, value, protocol) => Gate {
                        token: if consumes {
                            spent(held)
                        } else {
                            token
                        },
                        verdict: Ok(()),
                    },
                    _ => Gate { token: None, verdict: Err(CtapError::AuthorizationInvalid) },
                },
            }
        },
    }
}

/// What a PIN verification finds and what it writes back.
pub struct Attempt {
    /// Whether the presented hash is the stored one.
    pub matched: bool,
    /// The PIN record to persist before the result is reported.
    pub record: PinView,
}

/// One verification of a presented PIN hash against a record: a match
/// restores the full budget, and a mismatch takes one attempt away, as long
/// as there is one.
pub open spec fn attempt(record: PinView, presented_hash: Seq<u8>, max_retries: u8) -> Attempt {
    if presented_hash == record.hash {
        Attempt { matched: true, record: PinView { retries: max_retries, ..record } }
    } else if record.retries == 0 {
        Attempt { matched: false, record }
    } else {
        Attempt {
            matched: false,
            record: PinView { retries: (record.retries - 1) as u8, ..record },
        }
    }
}

/// The error that a failed verification reports, by the attempts left after it.
pub open spec fn failure(retries_left: u8) -> CtapError {
    if retries_left == 0 {
        CtapError::PinBlocked
    } else {
        CtapError::AuthorizationInvalid
    }
}

/// Verifies a presented PIN hash against the stored record, and gives the
/// record to persist before the result is reported.
pub fn verify(record: &PinRecord, presented_hash: &Secret, max_retries: u8) -> (outcome: (
    bool,
    PinRecord,
))
    ensures
        outcome.0 == attempt(record@, presented_hash@, max_retries).matched,
        outcome.1@ == attempt(record@, presented_hash@, max_retries).record,
{
    if presented_hash.matches(&record.hash) {
        (true, record.with_retries(max_retries))
    } else if record.retries == 0 {
        (false, record.duplicate())
    } else {
        (false, record.with_retries(record.retries - 1))
    }
}

/// The error that a failed verification reports, by the attempts left after it.
pub fn failure_of(retries_left: u8) -> (error: CtapError)
    ensures
        error == failure(retries_left),
{
    if retries_left == 0 {
        CtapError::PinBlocked
    } else {
        CtapError::AuthorizationInvalid
    }
}

fn protocol_is(presented: Option<PinUvAuthProtocol>, held: PinUvAuthProtocol) -> (same: bool)
    ensures
        same == (presented == Some(held)),
{
    match presented {
        Some(PinUvAuthProtocol::V1) => matches!(held, PinUvAuthProtocol::V1),
        Some(PinUvAuthProtocol::V2) => matches!(held, PinUvAuthProtocol::V2),
        None => false,
    }
}

/// The manager of the live authorization token.
pub struct PinUvAuth {
    token: Option<Token>,
}

impl View for PinUvAuth {
    type V = Option<TokenView>;

    closed spec fn view(&self) -> Option<TokenView> {
        option_view(self.token)
    }
}

impl PinUvAuth {
    /// A manager that holds no token.
    pub fn new() -> (auth: PinUvAuth)
        ensures
            auth@ is None,
    {
        PinUvAuth { token: None }
    }

    /// Whether a token is held.
    pub fn is_authorized(&self) -> (authorized: bool)
        ensures
            authorized == self@ is Some,
    {
        self.token.is_some()
    }

    /// Withdraws the token.
    pub fn invalidate(&mut self)
        ensures
            final(self)@ is None,
    {
        self.token = None;
    }

    /// Notes the channel of a command: a token of another channel is withdrawn.
    pub fn note_channel(&mut self, channel: &Channel)
        ensures
            final(self)@ == on_channel(old(self)@, *channel),
    {
        let keep = match &self.token {
            Some(held) => held.channel.same(channel),
            None => false,
        };
        if !keep {
            self.token = None;
        }
    }

    /// Holds a freshly minted token in place of the held one.
    pub fn install(&mut self, token: Token)
        ensures
            final(self)@ == Some(token@),
    {
        self.token = Some(token);
    }

    /// Decides whether a PIN-gated command may run, as [`gate`] says, and
    /// keeps the token that is left.
    pub fn authorize(
        &mut self,
        pin: &Option<PinRecord>,
        channel: &Channel,
        permission: Permission,
        presented: &Option<Secret>,
        protocol: Option<PinUvAuthProtocol>,
        consumes: bool,
    ) -> (verdict: Result<(), CtapError>)
        ensures
            (Gate { token: final(self)@, verdict }) == gate(
                old(self)@,
                option_view(*pin),
                *channel,
                permission,
                option_view(*presented),
                protocol,
                consumes,
            ),
    {
        let record = match pin {
            None => {
                return match presented {
                    None => Ok(()),
                    Some(_) => {
                        self.token = None;
                        Err(CtapError::AuthorizationInvalid)
                    },
                };
            },
            Some(record) => record,
        };
        if record.retries == 0 {
            self.token = None;
            return Err(CtapError::PinBlocked);
        }
        let value = match presented {
            None => {
                return Err(CtapError::AuthorizationRequired);
            },
            Some(value) => value,
        };
        let mut held: Option<Token> = None;
        core::mem::swap(&mut self.token, &mut held);
        match held {
            None => Err(CtapError::AuthorizationInvalid),
            Some(token) => {
                let fitting = token.channel.same(channel) && protocol_is(protocol, token.protocol)
                    && token.scope.permits(permission) && token.uses_left > 0
                    && token.value.matches(value);
                if !fitting {
                    return Err(CtapError::AuthorizationInvalid);
                }
                if !consumes {
                    self.token = Some(token);
                } else if token.uses_left > 1 {
                    let Token { value, channel, protocol, scope, uses_left } = token;
                    self.token = Some(
                        Token { value, channel, protocol, scope, uses_left: uses_left - 1 },
                    );
                }
                Ok(())
            },
        }
    }
}

} // verus!
