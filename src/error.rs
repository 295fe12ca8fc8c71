use vstd::prelude::*;

verus! {

/// Every way in which a bridge instruction can be refused.
#[derive(Debug, Clone, Copy, PartialEq, Eq, Structural)]
pub enum BridglError {
    /// The caller, or the route it presents, is not authorized.
    InvalidCaller,
    /// The controller account is not the one derived for this program.
    InvalidController,
    /// The message payload exceeds the size limit.
    MessageDataTooLarge,
    /// The sender address exceeds the size limit.
    SenderAddressTooLarge,
    /// The payload bytes are not an exact encoding of the expected shape.
    InvalidMessageData,
    /// The supplied mint is not the wrapped mint derived for the route.
    InvalidWrapperMint,
    /// The supplied destination account does not match the payload.
    InvalidToAccount,
    /// The amount does not fit in 64 bits.
    TooManyTokens,
    /// The supplied mint is not the underlying asset named by the payload.
    InvalidUnderlyingToken,
    /// The supplied vault is not the vault derived for the route.
    InvalidVault,
    /// The supplied source account is not the caller's account of the asset.
    InvalidFromAccount,
    /// The selector byte names no known action.
    InvalidMessageSelector,
}

/// The classes of failure an instruction can end in.
#[derive(Debug, Clone, Copy, PartialEq, Eq, Structural)]
pub enum ErrorKind {
    AuthorizationFailure,
    SizeViolation,
    DecodeFailure,
    AddressMismatch,
    AmountOverflow,
    UnknownSelector,
}

pub open spec fn kind_of(e: BridglError) -> ErrorKind {
    match e {
        BridglError::InvalidCaller => ErrorKind::AuthorizationFailure,
        BridglError::InvalidController => ErrorKind::AuthorizationFailure,
        BridglError::MessageDataTooLarge => ErrorKind::SizeViolation,
        BridglError::SenderAddressTooLarge => ErrorKind::SizeViolation,
        BridglError::InvalidMessageData => ErrorKind::DecodeFailure,
        BridglError::InvalidWrapperMint => ErrorKind::AddressMismatch,
        BridglError::InvalidToAccount => ErrorKind::AddressMismatch,
        BridglError::InvalidUnderlyingToken => ErrorKind::AddressMismatch,
        BridglError::InvalidVault => ErrorKind::AddressMismatch,
        BridglError::InvalidFromAccount => ErrorKind::AddressMismatch,
        BridglError::TooManyTokens => ErrorKind::AmountOverflow,
        BridglError::InvalidMessageSelector => ErrorKind::UnknownSelector,
    }
}

impl BridglError {
    /// The class of failure this error belongs to.
    pub fn kind(&self) -> (r: ErrorKind)
        ensures
            r == kind_of(*self),
    {
        match self {
            BridglError::InvalidCaller => ErrorKind::AuthorizationFailure,
            BridglError::InvalidController => ErrorKind::AuthorizationFailure,
            BridglError::MessageDataTooLarge => ErrorKind::SizeViolation,
            BridglError::SenderAddressTooLarge => ErrorKind::SizeViolation,
            BridglError::InvalidMessageData => ErrorKind::DecodeFailure,
            BridglError::InvalidWrapperMint => ErrorKind::AddressMismatch,
            BridglError::InvalidToAccount => ErrorKind::AddressMismatch,
            BridglError::InvalidUnderlyingToken => ErrorKind::AddressMismatch,
            BridglError::InvalidVault => ErrorKind::AddressMismatch,
            BridglError::InvalidFromAccount => ErrorKind::AddressMismatch,
            BridglError::TooManyTokens => ErrorKind::AmountOverflow,
            BridglError::InvalidMessageSelector => ErrorKind::UnknownSelector,
        }
    }
}

} // verus!
