//! Errors raised by the registry, grouped into the classes callers react to.

use vstd::prelude::*;

verus! {

/// Every way an operation of the registry can abort. An aborted operation
/// leaves the registry exactly as it was.
#[derive(Clone, Copy, Debug, PartialEq, Eq, Structural)]
pub enum AgentRegistryError {
    /// Agent name is longer than 50 bytes.
    NameTooLong,
    /// Agent description is longer than 200 bytes.
    DescriptionTooLong,
    /// Agent URI is longer than 200 bytes.
    UriTooLong,
    /// More than 10 services were listed.
    TooManyServices,
    /// A service name is longer than 50 bytes.
    ServiceNameTooLong,
    /// Rating comment is longer than 500 bytes.
    CommentTooLong,
    /// Rating score lies outside -100..=100.
    InvalidReputationScore,
    /// The rater is the owner of the rated agent.
    CannotRateSelf,
    /// The derived address already holds a record.
    AddressInUse,
    /// Adding the score would leave the range of a signed 64-bit integer.
    ArithmeticOverflow,
    /// No agent record lives at the given address.
    AgentNotFound,
    /// The caller is not the owner of the agent record.
    NotAgentOwner,
    /// The agent address is not the one derived from the caller's key.
    InvalidAgentAddress,
    /// No address could be derived from the seeds.
    AddressDerivationFailed,
    /// The permission service refused a delegated call.
    PermissionServiceRejected,
    /// The permission request is not waiting for the reply it was given.
    UnexpectedReply,
}

/// The classes of failure a caller distinguishes.
#[derive(Clone, Copy, Debug, PartialEq, Eq, Structural)]
pub enum ErrorKind {
    /// A bound on an input was violated; the caller can correct the input.
    Validation,
    /// The address is already occupied.
    Conflict,
    /// The caller lacks authority over the record.
    Authorization,
    /// Score aggregation overflowed.
    Arithmetic,
    /// The permission service rejected a call or was driven out of order.
    Collaborator,
    /// The record looked up does not exist.
    NotFound,
    /// Address derivation found no valid discriminator.
    Addressing,
}

impl AgentRegistryError {
    /// The class of this error.
    pub open spec fn spec_kind(self) -> ErrorKind {
        match self {
            AgentRegistryError::NameTooLong
            | AgentRegistryError::DescriptionTooLong
            | AgentRegistryError::UriTooLong
            | AgentRegistryError::TooManyServices
            | AgentRegistryError::ServiceNameTooLong
            | AgentRegistryError::CommentTooLong
            | AgentRegistryError::InvalidReputationScore => ErrorKind::Validation,
            AgentRegistryError::CannotRateSelf
            | AgentRegistryError::NotAgentOwner
            | AgentRegistryError::InvalidAgentAddress => ErrorKind::Authorization,
            AgentRegistryError::AddressInUse => ErrorKind::Conflict,
            AgentRegistryError::ArithmeticOverflow => ErrorKind::Arithmetic,
            AgentRegistryError::AgentNotFound => ErrorKind::NotFound,
            AgentRegistryError::AddressDerivationFailed => ErrorKind::Addressing,
            AgentRegistryError::PermissionServiceRejected
            | AgentRegistryError::UnexpectedReply => ErrorKind::Collaborator,
        }
    }

    /// The class of this error.
    #[verifier::when_used_as_spec(spec_kind)]
    pub fn kind(self) -> (k: ErrorKind)
        ensures
            k == self.spec_kind(),
    {
        match self {
            AgentRegistryError::NameTooLong => ErrorKind::Validation,
            AgentRegistryError::DescriptionTooLong => ErrorKind::Validation,
            AgentRegistryError::UriTooLong => ErrorKind::Validation,
            AgentRegistryError::TooManyServices => ErrorKind::Validation,
            AgentRegistryError::ServiceNameTooLong => ErrorKind::Validation,
            AgentRegistryError::CommentTooLong => ErrorKind::Validation,
            AgentRegistryError::InvalidReputationScore => ErrorKind::Validation,
            AgentRegistryError::CannotRateSelf => ErrorKind::Authorization,
            AgentRegistryError::NotAgentOwner => ErrorKind::Authorization,
            AgentRegistryError::InvalidAgentAddress => ErrorKind::Authorization,
            AgentRegistryError::AddressInUse => ErrorKind::Conflict,
            AgentRegistryError::ArithmeticOverflow => ErrorKind::Arithmetic,
            AgentRegistryError::AgentNotFound => ErrorKind::NotFound,
            AgentRegistryError::AddressDerivationFailed => ErrorKind::Addressing,
            AgentRegistryError::PermissionServiceRejected => ErrorKind::Collaborator,
            AgentRegistryError::UnexpectedReply => ErrorKind::Collaborator,
        }
    }

    /// The text that describes this error to a user.
    pub open spec fn spec_message(self) -> Seq<char> {
        match self {
            AgentRegistryError::NameTooLong => "Agent name is too long (max 50 characters)"@,
            AgentRegistryError::DescriptionTooLong => "Agent description is too long (max 200 characters)"@,
            AgentRegistryError::UriTooLong => "Agent URI is too long (max 200 characters)"@,
            AgentRegistryError::TooManyServices => "Too many services (max 10)"@,
            AgentRegistryError::ServiceNameTooLong => "Service name is too long (max 50 characters)"@,
            AgentRegistryError::CommentTooLong => "Reputation comment is too long (max 500 characters)"@,
            AgentRegistryError::InvalidReputationScore => "Reputation score must be between -100 and +100"@,
            AgentRegistryError::CannotRateSelf => "Cannot rate yourself"@,
            AgentRegistryError::AddressInUse => "Address already holds a record"@,
            AgentRegistryError::ArithmeticOverflow => "Reputation score overflowed"@,
            AgentRegistryError::AgentNotFound => "No agent is registered at this address"@,
            AgentRegistryError::NotAgentOwner => "Caller is not the owner of the agent"@,
            AgentRegistryError::InvalidAgentAddress => "Agent address does not match the owner"@,
            AgentRegistryError::AddressDerivationFailed => "No address could be derived"@,
            AgentRegistryError::PermissionServiceRejected => "Permission service rejected the request"@,
            AgentRegistryError::UnexpectedReply => "Permission request was not waiting for this reply"@,
        }
    }

    /// The text that describes this error to a user.
    pub fn message(self) -> (text: &'static str)
        ensures
            text@ == self.spec_message(),
    {
        match self {
            AgentRegistryError::NameTooLong => "Agent name is too long (max 50 characters)",
            AgentRegistryError::DescriptionTooLong => "Agent description is too long (max 200 characters)",
            AgentRegistryError::UriTooLong => "Agent URI is too long (max 200 characters)",
            AgentRegistryError::TooManyServices => "Too many services (max 10)",
            AgentRegistryError::ServiceNameTooLong => "Service name is too long (max 50 characters)",
            AgentRegistryError::CommentTooLong => "Reputation comment is too long (max 500 characters)",
            AgentRegistryError::InvalidReputationScore => "Reputation score must be between -100 and +100",
            AgentRegistryError::CannotRateSelf => "Cannot rate yourself",
            AgentRegistryError::AddressInUse => "Address already holds a record",
            AgentRegistryError::ArithmeticOverflow => "Reputation score overflowed",
            AgentRegistryError::AgentNotFound => "No agent is registered at this address",
            AgentRegistryError::NotAgentOwner => "Caller is not the owner of the agent",
            AgentRegistryError::InvalidAgentAddress => "Agent address does not match the owner",
            AgentRegistryError::AddressDerivationFailed => "No address could be derived",
            AgentRegistryError::PermissionServiceRejected => "Permission service rejected the request",
            AgentRegistryError::UnexpectedReply => "Permission request was not waiting for this reply",
        }
    }
}

} // verus!
