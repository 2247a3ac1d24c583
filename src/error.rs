use vstd::prelude::*;

verus! {

/// Every typed failure of the endpoint's operations.
#[derive(Debug, Clone, PartialEq, Eq, Structural)]
pub enum ContractError {
    /// The caller lacks the privilege the operation asks for.
    Unauthorized,
    /// An address is longer than the fixed wire width.
    InvalidAddressLength { len: usize },
    /// An inbound message was built for another protocol version.
    InvalidMessageVersion { version: u8 },
    /// An inbound message is addressed to another domain.
    InvalidDestinationDomain { domain: u32 },
    /// The message id has already been recorded as delivered.
    AlreadyDeliveredMessage,
    /// The security module rejected the message.
    VerificationFailed,
    /// The raw bytes do not hold a message.
    MalformedMessage,
    /// The recipient bytes cannot be written as a local address.
    InvalidRecipientEncoding,
    /// A textual address is not a well-formed local address.
    InvalidAddress,
    /// An ownership transfer is already outstanding.
    TransferAlreadyPending,
    /// No ownership transfer is outstanding.
    NoPendingTransfer,
}

} // verus!
