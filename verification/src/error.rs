//! Errors of the library.
use vstd::prelude::*;

verus! {

/// Why a payment check failed (the cases of the payment helpers the contract uses).
#[derive(Debug, PartialEq, Eq)]
pub enum PaymentFailure {
    /// One coin was sent, of another denomination than the one asked for.
    MissingDenom(String),
    /// A denomination other than the accepted one was sent.
    ExtraDenom(String),
    /// More than one coin was sent.
    MultipleDenoms,
    /// No coin, or a coin of amount zero, was sent.
    NoFunds,
    /// Coins were sent to a message that accepts none.
    NonPayable,
}

/// A stored item that a handler expected to find.
#[derive(Debug, Clone, Copy, PartialEq, Eq)]
pub enum StoredItem {
    Thread,
    ThreadMsg,
    NextThreadMsgId,
    UserConfig,
    UserThreadStats,
    User,
    MembershipSupply,
    Distribution,
    GlobalIndex,
    QaThread,
    NextQaThreadMsgId,
}

/// Errors that the contract handlers return.
#[derive(Debug, PartialEq, Eq)]
pub enum ContractError {
    /// A payment check failed.
    Payment(PaymentFailure),
    /// A stored item was not found.
    NotFound(StoredItem),
    Unauthorized,
    OnlyAdminCanEnable,
    OnlyAdminCanDisable,
    OnlyAdminCanUpdateConfig,
    OnlyUserCanUpdateItsOwnConfig,
    OnlyMembershipIssuerCanUpdateItsTradingFeePercentageOfMembership,
    OnlyMembershipIssuerCanUpdateItsTradingFeeConfig,
    OnlyMembershipIssuerCanUpdateItsThreadFeeConfig,
    OnlyMembershipIssuerCanUpdateItsAskFeePercentageOfMembership,
    OnlyMembershipIssuerCanUpdateItsAskFeeToCreatorPercentageOfMembership,
    OnlyMembershipIssuerCanUpdateItsReplyFeePercentageOfMembership,
    UserNotExist,
    UserMustHoldAskToUserMembershipToAsk,
    UserMustHoldThreadCreatorMembershipToAskInItsThread,
    UserMustHoldThreadCreatorMembershipToReply,
    UserMustHoldThreadReplyToUserMembershipToReply,
    UserMustHaveIssuedMembershipToStartNewThread,
    UserMustHaveIssuedMembershipToAsk,
    UserMustHaveIssuedMembershipToAnswer,
    UserMustHaveIssuedMembershipToReply,
    ThreadTitleTooLong { max: u64, actual: u64 },
    ThreadDescriptionTooLong { max: u64, actual: u64 },
    ThreadMsgContentTooLong { max: u64, actual: u64 },
    InsufficientFundsToPayDuringAsk { needed: u128, available: u128 },
    InsufficientFundsToPayDuringBuy { needed: u128, available: u128 },
    InsufficientFundsToPayDuringSell { needed: u128, available: u128 },
    CannotSellLastMembership { sell: u128, total_supply: u128 },
    InsufficientMembershipsToSell { sell: u128, available: u128 },
    ThreadAlreadyExist,
    ThreadNotExist,
    ThreadMsgAlreadyExist,
    ThreadMsgNotExist,
    CannotAnswerNonQuestionThreadMsg,
    CannotAnswerOthersQuestion,
    ThreadFeeSharePercentageMustSumTo100,
    MembershipTradingFeeSharePercentageMustSumTo100,
    OnlyMembershipContractCanUpdateUserPendingReward,
    CannotUpdatePendingRewardBeforeSetupDistribution,
    CannotClaimRewardBeforeSetupDistribution,
    UserMustHoldKeyToAsk,
    QaThreadTitleTooLong { max: u64, actual: u64 },
    QaThreadMsgContentTooLong { max: u64, actual: u64 },
    QaThreadAlreadyExist,
    QaThreadNotExist,
    QaThreadMsgAlreadyExist,
    QaThreadMsgNotExist,
    OnlyKeyIssuerCanAnswer,
}

} // verus!
