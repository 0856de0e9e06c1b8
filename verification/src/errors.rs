//! Errors returned by the treasury router.
use vstd::prelude::*;

verus! {

/// Every way a treasury-router operation can fail.
#[derive(Clone, Copy, Debug, PartialEq, Eq, Structural)]
pub enum TreasuryRouterError {
    /// An arithmetic underflow occurred.
    ArithmeticUnderflow,
    /// The supplied authority is not authorized.
    Unauthorized,
    /// The protocol is currently paused.
    ProtocolPaused,
    /// The treasury module has already been initialized.
    TreasuryAlreadyInitialized,
    /// The protocol configuration has already been initialized.
    ProtocolConfigAlreadyInitialized,
    /// The settlement mint cannot be the default public key.
    InvalidSettlementMint,
    /// The supplied settlement-token vault is invalid.
    InvalidSettlementVault,
    /// The settlement-token deposit amount must be greater than zero.
    InvalidDepositAmount,
    /// There are no unprocessed settlement-token fees in the treasury vault.
    NoUnprocessedFees,
    /// An arithmetic overflow occurred.
    ArithmeticOverflow,
    /// The Beavernomics allocation configuration is invalid.
    InvalidAllocationConfiguration,
    /// The founder module has already been initialized.
    FounderAlreadyInitialized,
    /// The founder recipient cannot be the default public key.
    InvalidFounderRecipient,
    /// The founder accounting-period cap must be greater than zero.
    InvalidFounderPeriodCap,
    /// The founder accounting-period duration must be greater than zero.
    InvalidFounderPeriodDuration,
    /// The company module has already been initialized.
    CompanyAlreadyInitialized,
    /// The company recipient cannot be the default public key.
    InvalidCompanyRecipient,
    /// The company accounting-period cap must be greater than zero.
    InvalidCompanyPeriodCap,
    /// The company accounting-period duration must be greater than zero.
    InvalidCompanyPeriodDuration,
    /// The requested release amount must be greater than zero.
    InvalidReleaseAmount,
    /// Buyback execution is currently paused.
    BuybacksPaused,
    /// The Dam is closed and no treasury release is permitted.
    DamClosed,
    /// The requested release exceeds the pending treasury balance.
    InsufficientPendingBalance,
    /// The requested release exceeds the current Dam release limit.
    ReleaseLimitExceeded,
    /// The Dam release rate is invalid.
    InvalidDamReleaseRate,
    /// The treasury is not linked to the supplied protocol.
    InvalidTreasuryProtocol,
    /// The protocol treasury module has not been initialized.
    TreasuryNotInitialized,
    /// A treasury accounting invariant was violated.
    AccountingInvariantViolation,
    /// Treasury accounting must be fully settled before funds can be released.
    AccountingNotSettled,
    /// Invalid settlement-token execution destination
    InvalidExecutionDestination,
    /// The Integrity Firewall rejected the supplied account architecture.
    IntegrityFirewallViolation,
    /// The Reserve Policy has already been initialized.
    ReservePolicyAlreadyInitialized,
    /// The Reserve Policy minimum floor must be greater than zero.
    InvalidReserveMinimumFloor,
    /// The Reserve Policy liquidity-floor rate is invalid.
    InvalidReserveLiquidityFloorRate,
    /// The Reserve Policy surplus-deployment rate is invalid.
    InvalidReserveDeploymentRate,
    /// The Reserve Policy deployment cooldown must be greater than zero.
    InvalidReserveDeploymentCooldown,
    /// The requested Reserve deployment amount must be greater than zero.
    InvalidReserveDeploymentAmount,
    /// The Reserve deployment cooldown is still active.
    ReserveDeploymentCooldownActive,
    /// The supplied Reserve Policy is not linked to this protocol and treasury.
    InvalidReservePolicyLinkage,
    /// The Reserve Vault does not currently contain deployable surplus.
    NoDeployableReserveSurplus,
    /// The Reserve deployment calculation failed closed.
    ReserveDeploymentEvaluationFailed,
    /// The Spillway destination is invalid.
    InvalidSpillwayDestination,
    /// The Spillway would breach the protected Reserve floor.
    ReserveFloorViolation,
    /// The Founder USD-cap account version is invalid.
    InvalidFounderUsdCapVersion,
    /// The Founder USD-cap protocol link is invalid.
    InvalidFounderUsdCapProtocol,
    /// The Founder USD-cap settlement mint is invalid.
    InvalidFounderUsdCapSettlementMint,
    /// The Founder USD price-feed identifier is invalid.
    InvalidFounderUsdPriceFeed,
    /// The Founder annual USD cap must equal US$3,000,000.
    InvalidFounderAnnualUsdCap,
    /// The Founder annual period must equal 365 days.
    InvalidFounderAnnualPeriod,
    /// The Founder annual-period timestamp is invalid.
    InvalidFounderAnnualPeriodTimestamp,
    /// The Founder oracle maximum age is invalid.
    InvalidFounderOracleMaximumAge,
    /// The Founder oracle confidence limit is invalid.
    InvalidFounderOracleConfidenceLimit,
    /// The Founder USD-cap mechanism is disabled.
    FounderUsdCapDisabled,
    /// The Founder oracle price must be positive.
    InvalidFounderOraclePrice,
    /// The Founder annual USD accounting state is inconsistent.
    FounderAnnualUsdAccountingViolation,
    /// The Founder annual US$3,000,000 cap would be exceeded.
    FounderAnnualUsdCapExceeded,
    /// The Founder price-state version is invalid.
    InvalidFounderPriceVersion,
    /// The Founder price-state protocol link is invalid.
    InvalidFounderPriceProtocol,
    /// The Founder price-state settlement mint is invalid.
    InvalidFounderPriceSettlementMint,
    /// The Founder oracle adapter authority is invalid.
    InvalidFounderOracleAdapter,
    /// The Founder price mechanism is disabled.
    FounderPriceDisabled,
    /// The Founder oracle publication time is invalid.
    InvalidFounderOraclePublishTime,
    /// The Founder oracle price is stale.
    FounderOraclePriceStale,
    /// The Founder oracle confidence interval is too wide.
    FounderOracleConfidenceTooWide,
    /// The submitted Founder oracle price is not newer than the stored price.
    FounderOraclePriceNotNewer,
    /// The Founder feed migration target is invalid.
    InvalidFounderFeedMigrationTarget,
    /// The Founder feed migration is no longer available.
    FounderFeedMigrationUnavailable,
    /// The Founder oracle accounts have already been used.
    FounderFeedMigrationStateUsed,
}

} // verus!
