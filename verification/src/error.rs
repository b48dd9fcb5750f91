use vstd::prelude::*;

verus! {

/// Every typed failure an operation of this program can report.
#[derive(Clone, Copy, Debug, PartialEq, Eq, Structural)]
pub enum AiNftError {
    InvalidConfigField,
    InvalidExecutionClientBump,
    InvalidLiquidStakingMint,
    InvalidStaker,
    SupplyExceeded,
    InvalidAgentNftTokenAccount,
    InvalidMintAuthority,
    InvalidAiNft,
    InvalidFeeShare,
    InvalidStakedMint,
    InvalidComputeVault,
    InvalidComputeMint,
    ExecutionClientNotActive,
    StakeAccountAlreadyExists,
    StakeAccountNotFound,
    NoSupportedMessageTypes,
    InvalidGasAmount,
    InvalidAuthority,
    InvalidOwner,
    InvalidAgentNftMint,
    InvalidSupply,
    InvalidMintPrice,
    InvalidComputeAmount,
    InsufficientCompute,
    InvalidExecutionClient,
    InactiveExecutionClient,
    InvalidStakeAmount,
    UnstakingCooldown,
    InvalidTransfer,
    TransferCooldown,
    Unauthorized,
    ConfigTooLong,
    InvalidConfigFormat,
    UnauthorizedConfigUpdate,
    InvalidDonationAmount,
    MissingActionAccounts,
    ActionExecutionFailed,
    InvalidActionParams,
    ComputeMintNotInitialized,
    InvalidTokenOwner,
    Overflow,
    InvalidFieldName,
    InvalidMintDates,
    InvalidCollectionAuthority,
    PremintingFinalized,
    ComputeMintAlreadyInitialized,
    MessageAlreadyExists,
    MessageAlreadyAnswered,
    InvalidMessage,
}

impl AiNftError {
    /// What the failure says to a reader.
    pub open spec fn spec_message(&self) -> Seq<char> {
        match self {
            AiNftError::InvalidConfigField => "Invalid config field"@,
            AiNftError::InvalidExecutionClientBump => "Invalid execution client bump"@,
            AiNftError::InvalidLiquidStakingMint => "Invalid liquid staking mint"@,
            AiNftError::InvalidStaker => "Invalid staker"@,
            AiNftError::SupplyExceeded => "Collection supply exceeded"@,
            AiNftError::InvalidAgentNftTokenAccount => "Invalid agent nft token account"@,
            AiNftError::InvalidMintAuthority => "Invalid mint authority"@,
            AiNftError::InvalidAiNft => "Invalid AI NFT"@,
            AiNftError::InvalidFeeShare => "Invalid fee share"@,
            AiNftError::InvalidStakedMint => "Invalid staked mint"@,
            AiNftError::InvalidComputeVault => "Invalid compute vault"@,
            AiNftError::InvalidComputeMint => "Invalid compute mint"@,
            AiNftError::ExecutionClientNotActive => "Execution client not active"@,
            AiNftError::StakeAccountAlreadyExists => "Stake account already exists"@,
            AiNftError::StakeAccountNotFound => "Stake account not found"@,
            AiNftError::NoSupportedMessageTypes => "No supported message types"@,
            AiNftError::InvalidGasAmount => "Invalid gas amount"@,
            AiNftError::InvalidAuthority => "Invalid authority"@,
            AiNftError::InvalidOwner => "Invalid owner"@,
            AiNftError::InvalidAgentNftMint => "Invalid agent nft mint"@,
            AiNftError::InvalidSupply => "Invalid collection supply"@,
            AiNftError::InvalidMintPrice => "Invalid mint price"@,
            AiNftError::InvalidComputeAmount => "Invalid compute token amount"@,
            AiNftError::InsufficientCompute => "Insufficient compute tokens. Please top up your agent"@,
            AiNftError::InvalidExecutionClient => "Invalid execution client"@,
            AiNftError::InactiveExecutionClient => "Execution client not active"@,
            AiNftError::InvalidStakeAmount => "Invalid stake amount"@,
            AiNftError::UnstakingCooldown => "Unstaking in cooldown"@,
            AiNftError::InvalidTransfer => "Invalid transfer"@,
            AiNftError::TransferCooldown => "Transfer cooldown active"@,
            AiNftError::Unauthorized => "Unauthorized"@,
            AiNftError::ConfigTooLong => "Config string exceeds maximum length"@,
            AiNftError::InvalidConfigFormat => "Invalid config format - must be valid JSON"@,
            AiNftError::UnauthorizedConfigUpdate => "Only the NFT owner can update the character config"@,
            AiNftError::InvalidDonationAmount => "Invalid donation amount"@,
            AiNftError::MissingActionAccounts => "Missing required accounts for action"@,
            AiNftError::ActionExecutionFailed => "Action execution failed"@,
            AiNftError::InvalidActionParams => "Invalid action parameters"@,
            AiNftError::ComputeMintNotInitialized => "Compute mint not initialized"@,
            AiNftError::InvalidTokenOwner => "InvalidTokenOwner"@,
            AiNftError::Overflow => "Overflow"@,
            AiNftError::InvalidFieldName => "Invalid field name"@,
            AiNftError::InvalidMintDates => "Invalid mint dates"@,
            AiNftError::InvalidCollectionAuthority => "Invalid collection authority"@,
            AiNftError::PremintingFinalized => "Preminting is finalized"@,
            AiNftError::ComputeMintAlreadyInitialized => "Compute mint already initialized"@,
            AiNftError::MessageAlreadyExists => "Message already exists"@,
            AiNftError::MessageAlreadyAnswered => "Message already answered"@,
            AiNftError::InvalidMessage => "Invalid message"@,
        }
    }

    /// What the failure says to a reader.
    pub fn message(&self) -> (text: String)
        ensures
            text@ == self.spec_message(),
    {
        let text: &str = match self {
            AiNftError::InvalidConfigField => "Invalid config field",
            AiNftError::InvalidExecutionClientBump => "Invalid execution client bump",
            AiNftError::InvalidLiquidStakingMint => "Invalid liquid staking mint",
            AiNftError::InvalidStaker => "Invalid staker",
            AiNftError::SupplyExceeded => "Collection supply exceeded",
            AiNftError::InvalidAgentNftTokenAccount => "Invalid agent nft token account",
            AiNftError::InvalidMintAuthority => "Invalid mint authority",
            AiNftError::InvalidAiNft => "Invalid AI NFT",
            AiNftError::InvalidFeeShare => "Invalid fee share",
            AiNftError::InvalidStakedMint => "Invalid staked mint",
            AiNftError::InvalidComputeVault => "Invalid compute vault",
            AiNftError::InvalidComputeMint => "Invalid compute mint",
            AiNftError::ExecutionClientNotActive => "Execution client not active",
            AiNftError::StakeAccountAlreadyExists => "Stake account already exists",
            AiNftError::StakeAccountNotFound => "Stake account not found",
            AiNftError::NoSupportedMessageTypes => "No supported message types",
            AiNftError::InvalidGasAmount => "Invalid gas amount",
            AiNftError::InvalidAuthority => "Invalid authority",
            AiNftError::InvalidOwner => "Invalid owner",
            AiNftError::InvalidAgentNftMint => "Invalid agent nft mint",
            AiNftError::InvalidSupply => "Invalid collection supply",
            AiNftError::InvalidMintPrice => "Invalid mint price",
            AiNftError::InvalidComputeAmount => "Invalid compute token amount",
            AiNftError::InsufficientCompute => "Insufficient compute tokens. Please top up your agent",
            AiNftError::InvalidExecutionClient => "Invalid execution client",
            AiNftError::InactiveExecutionClient => "Execution client not active",
            AiNftError::InvalidStakeAmount => "Invalid stake amount",
            AiNftError::UnstakingCooldown => "Unstaking in cooldown",
            AiNftError::InvalidTransfer => "Invalid transfer",
            AiNftError::TransferCooldown => "Transfer cooldown active",
            AiNftError::Unauthorized => "Unauthorized",
            AiNftError::ConfigTooLong => "Config string exceeds maximum length",
            AiNftError::InvalidConfigFormat => "Invalid config format - must be valid JSON",
            AiNftError::UnauthorizedConfigUpdate => "Only the NFT owner can update the character config",
            AiNftError::InvalidDonationAmount => "Invalid donation amount",
            AiNftError::MissingActionAccounts => "Missing required accounts for action",
            AiNftError::ActionExecutionFailed => "Action execution failed",
            AiNftError::InvalidActionParams => "Invalid action parameters",
            AiNftError::ComputeMintNotInitialized => "Compute mint not initialized",
            AiNftError::InvalidTokenOwner => "InvalidTokenOwner",
            AiNftError::Overflow => "Overflow",
            AiNftError::InvalidFieldName => "Invalid field name",
            AiNftError::InvalidMintDates => "Invalid mint dates",
            AiNftError::InvalidCollectionAuthority => "Invalid collection authority",
            AiNftError::PremintingFinalized => "Preminting is finalized",
            AiNftError::ComputeMintAlreadyInitialized => "Compute mint already initialized",
            AiNftError::MessageAlreadyExists => "Message already exists",
            AiNftError::MessageAlreadyAnswered => "Message already answered",
            AiNftError::InvalidMessage => "Invalid message",
        };
        text.to_owned()
    }
}

} // verus!
