use vstd::prelude::*;
use crate::command::{command_kind, Command, CommandKind};
use crate::text::{
    is_amount, is_amount_text, normalize_optional_text, normalize_optional_u64, opt_nat, opt_view,
    optional_text, parse_u32, parse_u64, unsigned_value,
};

verus! {

/// Why an elicitation produced no command.
#[derive(Clone, Copy, Debug, PartialEq, Eq, Structural)]
pub enum ElicitError {
    /// A required text field was left empty.
    EmptyField,
    /// A required count, height, mask or chain id is not an unsigned number of its type.
    NotANumber,
    /// An amount is not a finite decimal number.
    NotAnAmount,
    /// The answers do not match the prompts of the command (too few, or of the wrong kind).
    AnswersMismatch,
}

/// Builds `CreateAccount` from the raw answers, in prompt order.
pub fn create_account(account: String, balance: String) -> (r: Result<Command, ElicitError>)
    ensures
        r is Ok <==> account@.len() > 0 && is_amount_text(balance@),
        match r {
            Ok(Command::CreateAccount { account: account_v, balance: balance_v }) => {
                &&& account_v@ == account@
                &&& balance_v@ == balance@
            },
            Ok(_) => false,
            Err(e) => {
                &&& account@.len() == 0 ==> e == ElicitError::EmptyField
                &&& account@.len() > 0 && !is_amount_text(balance@)
                    ==> e == ElicitError::NotAnAmount
            },
        },
{
    if account.as_str().is_empty() {
        return Err(ElicitError::EmptyField);
    }
    if !is_amount(balance.as_str()) {
        return Err(ElicitError::NotAnAmount);
    }
    Ok(Command::CreateAccount { account, balance })
}

/// Builds `ViewAccount` from the raw answers, in prompt order.
pub fn view_account(account: String) -> (r: Result<Command, ElicitError>)
    ensures
        r is Ok <==> account@.len() > 0,
        match r {
            Ok(Command::ViewAccount { account: account_v }) => {
                &&& account_v@ == account@
            },
            Ok(_) => false,
            Err(e) => {
                &&& account@.len() == 0 ==> e == ElicitError::EmptyField
            },
        },
{
    if account.as_str().is_empty() {
        return Err(ElicitError::EmptyField);
    }
    Ok(Command::ViewAccount { account })
}

/// Builds `DeployAurora` from the raw answers, in prompt order.
pub fn deploy_aurora(path: String) -> (r: Result<Command, ElicitError>)
    ensures
        r is Ok <==> path@.len() > 0,
        match r {
            Ok(Command::DeployAurora { path: path_v }) => {
                &&& path_v@ == path@
            },
            Ok(_) => false,
            Err(e) => {
                &&& path@.len() == 0 ==> e == ElicitError::EmptyField
            },
        },
{
    if path.as_str().is_empty() {
        return Err(ElicitError::EmptyField);
    }
    Ok(Command::DeployAurora { path })
}

/// Builds `Init` from the raw answers, in prompt order.
pub fn init(
    chain_id: &str,
    owner_id: String,
    bridge_prover_id: String,
    upgrade_delay_blocks: &str,
    custodian_address: String,
    ft_metadata_path: String,
) -> (r: Result<Command, ElicitError>)
    ensures
        r is Ok <==> unsigned_value(chain_id@, u64::MAX as nat) is Some,
        match r {
            Ok(
                Command::Init {
                    chain_id: chain_id_v,
                    owner_id: owner_id_v,
                    bridge_prover_id: bridge_prover_id_v,
                    upgrade_delay_blocks: upgrade_delay_blocks_v,
                    custodian_address: custodian_address_v,
                    ft_metadata_path: ft_metadata_path_v,
                },
            ) => {
                &&& unsigned_value(chain_id@, u64::MAX as nat) == Some(chain_id_v as nat)
                &&& opt_view(owner_id_v) == optional_text(owner_id@)
                &&& opt_view(bridge_prover_id_v) == optional_text(bridge_prover_id@)
                &&& opt_nat(upgrade_delay_blocks_v)
                    == unsigned_value(upgrade_delay_blocks@, u64::MAX as nat)
                &&& opt_view(custodian_address_v) == optional_text(custodian_address@)
                &&& opt_view(ft_metadata_path_v) == optional_text(ft_metadata_path@)
            },
            Ok(_) => false,
            Err(e) => {
                &&& unsigned_value(chain_id@, u64::MAX as nat) is None
                    ==> e == ElicitError::NotANumber
            },
        },
{
    let chain_id = match parse_u64(chain_id) {
        Some(v) => v,
        None => return Err(ElicitError::NotANumber),
    };
    let owner_id = normalize_optional_text(owner_id);
    let bridge_prover_id = normalize_optional_text(bridge_prover_id);
    let upgrade_delay_blocks = normalize_optional_u64(upgrade_delay_blocks);
    let custodian_address = normalize_optional_text(custodian_address);
    let ft_metadata_path = normalize_optional_text(ft_metadata_path);
    Ok(
        Command::Init {
            chain_id,
            owner_id,
            bridge_prover_id,
            upgrade_delay_blocks,
            custodian_address,
            ft_metadata_path,
        },
    )
}

/// Builds `GetChainId`, which has no fields.
pub fn get_chain_id() -> (r: Command)
    ensures
        r == Command::GetChainId,
{
    Command::GetChainId
}

/// Builds `GetNonce` from the raw answers, in prompt order.
pub fn get_nonce(address: String) -> (r: Result<Command, ElicitError>)
    ensures
        r is Ok <==> address@.len() > 0,
        match r {
            Ok(Command::GetNonce { address: address_v }) => {
                &&& address_v@ == address@
            },
            Ok(_) => false,
            Err(e) => {
                &&& address@.len() == 0 ==> e == ElicitError::EmptyField
            },
        },
{
    if address.as_str().is_empty() {
        return Err(ElicitError::EmptyField);
    }
    Ok(Command::GetNonce { address })
}

/// Builds `GetBlockHash` from the raw answers, in prompt order.
pub fn get_block_hash(height: &str) -> (r: Result<Command, ElicitError>)
    ensures
        r is Ok <==> unsigned_value(height@, u64::MAX as nat) is Some,
        match r {
            Ok(Command::GetBlockHash { height: height_v }) => {
                &&& unsigned_value(height@, u64::MAX as nat) == Some(height_v as nat)
            },
            Ok(_) => false,
            Err(e) => {
                &&& unsigned_value(height@, u64::MAX as nat) is None
                    ==> e == ElicitError::NotANumber
            },
        },
{
    let height = match parse_u64(height) {
        Some(v) => v,
        None => return Err(ElicitError::NotANumber),
    };
    Ok(Command::GetBlockHash { height })
}

/// Builds `GetCode` from the raw answers, in prompt order.
pub fn get_code(address: String) -> (r: Result<Command, ElicitError>)
    ensures
        r is Ok <==> address@.len() > 0,
        match r {
            Ok(Command::GetCode { address: address_v }) => {
                &&& address_v@ == address@
            },
            Ok(_) => false,
            Err(e) => {
                &&& address@.len() == 0 ==> e == ElicitError::EmptyField
            },
        },
{
    if address.as_str().is_empty() {
        return Err(ElicitError::EmptyField);
    }
    Ok(Command::GetCode { address })
}

/// Builds `GetBalance` from the raw answers, in prompt order.
pub fn get_balance(address: String) -> (r: Result<Command, ElicitError>)
    ensures
        r is Ok <==> address@.len() > 0,
        match r {
            Ok(Command::GetBalance { address: address_v }) => {
                &&& address_v@ == address@
            },
            Ok(_) => false,
            Err(e) => {
                &&& address@.len() == 0 ==> e == ElicitError::EmptyField
            },
        },
{
    if address.as_str().is_empty() {
        return Err(ElicitError::EmptyField);
    }
    Ok(Command::GetBalance { address })
}

/// Builds `GetUpgradeIndex`, which has no fields.
pub fn get_upgrade_index() -> (r: Command)
    ensures
        r == Command::GetUpgradeIndex,
{
    Command::GetUpgradeIndex
}

/// Builds `GetVersion`, which has no fields.
pub fn get_version() -> (r: Command)
    ensures
        r == Command::GetVersion,
{
    Command::GetVersion
}

/// Builds `GetOwner`, which has no fields.
pub fn get_owner() -> (r: Command)
    ensures
        r == Command::GetOwner,
{
    Command::GetOwner
}

/// Builds `SetOwner` from the raw answers, in prompt order.
pub fn set_owner(account_id: String) -> (r: Result<Command, ElicitError>)
    ensures
        r is Ok <==> account_id@.len() > 0,
        match r {
            Ok(Command::SetOwner { account_id: account_id_v }) => {
                &&& account_id_v@ == account_id@
            },
            Ok(_) => false,
            Err(e) => {
                &&& account_id@.len() == 0 ==> e == ElicitError::EmptyField
            },
        },
{
    if account_id.as_str().is_empty() {
        return Err(ElicitError::EmptyField);
    }
    Ok(Command::SetOwner { account_id })
}

/// Builds `GetBridgeProver`, which has no fields.
pub fn get_bridge_prover() -> (r: Command)
    ensures
        r == Command::GetBridgeProver,
{
    Command::GetBridgeProver
}

/// Builds `GetStorageAt` from the raw answers, in prompt order.
pub fn get_storage_at(address: String, key: String) -> (r: Result<Command, ElicitError>)
    ensures
        r is Ok <==> address@.len() > 0 && key@.len() > 0,
        match r {
            Ok(Command::GetStorageAt { address: address_v, key: key_v }) => {
                &&& address_v@ == address@
                &&& key_v@ == key@
            },
            Ok(_) => false,
            Err(e) => {
                &&& address@.len() == 0 ==> e == ElicitError::EmptyField
                &&& address@.len() > 0 && key@.len() == 0 ==> e == ElicitError::EmptyField
            },
        },
{
    if address.as_str().is_empty() {
        return Err(ElicitError::EmptyField);
    }
    if key.as_str().is_empty() {
        return Err(ElicitError::EmptyField);
    }
    Ok(Command::GetStorageAt { address, key })
}

/// Builds `RegisterRelayer` from the raw answers, in prompt order.
pub fn register_relayer(address: String) -> (r: Result<Command, ElicitError>)
    ensures
        r is Ok <==> address@.len() > 0,
        match r {
            Ok(Command::RegisterRelayer { address: address_v }) => {
                &&& address_v@ == address@
            },
            Ok(_) => false,
            Err(e) => {
                &&& address@.len() == 0 ==> e == ElicitError::EmptyField
            },
        },
{
    if address.as_str().is_empty() {
        return Err(ElicitError::EmptyField);
    }
    Ok(Command::RegisterRelayer { address })
}

/// Builds `PausePrecompiles` from the raw answers, in prompt order.
pub fn pause_precompiles(mask: &str) -> (r: Result<Command, ElicitError>)
    ensures
        r is Ok <==> unsigned_value(mask@, u32::MAX as nat) is Some,
        match r {
            Ok(Command::PausePrecompiles { mask: mask_v }) => {
                &&& unsigned_value(mask@, u32::MAX as nat) == Some(mask_v as nat)
            },
            Ok(_) => false,
            Err(e) => {
                &&& unsigned_value(mask@, u32::MAX as nat) is None ==> e == ElicitError::NotANumber
            },
        },
{
    let mask = match parse_u32(mask) {
        Some(v) => v,
        None => return Err(ElicitError::NotANumber),
    };
    Ok(Command::PausePrecompiles { mask })
}

/// Builds `ResumePrecompiles` from the raw answers, in prompt order.
pub fn resume_precompiles(mask: &str) -> (r: Result<Command, ElicitError>)
    ensures
        r is Ok <==> unsigned_value(mask@, u32::MAX as nat) is Some,
        match r {
            Ok(Command::ResumePrecompiles { mask: mask_v }) => {
                &&& unsigned_value(mask@, u32::MAX as nat) == Some(mask_v as nat)
            },
            Ok(_) => false,
            Err(e) => {
                &&& unsigned_value(mask@, u32::MAX as nat) is None ==> e == ElicitError::NotANumber
            },
        },
{
    let mask = match parse_u32(mask) {
        Some(v) => v,
        None => return Err(ElicitError::NotANumber),
    };
    Ok(Command::ResumePrecompiles { mask })
}

/// Builds `PausedPrecompiles`, which has no fields.
pub fn paused_precompiles() -> (r: Command)
    ensures
        r == Command::PausedPrecompiles,
{
    Command::PausedPrecompiles
}

/// Builds `FactoryUpdate` from the raw answers, in prompt order.
pub fn factory_update(path: String) -> (r: Result<Command, ElicitError>)
    ensures
        r is Ok <==> path@.len() > 0,
        match r {
            Ok(Command::FactoryUpdate { path: path_v }) => {
                &&& path_v@ == path@
            },
            Ok(_) => false,
            Err(e) => {
                &&& path@.len() == 0 ==> e == ElicitError::EmptyField
            },
        },
{
    if path.as_str().is_empty() {
        return Err(ElicitError::EmptyField);
    }
    Ok(Command::FactoryUpdate { path })
}

/// Builds `FactorySetWnearAddress` from the raw answers, in prompt order.
pub fn factory_set_wnear_address(address: String) -> (r: Result<Command, ElicitError>)
    ensures
        r is Ok <==> address@.len() > 0,
        match r {
            Ok(Command::FactorySetWnearAddress { address: address_v }) => {
                &&& address_v@ == address@
            },
            Ok(_) => false,
            Err(e) => {
                &&& address@.len() == 0 ==> e == ElicitError::EmptyField
            },
        },
{
    if address.as_str().is_empty() {
        return Err(ElicitError::EmptyField);
    }
    Ok(Command::FactorySetWnearAddress { address })
}

/// Builds `FundXccSubAccount` from the raw answers, in prompt order.
pub fn fund_xcc_sub_account(
    target: String,
    wnear_account_id: String,
    deposit: String,
) -> (r: Result<Command, ElicitError>)
    ensures
        r is Ok <==> target@.len() > 0 && is_amount_text(deposit@),
        match r {
            Ok(
                Command::FundXccSubAccount {
                    target: target_v,
                    wnear_account_id: wnear_account_id_v,
                    deposit: deposit_v,
                },
            ) => {
                &&& target_v@ == target@
                &&& opt_view(wnear_account_id_v) == optional_text(wnear_account_id@)
                &&& deposit_v@ == deposit@
            },
            Ok(_) => false,
            Err(e) => {
                &&& target@.len() == 0 ==> e == ElicitError::EmptyField
                &&& target@.len() > 0 && !is_amount_text(deposit@) ==> e == ElicitError::NotAnAmount
            },
        },
{
    if target.as_str().is_empty() {
        return Err(ElicitError::EmptyField);
    }
    let wnear_account_id = normalize_optional_text(wnear_account_id);
    if !is_amount(deposit.as_str()) {
        return Err(ElicitError::NotAnAmount);
    }
    Ok(Command::FundXccSubAccount { target, wnear_account_id, deposit })
}

/// Builds `StageUpgrade` from the raw answers, in prompt order.
pub fn stage_upgrade(path: String) -> (r: Result<Command, ElicitError>)
    ensures
        r is Ok <==> path@.len() > 0,
        match r {
            Ok(Command::StageUpgrade { path: path_v }) => {
                &&& path_v@ == path@
            },
            Ok(_) => false,
            Err(e) => {
                &&& path@.len() == 0 ==> e == ElicitError::EmptyField
            },
        },
{
    if path.as_str().is_empty() {
        return Err(ElicitError::EmptyField);
    }
    Ok(Command::StageUpgrade { path })
}

/// Builds `DeployUpgrade`, which has no fields.
pub fn deploy_upgrade() -> (r: Command)
    ensures
        r == Command::DeployUpgrade,
{
    Command::DeployUpgrade
}

/// Builds `Deploy` from the raw answers, in prompt order.
pub fn deploy(
    code: String,
    args: String,
    abi_path: String,
    aurora_secret_key: String,
) -> (r: Result<Command, ElicitError>)
    ensures
        r is Ok <==> code@.len() > 0,
        match r {
            Ok(
                Command::Deploy {
                    code: code_v,
                    args: args_v,
                    abi_path: abi_path_v,
                    aurora_secret_key: aurora_secret_key_v,
                },
            ) => {
                &&& code_v@ == code@
                &&& opt_view(args_v) == optional_text(args@)
                &&& opt_view(abi_path_v) == optional_text(abi_path@)
                &&& opt_view(aurora_secret_key_v) == optional_text(aurora_secret_key@)
            },
            Ok(_) => false,
            Err(e) => {
                &&& code@.len() == 0 ==> e == ElicitError::EmptyField
            },
        },
{
    if code.as_str().is_empty() {
        return Err(ElicitError::EmptyField);
    }
    let args = normalize_optional_text(args);
    let abi_path = normalize_optional_text(abi_path);
    let aurora_secret_key = normalize_optional_text(aurora_secret_key);
    Ok(Command::Deploy { code, args, abi_path, aurora_secret_key })
}

/// Builds `ViewCall` from the raw answers, in prompt order.
pub fn view_call(
    address: String,
    function: String,
    args: String,
    abi_path: String,
) -> (r: Result<Command, ElicitError>)
    ensures
        r is Ok <==> address@.len() > 0 && function@.len() > 0 && abi_path@.len() > 0,
        match r {
            Ok(
                Command::ViewCall {
                    address: address_v,
                    function: function_v,
                    args: args_v,
                    abi_path: abi_path_v,
                },
            ) => {
                &&& address_v@ == address@
                &&& function_v@ == function@
                &&& opt_view(args_v) == optional_text(args@)
                &&& abi_path_v@ == abi_path@
            },
            Ok(_) => false,
            Err(e) => {
                &&& address@.len() == 0 ==> e == ElicitError::EmptyField
                &&& address@.len() > 0 && function@.len() == 0 ==> e == ElicitError::EmptyField
                &&& address@.len() > 0 && function@.len() > 0 && abi_path@.len() == 0
                    ==> e == ElicitError::EmptyField
            },
        },
{
    if address.as_str().is_empty() {
        return Err(ElicitError::EmptyField);
    }
    if function.as_str().is_empty() {
        return Err(ElicitError::EmptyField);
    }
    let args = normalize_optional_text(args);
    if abi_path.as_str().is_empty() {
        return Err(ElicitError::EmptyField);
    }
    Ok(Command::ViewCall { address, function, args, abi_path })
}

/// Builds `Call` from the raw answers, in prompt order.
pub fn call(
    address: String,
    function: String,
    args: String,
    abi_path: String,
    value: String,
    aurora_secret_key: String,
) -> (r: Result<Command, ElicitError>)
    ensures
        r is Ok <==> address@.len() > 0 && function@.len() > 0 && abi_path@.len() > 0,
        match r {
            Ok(
                Command::Call {
                    address: address_v,
                    function: function_v,
                    args: args_v,
                    abi_path: abi_path_v,
                    value: value_v,
                    aurora_secret_key: aurora_secret_key_v,
                },
            ) => {
                &&& address_v@ == address@
                &&& function_v@ == function@
                &&& opt_view(args_v) == optional_text(args@)
                &&& abi_path_v@ == abi_path@
                &&& opt_view(value_v) == optional_text(value@)
                &&& opt_view(aurora_secret_key_v) == optional_text(aurora_secret_key@)
            },
            Ok(_) => false,
            Err(e) => {
                &&& address@.len() == 0 ==> e == ElicitError::EmptyField
                &&& address@.len() > 0 && function@.len() == 0 ==> e == ElicitError::EmptyField
                &&& address@.len() > 0 && function@.len() > 0 && abi_path@.len() == 0
                    ==> e == ElicitError::EmptyField
            },
        },
{
    if address.as_str().is_empty() {
        return Err(ElicitError::EmptyField);
    }
    if function.as_str().is_empty() {
        return Err(ElicitError::EmptyField);
    }
    let args = normalize_optional_text(args);
    if abi_path.as_str().is_empty() {
        return Err(ElicitError::EmptyField);
    }
    let value = normalize_optional_text(value);
    let aurora_secret_key = normalize_optional_text(aurora_secret_key);
    Ok(Command::Call { address, function, args, abi_path, value, aurora_secret_key })
}

/// Builds `EncodeAddress` from the raw answers, in prompt order.
pub fn encode_address(account: String) -> (r: Result<Command, ElicitError>)
    ensures
        r is Ok <==> account@.len() > 0,
        match r {
            Ok(Command::EncodeAddress { account: account_v }) => {
                &&& account_v@ == account@
            },
            Ok(_) => false,
            Err(e) => {
                &&& account@.len() == 0 ==> e == ElicitError::EmptyField
            },
        },
{
    if account.as_str().is_empty() {
        return Err(ElicitError::EmptyField);
    }
    Ok(Command::EncodeAddress { account })
}
/// Builds `KeyPair`: with `random` set the seed is absent and `seed` is not read;
/// otherwise `seed` must be a `u64`.
pub fn key_pair(random: bool, seed: &str) -> (r: Result<Command, ElicitError>)
    ensures
        r is Ok <==> random || unsigned_value(seed@, u64::MAX as nat) is Some,
        match r {
            Ok(Command::KeyPair { random: random_v, seed: seed_v }) => {
                &&& random_v == random
                &&& random ==> seed_v is None
                &&& !random ==> opt_nat(seed_v) == unsigned_value(seed@, u64::MAX as nat)
            },
            Ok(_) => false,
            Err(e) => e == ElicitError::NotANumber,
        },
{
    if random {
        return Ok(Command::KeyPair { random, seed: None });
    }
    match parse_u64(seed) {
        Some(v) => Ok(Command::KeyPair { random, seed: Some(v) }),
        None => Err(ElicitError::NotANumber),
    }
}

/// A raw answer to one prompt.
#[derive(Clone, Debug, PartialEq, Eq)]
pub enum Answer {
    /// A line of text, as the prompt layer handed it over.
    Text(String),
    /// A yes/no confirmation.
    Flag(bool),
}

/// What a prompt asks for, and how its answer is validated.
#[derive(Clone, Copy, Debug, PartialEq, Eq, Structural)]
pub enum Shape {
    /// Required non-empty text.
    Text,
    /// Optional text: empty means absent.
    OptionalText,
    /// Required `u64`.
    U64,
    /// Required `u32`.
    U32,
    /// Optional `u64`: text that does not parse means absent.
    OptionalU64,
    /// Required finite decimal amount.
    Amount,
    /// Yes/no confirmation.
    Flag,
}

/// One prompt of an elicitation.
#[derive(Clone, Copy, Debug)]
pub struct Prompt {
    pub label: &'static str,
    pub shape: Shape,
}

/// Whether an answer is acceptable for a prompt of the given shape.
pub open spec fn answer_ok(shape: Shape, a: Answer) -> bool {
    match (shape, a) {
        (Shape::Flag, Answer::Flag(_)) => true,
        (Shape::Flag, Answer::Text(_)) => false,
        (_, Answer::Flag(_)) => false,
        (Shape::Text, Answer::Text(s)) => s@.len() > 0,
        (Shape::U64, Answer::Text(s)) => unsigned_value(s@, u64::MAX as nat) is Some,
        (Shape::U32, Answer::Text(s)) => unsigned_value(s@, u32::MAX as nat) is Some,
        (Shape::Amount, Answer::Text(s)) => is_amount_text(s@),
        (_, Answer::Text(_)) => true,
    }
}

/// The prompts of each kind, in order. For `KeyPair` the seed prompt is issued
/// only when a random key pair was declined.
pub open spec fn shapes(k: CommandKind) -> Seq<Shape> {
    match k {
        CommandKind::CreateAccount => seq![Shape::Text, Shape::Amount],
        CommandKind::ViewAccount => seq![Shape::Text],
        CommandKind::DeployAurora => seq![Shape::Text],
        CommandKind::Init => seq![
            Shape::U64,
            Shape::OptionalText,
            Shape::OptionalText,
            Shape::OptionalU64,
            Shape::OptionalText,
            Shape::OptionalText,
        ],
        CommandKind::GetChainId => seq![],
        CommandKind::GetNonce => seq![Shape::Text],
        CommandKind::GetBlockHash => seq![Shape::U64],
        CommandKind::GetCode => seq![Shape::Text],
        CommandKind::GetBalance => seq![Shape::Text],
        CommandKind::GetUpgradeIndex => seq![],
        CommandKind::GetVersion => seq![],
        CommandKind::GetOwner => seq![],
        CommandKind::SetOwner => seq![Shape::Text],
        CommandKind::GetBridgeProver => seq![],
        CommandKind::GetStorageAt => seq![Shape::Text, Shape::Text],
        CommandKind::RegisterRelayer => seq![Shape::Text],
        CommandKind::PausePrecompiles => seq![Shape::U32],
        CommandKind::ResumePrecompiles => seq![Shape::U32],
        CommandKind::PausedPrecompiles => seq![],
        CommandKind::FactoryUpdate => seq![Shape::Text],
        CommandKind::FactorySetWnearAddress => seq![Shape::Text],
        CommandKind::FundXccSubAccount => seq![Shape::Text, Shape::OptionalText, Shape::Amount],
        CommandKind::StageUpgrade => seq![Shape::Text],
        CommandKind::DeployUpgrade => seq![],
        CommandKind::Deploy => seq![
            Shape::Text,
            Shape::OptionalText,
            Shape::OptionalText,
            Shape::OptionalText,
        ],
        CommandKind::ViewCall => seq![Shape::Text, Shape::Text, Shape::OptionalText, Shape::Text],
        CommandKind::Call => seq![
            Shape::Text,
            Shape::Text,
            Shape::OptionalText,
            Shape::Text,
            Shape::OptionalText,
            Shape::OptionalText,
        ],
        CommandKind::EncodeAddress => seq![Shape::Text],
        CommandKind::KeyPair => seq![Shape::Flag, Shape::U64],
    }
}

/// How many prompts an elicitation of `k` issues, given the answers so far.
pub open spec fn prompt_count(k: CommandKind, ans: Seq<Answer>) -> nat {
    if k == CommandKind::KeyPair && ans.len() > 0 && ans[0] == Answer::Flag(true) {
        1
    } else {
        shapes(k).len()
    }
}

/// Whether a full list of answers is accepted for `k`.
pub open spec fn answers_ok(k: CommandKind, ans: Seq<Answer>) -> bool {
    ans.len() == prompt_count(k, ans) && forall|i: int|
        0 <= i < ans.len() ==> answer_ok(#[trigger] shapes(k)[i], ans[i])
}

/// The text of an answer; a confirmation has none.
pub open spec fn text_view(a: Answer) -> Seq<char> {
    match a {
        Answer::Text(s) => s@,
        Answer::Flag(_) => seq![],
    }
}

/// Each field of `c` is what its answer in `ans` (in prompt order) gives.
pub open spec fn command_matches(c: Command, ans: Seq<Answer>) -> bool {
    match c {
        Command::CreateAccount { account, balance } => {
            &&& account@ == text_view(ans[0])
            &&& balance@ == text_view(ans[1])
        },
        Command::ViewAccount { account } => {
            &&& account@ == text_view(ans[0])
        },
        Command::DeployAurora { path } => {
            &&& path@ == text_view(ans[0])
        },
        Command::Init {
            chain_id,
            owner_id,
            bridge_prover_id,
            upgrade_delay_blocks,
            custodian_address,
            ft_metadata_path,
        } => {
            &&& unsigned_value(text_view(ans[0]), u64::MAX as nat) == Some(chain_id as nat)
            &&& opt_view(owner_id) == optional_text(text_view(ans[1]))
            &&& opt_view(bridge_prover_id) == optional_text(text_view(ans[2]))
            &&& opt_nat(upgrade_delay_blocks) == unsigned_value(text_view(ans[3]), u64::MAX as nat)
            &&& opt_view(custodian_address) == optional_text(text_view(ans[4]))
            &&& opt_view(ft_metadata_path) == optional_text(text_view(ans[5]))
        },
        Command::GetChainId => true,
        Command::GetNonce { address } => {
            &&& address@ == text_view(ans[0])
        },
        Command::GetBlockHash { height } => {
            &&& unsigned_value(text_view(ans[0]), u64::MAX as nat) == Some(height as nat)
        },
        Command::GetCode { address } => {
            &&& address@ == text_view(ans[0])
        },
        Command::GetBalance { address } => {
            &&& address@ == text_view(ans[0])
        },
        Command::GetUpgradeIndex => true,
        Command::GetVersion => true,
        Command::GetOwner => true,
        Command::SetOwner { account_id } => {
            &&& account_id@ == text_view(ans[0])
        },
        Command::GetBridgeProver => true,
        Command::GetStorageAt { address, key } => {
            &&& address@ == text_view(ans[0])
            &&& key@ == text_view(ans[1])
        },
        Command::RegisterRelayer { address } => {
            &&& address@ == text_view(ans[0])
        },
        Command::PausePrecompiles { mask } => {
            &&& unsigned_value(text_view(ans[0]), u32::MAX as nat) == Some(mask as nat)
        },
        Command::ResumePrecompiles { mask } => {
            &&& unsigned_value(text_view(ans[0]), u32::MAX as nat) == Some(mask as nat)
        },
        Command::PausedPrecompiles => true,
        Command::FactoryUpdate { path } => {
            &&& path@ == text_view(ans[0])
        },
        Command::FactorySetWnearAddress { address } => {
            &&& address@ == text_view(ans[0])
        },
        Command::FundXccSubAccount { target, wnear_account_id, deposit } => {
            &&& target@ == text_view(ans[0])
            &&& opt_view(wnear_account_id) == optional_text(text_view(ans[1]))
            &&& deposit@ == text_view(ans[2])
        },
        Command::StageUpgrade { path } => {
            &&& path@ == text_view(ans[0])
        },
        Command::DeployUpgrade => true,
        Command::Deploy { code, args, abi_path, aurora_secret_key } => {
            &&& code@ == text_view(ans[0])
            &&& opt_view(args) == optional_text(text_view(ans[1]))
            &&& opt_view(abi_path) == optional_text(text_view(ans[2]))
            &&& opt_view(aurora_secret_key) == optional_text(text_view(ans[3]))
        },
        Command::ViewCall { address, function, args, abi_path } => {
            &&& address@ == text_view(ans[0])
            &&& function@ == text_view(ans[1])
            &&& opt_view(args) == optional_text(text_view(ans[2]))
            &&& abi_path@ == text_view(ans[3])
        },
        Command::Call { address, function, args, abi_path, value, aurora_secret_key } => {
            &&& address@ == text_view(ans[0])
            &&& function@ == text_view(ans[1])
            &&& opt_view(args) == optional_text(text_view(ans[2]))
            &&& abi_path@ == text_view(ans[3])
            &&& opt_view(value) == optional_text(text_view(ans[4]))
            &&& opt_view(aurora_secret_key) == optional_text(text_view(ans[5]))
        },
        Command::EncodeAddress { account } => {
            &&& account@ == text_view(ans[0])
        },
        Command::KeyPair { random, seed } => {
            &&& ans[0] == Answer::Flag(random)
            &&& random ==> seed is None
            &&& !random ==> opt_nat(seed) == unsigned_value(text_view(ans[1]), u64::MAX as nat)
        },
    }
}

/// The prompts of `k`, in order.
#[verifier::rlimit(100)]
pub fn prompts(k: CommandKind) -> (r: Vec<Prompt>)
    ensures
        r@.len() == shapes(k).len(),
        forall|i: int| 0 <= i < r@.len() ==> (#[trigger] r@[i]).shape == shapes(k)[i],
{
    let mut r: Vec<Prompt> = Vec::new();
    match k {
        CommandKind::CreateAccount => {
            r.push(Prompt { label: "Please enter the account", shape: Shape::Text });
            r.push(Prompt { label: "Please enter the balance", shape: Shape::Amount });
        },
        CommandKind::ViewAccount => {
            r.push(Prompt { label: "Please enter the account", shape: Shape::Text });
        },
        CommandKind::DeployAurora => {
            r.push(Prompt { label: "Please enter the path to the WASM file", shape: Shape::Text });
        },
        CommandKind::Init => {
            r.push(Prompt { label: "Please enter the chain ID", shape: Shape::U64 });
            r.push(
                Prompt {
                    label: "Please enter the owner ID (optional)",
                    shape: Shape::OptionalText,
                },
            );
            r.push(
                Prompt {
                    label: "Please enter the bridge prover ID (optional)",
                    shape: Shape::OptionalText,
                },
            );
            r.push(
                Prompt {
                    label: "Please enter the upgrade delay blocks (optional)",
                    shape: Shape::OptionalU64,
                },
            );
            r.push(
                Prompt {
                    label: "Please enter the custodian address (optional)",
                    shape: Shape::OptionalText,
                },
            );
            r.push(
                Prompt {
                    label: "Please enter the FT metadata path (optional)",
                    shape: Shape::OptionalText,
                },
            );
        },
        CommandKind::GetChainId => {
        },
        CommandKind::GetNonce => {
            r.push(Prompt { label: "Please enter the address", shape: Shape::Text });
        },
        CommandKind::GetBlockHash => {
            r.push(Prompt { label: "Please enter the block height", shape: Shape::U64 });
        },
        CommandKind::GetCode => {
            r.push(Prompt { label: "Please enter the address", shape: Shape::Text });
        },
        CommandKind::GetBalance => {
            r.push(Prompt { label: "Please enter the address", shape: Shape::Text });
        },
        CommandKind::GetUpgradeIndex => {
        },
        CommandKind::GetVersion => {
        },
        CommandKind::GetOwner => {
        },
        CommandKind::SetOwner => {
            r.push(Prompt { label: "Please enter the account ID", shape: Shape::Text });
        },
        CommandKind::GetBridgeProver => {
        },
        CommandKind::GetStorageAt => {
            r.push(Prompt { label: "Please enter the address", shape: Shape::Text });
            r.push(Prompt { label: "Please enter the key", shape: Shape::Text });
        },
        CommandKind::RegisterRelayer => {
            r.push(Prompt { label: "Please enter the address", shape: Shape::Text });
        },
        CommandKind::PausePrecompiles => {
            r.push(Prompt { label: "Please enter the mask", shape: Shape::U32 });
        },
        CommandKind::ResumePrecompiles => {
            r.push(Prompt { label: "Please enter the mask", shape: Shape::U32 });
        },
        CommandKind::PausedPrecompiles => {
        },
        CommandKind::FactoryUpdate => {
            r.push(
                Prompt {
                    label: "Please enter the path to the update file",
                    shape: Shape::Text,
                },
            );
        },
        CommandKind::FactorySetWnearAddress => {
            r.push(Prompt { label: "Please enter the WNEAR address", shape: Shape::Text });
        },
        CommandKind::FundXccSubAccount => {
            r.push(Prompt { label: "Please enter the target account", shape: Shape::Text });
            r.push(
                Prompt {
                    label: "Please enter the WNEAR account ID (optional)",
                    shape: Shape::OptionalText,
                },
            );
            r.push(Prompt { label: "Please enter the deposit amount", shape: Shape::Amount });
        },
        CommandKind::StageUpgrade => {
            r.push(
                Prompt {
                    label: "Please enter the path to the upgrade file",
                    shape: Shape::Text,
                },
            );
        },
        CommandKind::DeployUpgrade => {
        },
        CommandKind::Deploy => {
            r.push(Prompt { label: "Please enter the code", shape: Shape::Text });
            r.push(
                Prompt {
                    label: "Please enter the arguments (optional)",
                    shape: Shape::OptionalText,
                },
            );
            r.push(
                Prompt {
                    label: "Please enter the ABI path (optional)",
                    shape: Shape::OptionalText,
                },
            );
            r.push(
                Prompt {
                    label: "Please enter the Aurora secret key (optional)",
                    shape: Shape::OptionalText,
                },
            );
        },
        CommandKind::ViewCall => {
            r.push(Prompt { label: "Please enter the address", shape: Shape::Text });
            r.push(Prompt { label: "Please enter the function", shape: Shape::Text });
            r.push(
                Prompt {
                    label: "Please enter the arguments (optional)",
                    shape: Shape::OptionalText,
                },
            );
            r.push(Prompt { label: "Please enter the ABI path", shape: Shape::Text });
        },
        CommandKind::Call => {
            r.push(Prompt { label: "Please enter the address", shape: Shape::Text });
            r.push(Prompt { label: "Please enter the function", shape: Shape::Text });
            r.push(
                Prompt {
                    label: "Please enter the arguments (optional)",
                    shape: Shape::OptionalText,
                },
            );
            r.push(Prompt { label: "Please enter the ABI path", shape: Shape::Text });
            r.push(
                Prompt {
                    label: "Please enter the value (optional)",
                    shape: Shape::OptionalText,
                },
            );
            r.push(
                Prompt {
                    label: "Please enter the Aurora secret key (optional)",
                    shape: Shape::OptionalText,
                },
            );
        },
        CommandKind::EncodeAddress => {
            r.push(Prompt { label: "Please enter the account", shape: Shape::Text });
        },
        CommandKind::KeyPair => {
            r.push(Prompt { label: "Generate a random key pair?", shape: Shape::Flag });
            r.push(Prompt { label: "Please enter the seed", shape: Shape::U64 });
        },
    }
    assert(r@.len() == shapes(k).len());
    r
}

/// The next prompt to issue for `k` after `answers`, or `None` when all are answered.
pub fn next_prompt(k: CommandKind, answers: &Vec<Answer>) -> (r: Option<Prompt>)
    ensures
        r is None <==> answers@.len() >= prompt_count(k, answers@),
        r is Some ==> r->0.shape == shapes(k)[answers@.len() as int],
{
    let all = prompts(k);
    if k == CommandKind::KeyPair && answers.len() > 0 {
        match &answers[0] {
            Answer::Flag(true) => return None,
            _ => {},
        }
    }
    if answers.len() < all.len() {
        Some(all[answers.len()])
    } else {
        None
    }
}

/// The text of an answer, or `None` for a confirmation.
fn text_of(a: &Answer) -> (r: Option<String>)
    ensures
        match (r, *a) {
            (Some(s), Answer::Text(t)) => s@ == t@,
            (None, Answer::Flag(_)) => true,
            _ => false,
        },
{
    match a {
        Answer::Text(s) => Some(s.clone()),
        Answer::Flag(_) => None,
    }
}

/// Runs the elicitor of `k` on a full list of answers: the command exactly when
/// every answer is acceptable, of kind `k`, each field taken from its answer.
pub fn elicit(k: CommandKind, answers: &Vec<Answer>) -> (r: Result<Command, ElicitError>)
    ensures
        r is Ok <==> answers_ok(k, answers@),
        r is Ok ==> command_kind(r->Ok_0) == k && command_matches(r->Ok_0, answers@),
{
    let ghost ans = answers@;
    match k {
        CommandKind::CreateAccount => {
            if answers.len() != 2 {
                return Err(ElicitError::AnswersMismatch);
            }
            let account = match text_of(&answers[0]) {
                Some(s) => s,
                None => {
                    assert(!answer_ok(shapes(k)[0], ans[0]));
                    return Err(ElicitError::AnswersMismatch);
                },
            };
            let balance = match text_of(&answers[1]) {
                Some(s) => s,
                None => {
                    assert(!answer_ok(shapes(k)[1], ans[1]));
                    return Err(ElicitError::AnswersMismatch);
                },
            };
            let r = create_account(account, balance);
            proof {
                if r is Ok {
                    assert forall|i: int| 0 <= i < ans.len() implies answer_ok(
                        #[trigger] shapes(k)[i],
                        ans[i],
                    ) by {
                        assert(i == 0 || i == 1);
                    }
                } else {
                    assert(!answer_ok(shapes(k)[0], ans[0]) || !answer_ok(shapes(k)[1], ans[1]));
                }
            }
            r
        },
        CommandKind::ViewAccount => {
            if answers.len() != 1 {
                return Err(ElicitError::AnswersMismatch);
            }
            let account = match text_of(&answers[0]) {
                Some(s) => s,
                None => {
                    assert(!answer_ok(shapes(k)[0], ans[0]));
                    return Err(ElicitError::AnswersMismatch);
                },
            };
            let r = view_account(account);
            proof {
                if r is Ok {
                    assert forall|i: int| 0 <= i < ans.len() implies answer_ok(
                        #[trigger] shapes(k)[i],
                        ans[i],
                    ) by {
                        assert(i == 0);
                    }
                } else {
                    assert(!answer_ok(shapes(k)[0], ans[0]));
                }
            }
            r
        },
        CommandKind::DeployAurora => {
            if answers.len() != 1 {
                return Err(ElicitError::AnswersMismatch);
            }
            let path = match text_of(&answers[0]) {
                Some(s) => s,
                None => {
                    assert(!answer_ok(shapes(k)[0], ans[0]));
                    return Err(ElicitError::AnswersMismatch);
                },
            };
            let r = deploy_aurora(path);
            proof {
                if r is Ok {
                    assert forall|i: int| 0 <= i < ans.len() implies answer_ok(
                        #[trigger] shapes(k)[i],
                        ans[i],
                    ) by {
                        assert(i == 0);
                    }
                } else {
                    assert(!answer_ok(shapes(k)[0], ans[0]));
                }
            }
            r
        },
        CommandKind::Init => {
            if answers.len() != 6 {
                return Err(ElicitError::AnswersMismatch);
            }
            let chain_id = match text_of(&answers[0]) {
                Some(s) => s,
                None => {
                    assert(!answer_ok(shapes(k)[0], ans[0]));
                    return Err(ElicitError::AnswersMismatch);
                },
            };
            let owner_id = match text_of(&answers[1]) {
                Some(s) => s,
                None => {
                    assert(!answer_ok(shapes(k)[1], ans[1]));
                    return Err(ElicitError::AnswersMismatch);
                },
            };
            let bridge_prover_id = match text_of(&answers[2]) {
                Some(s) => s,
                None => {
                    assert(!answer_ok(shapes(k)[2], ans[2]));
                    return Err(ElicitError::AnswersMismatch);
                },
            };
            let upgrade_delay_blocks = match text_of(&answers[3]) {
                Some(s) => s,
                None => {
                    assert(!answer_ok(shapes(k)[3], ans[3]));
                    return Err(ElicitError::AnswersMismatch);
                },
            };
            let custodian_address = match text_of(&answers[4]) {
                Some(s) => s,
                None => {
                    assert(!answer_ok(shapes(k)[4], ans[4]));
                    return Err(ElicitError::AnswersMismatch);
                },
            };
            let ft_metadata_path = match text_of(&answers[5]) {
                Some(s) => s,
                None => {
                    assert(!answer_ok(shapes(k)[5], ans[5]));
                    return Err(ElicitError::AnswersMismatch);
                },
            };
            let r = init(
                chain_id.as_str(),
                owner_id,
                bridge_prover_id,
                upgrade_delay_blocks.as_str(),
                custodian_address,
                ft_metadata_path,
            );
            proof {
                if r is Ok {
                    assert forall|i: int| 0 <= i < ans.len() implies answer_ok(
                        #[trigger] shapes(k)[i],
                        ans[i],
                    ) by {
                        assert(i == 0 || i == 1 || i == 2 || i == 3 || i == 4 || i == 5);
                    }
                } else {
                    assert(!answer_ok(shapes(k)[0], ans[0])
                        || !answer_ok(shapes(k)[1], ans[1])
                        || !answer_ok(shapes(k)[2], ans[2])
                        || !answer_ok(shapes(k)[3], ans[3])
                        || !answer_ok(shapes(k)[4], ans[4])
                        || !answer_ok(shapes(k)[5], ans[5]));
                }
            }
            r
        },
        CommandKind::GetChainId => {
            if answers.len() != 0 {
                return Err(ElicitError::AnswersMismatch);
            }
            let r = get_chain_id();
            let r: Result<Command, ElicitError> = Ok(r);
            r
        },
        CommandKind::GetNonce => {
            if answers.len() != 1 {
                return Err(ElicitError::AnswersMismatch);
            }
            let address = match text_of(&answers[0]) {
                Some(s) => s,
                None => {
                    assert(!answer_ok(shapes(k)[0], ans[0]));
                    return Err(ElicitError::AnswersMismatch);
                },
            };
            let r = get_nonce(address);
            proof {
                if r is Ok {
                    assert forall|i: int| 0 <= i < ans.len() implies answer_ok(
                        #[trigger] shapes(k)[i],
                        ans[i],
                    ) by {
                        assert(i == 0);
                    }
                } else {
                    assert(!answer_ok(shapes(k)[0], ans[0]));
                }
            }
            r
        },
        CommandKind::GetBlockHash => {
            if answers.len() != 1 {
                return Err(ElicitError::AnswersMismatch);
            }
            let height = match text_of(&answers[0]) {
                Some(s) => s,
                None => {
                    assert(!answer_ok(shapes(k)[0], ans[0]));
                    return Err(ElicitError::AnswersMismatch);
                },
            };
            let r = get_block_hash(height.as_str());
            proof {
                if r is Ok {
                    assert forall|i: int| 0 <= i < ans.len() implies answer_ok(
                        #[trigger] shapes(k)[i],
                        ans[i],
                    ) by {
                        assert(i == 0);
                    }
                } else {
                    assert(!answer_ok(shapes(k)[0], ans[0]));
                }
            }
            r
        },
        CommandKind::GetCode => {
            if answers.len() != 1 {
                return Err(ElicitError::AnswersMismatch);
            }
            let address = match text_of(&answers[0]) {
                Some(s) => s,
                None => {
                    assert(!answer_ok(shapes(k)[0], ans[0]));
                    return Err(ElicitError::AnswersMismatch);
                },
            };
            let r = get_code(address);
            proof {
                if r is Ok {
                    assert forall|i: int| 0 <= i < ans.len() implies answer_ok(
                        #[trigger] shapes(k)[i],
                        ans[i],
                    ) by {
                        assert(i == 0);
                    }
                } else {
                    assert(!answer_ok(shapes(k)[0], ans[0]));
                }
            }
            r
        },
        CommandKind::GetBalance => {
            if answers.len() != 1 {
                return Err(ElicitError::AnswersMismatch);
            }
            let address = match text_of(&answers[0]) {
                Some(s) => s,
                None => {
                    assert(!answer_ok(shapes(k)[0], ans[0]));
                    return Err(ElicitError::AnswersMismatch);
                },
            };
            let r = get_balance(address);
            proof {
                if r is Ok {
                    assert forall|i: int| 0 <= i < ans.len() implies answer_ok(
                        #[trigger] shapes(k)[i],
                        ans[i],
                    ) by {
                        assert(i == 0);
                    }
                } else {
                    assert(!answer_ok(shapes(k)[0], ans[0]));
                }
            }
            r
        },
        CommandKind::GetUpgradeIndex => {
            if answers.len() != 0 {
                return Err(ElicitError::AnswersMismatch);
            }
            let r = get_upgrade_index();
            let r: Result<Command, ElicitError> = Ok(r);
            r
        },
        CommandKind::GetVersion => {
            if answers.len() != 0 {
                return Err(ElicitError::AnswersMismatch);
            }
            let r = get_version();
            let r: Result<Command, ElicitError> = Ok(r);
            r
        },
        CommandKind::GetOwner => {
            if answers.len() != 0 {
                return Err(ElicitError::AnswersMismatch);
            }
            let r = get_owner();
            let r: Result<Command, ElicitError> = Ok(r);
            r
        },
        CommandKind::SetOwner => {
            if answers.len() != 1 {
                return Err(ElicitError::AnswersMismatch);
            }
            let account_id = match text_of(&answers[0]) {
                Some(s) => s,
                None => {
                    assert(!answer_ok(shapes(k)[0], ans[0]));
                    return Err(ElicitError::AnswersMismatch);
                },
            };
            let r = set_owner(account_id);
            proof {
                if r is Ok {
                    assert forall|i: int| 0 <= i < ans.len() implies answer_ok(
                        #[trigger] shapes(k)[i],
                        ans[i],
                    ) by {
                        assert(i == 0);
                    }
                } else {
                    assert(!answer_ok(shapes(k)[0], ans[0]));
                }
            }
            r
        },
        CommandKind::GetBridgeProver => {
            if answers.len() != 0 {
                return Err(ElicitError::AnswersMismatch);
            }
            let r = get_bridge_prover();
            let r: Result<Command, ElicitError> = Ok(r);
            r
        },
        CommandKind::GetStorageAt => {
            if answers.len() != 2 {
                return Err(ElicitError::AnswersMismatch);
            }
            let address = match text_of(&answers[0]) {
                Some(s) => s,
                None => {
                    assert(!answer_ok(shapes(k)[0], ans[0]));
                    return Err(ElicitError::AnswersMismatch);
                },
            };
            let key = match text_of(&answers[1]) {
                Some(s) => s,
                None => {
                    assert(!answer_ok(shapes(k)[1], ans[1]));
                    return Err(ElicitError::AnswersMismatch);
                },
            };
            let r = get_storage_at(address, key);
            proof {
                if r is Ok {
                    assert forall|i: int| 0 <= i < ans.len() implies answer_ok(
                        #[trigger] shapes(k)[i],
                        ans[i],
                    ) by {
                        assert(i == 0 || i == 1);
                    }
                } else {
                    assert(!answer_ok(shapes(k)[0], ans[0]) || !answer_ok(shapes(k)[1], ans[1]));
                }
            }
            r
        },
        CommandKind::RegisterRelayer => {
            if answers.len() != 1 {
                return Err(ElicitError::AnswersMismatch);
            }
            let address = match text_of(&answers[0]) {
                Some(s) => s,
                None => {
                    assert(!answer_ok(shapes(k)[0], ans[0]));
                    return Err(ElicitError::AnswersMismatch);
                },
            };
            let r = register_relayer(address);
            proof {
                if r is Ok {
                    assert forall|i: int| 0 <= i < ans.len() implies answer_ok(
                        #[trigger] shapes(k)[i],
                        ans[i],
                    ) by {
                        assert(i == 0);
                    }
                } else {
                    assert(!answer_ok(shapes(k)[0], ans[0]));
                }
            }
            r
        },
        CommandKind::PausePrecompiles => {
            if answers.len() != 1 {
                return Err(ElicitError::AnswersMismatch);
            }
            let mask = match text_of(&answers[0]) {
                Some(s) => s,
                None => {
                    assert(!answer_ok(shapes(k)[0], ans[0]));
                    return Err(ElicitError::AnswersMismatch);
                },
            };
            let r = pause_precompiles(mask.as_str());
            proof {
                if r is Ok {
                    assert forall|i: int| 0 <= i < ans.len() implies answer_ok(
                        #[trigger] shapes(k)[i],
                        ans[i],
                    ) by {
                        assert(i == 0);
                    }
                } else {
                    assert(!answer_ok(shapes(k)[0], ans[0]));
                }
            }
            r
        },
        CommandKind::ResumePrecompiles => {
            if answers.len() != 1 {
                return Err(ElicitError::AnswersMismatch);
            }
            let mask = match text_of(&answers[0]) {
                Some(s) => s,
                None => {
                    assert(!answer_ok(shapes(k)[0], ans[0]));
                    return Err(ElicitError::AnswersMismatch);
                },
            };
            let r = resume_precompiles(mask.as_str());
            proof {
                if r is Ok {
                    assert forall|i: int| 0 <= i < ans.len() implies answer_ok(
                        #[trigger] shapes(k)[i],
                        ans[i],
                    ) by {
                        assert(i == 0);
                    }
                } else {
                    assert(!answer_ok(shapes(k)[0], ans[0]));
                }
            }
            r
        },
        CommandKind::PausedPrecompiles => {
            if answers.len() != 0 {
                return Err(ElicitError::AnswersMismatch);
            }
            let r = paused_precompiles();
            let r: Result<Command, ElicitError> = Ok(r);
            r
        },
        CommandKind::FactoryUpdate => {
            if answers.len() != 1 {
                return Err(ElicitError::AnswersMismatch);
            }
            let path = match text_of(&answers[0]) {
                Some(s) => s,
                None => {
                    assert(!answer_ok(shapes(k)[0], ans[0]));
                    return Err(ElicitError::AnswersMismatch);
                },
            };
            let r = factory_update(path);
            proof {
                if r is Ok {
                    assert forall|i: int| 0 <= i < ans.len() implies answer_ok(
                        #[trigger] shapes(k)[i],
                        ans[i],
                    ) by {
                        assert(i == 0);
                    }
                } else {
                    assert(!answer_ok(shapes(k)[0], ans[0]));
                }
            }
            r
        },
        CommandKind::FactorySetWnearAddress => {
            if answers.len() != 1 {
                return Err(ElicitError::AnswersMismatch);
            }
            let address = match text_of(&answers[0]) {
                Some(s) => s,
                None => {
                    assert(!answer_ok(shapes(k)[0], ans[0]));
                    return Err(ElicitError::AnswersMismatch);
                },
            };
            let r = factory_set_wnear_address(address);
            proof {
                if r is Ok {
                    assert forall|i: int| 0 <= i < ans.len() implies answer_ok(
                        #[trigger] shapes(k)[i],
                        ans[i],
                    ) by {
                        assert(i == 0);
                    }
                } else {
                    assert(!answer_ok(shapes(k)[0], ans[0]));
                }
            }
            r
        },
        CommandKind::FundXccSubAccount => {
            if answers.len() != 3 {
                return Err(ElicitError::AnswersMismatch);
            }
            let target = match text_of(&answers[0]) {
                Some(s) => s,
                None => {
                    assert(!answer_ok(shapes(k)[0], ans[0]));
                    return Err(ElicitError::AnswersMismatch);
                },
            };
            let wnear_account_id = match text_of(&answers[1]) {
                Some(s) => s,
                None => {
                    assert(!answer_ok(shapes(k)[1], ans[1]));
                    return Err(ElicitError::AnswersMismatch);
                },
            };
            let deposit = match text_of(&answers[2]) {
                Some(s) => s,
                None => {
                    assert(!answer_ok(shapes(k)[2], ans[2]));
                    return Err(ElicitError::AnswersMismatch);
                },
            };
            let r = fund_xcc_sub_account(target, wnear_account_id, deposit);
            proof {
                if r is Ok {
                    assert forall|i: int| 0 <= i < ans.len() implies answer_ok(
                        #[trigger] shapes(k)[i],
                        ans[i],
                    ) by {
                        assert(i == 0 || i == 1 || i == 2);
                    }
                } else {
                    assert(!answer_ok(shapes(k)[0], ans[0])
                        || !answer_ok(shapes(k)[1], ans[1])
                        || !answer_ok(shapes(k)[2], ans[2]));
                }
            }
            r
        },
        CommandKind::StageUpgrade => {
            if answers.len() != 1 {
                return Err(ElicitError::AnswersMismatch);
            }
            let path = match text_of(&answers[0]) {
                Some(s) => s,
                None => {
                    assert(!answer_ok(shapes(k)[0], ans[0]));
                    return Err(ElicitError::AnswersMismatch);
                },
            };
            let r = stage_upgrade(path);
            proof {
                if r is Ok {
                    assert forall|i: int| 0 <= i < ans.len() implies answer_ok(
                        #[trigger] shapes(k)[i],
                        ans[i],
                    ) by {
                        assert(i == 0);
                    }
                } else {
                    assert(!answer_ok(shapes(k)[0], ans[0]));
                }
            }
            r
        },
        CommandKind::DeployUpgrade => {
            if answers.len() != 0 {
                return Err(ElicitError::AnswersMismatch);
            }
            let r = deploy_upgrade();
            let r: Result<Command, ElicitError> = Ok(r);
            r
        },
        CommandKind::Deploy => {
            if answers.len() != 4 {
                return Err(ElicitError::AnswersMismatch);
            }
            let code = match text_of(&answers[0]) {
                Some(s) => s,
                None => {
                    assert(!answer_ok(shapes(k)[0], ans[0]));
                    return Err(ElicitError::AnswersMismatch);
                },
            };
            let args = match text_of(&answers[1]) {
                Some(s) => s,
                None => {
                    assert(!answer_ok(shapes(k)[1], ans[1]));
                    return Err(ElicitError::AnswersMismatch);
                },
            };
            let abi_path = match text_of(&answers[2]) {
                Some(s) => s,
                None => {
                    assert(!answer_ok(shapes(k)[2], ans[2]));
                    return Err(ElicitError::AnswersMismatch);
                },
            };
            let aurora_secret_key = match text_of(&answers[3]) {
                Some(s) => s,
                None => {
                    assert(!answer_ok(shapes(k)[3], ans[3]));
                    return Err(ElicitError::AnswersMismatch);
                },
            };
            let r = deploy(code, args, abi_path, aurora_secret_key);
            proof {
                if r is Ok {
                    assert forall|i: int| 0 <= i < ans.len() implies answer_ok(
                        #[trigger] shapes(k)[i],
                        ans[i],
                    ) by {
                        assert(i == 0 || i == 1 || i == 2 || i == 3);
                    }
                } else {
                    assert(!answer_ok(shapes(k)[0], ans[0])
                        || !answer_ok(shapes(k)[1], ans[1])
                        || !answer_ok(shapes(k)[2], ans[2])
                        || !answer_ok(shapes(k)[3], ans[3]));
                }
            }
            r
        },
        CommandKind::ViewCall => {
            if answers.len() != 4 {
                return Err(ElicitError::AnswersMismatch);
            }
            let address = match text_of(&answers[0]) {
                Some(s) => s,
                None => {
                    assert(!answer_ok(shapes(k)[0], ans[0]));
                    return Err(ElicitError::AnswersMismatch);
                },
            };
            let function = match text_of(&answers[1]) {
                Some(s) => s,
                None => {
                    assert(!answer_ok(shapes(k)[1], ans[1]));
                    return Err(ElicitError::AnswersMismatch);
                },
            };
            let args = match text_of(&answers[2]) {
                Some(s) => s,
                None => {
                    assert(!answer_ok(shapes(k)[2], ans[2]));
                    return Err(ElicitError::AnswersMismatch);
                },
            };
            let abi_path = match text_of(&answers[3]) {
                Some(s) => s,
                None => {
                    assert(!answer_ok(shapes(k)[3], ans[3]));
                    return Err(ElicitError::AnswersMismatch);
                },
            };
            let r = view_call(address, function, args, abi_path);
            proof {
                if r is Ok {
                    assert forall|i: int| 0 <= i < ans.len() implies answer_ok(
                        #[trigger] shapes(k)[i],
                        ans[i],
                    ) by {
                        assert(i == 0 || i == 1 || i == 2 || i == 3);
                    }
                } else {
                    assert(!answer_ok(shapes(k)[0], ans[0])
                        || !answer_ok(shapes(k)[1], ans[1])
                        || !answer_ok(shapes(k)[2], ans[2])
                        || !answer_ok(shapes(k)[3], ans[3]));
                }
            }
            r
        },
        CommandKind::Call => {
            if answers.len() != 6 {
                return Err(ElicitError::AnswersMismatch);
            }
            let address = match text_of(&answers[0]) {
                Some(s) => s,
                None => {
                    assert(!answer_ok(shapes(k)[0], ans[0]));
                    return Err(ElicitError::AnswersMismatch);
                },
            };
            let function = match text_of(&answers[1]) {
                Some(s) => s,
                None => {
                    assert(!answer_ok(shapes(k)[1], ans[1]));
                    return Err(ElicitError::AnswersMismatch);
                },
            };
            let args = match text_of(&answers[2]) {
                Some(s) => s,
                None => {
                    assert(!answer_ok(shapes(k)[2], ans[2]));
                    return Err(ElicitError::AnswersMismatch);
                },
            };
            let abi_path = match text_of(&answers[3]) {
                Some(s) => s,
                None => {
                    assert(!answer_ok(shapes(k)[3], ans[3]));
                    return Err(ElicitError::AnswersMismatch);
                },
            };
            let value = match text_of(&answers[4]) {
                Some(s) => s,
                None => {
                    assert(!answer_ok(shapes(k)[4], ans[4]));
                    return Err(ElicitError::AnswersMismatch);
                },
            };
            let aurora_secret_key = match text_of(&answers[5]) {
                Some(s) => s,
                None => {
                    assert(!answer_ok(shapes(k)[5], ans[5]));
                    return Err(ElicitError::AnswersMismatch);
                },
            };
            let r = call(address, function, args, abi_path, value, aurora_secret_key);
            proof {
                if r is Ok {
                    assert forall|i: int| 0 <= i < ans.len() implies answer_ok(
                        #[trigger] shapes(k)[i],
                        ans[i],
                    ) by {
                        assert(i == 0 || i == 1 || i == 2 || i == 3 || i == 4 || i == 5);
                    }
                } else {
                    assert(!answer_ok(shapes(k)[0], ans[0])
                        || !answer_ok(shapes(k)[1], ans[1])
                        || !answer_ok(shapes(k)[2], ans[2])
                        || !answer_ok(shapes(k)[3], ans[3])
                        || !answer_ok(shapes(k)[4], ans[4])
                        || !answer_ok(shapes(k)[5], ans[5]));
                }
            }
            r
        },
        CommandKind::EncodeAddress => {
            if answers.len() != 1 {
                return Err(ElicitError::AnswersMismatch);
            }
            let account = match text_of(&answers[0]) {
                Some(s) => s,
                None => {
                    assert(!answer_ok(shapes(k)[0], ans[0]));
                    return Err(ElicitError::AnswersMismatch);
                },
            };
            let r = encode_address(account);
            proof {
                if r is Ok {
                    assert forall|i: int| 0 <= i < ans.len() implies answer_ok(
                        #[trigger] shapes(k)[i],
                        ans[i],
                    ) by {
                        assert(i == 0);
                    }
                } else {
                    assert(!answer_ok(shapes(k)[0], ans[0]));
                }
            }
            r
        },
        CommandKind::KeyPair => {
            if answers.len() == 0 {
                return Err(ElicitError::AnswersMismatch);
            }
            let random = match &answers[0] {
                Answer::Flag(b) => *b,
                Answer::Text(_) => {
                    assert(!answer_ok(shapes(k)[0], ans[0]));
                    return Err(ElicitError::AnswersMismatch);
                },
            };
            if random {
                if answers.len() != 1 {
                    return Err(ElicitError::AnswersMismatch);
                }
                return key_pair(true, "");
            }
            if answers.len() != 2 {
                return Err(ElicitError::AnswersMismatch);
            }
            let seed = match text_of(&answers[1]) {
                Some(s) => s,
                None => {
                    assert(!answer_ok(shapes(k)[1], ans[1]));
                    return Err(ElicitError::AnswersMismatch);
                },
            };
            let r = key_pair(false, seed.as_str());
            assert(answer_ok(shapes(k)[0], ans[0]));
            proof {
                if r is Ok {
                    assert forall|i: int| 0 <= i < ans.len() implies answer_ok(
                        #[trigger] shapes(k)[i],
                        ans[i],
                    ) by {
                        assert(i == 0 || i == 1);
                    }
                } else {
                    assert(!answer_ok(shapes(k)[1], ans[1]));
                }
            }
            r
        },
    }
}

} // verus!
