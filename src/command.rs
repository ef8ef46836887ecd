use vstd::prelude::*;

verus! {

/// Number of command kinds, and of entries in the menu.
pub const KIND_COUNT: usize = 29;

/// An administrative request, fully elicited and validated.
///
/// Amounts are kept as the decimal text that was entered (see `is_amount_text`).
#[allow(inconsistent_fields)]
#[derive(Debug, Clone, PartialEq, Eq)]
pub enum Command {
    CreateAccount {
        account: String,
        balance: String,
    },
    ViewAccount {
        account: String,
    },
    DeployAurora {
        path: String,
    },
    Init {
        chain_id: u64,
        owner_id: Option<String>,
        bridge_prover_id: Option<String>,
        upgrade_delay_blocks: Option<u64>,
        custodian_address: Option<String>,
        ft_metadata_path: Option<String>,
    },
    GetChainId,
    GetNonce {
        address: String,
    },
    GetBlockHash {
        height: u64,
    },
    GetCode {
        address: String,
    },
    GetBalance {
        address: String,
    },
    GetUpgradeIndex,
    GetVersion,
    GetOwner,
    SetOwner {
        account_id: String,
    },
    GetBridgeProver,
    GetStorageAt {
        address: String,
        key: String,
    },
    RegisterRelayer {
        address: String,
    },
    PausePrecompiles {
        mask: u32,
    },
    ResumePrecompiles {
        mask: u32,
    },
    PausedPrecompiles,
    FactoryUpdate {
        path: String,
    },
    FactorySetWnearAddress {
        address: String,
    },
    FundXccSubAccount {
        target: String,
        wnear_account_id: Option<String>,
        deposit: String,
    },
    StageUpgrade {
        path: String,
    },
    DeployUpgrade,
    Deploy {
        code: String,
        args: Option<String>,
        abi_path: Option<String>,
        aurora_secret_key: Option<String>,
    },
    ViewCall {
        address: String,
        function: String,
        args: Option<String>,
        abi_path: String,
    },
    Call {
        address: String,
        function: String,
        args: Option<String>,
        abi_path: String,
        value: Option<String>,
        aurora_secret_key: Option<String>,
    },
    EncodeAddress {
        account: String,
    },
    KeyPair {
        random: bool,
        seed: Option<u64>,
    },
}

/// The kinds of command, in menu order.
#[derive(Clone, Copy, Debug, PartialEq, Eq, Structural)]
pub enum CommandKind {
    CreateAccount,
    ViewAccount,
    DeployAurora,
    Init,
    GetChainId,
    GetNonce,
    GetBlockHash,
    GetCode,
    GetBalance,
    GetUpgradeIndex,
    GetVersion,
    GetOwner,
    SetOwner,
    GetBridgeProver,
    GetStorageAt,
    RegisterRelayer,
    PausePrecompiles,
    ResumePrecompiles,
    PausedPrecompiles,
    FactoryUpdate,
    FactorySetWnearAddress,
    FundXccSubAccount,
    StageUpgrade,
    DeployUpgrade,
    Deploy,
    ViewCall,
    Call,
    EncodeAddress,
    KeyPair,
}

/// Position of a kind in the menu.
pub open spec fn kind_index(k: CommandKind) -> nat {
    match k {
        CommandKind::CreateAccount => 0,
        CommandKind::ViewAccount => 1,
        CommandKind::DeployAurora => 2,
        CommandKind::Init => 3,
        CommandKind::GetChainId => 4,
        CommandKind::GetNonce => 5,
        CommandKind::GetBlockHash => 6,
        CommandKind::GetCode => 7,
        CommandKind::GetBalance => 8,
        CommandKind::GetUpgradeIndex => 9,
        CommandKind::GetVersion => 10,
        CommandKind::GetOwner => 11,
        CommandKind::SetOwner => 12,
        CommandKind::GetBridgeProver => 13,
        CommandKind::GetStorageAt => 14,
        CommandKind::RegisterRelayer => 15,
        CommandKind::PausePrecompiles => 16,
        CommandKind::ResumePrecompiles => 17,
        CommandKind::PausedPrecompiles => 18,
        CommandKind::FactoryUpdate => 19,
        CommandKind::FactorySetWnearAddress => 20,
        CommandKind::FundXccSubAccount => 21,
        CommandKind::StageUpgrade => 22,
        CommandKind::DeployUpgrade => 23,
        CommandKind::Deploy => 24,
        CommandKind::ViewCall => 25,
        CommandKind::Call => 26,
        CommandKind::EncodeAddress => 27,
        CommandKind::KeyPair => 28,
    }
}

/// The kind at a position of the menu.
pub open spec fn kind_at_index(i: nat) -> Option<CommandKind> {
    if i == 0 {
        Some(CommandKind::CreateAccount)
    } else if i == 1 {
        Some(CommandKind::ViewAccount)
    } else if i == 2 {
        Some(CommandKind::DeployAurora)
    } else if i == 3 {
        Some(CommandKind::Init)
    } else if i == 4 {
        Some(CommandKind::GetChainId)
    } else if i == 5 {
        Some(CommandKind::GetNonce)
    } else if i == 6 {
        Some(CommandKind::GetBlockHash)
    } else if i == 7 {
        Some(CommandKind::GetCode)
    } else if i == 8 {
        Some(CommandKind::GetBalance)
    } else if i == 9 {
        Some(CommandKind::GetUpgradeIndex)
    } else if i == 10 {
        Some(CommandKind::GetVersion)
    } else if i == 11 {
        Some(CommandKind::GetOwner)
    } else if i == 12 {
        Some(CommandKind::SetOwner)
    } else if i == 13 {
        Some(CommandKind::GetBridgeProver)
    } else if i == 14 {
        Some(CommandKind::GetStorageAt)
    } else if i == 15 {
        Some(CommandKind::RegisterRelayer)
    } else if i == 16 {
        Some(CommandKind::PausePrecompiles)
    } else if i == 17 {
        Some(CommandKind::ResumePrecompiles)
    } else if i == 18 {
        Some(CommandKind::PausedPrecompiles)
    } else if i == 19 {
        Some(CommandKind::FactoryUpdate)
    } else if i == 20 {
        Some(CommandKind::FactorySetWnearAddress)
    } else if i == 21 {
        Some(CommandKind::FundXccSubAccount)
    } else if i == 22 {
        Some(CommandKind::StageUpgrade)
    } else if i == 23 {
        Some(CommandKind::DeployUpgrade)
    } else if i == 24 {
        Some(CommandKind::Deploy)
    } else if i == 25 {
        Some(CommandKind::ViewCall)
    } else if i == 26 {
        Some(CommandKind::Call)
    } else if i == 27 {
        Some(CommandKind::EncodeAddress)
    } else if i == 28 {
        Some(CommandKind::KeyPair)
    } else {
        None
    }
}

/// The menu label of a kind.
pub open spec fn kind_label(k: CommandKind) -> Seq<char> {
    match k {
        CommandKind::CreateAccount => "CreateAccount"@,
        CommandKind::ViewAccount => "ViewAccount"@,
        CommandKind::DeployAurora => "DeployAurora"@,
        CommandKind::Init => "Init"@,
        CommandKind::GetChainId => "GetChainId"@,
        CommandKind::GetNonce => "GetNonce"@,
        CommandKind::GetBlockHash => "GetBlockHash"@,
        CommandKind::GetCode => "GetCode"@,
        CommandKind::GetBalance => "GetBalance"@,
        CommandKind::GetUpgradeIndex => "GetUpgradeIndex"@,
        CommandKind::GetVersion => "GetVersion"@,
        CommandKind::GetOwner => "GetOwner"@,
        CommandKind::SetOwner => "SetOwner"@,
        CommandKind::GetBridgeProver => "GetBridgeProver"@,
        CommandKind::GetStorageAt => "GetStorageAt"@,
        CommandKind::RegisterRelayer => "RegisterRelayer"@,
        CommandKind::PausePrecompiles => "PausePrecompiles"@,
        CommandKind::ResumePrecompiles => "ResumePrecompiles"@,
        CommandKind::PausedPrecompiles => "PausedPrecompiles"@,
        CommandKind::FactoryUpdate => "FactoryUpdate"@,
        CommandKind::FactorySetWnearAddress => "FactorySetWnearAddress"@,
        CommandKind::FundXccSubAccount => "FundXccSubAccount"@,
        CommandKind::StageUpgrade => "StageUpgrade"@,
        CommandKind::DeployUpgrade => "DeployUpgrade"@,
        CommandKind::Deploy => "Deploy"@,
        CommandKind::ViewCall => "ViewCall"@,
        CommandKind::Call => "Call"@,
        CommandKind::EncodeAddress => "EncodeAddress"@,
        CommandKind::KeyPair => "KeyPair"@,
    }
}

/// The kind of a command.
pub open spec fn command_kind(c: Command) -> CommandKind {
    match c {
        Command::CreateAccount { .. } => CommandKind::CreateAccount,
        Command::ViewAccount { .. } => CommandKind::ViewAccount,
        Command::DeployAurora { .. } => CommandKind::DeployAurora,
        Command::Init { .. } => CommandKind::Init,
        Command::GetChainId => CommandKind::GetChainId,
        Command::GetNonce { .. } => CommandKind::GetNonce,
        Command::GetBlockHash { .. } => CommandKind::GetBlockHash,
        Command::GetCode { .. } => CommandKind::GetCode,
        Command::GetBalance { .. } => CommandKind::GetBalance,
        Command::GetUpgradeIndex => CommandKind::GetUpgradeIndex,
        Command::GetVersion => CommandKind::GetVersion,
        Command::GetOwner => CommandKind::GetOwner,
        Command::SetOwner { .. } => CommandKind::SetOwner,
        Command::GetBridgeProver => CommandKind::GetBridgeProver,
        Command::GetStorageAt { .. } => CommandKind::GetStorageAt,
        Command::RegisterRelayer { .. } => CommandKind::RegisterRelayer,
        Command::PausePrecompiles { .. } => CommandKind::PausePrecompiles,
        Command::ResumePrecompiles { .. } => CommandKind::ResumePrecompiles,
        Command::PausedPrecompiles => CommandKind::PausedPrecompiles,
        Command::FactoryUpdate { .. } => CommandKind::FactoryUpdate,
        Command::FactorySetWnearAddress { .. } => CommandKind::FactorySetWnearAddress,
        Command::FundXccSubAccount { .. } => CommandKind::FundXccSubAccount,
        Command::StageUpgrade { .. } => CommandKind::StageUpgrade,
        Command::DeployUpgrade => CommandKind::DeployUpgrade,
        Command::Deploy { .. } => CommandKind::Deploy,
        Command::ViewCall { .. } => CommandKind::ViewCall,
        Command::Call { .. } => CommandKind::Call,
        Command::EncodeAddress { .. } => CommandKind::EncodeAddress,
        Command::KeyPair { .. } => CommandKind::KeyPair,
    }
}

impl CommandKind {
    /// Position of this kind in the menu.
    pub fn index(&self) -> (r: usize)
        ensures
            r as nat == kind_index(*self),
            r < KIND_COUNT,
    {
        match self {
            CommandKind::CreateAccount => 0,
            CommandKind::ViewAccount => 1,
            CommandKind::DeployAurora => 2,
            CommandKind::Init => 3,
            CommandKind::GetChainId => 4,
            CommandKind::GetNonce => 5,
            CommandKind::GetBlockHash => 6,
            CommandKind::GetCode => 7,
            CommandKind::GetBalance => 8,
            CommandKind::GetUpgradeIndex => 9,
            CommandKind::GetVersion => 10,
            CommandKind::GetOwner => 11,
            CommandKind::SetOwner => 12,
            CommandKind::GetBridgeProver => 13,
            CommandKind::GetStorageAt => 14,
            CommandKind::RegisterRelayer => 15,
            CommandKind::PausePrecompiles => 16,
            CommandKind::ResumePrecompiles => 17,
            CommandKind::PausedPrecompiles => 18,
            CommandKind::FactoryUpdate => 19,
            CommandKind::FactorySetWnearAddress => 20,
            CommandKind::FundXccSubAccount => 21,
            CommandKind::StageUpgrade => 22,
            CommandKind::DeployUpgrade => 23,
            CommandKind::Deploy => 24,
            CommandKind::ViewCall => 25,
            CommandKind::Call => 26,
            CommandKind::EncodeAddress => 27,
            CommandKind::KeyPair => 28,
        }
    }

    /// The menu label of this kind.
    pub fn label(&self) -> (r: &'static str)
        ensures
            r@ == kind_label(*self),
    {
        match self {
            CommandKind::CreateAccount => {
                proof {
                    reveal_strlit("CreateAccount");
                }
                "CreateAccount"
            },
            CommandKind::ViewAccount => {
                proof {
                    reveal_strlit("ViewAccount");
                }
                "ViewAccount"
            },
            CommandKind::DeployAurora => {
                proof {
                    reveal_strlit("DeployAurora");
                }
                "DeployAurora"
            },
            CommandKind::Init => {
                proof {
                    reveal_strlit("Init");
                }
                "Init"
            },
            CommandKind::GetChainId => {
                proof {
                    reveal_strlit("GetChainId");
                }
                "GetChainId"
            },
            CommandKind::GetNonce => {
                proof {
                    reveal_strlit("GetNonce");
                }
                "GetNonce"
            },
            CommandKind::GetBlockHash => {
                proof {
                    reveal_strlit("GetBlockHash");
                }
                "GetBlockHash"
            },
            CommandKind::GetCode => {
                proof {
                    reveal_strlit("GetCode");
                }
                "GetCode"
            },
            CommandKind::GetBalance => {
                proof {
                    reveal_strlit("GetBalance");
                }
                "GetBalance"
            },
            CommandKind::GetUpgradeIndex => {
                proof {
                    reveal_strlit("GetUpgradeIndex");
                }
                "GetUpgradeIndex"
            },
            CommandKind::GetVersion => {
                proof {
                    reveal_strlit("GetVersion");
                }
                "GetVersion"
            },
            CommandKind::GetOwner => {
                proof {
                    reveal_strlit("GetOwner");
                }
                "GetOwner"
            },
            CommandKind::SetOwner => {
                proof {
                    reveal_strlit("SetOwner");
                }
                "SetOwner"
            },
            CommandKind::GetBridgeProver => {
                proof {
                    reveal_strlit("GetBridgeProver");
                }
                "GetBridgeProver"
            },
            CommandKind::GetStorageAt => {
                proof {
                    reveal_strlit("GetStorageAt");
                }
                "GetStorageAt"
            },
            CommandKind::RegisterRelayer => {
                proof {
                    reveal_strlit("RegisterRelayer");
                }
                "RegisterRelayer"
            },
            CommandKind::PausePrecompiles => {
                proof {
                    reveal_strlit("PausePrecompiles");
                }
                "PausePrecompiles"
            },
            CommandKind::ResumePrecompiles => {
                proof {
                    reveal_strlit("ResumePrecompiles");
                }
                "ResumePrecompiles"
            },
            CommandKind::PausedPrecompiles => {
                proof {
                    reveal_strlit("PausedPrecompiles");
                }
                "PausedPrecompiles"
            },
            CommandKind::FactoryUpdate => {
                proof {
                    reveal_strlit("FactoryUpdate");
                }
                "FactoryUpdate"
            },
            CommandKind::FactorySetWnearAddress => {
                proof {
                    reveal_strlit("FactorySetWnearAddress");
                }
                "FactorySetWnearAddress"
            },
            CommandKind::FundXccSubAccount => {
                proof {
                    reveal_strlit("FundXccSubAccount");
                }
                "FundXccSubAccount"
            },
            CommandKind::StageUpgrade => {
                proof {
                    reveal_strlit("StageUpgrade");
                }
                "StageUpgrade"
            },
            CommandKind::DeployUpgrade => {
                proof {
                    reveal_strlit("DeployUpgrade");
                }
                "DeployUpgrade"
            },
            CommandKind::Deploy => {
                proof {
                    reveal_strlit("Deploy");
                }
                "Deploy"
            },
            CommandKind::ViewCall => {
                proof {
                    reveal_strlit("ViewCall");
                }
                "ViewCall"
            },
            CommandKind::Call => {
                proof {
                    reveal_strlit("Call");
                }
                "Call"
            },
            CommandKind::EncodeAddress => {
                proof {
                    reveal_strlit("EncodeAddress");
                }
                "EncodeAddress"
            },
            CommandKind::KeyPair => {
                proof {
                    reveal_strlit("KeyPair");
                }
                "KeyPair"
            },
        }
    }
}

/// The kind at position `i` of the menu, if there is one.
pub fn kind_at(i: usize) -> (r: Option<CommandKind>)
    ensures
        r == kind_at_index(i as nat),
{
    if i == 0 {
        Some(CommandKind::CreateAccount)
    } else if i == 1 {
        Some(CommandKind::ViewAccount)
    } else if i == 2 {
        Some(CommandKind::DeployAurora)
    } else if i == 3 {
        Some(CommandKind::Init)
    } else if i == 4 {
        Some(CommandKind::GetChainId)
    } else if i == 5 {
        Some(CommandKind::GetNonce)
    } else if i == 6 {
        Some(CommandKind::GetBlockHash)
    } else if i == 7 {
        Some(CommandKind::GetCode)
    } else if i == 8 {
        Some(CommandKind::GetBalance)
    } else if i == 9 {
        Some(CommandKind::GetUpgradeIndex)
    } else if i == 10 {
        Some(CommandKind::GetVersion)
    } else if i == 11 {
        Some(CommandKind::GetOwner)
    } else if i == 12 {
        Some(CommandKind::SetOwner)
    } else if i == 13 {
        Some(CommandKind::GetBridgeProver)
    } else if i == 14 {
        Some(CommandKind::GetStorageAt)
    } else if i == 15 {
        Some(CommandKind::RegisterRelayer)
    } else if i == 16 {
        Some(CommandKind::PausePrecompiles)
    } else if i == 17 {
        Some(CommandKind::ResumePrecompiles)
    } else if i == 18 {
        Some(CommandKind::PausedPrecompiles)
    } else if i == 19 {
        Some(CommandKind::FactoryUpdate)
    } else if i == 20 {
        Some(CommandKind::FactorySetWnearAddress)
    } else if i == 21 {
        Some(CommandKind::FundXccSubAccount)
    } else if i == 22 {
        Some(CommandKind::StageUpgrade)
    } else if i == 23 {
        Some(CommandKind::DeployUpgrade)
    } else if i == 24 {
        Some(CommandKind::Deploy)
    } else if i == 25 {
        Some(CommandKind::ViewCall)
    } else if i == 26 {
        Some(CommandKind::Call)
    } else if i == 27 {
        Some(CommandKind::EncodeAddress)
    } else if i == 28 {
        Some(CommandKind::KeyPair)
    } else {
        None
    }
}

/// The menu: every kind, each once, in order.
pub fn menu() -> (r: Vec<CommandKind>)
    ensures
        r@.len() == KIND_COUNT,
        forall|i: int| 0 <= i < KIND_COUNT ==> kind_index(#[trigger] r@[i]) == i,
{
    let mut r: Vec<CommandKind> = Vec::new();
    let mut i: usize = 0;
    while i < KIND_COUNT
        invariant
            i <= KIND_COUNT,
            r@.len() == i,
            forall|j: int| 0 <= j < i ==> kind_index(#[trigger] r@[j]) == j,
        decreases KIND_COUNT - i,
    {
        let k = kind_at(i).unwrap();
        r.push(k);
        i = i + 1;
    }
    r
}

/// The menu and the kinds correspond one to one: every kind stands at exactly
/// one position of the menu, every position below `KIND_COUNT` holds a kind, and
/// there is no other position.
pub proof fn lemma_menu_bijection()
    ensures
        forall|k: CommandKind|
            kind_index(k) < KIND_COUNT && #[trigger] kind_at_index(kind_index(k)) == Some(k),
        forall|i: nat|
            i < KIND_COUNT ==> (#[trigger] kind_at_index(i)) is Some && kind_index(
                kind_at_index(i)->0,
            ) == i,
        forall|i: nat| i >= KIND_COUNT ==> (#[trigger] kind_at_index(i)) is None,
{
    assert forall|k: CommandKind|
        kind_index(k) < KIND_COUNT && #[trigger] kind_at_index(kind_index(k)) == Some(k) by {}
}

impl Command {
    /// The kind of this command.
    pub fn kind(&self) -> (r: CommandKind)
        ensures
            r == command_kind(*self),
    {
        match self {
            Command::CreateAccount { .. } => CommandKind::CreateAccount,
            Command::ViewAccount { .. } => CommandKind::ViewAccount,
            Command::DeployAurora { .. } => CommandKind::DeployAurora,
            Command::Init { .. } => CommandKind::Init,
            Command::GetChainId => CommandKind::GetChainId,
            Command::GetNonce { .. } => CommandKind::GetNonce,
            Command::GetBlockHash { .. } => CommandKind::GetBlockHash,
            Command::GetCode { .. } => CommandKind::GetCode,
            Command::GetBalance { .. } => CommandKind::GetBalance,
            Command::GetUpgradeIndex => CommandKind::GetUpgradeIndex,
            Command::GetVersion => CommandKind::GetVersion,
            Command::GetOwner => CommandKind::GetOwner,
            Command::SetOwner { .. } => CommandKind::SetOwner,
            Command::GetBridgeProver => CommandKind::GetBridgeProver,
            Command::GetStorageAt { .. } => CommandKind::GetStorageAt,
            Command::RegisterRelayer { .. } => CommandKind::RegisterRelayer,
            Command::PausePrecompiles { .. } => CommandKind::PausePrecompiles,
            Command::ResumePrecompiles { .. } => CommandKind::ResumePrecompiles,
            Command::PausedPrecompiles => CommandKind::PausedPrecompiles,
            Command::FactoryUpdate { .. } => CommandKind::FactoryUpdate,
            Command::FactorySetWnearAddress { .. } => CommandKind::FactorySetWnearAddress,
            Command::FundXccSubAccount { .. } => CommandKind::FundXccSubAccount,
            Command::StageUpgrade { .. } => CommandKind::StageUpgrade,
            Command::DeployUpgrade => CommandKind::DeployUpgrade,
            Command::Deploy { .. } => CommandKind::Deploy,
            Command::ViewCall { .. } => CommandKind::ViewCall,
            Command::Call { .. } => CommandKind::Call,
            Command::EncodeAddress { .. } => CommandKind::EncodeAddress,
            Command::KeyPair { .. } => CommandKind::KeyPair,
        }
    }
}

} // verus!
