//! Commands, the remote calls that serve them, and what is printed of the replies.
use crate::cli::json::{pretty, pretty_json};
use crate::text::{a_number_reads_back, decimal, decimal_text, value};
use crate::types::SocketAddr;
use vstd::prelude::*;

verus! {

/// A command. Hashes, transaction identifiers and addresses are held as their text,
/// transactions and blocks as JSON.
#[derive(Debug)]
#[allow(inconsistent_fields)]
pub enum Command {
    /// Get balance in sats.
    Balance,
    /// Connect a block for which a BMM request was made part of the given mainchain
    /// block. The block is what `GetBlockTemplate` printed.
    ConnectBlock { block: String, main_block_hash: String },
    /// Connect to a peer.
    ConnectPeer { addr: SocketAddr },
    /// Deposit to address.
    CreateDeposit { address: String, value_sats: u64, fee_sats: u64 },
    /// Create a tx that shields transparent funds.
    CreateShield { value_sats: u64, fee_sats: u64 },
    /// Create a tx that transfers shielded funds to the specified address.
    CreateShieldedTransfer { dest: String, value_sats: u64, fee_sats: u64 },
    /// Create a tx that transfers funds to the specified address transparently.
    CreateTransparentTransfer { dest: String, value_sats: u64, fee_sats: u64 },
    /// Create a tx that unshields shielded funds.
    CreateUnshield { value_sats: u64, fee_sats: u64 },
    /// Create a tx that initiates a withdrawal to the specified mainchain address.
    CreateWithdrawal {
        mainchain_address: String,
        amount_sats: u64,
        fee_sats: u64,
        mainchain_fee_sats: u64,
    },
    /// Delete peer from the known peers. Connections to it are not terminated.
    ForgetPeer { addr: SocketAddr },
    /// Format a deposit address.
    FormatDepositAddress { address: String },
    /// Generate a mnemonic seed phrase.
    GenerateMnemonic,
    /// Get the best mainchain block hash.
    GetBestMainchainBlockHash,
    /// Get the best sidechain block hash.
    GetBestSidechainBlockHash,
    /// Get the block with specified block hash, if it exists.
    GetBlock { block_hash: String },
    /// Assemble a block to blind merge mine, without requesting BMM for it.
    GetBlockTemplate,
    /// Get mainchain blocks that commit to a specified block hash.
    GetBmmInclusions { block_hash: String },
    /// Get a new shielded address.
    GetNewShieldedAddress,
    /// Get a new transparent address.
    GetNewTransparentAddress,
    /// Get shielded wallet addresses.
    GetShieldedWalletAddresses,
    /// Get stxos for addresses.
    GetStxos { addresses: Vec<String> },
    /// Get transaction by txid.
    GetTransaction { txid: String },
    /// Get transparent wallet addresses.
    GetTransparentWalletAddresses,
    /// Get utxos for addresses.
    GetUtxos { addresses: Vec<String> },
    /// Get wallet STXOs.
    GetWalletStxos,
    /// Get unconfirmed wallet STXOs.
    GetWalletStxosUnconfirmed,
    /// Get wallet UTXOs.
    GetWalletUtxos,
    /// Get unconfirmed wallet UTXOs.
    GetWalletUtxosUnconfirmed,
    /// Get the current block count.
    GetBlockcount,
    /// Get the height of the latest failed withdrawal bundle.
    LatestFailedWithdrawalBundleHeight,
    /// List peers.
    ListPeers,
    /// List all UTXOs.
    ListUtxos,
    /// Get the progress of the sync with the mainchain.
    MainchainSyncProgress,
    /// Attempt to mine a sidechain block.
    Mine { fee_sats: Option<u64> },
    /// Get pending withdrawal bundle.
    PendingWithdrawalBundle,
    /// Show OpenAPI schema.
    OpenApiSchema,
    /// Remove a tx from the mempool.
    RemoveFromMempool { txid: String },
    /// Set the wallet seed from a mnemonic seed phrase.
    SetSeedFromMnemonic { mnemonic: String },
    /// Get total sidechain wealth.
    SidechainWealth,
    /// Sign a transaction, and optionally broadcast it.
    SignTransaction { transaction: String, broadcast: bool },
    /// Verify and broadcast a transaction.
    SubmitTransaction { transaction: String },
    /// Stop the node.
    Stop,
}

/// Argument of a remote call.
#[derive(Debug)]
pub enum Param {
    Addr(SocketAddr),
    /// A JSON value.
    Json(String),
    Number(u64),
    OptionalFlag(Option<bool>),
    OptionalNumber(Option<u64>),
    Text(String),
    /// A set of texts, each of which is there once.
    TextSet(Vec<String>),
}

/// What a remote call replies.
#[derive(Clone, Copy, Debug, PartialEq, Eq, Structural)]
pub enum ReplyKind {
    /// Something that does not matter.
    Anything,
    /// A truth value.
    Flag,
    /// A JSON value.
    Json,
    /// A number.
    Number,
    /// A text.
    Text,
    /// Nothing.
    Unit,
}

/// A remote call.
#[derive(Debug)]
pub struct RpcCall {
    pub method: &'static str,
    pub params: Vec<Param>,
    pub reply: ReplyKind,
}

/// What is to be done for a command.
#[derive(Debug)]
pub enum CommandStep {
    /// Make the call, and print its reply.
    Call(RpcCall),
    /// Print the schema of all calls. The node need not be asked.
    Schema,
}

/// Reply to a remote call.
#[derive(Debug)]
pub enum Reply {
    Anything,
    Flag(bool),
    /// What the reply was read as, written back as JSON text.
    Json(String),
    Number(u64),
    Text(String),
    Unit,
}

/// Whether the step is the call of `method` with `params`.
pub open spec fn is_call(
    step: CommandStep,
    method: Seq<char>,
    params: Seq<Param>,
    reply: ReplyKind,
) -> bool {
    &&& step matches CommandStep::Call(call)
    &&& call.method@ == method
    &&& call.params@ == params
    &&& call.reply == reply
}

/// Whether `set` holds the texts in `list`, each once.
pub open spec fn same_texts(list: Seq<String>, set: Seq<String>) -> bool {
    &&& forall|i: int, j: int|
        #![trigger set[i], set[j]]
        0 <= i < j < set.len() ==> set[i]@ != set[j]@
    &&& forall|i: int| #![trigger set[i]] 0 <= i < set.len() ==> holds(list, set[i]@)
    &&& forall|i: int| #![trigger list[i]] 0 <= i < list.len() ==> holds(set, list[i]@)
}

/// Whether a list holds a text.
pub open spec fn holds(list: Seq<String>, text: Seq<char>) -> bool {
    exists|i: int| 0 <= i < list.len() && #[trigger] list[i]@ == text
}

/// Whether the step is the call of `method` with the set of the given texts.
pub open spec fn is_set_call(step: CommandStep, method: Seq<char>, list: Seq<String>) -> bool {
    &&& step matches CommandStep::Call(call)
    &&& call.method@ == method
    &&& call.params@.len() == 1
    &&& call.params@[0] matches Param::TextSet(set)
    &&& same_texts(list, set@)
    &&& call.reply == ReplyKind::Json
}

/// Whether `step` is what a command asks for: which call is made, with which arguments, and
/// what it replies. `json` is the block that was read from the command, if it has one.
pub open spec fn serves(command: Command, json: String, step: CommandStep) -> bool {
    let none = Seq::<Param>::empty();
    match command {
        Command::Balance => is_call(step, "balance"@, none, ReplyKind::Json),
        Command::ConnectBlock { block: _, main_block_hash } => is_call(
            step,
            "connect_block"@,
            seq![Param::Json(json), Param::Text(main_block_hash)],
            ReplyKind::Flag,
        ),
        Command::ConnectPeer { addr } => is_call(
            step,
            "connect_peer"@,
            seq![Param::Addr(addr)],
            ReplyKind::Unit,
        ),
        Command::CreateDeposit { address, value_sats, fee_sats } => is_call(
            step,
            "create_deposit"@,
            seq![Param::Text(address), Param::Number(value_sats), Param::Number(fee_sats)],
            ReplyKind::Text,
        ),
        Command::CreateShield { value_sats, fee_sats } => is_call(
            step,
            "create_shield"@,
            seq![Param::Number(value_sats), Param::Number(fee_sats)],
            ReplyKind::Text,
        ),
        Command::CreateShieldedTransfer { dest, value_sats, fee_sats } => is_call(
            step,
            "create_shielded_transfer"@,
            seq![Param::Text(dest), Param::Number(value_sats), Param::Number(fee_sats)],
            ReplyKind::Text,
        ),
        Command::CreateTransparentTransfer { dest, value_sats, fee_sats } => is_call(
            step,
            "create_transparent_transfer"@,
            seq![Param::Text(dest), Param::Number(value_sats), Param::Number(fee_sats)],
            ReplyKind::Text,
        ),
        Command::CreateUnshield { value_sats, fee_sats } => is_call(
            step,
            "create_unshield"@,
            seq![Param::Number(value_sats), Param::Number(fee_sats)],
            ReplyKind::Text,
        ),
        Command::CreateWithdrawal {
            mainchain_address,
            amount_sats,
            fee_sats,
            mainchain_fee_sats,
        } => is_call(
            step,
            "create_withdrawal"@,
            seq![
                Param::Text(mainchain_address),
                Param::Number(amount_sats),
                Param::Number(fee_sats),
                Param::Number(mainchain_fee_sats),
            ],
            ReplyKind::Text,
        ),
        Command::ForgetPeer { addr } => is_call(
            step,
            "forget_peer"@,
            seq![Param::Addr(addr)],
            ReplyKind::Anything,
        ),
        Command::FormatDepositAddress { address } => is_call(
            step,
            "format_deposit_address"@,
            seq![Param::Text(address)],
            ReplyKind::Text,
        ),
        Command::GenerateMnemonic => is_call(step, "generate_mnemonic"@, none, ReplyKind::Text),
        Command::GetBestMainchainBlockHash => is_call(
            step,
            "get_best_mainchain_block_hash"@,
            none,
            ReplyKind::Json,
        ),
        Command::GetBestSidechainBlockHash => is_call(
            step,
            "get_best_sidechain_block_hash"@,
            none,
            ReplyKind::Json,
        ),
        Command::GetBlock { block_hash } => is_call(
            step,
            "get_block"@,
            seq![Param::Text(block_hash)],
            ReplyKind::Json,
        ),
        Command::GetBlockTemplate => is_call(step, "get_block_template"@, none, ReplyKind::Json),
        Command::GetBmmInclusions { block_hash } => is_call(
            step,
            "get_bmm_inclusions"@,
            seq![Param::Text(block_hash)],
            ReplyKind::Json,
        ),
        Command::GetNewShieldedAddress => is_call(
            step,
            "get_new_shielded_address"@,
            none,
            ReplyKind::Text,
        ),
        Command::GetNewTransparentAddress => is_call(
            step,
            "get_new_transparent_address"@,
            none,
            ReplyKind::Text,
        ),
        Command::GetShieldedWalletAddresses => is_call(
            step,
            "get_shielded_wallet_addresses"@,
            none,
            ReplyKind::Json,
        ),
        Command::GetStxos { addresses } => is_set_call(step, "get_stxos"@, addresses@),
        Command::GetTransaction { txid } => is_call(
            step,
            "get_transaction"@,
            seq![Param::Text(txid)],
            ReplyKind::Json,
        ),
        Command::GetTransparentWalletAddresses => is_call(
            step,
            "get_transparent_wallet_addresses"@,
            none,
            ReplyKind::Json,
        ),
        Command::GetUtxos { addresses } => is_set_call(step, "get_utxos"@, addresses@),
        Command::GetWalletStxos => is_call(step, "get_wallet_stxos"@, none, ReplyKind::Json),
        Command::GetWalletStxosUnconfirmed => is_call(
            step,
            "get_wallet_stxos_unconfirmed"@,
            none,
            ReplyKind::Json,
        ),
        Command::GetWalletUtxos => is_call(step, "get_wallet_utxos"@, none, ReplyKind::Json),
        Command::GetWalletUtxosUnconfirmed => is_call(
            step,
            "get_wallet_utxos_unconfirmed"@,
            none,
            ReplyKind::Json,
        ),
        Command::GetBlockcount => is_call(step, "getblockcount"@, none, ReplyKind::Number),
        Command::LatestFailedWithdrawalBundleHeight => is_call(
            step,
            "latest_failed_withdrawal_bundle_height"@,
            none,
            ReplyKind::Json,
        ),
        Command::ListPeers => is_call(step, "list_peers"@, none, ReplyKind::Json),
        Command::ListUtxos => is_call(step, "list_utxos"@, none, ReplyKind::Json),
        Command::MainchainSyncProgress => is_call(
            step,
            "mainchain_sync_progress"@,
            none,
            ReplyKind::Json,
        ),
        Command::Mine { fee_sats } => is_call(
            step,
            "mine"@,
            seq![Param::OptionalNumber(fee_sats)],
            ReplyKind::Unit,
        ),
        Command::PendingWithdrawalBundle => is_call(
            step,
            "pending_withdrawal_bundle"@,
            none,
            ReplyKind::Json,
        ),
        Command::OpenApiSchema => step == CommandStep::Schema,
        Command::RemoveFromMempool { txid } => is_call(
            step,
            "remove_from_mempool"@,
            seq![Param::Text(txid)],
            ReplyKind::Unit,
        ),
        Command::SetSeedFromMnemonic { mnemonic } => is_call(
            step,
            "set_seed_from_mnemonic"@,
            seq![Param::Text(mnemonic)],
            ReplyKind::Unit,
        ),
        Command::SidechainWealth => is_call(
            step,
            "sidechain_wealth_sats"@,
            none,
            ReplyKind::Number,
        ),
        Command::SignTransaction { transaction, broadcast } => is_call(
            step,
            "sign_transaction"@,
            seq![Param::Json(transaction), Param::OptionalFlag(Some(broadcast))],
            ReplyKind::Json,
        ),
        Command::SubmitTransaction { transaction } => is_call(
            step,
            "submit_transaction"@,
            seq![Param::Json(transaction)],
            ReplyKind::Text,
        ),
        Command::Stop => is_call(step, "stop"@, none, ReplyKind::Unit),
    }
}

/// Every command makes a call, except the one that shows the schema.
pub proof fn only_the_schema_needs_no_call(command: Command, json: String, step: CommandStep)
    requires
        serves(command, json, step),
    ensures
        step is Schema <==> command is OpenApiSchema,
{
}

/// What the call that a command makes replies.
pub open spec fn reply_kind(command: Command) -> ReplyKind {
    match command {
        Command::ForgetPeer { .. } => ReplyKind::Anything,
        Command::ConnectBlock { .. } => ReplyKind::Flag,
        Command::GetBlockcount | Command::SidechainWealth => ReplyKind::Number,
        Command::ConnectPeer { .. }
        | Command::Mine { .. }
        | Command::RemoveFromMempool { .. }
        | Command::SetSeedFromMnemonic { .. }
        | Command::Stop => ReplyKind::Unit,
        Command::CreateDeposit { .. }
        | Command::CreateShield { .. }
        | Command::CreateShieldedTransfer { .. }
        | Command::CreateTransparentTransfer { .. }
        | Command::CreateUnshield { .. }
        | Command::CreateWithdrawal { .. }
        | Command::FormatDepositAddress { .. }
        | Command::GenerateMnemonic
        | Command::GetNewShieldedAddress
        | Command::GetNewTransparentAddress
        | Command::SubmitTransaction { .. } => ReplyKind::Text,
        _ => ReplyKind::Json,
    }
}

/// What a command prints, given the reply to its call: nothing where the reply tells
/// nothing, JSON laid out to be read, and anything else as it is. `None` if the reply is not
/// of the kind that the command expects, or should be JSON and is not.
pub open spec fn prints(command: Command, reply: Reply) -> Option<Seq<char>> {
    match (reply_kind(command), reply) {
        (ReplyKind::Anything, Reply::Anything) => Some(Seq::empty()),
        (ReplyKind::Flag, Reply::Flag(true)) => Some("true"@),
        (ReplyKind::Flag, Reply::Flag(false)) => Some("false"@),
        (ReplyKind::Json, Reply::Json(json)) => pretty(json@),
        (ReplyKind::Number, Reply::Number(n)) => Some(decimal(n as nat)),
        (ReplyKind::Text, Reply::Text(text)) => Some(text@),
        (ReplyKind::Unit, Reply::Unit) => Some(Seq::empty()),
        _ => None,
    }
}

/// From the command to what is printed: the call that serves a command has the reply of the
/// command's kind, and the output of the call is what the command prints of that reply.
pub proof fn a_command_prints_the_reply_to_its_call(
    command: Command,
    json: String,
    call: RpcCall,
    reply: Reply,
)
    requires
        serves(command, json, CommandStep::Call(call)),
    ensures
        call.reply == reply_kind(command),
        output(call.reply, reply) == prints(command, reply),
{
}

/// A call of `method` with the given arguments.
fn call(method: &'static str, params: Vec<Param>, reply: ReplyKind) -> (step: CommandStep)
    ensures
        forall|given: Seq<Param>|
            #![trigger is_call(step, method@, given, reply)]
            given =~= params@ ==> is_call(step, method@, given, reply),
{
    CommandStep::Call(RpcCall { method, params, reply })
}

/// A call of `method` without arguments.
fn bare_call(method: &'static str, reply: ReplyKind) -> (step: CommandStep)
    ensures
        is_call(step, method@, Seq::empty(), reply),
{
    CommandStep::Call(RpcCall { method, params: Vec::new(), reply })
}

/// Whether `list` holds the text of `text`.
fn list_holds(list: &Vec<String>, text: &String) -> (r: bool)
    ensures
        r == holds(list@, text@),
{
    let mut i: usize = 0;
    while i < list.len()
        invariant
            i <= list.len(),
            forall|j: int| 0 <= j < i ==> #[trigger] list@[j]@ != text@,
        decreases list.len() - i,
    {
        if list[i] == *text {
            assert(list@[i as int]@ == text@);
            return true;
        }
        i = i + 1;
    }
    false
}

/// The texts of `list`, each once.
pub fn text_set(list: &Vec<String>) -> (set: Vec<String>)
    ensures
        same_texts(list@, set@),
{
    let mut set: Vec<String> = Vec::new();
    let mut i: usize = 0;
    while i < list.len()
        invariant
            i <= list.len(),
            forall|a: int, b: int|
                #![trigger set@[a], set@[b]]
                0 <= a < b < set@.len() ==> set@[a]@ != set@[b]@,
            forall|a: int| #![trigger set@[a]] 0 <= a < set@.len() ==> holds(list@, set@[a]@),
            forall|a: int| #![trigger list@[a]] 0 <= a < i ==> holds(set@, list@[a]@),
        decreases list.len() - i,
    {
        let ghost before = set@;
        if !list_holds(&set, &list[i]) {
            set.push(list[i].clone());
            proof {
                assert(set@[before.len() as int]@ == list@[i as int]@);
                assert(holds(set@, list@[i as int]@));
                assert(holds(list@, set@[before.len() as int]@));
                assert forall|a: int| #![trigger list@[a]] 0 <= a < i implies holds(
                    set@,
                    list@[a]@,
                ) by {
                    let k = choose|k: int|
                        0 <= k < before.len() && #[trigger] before[k]@ == list@[a]@;
                    assert(set@[k]@ == list@[a]@);
                }
                assert forall|a: int, b: int|
                    #![trigger set@[a], set@[b]]
                    0 <= a < b < set@.len() implies set@[a]@ != set@[b]@ by {
                    assert(set@[a] == before[a]);
                    if b < before.len() {
                        assert(set@[b] == before[b]);
                    } else {
                        assert(before[a]@ != list@[i as int]@);
                    }
                }
                assert forall|a: int| #![trigger set@[a]] 0 <= a < set@.len() implies holds(
                    list@,
                    set@[a]@,
                ) by {
                    if a < before.len() {
                        assert(set@[a] == before[a]);
                    }
                }
            }
        }
        i = i + 1;
    }
    set
}

/// A call of `method` with the set of the given texts.
fn set_call(method: &'static str, list: Vec<String>) -> (step: CommandStep)
    ensures
        is_set_call(step, method@, list@),
{
    let set = text_set(&list);
    CommandStep::Call(RpcCall { method, params: vec![Param::TextSet(set)], reply: ReplyKind::Json })
}

/// The call that connects the block in `json`.
pub fn connect_block_call(json: String, main_block_hash: String) -> (step: CommandStep)
    ensures
        is_call(
            step,
            "connect_block"@,
            seq![Param::Json(json), Param::Text(main_block_hash)],
            ReplyKind::Flag,
        ),
{
    call(
        "connect_block",
        vec![Param::Json(json), Param::Text(main_block_hash)],
        ReplyKind::Flag,
    )
}

/// What is to be done for a command. A text that `read_block` does not read as a block is
/// an error, and no call is made for it. What it reads, as JSON, is what the call carries.
pub fn handle_command<F>(command: Command, read_block: F) -> (r: Result<
    CommandStep,
    serde_json::Error,
>) where F: FnOnce(String) -> Result<String, serde_json::Error>
    requires
        command matches Command::ConnectBlock { block, .. } ==> call_requires(read_block, (block,)),
    ensures
        match r {
            Ok(step) => exists|json: String| #[trigger]
                serves(command, json, step) && (command matches Command::ConnectBlock { block, .. }
                    ==> call_ensures(
                    read_block,
                    (block,),
                    Ok::<String, serde_json::Error>(json),
                )),
            Err(error) => command matches Command::ConnectBlock { block, .. } && call_ensures(
                read_block,
                (block,),
                Err::<String, serde_json::Error>(error),
            ),
        },
{
    let ghost asked = command;
    let ghost mut read: String = arbitrary();
    let step = match command {
        Command::Balance => bare_call("balance", ReplyKind::Json),
        Command::ConnectBlock { block, main_block_hash } => match read_block(block) {
            Ok(json) => {
                proof {
                    read = json;
                }
                connect_block_call(json, main_block_hash)
            },
            Err(error) => {
                return Err(error);
            },
        },
        Command::ConnectPeer { addr } => call(
            "connect_peer",
            vec![Param::Addr(addr)],
            ReplyKind::Unit,
        ),
        Command::CreateDeposit { address, value_sats, fee_sats } => call(
            "create_deposit",
            vec![Param::Text(address), Param::Number(value_sats), Param::Number(fee_sats)],
            ReplyKind::Text,
        ),
        Command::CreateShield { value_sats, fee_sats } => call(
            "create_shield",
            vec![Param::Number(value_sats), Param::Number(fee_sats)],
            ReplyKind::Text,
        ),
        Command::CreateShieldedTransfer { dest, value_sats, fee_sats } => call(
            "create_shielded_transfer",
            vec![Param::Text(dest), Param::Number(value_sats), Param::Number(fee_sats)],
            ReplyKind::Text,
        ),
        Command::CreateTransparentTransfer { dest, value_sats, fee_sats } => call(
            "create_transparent_transfer",
            vec![Param::Text(dest), Param::Number(value_sats), Param::Number(fee_sats)],
            ReplyKind::Text,
        ),
        Command::CreateUnshield { value_sats, fee_sats } => call(
            "create_unshield",
            vec![Param::Number(value_sats), Param::Number(fee_sats)],
            ReplyKind::Text,
        ),
        Command::CreateWithdrawal {
            mainchain_address,
            amount_sats,
            fee_sats,
            mainchain_fee_sats,
        } => call(
            "create_withdrawal",
            vec![
                Param::Text(mainchain_address),
                Param::Number(amount_sats),
                Param::Number(fee_sats),
                Param::Number(mainchain_fee_sats),
            ],
            ReplyKind::Text,
        ),
        Command::ForgetPeer { addr } => call(
            "forget_peer",
            vec![Param::Addr(addr)],
            ReplyKind::Anything,
        ),
        Command::FormatDepositAddress { address } => call(
            "format_deposit_address",
            vec![Param::Text(address)],
            ReplyKind::Text,
        ),
        Command::GenerateMnemonic => bare_call("generate_mnemonic", ReplyKind::Text),
        Command::GetBestMainchainBlockHash => bare_call(
            "get_best_mainchain_block_hash",
            ReplyKind::Json,
        ),
        Command::GetBestSidechainBlockHash => bare_call(
            "get_best_sidechain_block_hash",
            ReplyKind::Json,
        ),
        Command::GetBlock { block_hash } => call(
            "get_block",
            vec![Param::Text(block_hash)],
            ReplyKind::Json,
        ),
        Command::GetBlockTemplate => bare_call("get_block_template", ReplyKind::Json),
        Command::GetBmmInclusions { block_hash } => call(
            "get_bmm_inclusions",
            vec![Param::Text(block_hash)],
            ReplyKind::Json,
        ),
        Command::GetNewShieldedAddress => bare_call("get_new_shielded_address", ReplyKind::Text),
        Command::GetNewTransparentAddress => bare_call(
            "get_new_transparent_address",
            ReplyKind::Text,
        ),
        Command::GetShieldedWalletAddresses => bare_call(
            "get_shielded_wallet_addresses",
            ReplyKind::Json,
        ),
        Command::GetStxos { addresses } => set_call("get_stxos", addresses),
        Command::GetTransaction { txid } => call(
            "get_transaction",
            vec![Param::Text(txid)],
            ReplyKind::Json,
        ),
        Command::GetTransparentWalletAddresses => bare_call(
            "get_transparent_wallet_addresses",
            ReplyKind::Json,
        ),
        Command::GetUtxos { addresses } => set_call("get_utxos", addresses),
        Command::GetWalletStxos => bare_call("get_wallet_stxos", ReplyKind::Json),
        Command::GetWalletStxosUnconfirmed => bare_call(
            "get_wallet_stxos_unconfirmed",
            ReplyKind::Json,
        ),
        Command::GetWalletUtxos => bare_call("get_wallet_utxos", ReplyKind::Json),
        Command::GetWalletUtxosUnconfirmed => bare_call(
            "get_wallet_utxos_unconfirmed",
            ReplyKind::Json,
        ),
        Command::GetBlockcount => bare_call("getblockcount", ReplyKind::Number),
        Command::LatestFailedWithdrawalBundleHeight => bare_call(
            "latest_failed_withdrawal_bundle_height",
            ReplyKind::Json,
        ),
        Command::ListPeers => bare_call("list_peers", ReplyKind::Json),
        Command::ListUtxos => bare_call("list_utxos", ReplyKind::Json),
        Command::MainchainSyncProgress => bare_call("mainchain_sync_progress", ReplyKind::Json),
        Command::Mine { fee_sats } => call(
            "mine",
            vec![Param::OptionalNumber(fee_sats)],
            ReplyKind::Unit,
        ),
        Command::PendingWithdrawalBundle => bare_call(
            "pending_withdrawal_bundle",
            ReplyKind::Json,
        ),
        Command::OpenApiSchema => CommandStep::Schema,
        Command::RemoveFromMempool { txid } => call(
            "remove_from_mempool",
            vec![Param::Text(txid)],
            ReplyKind::Unit,
        ),
        Command::SetSeedFromMnemonic { mnemonic } => call(
            "set_seed_from_mnemonic",
            vec![Param::Text(mnemonic)],
            ReplyKind::Unit,
        ),
        Command::SidechainWealth => bare_call("sidechain_wealth_sats", ReplyKind::Number),
        Command::SignTransaction { transaction, broadcast } => call(
            "sign_transaction",
            vec![Param::Json(transaction), Param::OptionalFlag(Some(broadcast))],
            ReplyKind::Json,
        ),
        Command::SubmitTransaction { transaction } => call(
            "submit_transaction",
            vec![Param::Json(transaction)],
            ReplyKind::Text,
        ),
        Command::Stop => bare_call("stop", ReplyKind::Unit),
    };
    assert(serves(asked, read, step));
    Ok(step)
}

/// What is printed of a reply: nothing where there is nothing to tell, JSON laid out
/// to be read, and anything else as it is. `None` if the reply should be JSON and is
/// not.
pub open spec fn printed(reply: Reply) -> Option<Seq<char>> {
    match reply {
        Reply::Anything => Some(Seq::empty()),
        Reply::Flag(flag) => Some(
            if flag {
                "true"@
            } else {
                "false"@
            },
        ),
        Reply::Json(json) => pretty(json@),
        Reply::Number(n) => Some(decimal(n as nat)),
        Reply::Text(text) => Some(text@),
        Reply::Unit => Some(Seq::empty()),
    }
}

/// What is printed of a reply.
pub fn command_output(reply: Reply) -> (r: Result<String, serde_json::Error>)
    ensures
        match r {
            Ok(text) => printed(reply) == Some(text@),
            Err(_) => printed(reply) is None,
        },
{
    match reply {
        Reply::Anything => Ok(String::new()),
        Reply::Flag(flag) => Ok(
            if flag {
                "true".to_string()
            } else {
                "false".to_string()
            },
        ),
        Reply::Json(json) => pretty_json(json.as_str()),
        Reply::Number(n) => Ok(decimal_text(n)),
        Reply::Text(text) => Ok(text),
        Reply::Unit => Ok(String::new()),
    }
}

/// Whether a reply is of the given kind.
pub open spec fn fits(kind: ReplyKind, reply: Reply) -> bool {
    match reply {
        Reply::Anything => kind == ReplyKind::Anything,
        Reply::Flag(_) => kind == ReplyKind::Flag,
        Reply::Json(_) => kind == ReplyKind::Json,
        Reply::Number(_) => kind == ReplyKind::Number,
        Reply::Text(_) => kind == ReplyKind::Text,
        Reply::Unit => kind == ReplyKind::Unit,
    }
}

/// What is printed of a reply to a call that replies with the given kind. `None` if the
/// reply is of another kind, or should be JSON and is not.
pub open spec fn output(kind: ReplyKind, reply: Reply) -> Option<Seq<char>> {
    if fits(kind, reply) {
        printed(reply)
    } else {
        None
    }
}

/// Why nothing is printed of a reply.
#[derive(Debug)]
pub enum OutputError {
    /// The reply should be JSON and is not.
    Json(serde_json::Error),
    /// The reply is not of the kind that the call replies with.
    UnexpectedReply,
}

/// Whether a reply is of the given kind.
fn reply_fits(kind: ReplyKind, reply: &Reply) -> (r: bool)
    ensures
        r == fits(kind, *reply),
{
    match reply {
        Reply::Anything => kind == ReplyKind::Anything,
        Reply::Flag(_) => kind == ReplyKind::Flag,
        Reply::Json(_) => kind == ReplyKind::Json,
        Reply::Number(_) => kind == ReplyKind::Number,
        Reply::Text(_) => kind == ReplyKind::Text,
        Reply::Unit => kind == ReplyKind::Unit,
    }
}

/// What is printed of the reply to a call.
pub fn call_output(call: &RpcCall, reply: Reply) -> (r: Result<String, OutputError>)
    ensures
        match r {
            Ok(text) => output(call.reply, reply) == Some(text@),
            Err(OutputError::Json(_)) => fits(call.reply, reply) && printed(reply) is None,
            Err(OutputError::UnexpectedReply) => !fits(call.reply, reply),
        },
{
    if !reply_fits(call.reply, &reply) {
        return Err(OutputError::UnexpectedReply);
    }
    match command_output(reply) {
        Ok(text) => Ok(text),
        Err(error) => Err(OutputError::Json(error)),
    }
}

/// The calls that move funds name the destination first, if there is one, then the amount,
/// then the fee, and last the fee on the mainchain, if there is one. They reply with the
/// identifier of a transaction.
pub proof fn a_call_that_moves_funds_names_the_amount_before_the_fee(
    command: Command,
    json: String,
    call: RpcCall,
)
    requires
        serves(command, json, CommandStep::Call(call)),
    ensures
        match command {
            Command::CreateDeposit { address, value_sats, fee_sats } => {
                &&& call.method@ == "create_deposit"@
                &&& call.params@.len() == 3
                &&& call.params@[0] == Param::Text(address)
                &&& call.params@[1] == Param::Number(value_sats)
                &&& call.params@[2] == Param::Number(fee_sats)
                &&& call.reply == ReplyKind::Text
            },
            Command::CreateShield { value_sats, fee_sats } => {
                &&& call.method@ == "create_shield"@
                &&& call.params@.len() == 2
                &&& call.params@[0] == Param::Number(value_sats)
                &&& call.params@[1] == Param::Number(fee_sats)
                &&& call.reply == ReplyKind::Text
            },
            Command::CreateShieldedTransfer { dest, value_sats, fee_sats } => {
                &&& call.method@ == "create_shielded_transfer"@
                &&& call.params@.len() == 3
                &&& call.params@[0] == Param::Text(dest)
                &&& call.params@[1] == Param::Number(value_sats)
                &&& call.params@[2] == Param::Number(fee_sats)
                &&& call.reply == ReplyKind::Text
            },
            Command::CreateTransparentTransfer { dest, value_sats, fee_sats } => {
                &&& call.method@ == "create_transparent_transfer"@
                &&& call.params@.len() == 3
                &&& call.params@[0] == Param::Text(dest)
                &&& call.params@[1] == Param::Number(value_sats)
                &&& call.params@[2] == Param::Number(fee_sats)
                &&& call.reply == ReplyKind::Text
            },
            Command::CreateUnshield { value_sats, fee_sats } => {
                &&& call.method@ == "create_unshield"@
                &&& call.params@.len() == 2
                &&& call.params@[0] == Param::Number(value_sats)
                &&& call.params@[1] == Param::Number(fee_sats)
                &&& call.reply == ReplyKind::Text
            },
            Command::CreateWithdrawal {
                mainchain_address,
                amount_sats,
                fee_sats,
                mainchain_fee_sats,
            } => {
                &&& call.method@ == "create_withdrawal"@
                &&& call.params@.len() == 4
                &&& call.params@[0] == Param::Text(mainchain_address)
                &&& call.params@[1] == Param::Number(amount_sats)
                &&& call.params@[2] == Param::Number(fee_sats)
                &&& call.params@[3] == Param::Number(mainchain_fee_sats)
                &&& call.reply == ReplyKind::Text
            },
            _ => true,
        },
{
}

/// Every other call with arguments carries those of its command, as they were given, and
/// nothing else: a block that was read stands before the hash of its mainchain block, and a
/// transaction to sign before whether to broadcast it.
pub proof fn a_call_carries_the_arguments_of_its_command(
    command: Command,
    json: String,
    call: RpcCall,
)
    requires
        serves(command, json, CommandStep::Call(call)),
    ensures
        match command {
            Command::ConnectBlock { block: _, main_block_hash } => {
                &&& call.method@ == "connect_block"@
                &&& call.params@.len() == 2
                &&& call.params@[0] == Param::Json(json)
                &&& call.params@[1] == Param::Text(main_block_hash)
                &&& call.reply == ReplyKind::Flag
            },
            Command::SignTransaction { transaction, broadcast } => {
                &&& call.method@ == "sign_transaction"@
                &&& call.params@.len() == 2
                &&& call.params@[0] == Param::Json(transaction)
                &&& call.params@[1] == Param::OptionalFlag(Some(broadcast))
                &&& call.reply == ReplyKind::Json
            },
            Command::ConnectPeer { addr } => {
                &&& call.method@ == "connect_peer"@
                &&& call.params@.len() == 1
                &&& call.params@[0] == Param::Addr(addr)
                &&& call.reply == ReplyKind::Unit
            },
            Command::ForgetPeer { addr } => {
                &&& call.method@ == "forget_peer"@
                &&& call.params@.len() == 1
                &&& call.params@[0] == Param::Addr(addr)
                &&& call.reply == ReplyKind::Anything
            },
            Command::FormatDepositAddress { address } => {
                &&& call.method@ == "format_deposit_address"@
                &&& call.params@.len() == 1
                &&& call.params@[0] == Param::Text(address)
                &&& call.reply == ReplyKind::Text
            },
            Command::GetBlock { block_hash } => {
                &&& call.method@ == "get_block"@
                &&& call.params@.len() == 1
                &&& call.params@[0] == Param::Text(block_hash)
                &&& call.reply == ReplyKind::Json
            },
            Command::GetBmmInclusions { block_hash } => {
                &&& call.method@ == "get_bmm_inclusions"@
                &&& call.params@.len() == 1
                &&& call.params@[0] == Param::Text(block_hash)
                &&& call.reply == ReplyKind::Json
            },
            Command::GetTransaction { txid } => {
                &&& call.method@ == "get_transaction"@
                &&& call.params@.len() == 1
                &&& call.params@[0] == Param::Text(txid)
                &&& call.reply == ReplyKind::Json
            },
            Command::Mine { fee_sats } => {
                &&& call.method@ == "mine"@
                &&& call.params@.len() == 1
                &&& call.params@[0] == Param::OptionalNumber(fee_sats)
                &&& call.reply == ReplyKind::Unit
            },
            Command::RemoveFromMempool { txid } => {
                &&& call.method@ == "remove_from_mempool"@
                &&& call.params@.len() == 1
                &&& call.params@[0] == Param::Text(txid)
                &&& call.reply == ReplyKind::Unit
            },
            Command::SetSeedFromMnemonic { mnemonic } => {
                &&& call.method@ == "set_seed_from_mnemonic"@
                &&& call.params@.len() == 1
                &&& call.params@[0] == Param::Text(mnemonic)
                &&& call.reply == ReplyKind::Unit
            },
            Command::SubmitTransaction { transaction } => {
                &&& call.method@ == "submit_transaction"@
                &&& call.params@.len() == 1
                &&& call.params@[0] == Param::Json(transaction)
                &&& call.reply == ReplyKind::Text
            },
            Command::GetStxos { addresses } => {
                &&& call.method@ == "get_stxos"@
                &&& call.params@.len() == 1
                &&& call.params@[0] matches Param::TextSet(set)
                &&& texts(set@) == texts(addresses@)
                &&& call.reply == ReplyKind::Json
            },
            Command::GetUtxos { addresses } => {
                &&& call.method@ == "get_utxos"@
                &&& call.params@.len() == 1
                &&& call.params@[0] matches Param::TextSet(set)
                &&& texts(set@) == texts(addresses@)
                &&& call.reply == ReplyKind::Json
            },
            _ => true,
        },
{
    match command {
        Command::GetStxos { addresses } | Command::GetUtxos { addresses } => {
            match call.params@[0] {
                Param::TextSet(set) => {
                    a_set_holds_what_the_list_holds(addresses@, set@);
                },
                _ => {},
            }
        },
        _ => {},
    }
}

/// A command that takes no argument makes a call that carries none, of the method that is
/// named like it.
pub proof fn a_command_without_arguments_carries_none(
    command: Command,
    json: String,
    call: RpcCall,
)
    requires
        serves(command, json, CommandStep::Call(call)),
    ensures
        command is Balance ==> call.method@ == "balance"@ && call.params@.len() == 0 && call.reply
            == ReplyKind::Json,
        command is GenerateMnemonic ==> call.method@ == "generate_mnemonic"@ && call.params@.len()
            == 0 && call.reply == ReplyKind::Text,
        command is GetBestMainchainBlockHash ==> call.method@ == "get_best_mainchain_block_hash"@
            && call.params@.len() == 0 && call.reply == ReplyKind::Json,
        command is GetBestSidechainBlockHash ==> call.method@ == "get_best_sidechain_block_hash"@
            && call.params@.len() == 0 && call.reply == ReplyKind::Json,
        command is GetBlockTemplate ==> call.method@ == "get_block_template"@
            && call.params@.len() == 0 && call.reply == ReplyKind::Json,
        command is GetNewShieldedAddress ==> call.method@ == "get_new_shielded_address"@
            && call.params@.len() == 0 && call.reply == ReplyKind::Text,
        command is GetNewTransparentAddress ==> call.method@ == "get_new_transparent_address"@
            && call.params@.len() == 0 && call.reply == ReplyKind::Text,
        command is GetShieldedWalletAddresses ==> call.method@ == "get_shielded_wallet_addresses"@
            && call.params@.len() == 0 && call.reply == ReplyKind::Json,
        command is GetTransparentWalletAddresses ==> call.method@
            == "get_transparent_wallet_addresses"@ && call.params@.len() == 0 && call.reply
            == ReplyKind::Json,
        command is GetWalletStxos ==> call.method@ == "get_wallet_stxos"@ && call.params@.len()
            == 0 && call.reply == ReplyKind::Json,
        command is GetWalletStxosUnconfirmed ==> call.method@ == "get_wallet_stxos_unconfirmed"@
            && call.params@.len() == 0 && call.reply == ReplyKind::Json,
        command is GetWalletUtxos ==> call.method@ == "get_wallet_utxos"@ && call.params@.len()
            == 0 && call.reply == ReplyKind::Json,
        command is GetWalletUtxosUnconfirmed ==> call.method@ == "get_wallet_utxos_unconfirmed"@
            && call.params@.len() == 0 && call.reply == ReplyKind::Json,
        command is GetBlockcount ==> call.method@ == "getblockcount"@ && call.params@.len() == 0
            && call.reply == ReplyKind::Number,
        command is LatestFailedWithdrawalBundleHeight ==> call.method@
            == "latest_failed_withdrawal_bundle_height"@ && call.params@.len() == 0 && call.reply
            == ReplyKind::Json,
        command is ListPeers ==> call.method@ == "list_peers"@ && call.params@.len() == 0
            && call.reply == ReplyKind::Json,
        command is ListUtxos ==> call.method@ == "list_utxos"@ && call.params@.len() == 0
            && call.reply == ReplyKind::Json,
        command is MainchainSyncProgress ==> call.method@ == "mainchain_sync_progress"@
            && call.params@.len() == 0 && call.reply == ReplyKind::Json,
        command is PendingWithdrawalBundle ==> call.method@ == "pending_withdrawal_bundle"@
            && call.params@.len() == 0 && call.reply == ReplyKind::Json,
        command is SidechainWealth ==> call.method@ == "sidechain_wealth_sats"@
            && call.params@.len() == 0 && call.reply == ReplyKind::Number,
        command is Stop ==> call.method@ == "stop"@ && call.params@.len() == 0 && call.reply
            == ReplyKind::Unit,
{
}

/// Two commands that differ in nothing but the amount make calls that differ in nothing but
/// the amount, and likewise for the fee: no argument is taken for another.
pub proof fn a_transfer_keeps_amount_and_fee_apart(
    dest: String,
    value_sats: u64,
    fee_sats: u64,
    other: u64,
    json: String,
    call: RpcCall,
    with_value: RpcCall,
    with_fee: RpcCall,
)
    requires
        serves(
            Command::CreateTransparentTransfer { dest, value_sats, fee_sats },
            json,
            CommandStep::Call(call),
        ),
        serves(
            Command::CreateTransparentTransfer { dest, value_sats: other, fee_sats },
            json,
            CommandStep::Call(with_value),
        ),
        serves(
            Command::CreateTransparentTransfer { dest, value_sats, fee_sats: other },
            json,
            CommandStep::Call(with_fee),
        ),
    ensures
        with_value.params@ == call.params@.update(1, Param::Number(other)),
        with_fee.params@ == call.params@.update(2, Param::Number(other)),
        with_value.method@ == call.method@,
        with_fee.method@ == call.method@,
{
    assert(with_value.params@ =~= call.params@.update(1, Param::Number(other)));
    assert(with_fee.params@ =~= call.params@.update(2, Param::Number(other)));
}

/// The texts in a list.
pub open spec fn texts(list: Seq<String>) -> Set<Seq<char>> {
    list.map_values(|text: String| text@).to_set()
}

/// A set of texts holds what the list holds, and nothing twice.
pub proof fn a_set_holds_what_the_list_holds(list: Seq<String>, set: Seq<String>)
    requires
        same_texts(list, set),
    ensures
        texts(set) == texts(list),
        set.map_values(|text: String| text@).no_duplicates(),
{
    assert forall|text: Seq<char>| texts(set).contains(text) <==> texts(list).contains(text) by {
        held_means_contained(list, text);
        held_means_contained(set, text);
        if holds(set, text) {
            let i = choose|i: int| 0 <= i < set.len() && #[trigger] set[i]@ == text;
            assert(holds(list, set[i]@));
        }
        if holds(list, text) {
            let i = choose|i: int| 0 <= i < list.len() && #[trigger] list[i]@ == text;
            assert(holds(set, list[i]@));
        }
    }
    assert(texts(set) =~= texts(list));
    let views = set.map_values(|text: String| text@);
    assert forall|i: int, j: int|
        0 <= i < views.len() && 0 <= j < views.len() && i != j implies views[i] != views[j] by {
        assert(views[i] == set[i]@);
        assert(views[j] == set[j]@);
    }
}

/// A list holds a text if and only if the text is one of its texts.
proof fn held_means_contained(list: Seq<String>, text: Seq<char>)
    ensures
        holds(list, text) <==> texts(list).contains(text),
{
    let views = list.map_values(|text: String| text@);
    if holds(list, text) {
        let i = choose|i: int| 0 <= i < list.len() && #[trigger] list[i]@ == text;
        assert(views[i] == text);
    }
    if texts(list).contains(text) {
        let i = choose|i: int| 0 <= i < views.len() && views[i] == text;
        assert(list[i]@ == text);
    }
}

/// A reply is printed as it is: a text unchanged, a number in digits that read back, JSON laid
/// out, and nothing where there is nothing. It is printed for a call that asked for a reply of
/// that kind, and for no other.
pub proof fn a_reply_is_printed_as_it_is(call: RpcCall, reply: Reply)
    ensures
        output(call.reply, reply) is Some ==> match reply {
            Reply::Anything => call.reply == ReplyKind::Anything,
            Reply::Flag(_) => call.reply == ReplyKind::Flag,
            Reply::Json(_) => call.reply == ReplyKind::Json,
            Reply::Number(_) => call.reply == ReplyKind::Number,
            Reply::Text(_) => call.reply == ReplyKind::Text,
            Reply::Unit => call.reply == ReplyKind::Unit,
        },
        match reply {
            Reply::Anything => printed(reply) == Some(Seq::<char>::empty()),
            Reply::Unit => printed(reply) == Some(Seq::<char>::empty()),
            Reply::Flag(flag) => printed(reply) == Some(
                if flag {
                    "true"@
                } else {
                    "false"@
                },
            ),
            Reply::Json(json) => printed(reply) == pretty(json@),
            Reply::Number(n) => printed(reply) matches Some(digits) && value(digits) == n,
            Reply::Text(text) => printed(reply) == Some(text@),
        },
        (match reply {
            Reply::Anything => call.reply == ReplyKind::Anything,
            Reply::Flag(_) => call.reply == ReplyKind::Flag,
            Reply::Json(_) => call.reply == ReplyKind::Json,
            Reply::Number(_) => call.reply == ReplyKind::Number,
            Reply::Text(_) => call.reply == ReplyKind::Text,
            Reply::Unit => call.reply == ReplyKind::Unit,
        }) ==> output(call.reply, reply) == printed(reply),
{
    if let Reply::Number(n) = reply {
        a_number_reads_back(n as nat);
    }
}

} // verus!
