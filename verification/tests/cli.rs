use thunder_net::cli::command::{
    call_output, command_output, handle_command, text_set, Command, CommandStep, OutputError,
    Param, Reply, ReplyKind, RpcCall,
};
use thunder_net::cli::rpc_url::default_rpc_url;
use thunder_net::cli::run::Cli;
use thunder_net::cli::schema::{open_api_schema, SchemaParts};
use thunder_net::text::{decimal_text, host_port_text};
use thunder_net::types::{IpAddr, SocketAddr};
use utoipa::openapi::OpenApi;

/// Reads a block of which any JSON is one.
fn any_json(text: String) -> Result<String, serde_json::Error> {
    let value: serde_json::Value = serde_json::from_str(&text)?;
    serde_json::to_string(&value)
}

/// Reads a block that is a list of numbers.
fn numbers(text: String) -> Result<String, serde_json::Error> {
    let block: Vec<u64> = serde_json::from_str(&text)?;
    serde_json::to_string(&block)
}

fn rpc(command: Command) -> RpcCall {
    match handle_command(command, any_json) {
        Ok(CommandStep::Call(call)) => call,
        other => panic!("unexpected {:?}", other),
    }
}

fn params(call: &RpcCall) -> String {
    format!("{:?}", call.params)
}

fn cli(timeout: Option<u64>) -> Cli {
    Cli {
        rpc_url: default_rpc_url(),
        timeout,
        verbose: true,
        command: Command::Stop,
    }
}

#[test]
fn the_default_url_holds_the_sidechain_number() {
    assert_eq!(default_rpc_url(), "http://localhost:6098/");
}

#[test]
fn numbers_are_written_in_decimal() {
    assert_eq!(decimal_text(0), "0");
    assert_eq!(decimal_text(1234567890), "1234567890");
    assert_eq!(decimal_text(u64::MAX), "18446744073709551615");
    assert_eq!(host_port_text("a.b", 65535), "a.b:65535");
}

#[test]
fn a_session_follows_the_options() {
    let session = cli(None).run();
    assert_eq!(session.timeout_secs, 60);
    assert_eq!(session.rpc_url, "http://localhost:6098/");
    assert!(session.verbose);
    assert!(matches!(session.command, Command::Stop));
    assert_eq!(cli(Some(5)).run().timeout_secs, 5);
}

#[test]
fn a_request_identifier_is_a_random_uuid() {
    let session = cli(None).run();
    let id = session.request_id;
    assert_eq!(id.len(), 32);
    assert!(id.bytes().all(|b| matches!(b, b'0'..=b'9' | b'a'..=b'f')));
    assert_eq!(id.as_bytes()[12], b'4');
    assert!(matches!(id.as_bytes()[16], b'8' | b'9' | b'a' | b'b'));
    assert_eq!(session.request_id_header.as_bytes(), id.as_bytes());
    assert_ne!(cli(None).run().request_id, id);
}

#[test]
fn an_identifier_that_no_header_holds_is_an_error() {
    assert!(cli(None).run_as("a\nb".to_string()).is_err());
    assert!(cli(None).run_as("a\u{7f}".to_string()).is_err());
    let session = cli(None).run_as("a\tb \u{e9}".to_string()).ok().unwrap();
    assert_eq!(session.request_id_header.as_bytes(), "a\tb \u{e9}".as_bytes());
}

#[test]
fn a_call_takes_the_arguments_of_its_command() {
    let call = rpc(Command::CreateWithdrawal {
        mainchain_address: "addr".to_string(),
        amount_sats: 1,
        fee_sats: 2,
        mainchain_fee_sats: 3,
    });
    assert_eq!(call.method, "create_withdrawal");
    assert_eq!(params(&call), "[Text(\"addr\"), Number(1), Number(2), Number(3)]");
    assert_eq!(call.reply, ReplyKind::Text);
    let call = rpc(Command::SignTransaction { transaction: "{}".to_string(), broadcast: false });
    assert_eq!(call.method, "sign_transaction");
    assert_eq!(params(&call), "[Json(\"{}\"), OptionalFlag(Some(false))]");
    let call = rpc(Command::Mine { fee_sats: None });
    assert_eq!(params(&call), "[OptionalNumber(None)]");
    assert_eq!(call.reply, ReplyKind::Unit);
    let addr = SocketAddr::new(IpAddr::v4(127, 0, 0, 1), 4098);
    let call = rpc(Command::ForgetPeer { addr });
    assert_eq!(call.method, "forget_peer");
    assert!(matches!(call.params[0], Param::Addr(found) if found == addr));
    assert_eq!(call.reply, ReplyKind::Anything);
}

#[test]
fn every_command_without_arguments_names_its_method() {
    let expected = [
        (Command::Balance, "balance", ReplyKind::Json),
        (Command::GenerateMnemonic, "generate_mnemonic", ReplyKind::Text),
        (Command::GetBestMainchainBlockHash, "get_best_mainchain_block_hash", ReplyKind::Json),
        (Command::GetBestSidechainBlockHash, "get_best_sidechain_block_hash", ReplyKind::Json),
        (Command::GetBlockTemplate, "get_block_template", ReplyKind::Json),
        (Command::GetNewShieldedAddress, "get_new_shielded_address", ReplyKind::Text),
        (Command::GetNewTransparentAddress, "get_new_transparent_address", ReplyKind::Text),
        (Command::GetShieldedWalletAddresses, "get_shielded_wallet_addresses", ReplyKind::Json),
        (Command::GetTransparentWalletAddresses, "get_transparent_wallet_addresses", ReplyKind::Json),
        (Command::GetWalletStxos, "get_wallet_stxos", ReplyKind::Json),
        (Command::GetWalletStxosUnconfirmed, "get_wallet_stxos_unconfirmed", ReplyKind::Json),
        (Command::GetWalletUtxos, "get_wallet_utxos", ReplyKind::Json),
        (Command::GetWalletUtxosUnconfirmed, "get_wallet_utxos_unconfirmed", ReplyKind::Json),
        (Command::GetBlockcount, "getblockcount", ReplyKind::Number),
        (
            Command::LatestFailedWithdrawalBundleHeight,
            "latest_failed_withdrawal_bundle_height",
            ReplyKind::Json,
        ),
        (Command::ListPeers, "list_peers", ReplyKind::Json),
        (Command::ListUtxos, "list_utxos", ReplyKind::Json),
        (Command::MainchainSyncProgress, "mainchain_sync_progress", ReplyKind::Json),
        (Command::PendingWithdrawalBundle, "pending_withdrawal_bundle", ReplyKind::Json),
        (Command::SidechainWealth, "sidechain_wealth_sats", ReplyKind::Number),
        (Command::Stop, "stop", ReplyKind::Unit),
    ];
    for (command, method, reply) in expected {
        let call = rpc(command);
        assert_eq!(call.method, method);
        assert!(call.params.is_empty());
        assert_eq!(call.reply, reply);
    }
}

#[test]
fn addresses_are_asked_for_once() {
    let list = vec!["a".to_string(), "b".to_string(), "a".to_string()];
    assert_eq!(text_set(&list), vec!["a".to_string(), "b".to_string()]);
    let call = rpc(Command::GetUtxos { addresses: list });
    assert_eq!(call.method, "get_utxos");
    assert_eq!(params(&call), "[TextSet([\"a\", \"b\"])]");
    let call = rpc(Command::GetStxos { addresses: vec!["c".to_string()] });
    assert_eq!(call.method, "get_stxos");
    assert_eq!(params(&call), "[TextSet([\"c\"])]");
}

fn connect(block: &str) -> Command {
    Command::ConnectBlock { block: block.to_string(), main_block_hash: "00ff".to_string() }
}

#[test]
fn a_block_is_sent_as_it_was_read() {
    let call = rpc(connect(" { \"b\" : 1,\n \"a\": [ ] } "));
    assert_eq!(call.method, "connect_block");
    assert_eq!(params(&call), "[Json(\"{\\\"b\\\":1,\\\"a\\\":[]}\"), Text(\"00ff\")]");
    assert_eq!(call.reply, ReplyKind::Flag);
}

#[test]
fn a_text_that_is_no_block_makes_no_call() {
    match handle_command(connect("[ 1, 2 ]"), numbers) {
        Ok(CommandStep::Call(call)) => {
            assert_eq!(params(&call), "[Json(\"[1,2]\"), Text(\"00ff\")]")
        }
        other => panic!("unexpected {:?}", other),
    }
    // JSON, but no such block.
    assert!(handle_command(connect("{\"b\":1}"), numbers).is_err());
    // No JSON.
    assert!(handle_command(connect("{"), numbers).is_err());
    assert!(handle_command(connect("{"), any_json).is_err());
}

#[test]
fn the_schema_needs_no_call() {
    assert!(matches!(
        handle_command(Command::OpenApiSchema, |_: String| unreachable!()),
        Ok(CommandStep::Schema)
    ));
}

#[test]
fn a_call_prints_the_reply_that_it_asked_for() {
    let call = rpc(Command::GetBlockcount);
    assert_eq!(call_output(&call, Reply::Number(7)).unwrap(), "7");
    assert!(matches!(
        call_output(&call, Reply::Text("7".to_string())),
        Err(OutputError::UnexpectedReply)
    ));
    let call = rpc(Command::Balance);
    assert_eq!(call_output(&call, Reply::Json("[1]".to_string())).unwrap(), "[\n  1\n]");
    assert!(matches!(
        call_output(&call, Reply::Json("[".to_string())),
        Err(OutputError::Json(_))
    ));
    assert!(matches!(call_output(&call, Reply::Unit), Err(OutputError::UnexpectedReply)));
    assert_eq!(call_output(&rpc(Command::Stop), Reply::Unit).unwrap(), "");
    assert_eq!(call_output(&rpc(connect("1")), Reply::Flag(true)).unwrap(), "true");
    assert_eq!(
        call_output(&rpc(Command::GenerateMnemonic), Reply::Text("a b".to_string())).unwrap(),
        "a b"
    );
}

#[test]
fn replies_are_printed() {
    assert_eq!(command_output(Reply::Unit).unwrap(), "");
    assert_eq!(command_output(Reply::Anything).unwrap(), "");
    assert_eq!(command_output(Reply::Flag(true)).unwrap(), "true");
    assert_eq!(command_output(Reply::Flag(false)).unwrap(), "false");
    assert_eq!(command_output(Reply::Number(98)).unwrap(), "98");
    assert_eq!(command_output(Reply::Text("txid".to_string())).unwrap(), "txid");
    assert_eq!(
        command_output(Reply::Json("{\"b\":1,\"a\":null}".to_string())).unwrap(),
        "{\n  \"b\": 1,\n  \"a\": null\n}"
    );
    assert!(command_output(Reply::Json("nonsense".to_string())).is_err());
}

fn document(title: &str, path: &str) -> OpenApi {
    let text = format!(
        "{{\"openapi\":\"3.1.0\",\"info\":{{\"title\":\"{}\",\"version\":\"1\"}},\"paths\":{{\"{}\":{{\"get\":{{\"operationId\":\"{}\",\"responses\":{{}}}}}}}}}}",
        title, path, title
    );
    serde_json::from_str(&text).unwrap()
}

#[test]
fn the_schema_merges_its_parts_in_order() {
    let schema = open_api_schema(SchemaParts {
        general: document("general", "/general"),
        node_private: document("private", "/shared"),
        node: document("node", "/shared"),
        wallet: document("wallet", "/wallet"),
    })
    .unwrap();
    assert!(schema.starts_with("{\n  \"openapi\": \"3.1.0\",\n"));
    assert!(schema.contains("\"title\": \"general\""));
    assert!(!schema.contains("\"title\": \"wallet\""));
    let merged: serde_json::Value = serde_json::from_str(&schema).unwrap();
    let operation = |path: &str| merged["paths"][path]["get"]["operationId"].as_str().unwrap();
    assert_eq!(merged["paths"].as_object().unwrap().len(), 3);
    assert_eq!(operation("/general"), "general");
    assert_eq!(operation("/shared"), "private");
    assert_eq!(operation("/wallet"), "wallet");
}

#[test]
fn every_path_stands_in_the_schema() {
    // The text holds a quote, a line feed, a control character and a letter beyond ASCII.
    let odd = document("odd", "/a\\\"b\\n\\u001f/\u{e9}");
    let schema = open_api_schema(SchemaParts {
        general: document("general", "/general"),
        node_private: odd,
        node: document("node", "/node"),
        wallet: document("wallet", "/wallet"),
    })
    .unwrap();
    assert!(schema.contains("\"/a\\\"b\\n\\u001f/\u{e9}\""));
    assert!(schema.contains("\"/general\""));
    assert!(schema.contains("\"/node\""));
    assert!(schema.contains("\"/wallet\""));
}
