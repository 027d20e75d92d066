use std::collections::HashMap;

use geyser_plugin_explorer::cache::{
    CacheCommand, CacheReply, RedisClient, StoreError, StoreFailure, CACHE_TTL_SECONDS, CACHE_URL,
};
use geyser_plugin_explorer::inner_instructions::{
    CompiledInstruction, InnerInstruction, InnerInstructions,
};
use geyser_plugin_explorer::plugin::{
    NotifyStep, PluginError, ReplicaTransactionInfo, ReplicaTransactionInfoV2,
    ReplicaTransactionInfoVersions, SamplePlugin, TransactionStatusMeta,
};
use geyser_plugin_explorer::signature::Signature;

const AA_KEY: &str =
    "4QuYxZ8wHiUWSRDBNgYuzbk6Bvj6nsHECYn7r4ZSc7mLsDz7v2QQV29y11SmWN5XzSBnAnw7mofZyg9ehu37kuXw";

const GROUP_JSON: &str = "[{\"index\":0,\"instructions\":[{\"instruction\":{\"programIdIndex\":1,\"accounts\":[[2],2,3],\"data\":[[2],9,9]},\"stack_height\":null}]}]";

/// A cache service in memory that can be switched off.
struct Cache {
    reachable: bool,
    entries: HashMap<String, (String, Option<i64>)>,
    asked: Vec<CacheCommand>,
}

impl Cache {
    fn reachable() -> Cache {
        Cache { reachable: true, entries: HashMap::new(), asked: Vec::new() }
    }

    fn unreachable() -> Cache {
        Cache { reachable: false, entries: HashMap::new(), asked: Vec::new() }
    }

    fn answer(&mut self, command: CacheCommand) -> CacheReply {
        self.asked.push(command.clone());
        if !self.reachable {
            return CacheReply::Failed("connection refused".to_string());
        }
        match command {
            CacheCommand::Connect { .. } => {}
            CacheCommand::SetValue { key, value } => {
                self.entries.insert(key, (value, None));
            }
            CacheCommand::Expire { key, seconds } => {
                if let Some(entry) = self.entries.get_mut(&key) {
                    entry.1 = Some(seconds);
                }
            }
        }
        CacheReply::Done
    }

    fn notify(
        &mut self,
        plugin: &SamplePlugin,
        client: RedisClient,
        info: ReplicaTransactionInfoVersions,
    ) -> (RedisClient, Result<(), PluginError>) {
        let mut step = plugin.notify_transaction(client, info, 42);
        loop {
            match step {
                NotifyStep::Perform { command, pending } => {
                    let reply = self.answer(command);
                    step = plugin.resume_transaction(pending, reply);
                }
                NotifyStep::Finished { client, result } => return (client, result),
            }
        }
    }
}

fn group() -> Vec<InnerInstructions> {
    vec![InnerInstructions {
        index: 0,
        instructions: vec![InnerInstruction {
            instruction: CompiledInstruction {
                program_id_index: 1,
                accounts: vec![2, 3],
                data: vec![9, 9],
            },
            stack_height: None,
        }],
    }]
}

fn first_version(
    bytes: [u8; 64],
    inner_instructions: Option<Vec<InnerInstructions>>,
) -> ReplicaTransactionInfoVersions {
    ReplicaTransactionInfoVersions::V0_0_1(ReplicaTransactionInfo {
        signature: Signature { bytes },
        is_vote: false,
        transaction_status_meta: TransactionStatusMeta { inner_instructions },
    })
}

fn second_version(
    bytes: [u8; 64],
    inner_instructions: Option<Vec<InnerInstructions>>,
) -> ReplicaTransactionInfoVersions {
    ReplicaTransactionInfoVersions::V0_0_2(ReplicaTransactionInfoV2 {
        signature: Signature { bytes },
        is_vote: true,
        transaction_status_meta: TransactionStatusMeta { inner_instructions },
        index: 3,
    })
}

#[test]
fn transaction_is_stored_under_its_signature_for_a_day() {
    let plugin = SamplePlugin::new();
    let mut cache = Cache::reachable();
    let (client, result) =
        cache.notify(&plugin, RedisClient::new(), second_version([0xAA; 64], Some(group())));
    assert_eq!(result, Ok(()));
    assert!(client.is_connected());
    assert_eq!(cache.entries.len(), 1);
    assert_eq!(cache.entries.get(AA_KEY), Some(&(GROUP_JSON.to_string(), Some(86400))));
    assert_eq!(CACHE_TTL_SECONDS, 86400);
    assert_eq!(
        cache.asked,
        vec![
            CacheCommand::Connect { url: CACHE_URL.to_string() },
            CacheCommand::SetValue { key: AA_KEY.to_string(), value: GROUP_JSON.to_string() },
            CacheCommand::Expire { key: AA_KEY.to_string(), seconds: 86400 },
        ]
    );
}

#[test]
fn both_versions_are_handled_alike() {
    let plugin = SamplePlugin::new();
    let mut first = Cache::reachable();
    let mut second = Cache::reachable();
    let (_, a) = first.notify(&plugin, RedisClient::new(), first_version([7; 64], Some(group())));
    let (_, b) = second.notify(&plugin, RedisClient::new(), second_version([7; 64], Some(group())));
    assert_eq!(a, Ok(()));
    assert_eq!(b, Ok(()));
    assert_eq!(first.asked, second.asked);
    assert_eq!(first.entries, second.entries);
    assert_eq!(first.entries.len(), 1);
}

#[test]
fn normalized_event_keeps_signature_and_inner_instructions() {
    let event = second_version([5; 64], Some(group())).normalize();
    assert_eq!(event.signature.bytes, [5u8; 64]);
    assert_eq!(event.inner_instructions, Some(group()));
    let event = first_version([6; 64], None).normalize();
    assert_eq!(event.signature.bytes, [6u8; 64]);
    assert_eq!(event.inner_instructions, None);
}

#[test]
fn key_is_the_text_the_host_prints_for_the_signature() {
    let mut bytes = [0u8; 64];
    for (i, b) in bytes.iter_mut().enumerate() {
        *b = (i + 1) as u8;
    }
    let plugin = SamplePlugin::new();
    let mut cache = Cache::reachable();
    let (_, result) = cache.notify(&plugin, RedisClient::new(), first_version(bytes, None));
    assert_eq!(result, Ok(()));
    let expected = solana_sdk::signature::Signature::from(bytes).to_string();
    assert_eq!(
        expected,
        "2Ana1pUpv2ZbMVkwF5FXapYeBEjdxDatLn7nvJkhgTSXbs59SyZSx866bXirPgj8QQVB57uxHJBG1YFvkRbFj4T"
    );
    assert_eq!(cache.entries.get(&expected), Some(&("null".to_string(), Some(86400))));
    let back: solana_sdk::signature::Signature = expected.parse().unwrap();
    assert_eq!(<[u8; 64]>::from(back), bytes);
}

#[test]
fn signature_with_leading_zero_bytes_has_its_own_key() {
    let mut bytes = [0u8; 64];
    bytes[63] = 1;
    let plugin = SamplePlugin::new();
    let mut cache = Cache::reachable();
    let (_, result) = cache.notify(&plugin, RedisClient::new(), first_version(bytes, None));
    assert_eq!(result, Ok(()));
    assert_eq!(
        cache.entries.keys().collect::<Vec<_>>(),
        vec!["1111111111111111111111111111111111111111111111111111111111111112"]
    );
}

#[test]
fn sentinel_signature_is_never_stored() {
    let plugin = SamplePlugin::new();
    let mut cache = Cache::reachable();
    let (client, result) =
        cache.notify(&plugin, RedisClient::new(), first_version([0; 64], Some(group())));
    assert_eq!(result, Ok(()));
    assert!(!client.is_connected());
    let (client, result) = cache.notify(&plugin, client, second_version([0; 64], None));
    assert_eq!(result, Ok(()));
    assert!(!client.is_connected());
    assert!(cache.asked.is_empty());
    assert!(cache.entries.is_empty());
}

#[test]
fn sentinel_signature_succeeds_even_when_the_service_is_down() {
    let plugin = SamplePlugin::new();
    let mut cache = Cache::unreachable();
    let (_, result) = cache.notify(&plugin, RedisClient::new(), first_version([0; 64], None));
    assert_eq!(result, Ok(()));
    assert!(cache.asked.is_empty());
}

#[test]
fn each_notification_makes_one_store() {
    let plugin = SamplePlugin::new();
    let mut cache = Cache::reachable();
    let mut client = RedisClient::new();
    for n in 1u8..=5 {
        let (back, result) = cache.notify(&plugin, client, second_version([n; 64], Some(group())));
        assert_eq!(result, Ok(()));
        client = back;
    }
    let writes = cache
        .asked
        .iter()
        .filter(|c| matches!(c, CacheCommand::SetValue { .. }))
        .count();
    let expiries = cache
        .asked
        .iter()
        .filter(|c| matches!(c, CacheCommand::Expire { seconds: 86400, .. }))
        .count();
    assert_eq!(writes, 5);
    assert_eq!(expiries, 5);
    assert_eq!(cache.asked.len(), 11);
    assert_eq!(cache.entries.len(), 5);
    for n in 1u8..=5 {
        let key = solana_sdk::signature::Signature::from([n; 64]).to_string();
        assert_eq!(cache.entries.get(&key), Some(&(GROUP_JSON.to_string(), Some(86400))));
    }
}

#[test]
fn repeated_notification_overwrites_the_entry() {
    let plugin = SamplePlugin::new();
    let mut cache = Cache::reachable();
    let (client, first) =
        cache.notify(&plugin, RedisClient::new(), first_version([0xAA; 64], Some(group())));
    let (_, second) = cache.notify(&plugin, client, first_version([0xAA; 64], Some(Vec::new())));
    assert_eq!(first, Ok(()));
    assert_eq!(second, Ok(()));
    assert_eq!(cache.entries.len(), 1);
    assert_eq!(cache.entries.get(AA_KEY), Some(&("[]".to_string(), Some(86400))));
}

#[test]
fn unreachable_service_fails_the_notification() {
    let plugin = SamplePlugin::new();
    let mut cache = Cache::unreachable();
    let (client, result) =
        cache.notify(&plugin, RedisClient::new(), first_version([0xAA; 64], Some(group())));
    assert_eq!(
        result,
        Err(PluginError::Custom(StoreError {
            kind: StoreFailure::Connection,
            cause: "connection refused".to_string()
        }))
    );
    assert!(!client.is_connected());
    assert!(cache.entries.is_empty());
    assert_eq!(cache.asked, vec![CacheCommand::Connect { url: CACHE_URL.to_string() }]);
}

#[test]
fn service_lost_after_connecting_fails_the_notification() {
    let plugin = SamplePlugin::new();
    let mut cache = Cache::reachable();
    let (client, result) = cache.notify(&plugin, RedisClient::new(), first_version([1; 64], None));
    assert_eq!(result, Ok(()));
    cache.reachable = false;
    let (client, result) = cache.notify(&plugin, client, first_version([0xAA; 64], Some(group())));
    assert_eq!(
        result,
        Err(PluginError::Custom(StoreError {
            kind: StoreFailure::Write,
            cause: "connection refused".to_string()
        }))
    );
    assert!(client.is_connected());
    assert!(!cache.entries.contains_key(AA_KEY));
    assert_eq!(cache.entries.len(), 1);
}

#[test]
fn unencodable_inner_instructions_fail_the_notification() {
    let mut groups = group();
    groups[0].instructions[0].instruction.accounts = vec![1u8; 70000];
    let plugin = SamplePlugin::new();
    let mut cache = Cache::reachable();
    let (_, result) =
        cache.notify(&plugin, RedisClient::new(), first_version([0xAA; 64], Some(groups)));
    assert_eq!(
        result,
        Err(PluginError::Custom(StoreError {
            kind: StoreFailure::Serialization,
            cause: "length larger than u16".to_string()
        }))
    );
    assert!(cache.entries.is_empty());
}

#[test]
fn plugin_is_loaded_and_unloaded() {
    let mut plugin = SamplePlugin::new();
    assert!(!plugin.is_loaded());
    assert_eq!(plugin.on_load("/etc/plugin.json", false), Ok(()));
    assert!(plugin.is_loaded());
    assert_eq!(plugin.on_load("/etc/plugin.json", true), Ok(()));
    assert!(plugin.is_loaded());
    plugin.on_unload();
    assert!(!plugin.is_loaded());
}

#[test]
fn plugin_asks_for_accounts_transactions_and_entries() {
    let plugin = SamplePlugin::new();
    assert_eq!(plugin.name(), "SamplePlugin");
    assert!(plugin.account_data_notifications_enabled());
    assert!(plugin.transaction_notifications_enabled());
    assert!(plugin.entry_notifications_enabled());
}

#[test]
fn other_notifications_do_nothing_and_succeed() {
    let plugin = SamplePlugin::new();
    assert_eq!(plugin.update_account(1, true), Ok(()));
    assert_eq!(plugin.update_account(u64::MAX, false), Ok(()));
    assert_eq!(plugin.notify_end_of_startup(), Ok(()));
    assert_eq!(plugin.notify_entry(), Ok(()));
    assert_eq!(plugin.notify_block_metadata(), Ok(()));
}

#[test]
fn notification_failure_is_fatal_when_the_connection_was_not_made() {
    let plugin = SamplePlugin::new();
    let mut cache = Cache::unreachable();
    let (_, result) = cache.notify(&plugin, RedisClient::new(), first_version([9; 64], None));
    assert!(result.unwrap_err().is_fatal());

    let mut cache = Cache::reachable();
    let (client, _) = cache.notify(&plugin, RedisClient::new(), first_version([9; 64], None));
    cache.reachable = false;
    let (_, result) = cache.notify(&plugin, client, first_version([9; 64], None));
    assert!(!result.unwrap_err().is_fatal());
    assert!(!PluginError::NoCacheKey.is_fatal());
}

#[test]
fn transaction_without_a_key_is_not_stored() {
    let plugin = SamplePlugin::new();
    let step = plugin.store_transaction(RedisClient::new(), String::new(), Some(group()));
    match step {
        NotifyStep::Finished { client, result } => {
            assert_eq!(result, Err(PluginError::NoCacheKey));
            assert!(!client.is_connected());
        }
        NotifyStep::Perform { .. } => panic!("a command was sent without a key"),
    }
}

#[test]
fn transaction_is_stored_under_the_key_it_is_given() {
    let plugin = SamplePlugin::new();
    let mut cache = Cache::reachable();
    let mut step = plugin.store_transaction(RedisClient::new(), "some-key".to_string(), None);
    let result = loop {
        match step {
            NotifyStep::Perform { command, pending } => {
                let reply = cache.answer(command);
                step = plugin.resume_transaction(pending, reply);
            }
            NotifyStep::Finished { result, .. } => break result,
        }
    };
    assert_eq!(result, Ok(()));
    assert_eq!(cache.entries.get("some-key"), Some(&("null".to_string(), Some(86400))));
    assert_eq!(cache.entries.len(), 1);
}
