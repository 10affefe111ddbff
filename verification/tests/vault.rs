use kofl::backup::BackupManager;
use kofl::cli::{AddCmd, Command, CommandInfo, CommandType, GetCmd, InitCmd};
use kofl::config::{KoflGlobalConfig, StoredConfig};
use kofl::context::{Context, Entry};
use kofl::errors::{ErrorExecution, ErrorValidation};
use kofl::hexcode::decode;
use kofl::master_key::{
    derive_key_hash, get_key_material, initialize, initialize_with_salt, is_provided,
};
use kofl::policy::PasswordPolicy;
use kofl::text::random_text;
use kofl::utils::{config_file_path, get_config_path, session_file_path};

const KEY_HASH: &str = "8102277bc38b0a194ce53f61678f9e5df6e2f1e2ac77ce0731d286aeb8d10389";

fn blank_config() -> KoflGlobalConfig {
    KoflGlobalConfig::new("/home/operator", Some("operator".to_string()))
}

fn keyed_config() -> KoflGlobalConfig {
    let mut config = blank_config();
    config.set_salt("0123456789abcdef".to_string());
    config.set_master_key_hash(KEY_HASH.to_string());
    config.set_master_key_provided(true);
    config
}

fn config_with_hash(hash: &str) -> KoflGlobalConfig {
    let mut config = keyed_config();
    config.set_master_key_hash(hash.to_string());
    config
}

fn context_of(config: KoflGlobalConfig, entries: Vec<Entry>) -> Context {
    Context::new(config, true, entries, PasswordPolicy::permissive())
}

fn entry(name: &str, password_hash: &str) -> Entry {
    Entry {
        id: 1,
        ent_name: name.to_string(),
        password_hash: password_hash.to_string(),
        timestamp: "2024-05-01T10:00:00+00:00".to_string(),
    }
}

#[test]
fn test_get_config_path() {
    // This test will check if the get_config_path function returns a valid path.
    let config_filename = ".kofl";
    let config_path = get_config_path(Some("/home/operator".to_string()), config_filename);

    assert!(config_path.is_some());
    assert!(config_path.unwrap().ends_with(config_filename));
}

#[test]
fn it_works() {
    let add_commad: AddCmd = AddCmd::new("facebook".to_string(), "whocares".to_string(), false);
    assert_eq!(
        add_commad,
        AddCmd {
            name: "facebook".to_string(),
            password: "whocares".to_string(),
            suggest_flag: false,
            suggested_pwd: String::new(),
        }
    );
}

#[test]
fn add_commands_compare_by_name_and_password() {
    let first = AddCmd::new("facebook".to_string(), "whocares".to_string(), false);
    let mut second = AddCmd::new("facebook".to_string(), "whocares".to_string(), true);
    second.suggested_pwd = "Xk2#suggested".to_string();
    assert_eq!(first, second);
    assert_ne!(first, AddCmd::new("facebook".to_string(), "other".to_string(), false));
    assert_ne!(first, AddCmd::new("twitter".to_string(), "whocares".to_string(), false));
}

#[test]
fn config_path_joins_home_and_file() {
    assert_eq!(
        get_config_path(Some("/home/operator".to_string()), ".kofl"),
        Some("/home/operator/.kofl".to_string())
    );
    assert_eq!(
        get_config_path(Some("/home/operator/".to_string()), "kofl.sqlite"),
        Some("/home/operator/kofl.sqlite".to_string())
    );
    assert_eq!(get_config_path(None, ".kofl"), None);
}

#[test]
fn well_known_paths_live_in_the_home_directory() {
    assert_eq!(
        config_file_path(Some("/home/operator".to_string())),
        Some("/home/operator/.kofl".to_string())
    );
    assert_eq!(
        session_file_path(Some("/home/operator".to_string())),
        Some("/home/operator/.kofl_session".to_string())
    );
    assert_eq!(config_file_path(None), None);
    assert_eq!(session_file_path(None), None);
}

#[test]
fn new_config_is_unprovisioned() {
    let config = blank_config();
    assert_eq!(config.get_config_path(), "/home/operator/.kofl");
    assert_eq!(config.get_data_storage_path(), "/home/operator/kofl.sqlite");
    assert_eq!(config.get_user_id(), "1234567");
    assert_eq!(config.get_username(), "operator");
    assert_eq!(config.get_salt(), "");
    assert_eq!(config.get_master_key_hash(), "");
    assert!(!config.is_master_key_provided());
    assert!(!is_provided(&config));
    assert_eq!(KoflGlobalConfig::new("/home/operator", None).get_username(), "user_12234");
}

#[test]
fn setters_change_one_field_each() {
    let mut config = blank_config();
    config.set_salt("pepper".to_string());
    assert_eq!(config.get_salt(), "pepper");
    assert_eq!(config.get_master_key_hash(), "");
    assert!(!config.is_master_key_provided());
    config.set_master_key_hash("abcd".to_string());
    assert_eq!(config.get_master_key_hash(), "abcd");
    assert_eq!(config.get_salt(), "pepper");
    assert!(!config.is_master_key_provided());
    config.set_master_key_provided(true);
    assert!(config.is_master_key_provided());
    assert_eq!(config.get_config_path(), "/home/operator/.kofl");
    assert_eq!(config.get_data_storage_path(), "/home/operator/kofl.sqlite");
}

#[test]
fn master_key_flag_only_goes_up() {
    let mut config = blank_config();
    config.set_master_key_provided(false);
    assert!(config.is_master_key_provided());
}

#[test]
fn config_survives_taking_apart_and_duplicating() {
    let config = KoflGlobalConfig::from_parts(
        "/c".to_string(),
        "/d".to_string(),
        "7".to_string(),
        "u".to_string(),
        "s".to_string(),
        "h".to_string(),
        true,
    );
    let copy = config.duplicate();
    assert_eq!(copy.get_config_path(), "/c");
    assert_eq!(copy.get_data_storage_path(), "/d");
    assert_eq!(copy.get_user_id(), "7");
    assert_eq!(copy.get_username(), "u");
    assert_eq!(copy.get_salt(), "s");
    assert_eq!(copy.get_master_key_hash(), "h");
    assert!(copy.is_master_key_provided());
}

#[test]
fn load_takes_over_a_stored_config() {
    let mut config = blank_config();
    let first_run = config.load(StoredConfig::Found(keyed_config()));
    assert!(!first_run);
    assert_eq!(config.get_salt(), "0123456789abcdef");
    assert_eq!(config.get_master_key_hash(), KEY_HASH);
    assert!(config.is_master_key_provided());
}

#[test]
fn load_keeps_the_config_when_the_file_cannot_be_read() {
    let mut config = keyed_config();
    assert!(!config.load(StoredConfig::Unreadable));
    assert_eq!(config.get_master_key_hash(), KEY_HASH);
    assert!(config.is_master_key_provided());
}

#[test]
fn load_asks_for_the_file_on_the_first_run() {
    let mut config = blank_config();
    assert!(config.load(StoredConfig::Missing));
    assert_eq!(config.get_config_path(), "/home/operator/.kofl");
    assert_eq!(config.get_salt(), "");
    assert!(!config.is_master_key_provided());
}

#[test]
fn random_text_is_letters_and_digits() {
    for len in [0, 1, 16, 100] {
        let text = random_text(len);
        assert_eq!(text.chars().count(), len);
        assert!(text.chars().all(|c| c.is_ascii_alphanumeric()));
    }
    assert_ne!(random_text(32), random_text(32));
}

#[test]
fn key_hash_is_the_digest_of_salt_and_password() {
    assert_eq!(
        derive_key_hash("a", "bc"),
        "ba7816bf8f01cfea414140de5dae2223b00361a396177a9cb410ff61f20015ad"
    );
    assert_eq!(derive_key_hash("0123456789abcdef", "Tr0ub4dor&3"), KEY_HASH);
}

#[test]
fn init_provisions_the_master_key() {
    let mut config = blank_config();
    let password = "Tr0ub4dor&3".to_string();
    initialize(&mut config, &password, &password).unwrap();
    assert_eq!(config.get_salt().chars().count(), 16);
    assert!(config.get_salt().chars().all(|c| c.is_ascii_alphanumeric()));
    assert!(config.is_master_key_provided());
    assert!(!config.get_master_key_hash().is_empty());
    assert_eq!(
        config.get_master_key_hash(),
        derive_key_hash(config.get_salt(), "Tr0ub4dor&3")
    );
    assert_eq!(get_key_material(&config).unwrap().len(), 32);
    assert_eq!(config.get_config_path(), "/home/operator/.kofl");
    assert_eq!(config.get_username(), "operator");
}

#[test]
fn init_rejects_passwords_that_differ() {
    let mut config = blank_config();
    let result = initialize(&mut config, &"abc".to_string(), &"xyz".to_string());
    assert!(matches!(result, Err(ErrorExecution::PasswordMismatch)));
    assert_eq!(config.get_salt(), "");
    assert_eq!(config.get_master_key_hash(), "");
    assert!(!config.is_master_key_provided());
}

#[test]
fn init_with_salt_uses_the_salt_once() {
    let mut config = blank_config();
    let password = "Tr0ub4dor&3".to_string();
    initialize_with_salt(&mut config, &password, &password, "0123456789abcdef".to_string())
        .unwrap();
    assert_eq!(config.get_salt(), "0123456789abcdef");
    assert_eq!(config.get_master_key_hash(), KEY_HASH);
    assert!(config.is_master_key_provided());

    let changed = "correct horse".to_string();
    initialize_with_salt(&mut config, &changed, &changed, "ZZZZZZZZZZZZZZZZ".to_string())
        .unwrap();
    assert_eq!(config.get_salt(), "0123456789abcdef");
    assert_eq!(
        config.get_master_key_hash(),
        derive_key_hash("0123456789abcdef", "correct horse")
    );
}

#[test]
fn init_keeps_the_salt_of_an_existing_vault() {
    let mut config = keyed_config();
    let password = "another password".to_string();
    initialize(&mut config, &password, &password).unwrap();
    assert_eq!(config.get_salt(), "0123456789abcdef");
    assert_ne!(config.get_master_key_hash(), KEY_HASH);
}

#[test]
fn init_draws_a_different_salt_for_each_vault() {
    let password = "Tr0ub4dor&3".to_string();
    let mut first = blank_config();
    let mut second = blank_config();
    initialize(&mut first, &password, &password).unwrap();
    initialize(&mut second, &password, &password).unwrap();
    assert_ne!(first.get_salt(), second.get_salt());
    assert_ne!(first.get_master_key_hash(), second.get_master_key_hash());
}

#[test]
fn init_command_hands_back_the_config_to_persist() {
    let context = context_of(blank_config(), Vec::new());
    let command = InitCmd::new("Tr0ub4dor&3".to_string(), "Tr0ub4dor&3".to_string());
    assert!(command.validate(&context).passed());
    let config = command.execute(&context).unwrap();
    assert_eq!(config.get_salt().chars().count(), 16);
    assert!(config.is_master_key_provided());
    assert!(!config.get_master_key_hash().is_empty());
    assert!(!context.kgc.is_master_key_provided());
    assert_eq!(context.kgc.get_salt(), "");
}

#[test]
fn init_command_rejects_passwords_that_differ() {
    let context = context_of(blank_config(), Vec::new());
    let command = InitCmd::new("abc".to_string(), "xyz".to_string());
    assert!(matches!(command.execute(&context), Err(ErrorExecution::PasswordMismatch)));
    assert!(!context.kgc.is_master_key_provided());
    assert_eq!(context.kgc.get_master_key_hash(), "");
}

#[test]
fn key_material_is_the_decoded_hash() {
    assert_eq!(get_key_material(&keyed_config()).unwrap(), decode(KEY_HASH).unwrap());
    assert!(matches!(
        get_key_material(&config_with_hash("not hex")),
        Err(ErrorExecution::DecodeFailure)
    ));
    assert!(matches!(
        get_key_material(&config_with_hash("abc")),
        Err(ErrorExecution::DecodeFailure)
    ));
    assert_eq!(get_key_material(&blank_config()).unwrap(), Vec::<u8>::new());
}

#[test]
fn add_seals_the_secret_under_the_master_key() {
    let context = context_of(keyed_config(), Vec::new());
    let command = AddCmd::new("github".to_string(), "hunter2".to_string(), false);
    let nonce: Vec<u8> = (0..16).collect();
    let stored = command
        .seal_entry(&context, &nonce, "2024-05-01T10:00:00+00:00".to_string())
        .unwrap();
    assert_eq!(stored.id, 0);
    assert_eq!(stored.ent_name, "github");
    assert_eq!(stored.password_hash, "000102030405060708090a0b0c0d0e0fd1d2f363efd60d");
    assert_eq!(stored.timestamp, "2024-05-01T10:00:00+00:00");

    let zero = [0u8; 16];
    let stored = command.seal_entry(&context, &zero, String::new()).unwrap();
    assert_eq!(stored.password_hash, "00000000000000000000000000000000d2359a0f5d828c");
}

#[test]
fn add_then_get_gives_the_secret_back() {
    let context = context_of(keyed_config(), Vec::new());
    let add = AddCmd::new("github".to_string(), "hunter2".to_string(), false);
    assert!(add.validate(&context).passed());
    let stored = add.execute(&context).unwrap();
    assert_eq!(stored.ent_name, "github");
    assert_eq!(stored.password_hash.len(), 2 * (16 + 7));
    assert!(!stored.password_hash.contains("hunter2"));
    assert!(!stored.timestamp.is_empty());

    let context = context_of(keyed_config(), vec![entry("other", "00"), stored]);
    let get = GetCmd::new("github".to_string());
    assert!(get.validate(&context).passed());
    assert_eq!(get.execute(&context).unwrap(), "hunter2");
}

#[test]
fn add_stamps_the_entry_with_the_time() {
    let context = context_of(keyed_config(), Vec::new());
    let add = AddCmd::new("github".to_string(), "hunter2".to_string(), false);
    let stored = add.execute(&context).unwrap();
    // 2024-05-01T10:00:00.123456789+00:00
    assert!(stored.timestamp.len() >= 20);
    assert_eq!(&stored.timestamp[4..5], "-");
    assert_eq!(&stored.timestamp[10..11], "T");
}

#[test]
fn add_stores_the_suggested_password_when_asked() {
    let context = context_of(keyed_config(), Vec::new());
    let mut add = AddCmd::new("github".to_string(), "ignored".to_string(), true);
    add.suggested_pwd = "hunter2".to_string();
    assert_eq!(add.secret(), Some(&"hunter2".to_string()));
    let nonce: Vec<u8> = (0..16).collect();
    let stored = add.seal_entry(&context, &nonce, String::new()).unwrap();
    assert_eq!(stored.password_hash, "000102030405060708090a0b0c0d0e0fd1d2f363efd60d");
}

#[test]
fn add_fails_on_a_malformed_key_hash() {
    let nonce = [0u8; 16];
    let add = AddCmd::new("github".to_string(), "hunter2".to_string(), false);
    for hash in ["zz", "abc", "", "00ff", &KEY_HASH[..62]] {
        let context = context_of(config_with_hash(hash), Vec::new());
        assert!(matches!(add.execute(&context), Err(ErrorExecution::DecodeFailure)));
        assert!(matches!(
            add.seal_entry(&context, &nonce, String::new()),
            Err(ErrorExecution::DecodeFailure)
        ));
    }
}

#[test]
fn add_fails_on_a_nonce_of_wrong_length() {
    let context = context_of(keyed_config(), Vec::new());
    let add = AddCmd::new("github".to_string(), "hunter2".to_string(), false);
    assert!(matches!(
        add.seal_entry(&context, &[0u8; 12], String::new()),
        Err(ErrorExecution::CipherFailure)
    ));
}

#[test]
fn get_finds_no_entry_of_an_unknown_name() {
    let context = context_of(keyed_config(), vec![entry("github", "00")]);
    let get = GetCmd::new("nonexistent".to_string());
    let report = get.validate(&context);
    assert!(!report.passed());
    assert_eq!(report.failure, Some(ErrorValidation::EntryNotFound.message()));
    assert_eq!(report.failure, Some("No match for the given entry.".to_string()));
    assert_eq!(report.executed, 3);
    assert!(matches!(get.execute(&context), Err(ErrorExecution::NoMatchingEntry)));
    // The entry is looked up before the key is: a missing entry is reported
    // even where decryption could not have worked.
    let context = context_of(config_with_hash("zz"), Vec::new());
    assert!(matches!(get.execute(&context), Err(ErrorExecution::NoMatchingEntry)));
}

#[test]
fn get_reads_a_known_ciphertext() {
    let stored = entry("github", "000102030405060708090a0b0c0d0e0fd1d2f363efd60d");
    let context = context_of(keyed_config(), vec![stored]);
    assert_eq!(GetCmd::new("github".to_string()).execute(&context).unwrap(), "hunter2");
    assert_eq!(GetCmd::open_entry(&context.entries[0], &context).unwrap(), "hunter2");
}

#[test]
fn get_gives_the_first_entry_of_a_name() {
    let context = context_of(
        keyed_config(),
        vec![
            entry("gitlab", "00"),
            entry("github", "000102030405060708090a0b0c0d0e0fd1d2f363efd60d"),
            entry("github", "zz"),
        ],
    );
    assert_eq!(GetCmd::new("github".to_string()).execute(&context).unwrap(), "hunter2");
    assert_eq!(context.find_entry(&"github".to_string()).unwrap().id, 1);
    assert!(context.has_entry(&"gitlab".to_string()));
    assert!(!context.has_entry(&"git".to_string()));
    assert!(context.find_entry(&"GitHub".to_string()).is_none());
}

#[test]
fn get_fails_on_malformed_stored_text() {
    let get = GetCmd::new("github".to_string());
    let context = context_of(keyed_config(), vec![entry("github", "xyz")]);
    assert!(matches!(get.execute(&context), Err(ErrorExecution::DecodeFailure)));
    let context = context_of(keyed_config(), vec![entry("github", "0001")]);
    assert!(matches!(get.execute(&context), Err(ErrorExecution::CipherFailure)));
    let context = context_of(config_with_hash("zz"), vec![entry("github", "00")]);
    assert!(matches!(get.execute(&context), Err(ErrorExecution::DecodeFailure)));
    let context = context_of(config_with_hash("00ff"), vec![entry("github", "00")]);
    assert!(matches!(get.execute(&context), Err(ErrorExecution::DecodeFailure)));
}

#[test]
fn get_fails_when_the_plaintext_is_not_text() {
    // Under this key and nonce the keystream starts with d2 35; a body of
    // 2d ca decrypts to ff ff, which is not UTF-8.
    let stored = entry("github", "000000000000000000000000000000002dca");
    let context = context_of(keyed_config(), vec![stored]);
    assert!(matches!(
        GetCmd::new("github".to_string()).execute(&context),
        Err(ErrorExecution::CipherFailure)
    ));
}

#[test]
fn get_under_another_key_does_not_give_the_secret() {
    let stored = entry("github", "000102030405060708090a0b0c0d0e0fd1d2f363efd60d");
    let other = derive_key_hash("0123456789abcdef", "another password");
    let context = context_of(config_with_hash(&other), vec![stored]);
    let result = GetCmd::new("github".to_string()).execute(&context);
    assert!(!matches!(result, Ok(secret) if secret == "hunter2"));
}

#[test]
fn commands_describe_themselves() {
    let add = AddCmd::new("github".to_string(), "hunter2".to_string(), false);
    assert_eq!(add.display(), "Add command with name = github");
    assert_eq!(
        GetCmd::new("github".to_string()).display(),
        "Get command with entry name = github"
    );
    assert_eq!(InitCmd::new(String::new(), String::new()).display(), "Init Command");
}

#[test]
fn commands_tell_what_checks_may_read() {
    let add = AddCmd::new("github".to_string(), "hunter2".to_string(), false);
    assert_eq!(add.command_type(), CommandType::Add);
    assert_eq!(add.entry_name(), Some(&"github".to_string()));
    assert_eq!(add.secret(), Some(&"hunter2".to_string()));
    let get = GetCmd::new("github".to_string());
    assert_eq!(get.command_type(), CommandType::Get);
    assert_eq!(get.entry_name(), Some(&"github".to_string()));
    assert_eq!(get.secret(), None);
    let init = InitCmd::new("a".to_string(), "a".to_string());
    assert_eq!(init.command_type(), CommandType::Init);
    assert_eq!(init.entry_name(), None);
    assert_eq!(init.secret(), None);
}

#[test]
fn backup_records_snapshot_paths_and_checksum() {
    let record = BackupManager::create_new_backup(
        "/home/operator/.kofl",
        "/home/operator/kofl.sqlite",
        b"config bytes",
        b"data bytes",
    );
    assert_eq!(record.config_snapshot_path, "/home/operator/.kofl.bak");
    assert_eq!(record.data_snapshot_path, "/home/operator/kofl.sqlite.bak");
    assert_eq!(
        record.checksum_digest,
        "2c6478f71555020356c6929a12e02fffd1d9294b73eb39d4fc5f03bc0fbd973e"
    );
    assert_eq!(BackupManager::snapshot_path("a/b"), "a/b.bak");
}

#[test]
fn backup_checksum_of_empty_files() {
    assert_eq!(
        BackupManager::checksum(b"", b""),
        "2dba5dbc339e7316aea2683faf839c1b7b1ee2313db792112588118df066aa35"
    );
}

#[test]
fn backup_verifies_right_after_it_was_made() {
    let record = BackupManager::create_new_backup("/c", "/d", b"config bytes", b"data bytes");
    assert!(BackupManager::verify_backup(&record, b"config bytes", b"data bytes"));
    assert_eq!(record.checksum_digest, BackupManager::checksum(b"config bytes", b"data bytes"));
}

#[test]
fn backup_detects_a_changed_snapshot() {
    let record = BackupManager::create_new_backup("/c", "/d", b"config bytes", b"data bytes");
    assert!(!BackupManager::verify_backup(&record, b"config bytez", b"data bytes"));
    assert!(!BackupManager::verify_backup(&record, b"config bytes", b"data bytes "));
    assert!(!BackupManager::verify_backup(&record, b"data bytes", b"config bytes"));
    // Bytes moved from one file to the other are noticed too.
    assert!(!BackupManager::verify_backup(&record, b"config bytesd", b"ata bytes"));
}

#[test]
fn backup_detects_a_changed_checksum() {
    let mut record = BackupManager::create_new_backup("/c", "/d", b"config", b"data");
    record.checksum_digest = BackupManager::checksum(b"config", b"other");
    assert!(!BackupManager::verify_backup(&record, b"config", b"data"));
}

#[test]
fn a_store_written_without_backup_is_told_apart() {
    assert!(BackupManager::conclude(true, true).is_ok());
    assert!(matches!(
        BackupManager::conclude(true, false),
        Err(ErrorExecution::IncompleteBackup)
    ));
    assert!(matches!(
        BackupManager::conclude(false, false),
        Err(ErrorExecution::StorageFailure)
    ));
    assert!(matches!(
        BackupManager::conclude(false, true),
        Err(ErrorExecution::StorageFailure)
    ));
}

#[test]
fn validation_errors_have_their_messages() {
    assert_eq!(
        ErrorValidation::LongName.message(),
        "Long name expected no more than 60 caracters (example))"
    );
    assert_eq!(
        ErrorValidation::EmptyName.message(),
        "Provid a name to be associated with Your Password"
    );
    assert_eq!(
        ErrorValidation::UnrespectedPasswordProtocol.message(),
        "Password does not respect the the security protocol"
    );
    assert_eq!(ErrorValidation::StoragePathNotFound.message(), "Storage Path not found");
    assert_eq!(ErrorValidation::UnprovidedMasterKey.message(), "Master key is not provided");
    assert_eq!(
        ErrorValidation::NoActiveSession.message(),
        "No active session, open the vault first"
    );
    assert_eq!(
        ErrorValidation::EntryExists.message(),
        "An entry with this name already exists"
    );
    assert_eq!(ErrorValidation::EntryNotFound.message(), "No match for the given entry.");
}

#[test]
fn execution_errors_have_their_messages() {
    assert_eq!(
        ErrorExecution::Unknown.message(),
        "Something unexpected happened during execution"
    );
    assert_eq!(
        ErrorExecution::DecodeFailure.message(),
        "Stored hex text or key material is malformed"
    );
    assert_eq!(ErrorExecution::CipherFailure.message(), "The cipher could not process the data");
    assert_eq!(ErrorExecution::NoMatchingEntry.message(), "No match for the given entry.");
    assert_eq!(ErrorExecution::StorageFailure.message(), "The entry store reported an error");
    assert_eq!(
        ErrorExecution::PasswordMismatch.message(),
        "The two master passwords do not match"
    );
    assert_eq!(
        ErrorExecution::IncompleteBackup.message(),
        "The entry was stored but the backup is incomplete"
    );
}

#[test]
fn io_errors_carry_the_system_description() {
    let failure = std::io::Error::new(std::io::ErrorKind::NotFound, "no such vault");
    let error = ErrorExecution::from(failure);
    assert!(matches!(error, ErrorExecution::IoError(_)));
    assert_eq!(error.message(), "I/O Error: no such vault");
}
