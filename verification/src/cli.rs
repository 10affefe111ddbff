//! The commands of the vault: `init`, `add` and `get`.
//!
//! A command is validated against a context and, if it passes, executed.
//! Executing computes what has to happen and hands it back: the entry to
//! store, the secret to deliver, the configuration to persist. Storing,
//! delivering and persisting are the caller's part.

use vstd::prelude::*;
use vstd::std_specs::cmp::PartialEqSpecImpl;
use vstd::utf8::{decode_utf8, encode_utf8, valid_utf8};
use crate::cipher::{
    ciphertext_fits, key_fits, lemma_decrypt_inverts_encrypt, opened, plaintext_fits, sealed,
    CipherEngine, NONCE_LEN,
};
use crate::config::KoflGlobalConfig;
use crate::context::{lookup, Context, Entry, EntryView};
use crate::errors::ErrorExecution;
use crate::hexcode::{hex_bytes, hex_text, is_hex_text, lemma_decode_inverts_encode};
use crate::master_key::{is_salt, key_material_of, provisioned};
use crate::text::{bytes_of, lemma_text_of_inverts_bytes_of, text_of};
use crate::validator::{
    empty_report, standard_report, validate_standard, ValidationReport, ValidationType,
};

verus! {

/// Which command a value is. Checks whose sense depends on the command go
/// by this.
#[derive(Debug, Clone, Copy, PartialEq, Eq, Structural)]
pub enum CommandType {
    Add,
    Get,
    Init,
}

/// What a check may read from a command.
pub trait CommandInfo {
    spec fn spec_command_type(&self) -> CommandType;

    /// Which command this is.
    fn command_type(&self) -> (command_type: CommandType)
        ensures
            command_type == self.spec_command_type(),
    ;

    spec fn spec_entry_name(&self) -> Option<Seq<char>>;

    /// The name of the entry that the command is about, if it is about one.
    fn entry_name(&self) -> (name: Option<&String>)
        ensures
            match name {
                Some(name) => self.spec_entry_name() == Some(name@),
                None => self.spec_entry_name() is None,
            },
    ;

    spec fn spec_secret(&self) -> Option<Seq<char>>;

    /// The secret that the command would store, if it stores one.
    fn secret(&self) -> (secret: Option<&String>)
        ensures
            match secret {
                Some(secret) => self.spec_secret() == Some(secret@),
                None => self.spec_secret() is None,
            },
    ;
}

/// A user-facing operation on the vault.
pub trait Command: CommandInfo {
    /// What executing the command hands back to be carried out.
    type Output;

    /// Runs the checks that the command requires. Nothing is changed.
    fn validate(&self, context: &Context) -> ValidationReport;

    /// Computes what the command has to do.
    fn execute(&self, context: &Context) -> Result<Self::Output, ErrorExecution>;

    /// A line that describes the command, for the log.
    fn display(&self) -> String;
}

/// Reads `chrono::Utc::now` and formats it with `to_rfc3339`. The text
/// depends on the clock, so nothing is claimed of it. The clock must not
/// stand before 1970.
#[verifier::external_body]
fn current_timestamp() -> (stamp: String) {
    chrono::Utc::now().to_rfc3339()
}

/// The secret that a stored ciphertext holds under a key hash, or the
/// failure that reading it meets: a key hash or ciphertext that is not
/// hexadecimal text, or a key of the wrong length, is a decode failure; a
/// ciphertext without a nonce, or a plaintext that is not text, is a cipher
/// failure.
pub open spec fn recover_secret(password_hash: Seq<char>, hashed_pwd: Seq<char>) -> Result<
    Seq<char>,
    ErrorExecution,
> {
    match key_material_of(hashed_pwd) {
        None => Err(ErrorExecution::DecodeFailure),
        Some(key) => if !is_hex_text(password_hash) || !key_fits(key) {
            Err(ErrorExecution::DecodeFailure)
        } else if !ciphertext_fits(hex_bytes(password_hash)) || !valid_utf8(
            opened(hex_bytes(password_hash), key),
        ) {
            Err(ErrorExecution::CipherFailure)
        } else {
            Ok(decode_utf8(opened(hex_bytes(password_hash), key)))
        },
    }
}

/// Why a secret cannot be sealed under a key hash, if it cannot: a key hash
/// that is not hexadecimal text or not of 32 bytes is a decode failure; a
/// secret too long for one keystream is a cipher failure.
pub open spec fn seal_failure(secret: Seq<char>, hashed_pwd: Seq<char>) -> Option<ErrorExecution> {
    match key_material_of(hashed_pwd) {
        None => Some(ErrorExecution::DecodeFailure),
        Some(key) => if !key_fits(key) {
            Some(ErrorExecution::DecodeFailure)
        } else if !plaintext_fits(encode_utf8(secret)) {
            Some(ErrorExecution::CipherFailure)
        } else {
            None
        },
    }
}

/// The entry that stores `secret` under `name`, sealed with the key behind
/// a key hash and a given nonce, or the failure that sealing meets: what
/// [`seal_failure`] tells, and a cipher failure for a nonce of the wrong
/// length.
pub open spec fn seal_secret(
    name: Seq<char>,
    secret: Seq<char>,
    hashed_pwd: Seq<char>,
    nonce: Seq<u8>,
    timestamp: Seq<char>,
) -> Result<EntryView, ErrorExecution> {
    match seal_failure(secret, hashed_pwd) {
        Some(e) => Err(e),
        None => if nonce.len() != NONCE_LEN {
            Err(ErrorExecution::CipherFailure)
        } else {
            Ok(
                EntryView {
                    id: 0,
                    ent_name: name,
                    password_hash: hex_text(
                        sealed(encode_utf8(secret), key_material_of(hashed_pwd)->Some_0, nonce),
                    ),
                    timestamp,
                },
            )
        },
    }
}

/// The command that stores a new secret under a name.
#[derive(Debug)]
pub struct AddCmd {
    pub name: String,
    pub password: String,
    pub suggest_flag: bool,
    pub suggested_pwd: String,
}

impl PartialEq for AddCmd {
    /// Two add commands are equal when they store the same password under
    /// the same name.
    fn eq(&self, other: &Self) -> (equal: bool) {
        self.name == other.name && self.password == other.password
    }
}

impl PartialEqSpecImpl for AddCmd {
    open spec fn obeys_eq_spec() -> bool {
        true
    }

    open spec fn eq_spec(&self, other: &Self) -> bool {
        self.name@ == other.name@ && self.password@ == other.password@
    }
}

impl AddCmd {
    pub fn new(name: String, password: String, suggest_flag: bool) -> (command: AddCmd)
        ensures
            command.name == name,
            command.password == password,
            command.suggest_flag == suggest_flag,
            command.suggested_pwd@ == Seq::<char>::empty(),
    {
        AddCmd { name, password, suggest_flag, suggested_pwd: String::new() }
    }

    /// The secret to store: the suggested password where one was asked
    /// for, the given password otherwise.
    pub open spec fn secret_text(&self) -> Seq<char> {
        if self.suggest_flag {
            self.suggested_pwd@
        } else {
            self.password@
        }
    }

    /// The checks that adding requires, in the order they run.
    pub open spec fn required_checks() -> Seq<ValidationType> {
        seq![
            ValidationType::MasterKeyCheck,
            ValidationType::SessionCheck,
            ValidationType::EntryExistsCheck,
            ValidationType::PasswordRequirementCheck,
        ]
    }

    /// Builds the entry to store, sealing the secret with a given nonce and
    /// stamping it with a given time.
    pub fn seal_entry(&self, context: &Context, nonce: &[u8], timestamp: String) -> (result: Result<
        Entry,
        ErrorExecution,
    >)
        ensures
            match result {
                Ok(entry) => Ok::<EntryView, ErrorExecution>(entry@) == seal_secret(
                    self.name@,
                    self.secret_text(),
                    context.kgc@.hashed_pwd,
                    nonce@,
                    timestamp@,
                ),
                Err(e) => Err::<EntryView, ErrorExecution>(e) == seal_secret(
                    self.name@,
                    self.secret_text(),
                    context.kgc@.hashed_pwd,
                    nonce@,
                    timestamp@,
                ),
            },
    {
        let key = crate::master_key::get_key_material(&context.kgc)?;
        let plaintext = if self.suggest_flag {
            bytes_of(self.suggested_pwd.as_str())
        } else {
            bytes_of(self.password.as_str())
        };
        let ciphertext = CipherEngine::encrypt_with_nonce(
            plaintext.as_slice(),
            key.as_slice(),
            nonce,
        )?;
        Ok(
            Entry {
                id: 0,
                ent_name: self.name.clone(),
                password_hash: crate::hexcode::encode(ciphertext.as_slice()),
                timestamp,
            },
        )
    }
}

impl CommandInfo for AddCmd {
    open spec fn spec_command_type(&self) -> CommandType {
        CommandType::Add
    }

    fn command_type(&self) -> (command_type: CommandType) {
        CommandType::Add
    }

    open spec fn spec_entry_name(&self) -> Option<Seq<char>> {
        Some(self.name@)
    }

    fn entry_name(&self) -> (name: Option<&String>) {
        Some(&self.name)
    }

    open spec fn spec_secret(&self) -> Option<Seq<char>> {
        Some(self.secret_text())
    }

    fn secret(&self) -> (secret: Option<&String>) {
        if self.suggest_flag {
            Some(&self.suggested_pwd)
        } else {
            Some(&self.password)
        }
    }

}

impl Command for AddCmd {
    type Output = Entry;

    /// The name is checked first; the master key, the session, that no
    /// entry of this name exists, and the strength of the secret follow.
    fn validate(&self, context: &Context) -> (report: ValidationReport)
        ensures
            report@ == standard_report(AddCmd::required_checks(), context, self),
    {
        let checks = vec![
            ValidationType::MasterKeyCheck,
            ValidationType::SessionCheck,
            ValidationType::EntryExistsCheck,
            ValidationType::PasswordRequirementCheck,
        ];
        assert(checks@ =~= AddCmd::required_checks());
        validate_standard(&checks, context, self)
    }

    /// Builds the entry to store: the name, the secret encrypted under the
    /// master key with a fresh nonce, as hexadecimal text, and the time.
    ///
    /// Fails exactly when [`seal_failure`] tells a failure, and with that
    /// failure. On success the stored text is the sealing of the secret
    /// under the nonce that it starts with, and reading it back under the
    /// same key hash gives the secret. The time stamp is whatever the clock
    /// gave.
    fn execute(&self, context: &Context) -> (result: Result<Entry, ErrorExecution>)
        ensures
            match result {
                Ok(entry) => {
                    &&& seal_failure(self.secret_text(), context.kgc@.hashed_pwd) is None
                    &&& is_hex_text(entry@.password_hash)
                    &&& hex_bytes(entry@.password_hash).len() >= NONCE_LEN
                    &&& Ok::<EntryView, ErrorExecution>(entry@) == seal_secret(
                        self.name@,
                        self.secret_text(),
                        context.kgc@.hashed_pwd,
                        hex_bytes(entry@.password_hash).subrange(0, NONCE_LEN as int),
                        entry@.timestamp,
                    )
                    &&& recover_secret(entry@.password_hash, context.kgc@.hashed_pwd) == Ok::<
                        Seq<char>,
                        ErrorExecution,
                    >(self.secret_text())
                },
                Err(e) => seal_failure(self.secret_text(), context.kgc@.hashed_pwd) == Some(e),
            },
    {
        let nonce = crate::cipher::fresh_nonce();
        let timestamp = current_timestamp();
        let ghost stamp = timestamp@;
        let result = self.seal_entry(context, nonce.as_slice(), timestamp);
        proof {
            if result is Ok {
                lemma_get_recovers_added(
                    self.name@,
                    self.secret_text(),
                    context.kgc@.hashed_pwd,
                    nonce@,
                    stamp,
                );
                let key = key_material_of(context.kgc@.hashed_pwd)->Some_0;
                let ciphertext = sealed(encode_utf8(self.secret_text()), key, nonce@);
                lemma_decode_inverts_encode(ciphertext);
                assert(ciphertext.subrange(0, NONCE_LEN as int) =~= nonce@);
            }
        }
        result
    }

    fn display(&self) -> (line: String)
        ensures
            line@ == "Add command with name = "@ + self.name@,
    {
        String::from_str("Add command with name = ").concat(self.name.as_str())
    }
}

/// The command that retrieves the secret stored under a name.
#[derive(Debug)]
pub struct GetCmd {
    pub ent_name: String,
}

impl GetCmd {
    pub fn new(ent_name: String) -> (command: GetCmd)
        ensures
            command.ent_name == ent_name,
    {
        GetCmd { ent_name }
    }

    /// The checks that retrieving requires, in the order they run.
    pub open spec fn required_checks() -> Seq<ValidationType> {
        seq![
            ValidationType::MasterKeyCheck,
            ValidationType::SessionCheck,
            ValidationType::EntryExistsCheck,
        ]
    }

    /// Reads the secret that an entry holds, under the master key of the
    /// context.
    pub fn open_entry(entry: &Entry, context: &Context) -> (result: Result<String, ErrorExecution>)
        ensures
            match result {
                Ok(secret) => Ok::<Seq<char>, ErrorExecution>(secret@) == recover_secret(
                    entry@.password_hash,
                    context.kgc@.hashed_pwd,
                ),
                Err(e) => Err::<Seq<char>, ErrorExecution>(e) == recover_secret(
                    entry@.password_hash,
                    context.kgc@.hashed_pwd,
                ),
            },
    {
        let key = crate::master_key::get_key_material(&context.kgc)?;
        let ciphertext = crate::hexcode::decode(entry.password_hash.as_str())?;
        let plaintext = CipherEngine::decrypt(ciphertext.as_slice(), key.as_slice())?;
        match text_of(plaintext) {
            Some(secret) => Ok(secret),
            None => Err(ErrorExecution::CipherFailure),
        }
    }
}

impl CommandInfo for GetCmd {
    open spec fn spec_command_type(&self) -> CommandType {
        CommandType::Get
    }

    fn command_type(&self) -> (command_type: CommandType) {
        CommandType::Get
    }

    open spec fn spec_entry_name(&self) -> Option<Seq<char>> {
        Some(self.ent_name@)
    }

    fn entry_name(&self) -> (name: Option<&String>) {
        Some(&self.ent_name)
    }

    open spec fn spec_secret(&self) -> Option<Seq<char>> {
        None
    }

    fn secret(&self) -> (secret: Option<&String>) {
        None
    }

}

impl Command for GetCmd {
    type Output = String;

    /// The name is checked first; the master key, the session, and that an
    /// entry of this name exists follow.
    fn validate(&self, context: &Context) -> (report: ValidationReport)
        ensures
            report@ == standard_report(GetCmd::required_checks(), context, self),
    {
        let checks = vec![
            ValidationType::MasterKeyCheck,
            ValidationType::SessionCheck,
            ValidationType::EntryExistsCheck,
        ];
        assert(checks@ =~= GetCmd::required_checks());
        validate_standard(&checks, context, self)
    }

    /// Finds the entry and decrypts its secret for delivery.
    ///
    /// Fails with [`ErrorExecution::NoMatchingEntry`] exactly when the vault
    /// holds no entry of this name, before any decryption; otherwise gives
    /// what [`recover_secret`] gives for the entry found.
    fn execute(&self, context: &Context) -> (result: Result<String, ErrorExecution>)
        ensures
            match lookup(context.entries@, self.ent_name@) {
                None => result matches Err(e) && e is NoMatchingEntry,
                Some(entry) => match result {
                    Ok(secret) => Ok::<Seq<char>, ErrorExecution>(secret@) == recover_secret(
                        entry@.password_hash,
                        context.kgc@.hashed_pwd,
                    ),
                    Err(e) => Err::<Seq<char>, ErrorExecution>(e) == recover_secret(
                        entry@.password_hash,
                        context.kgc@.hashed_pwd,
                    ),
                },
            },
    {
        match context.find_entry(&self.ent_name) {
            None => Err(ErrorExecution::NoMatchingEntry),
            Some(entry) => GetCmd::open_entry(entry, context),
        }
    }

    fn display(&self) -> (line: String)
        ensures
            line@ == "Get command with entry name = "@ + self.ent_name@,
    {
        String::from_str("Get command with entry name = ").concat(self.ent_name.as_str())
    }
}

/// The command that provisions the master key from a password typed twice.
#[derive(Debug)]
pub struct InitCmd {
    pub master_pwd: String,
    pub master_pwd_confirmed: String,
}

impl InitCmd {
    pub fn new(master_pwd: String, master_pwd_confirmed: String) -> (command: InitCmd)
        ensures
            command.master_pwd == master_pwd,
            command.master_pwd_confirmed == master_pwd_confirmed,
    {
        InitCmd { master_pwd, master_pwd_confirmed }
    }
}

impl CommandInfo for InitCmd {
    open spec fn spec_command_type(&self) -> CommandType {
        CommandType::Init
    }

    fn command_type(&self) -> (command_type: CommandType) {
        CommandType::Init
    }

    open spec fn spec_entry_name(&self) -> Option<Seq<char>> {
        None
    }

    fn entry_name(&self) -> (name: Option<&String>) {
        None
    }

    open spec fn spec_secret(&self) -> Option<Seq<char>> {
        None
    }

    fn secret(&self) -> (secret: Option<&String>) {
        None
    }

}

impl Command for InitCmd {
    type Output = KoflGlobalConfig;

    /// Initializing requires no check.
    fn validate(&self, context: &Context) -> (report: ValidationReport)
        ensures
            report@ == empty_report(),
    {
        let report = ValidationReport { executed: 0, warnings: Vec::new(), failure: None };
        assert(report@.warnings =~= Seq::<Seq<char>>::empty());
        report
    }

    /// Computes the configuration to persist: that of the context with the
    /// master key provisioned from the password.
    ///
    /// Fails with [`ErrorExecution::PasswordMismatch`] exactly when the two
    /// passwords differ. The context itself is never changed.
    fn execute(&self, context: &Context) -> (result: Result<KoflGlobalConfig, ErrorExecution>)
        ensures
            match result {
                Ok(config) => {
                    &&& self.master_pwd@ == self.master_pwd_confirmed@
                    &&& config@ == provisioned(context.kgc@, self.master_pwd@, config@.salt)
                    &&& context.kgc@.salt.len() == 0 ==> is_salt(config@.salt)
                    &&& config@.master_key_provided
                    &&& key_material_of(config@.hashed_pwd) matches Some(key) && key_fits(key)
                },
                Err(e) => e is PasswordMismatch && self.master_pwd@ != self.master_pwd_confirmed@,
            },
    {
        let mut config = context.kgc.duplicate();
        match crate::master_key::initialize(
            &mut config,
            &self.master_pwd,
            &self.master_pwd_confirmed,
        ) {
            Ok(_) => Ok(config),
            Err(e) => Err(e),
        }
    }

    fn display(&self) -> (line: String)
        ensures
            line@ == "Init Command"@,
    {
        String::from_str("Init Command")
    }
}

/// What was added can be retrieved: an entry sealed from a secret under a
/// key hash gives that secret back when it is read under the same key hash,
/// whatever the nonce and the time.
pub proof fn lemma_get_recovers_added(
    name: Seq<char>,
    secret: Seq<char>,
    hashed_pwd: Seq<char>,
    nonce: Seq<u8>,
    timestamp: Seq<char>,
)
    requires
        seal_secret(name, secret, hashed_pwd, nonce, timestamp) is Ok,
    ensures
        recover_secret(
            seal_secret(name, secret, hashed_pwd, nonce, timestamp)->Ok_0.password_hash,
            hashed_pwd,
        ) == Ok::<Seq<char>, ErrorExecution>(secret),
{
    let key = key_material_of(hashed_pwd)->Some_0;
    let plaintext = encode_utf8(secret);
    let ciphertext = sealed(plaintext, key, nonce);
    lemma_decode_inverts_encode(ciphertext);
    lemma_decrypt_inverts_encrypt(plaintext, key, nonce);
    lemma_text_of_inverts_bytes_of(secret);
}

} // verus!
