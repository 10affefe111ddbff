//! The vault's configuration, which doubles as the master-key context: the
//! salt, the key hash and the flag that tells whether a master key exists.

use vstd::prelude::*;
use crate::utils::{config_file_name, data_file_name, joined_path, push_path};

verus! {

/// What a configuration holds, as plain values.
pub struct ConfigView {
    pub config_path: Seq<char>,
    pub data_storage_path: Seq<char>,
    pub user_id: Seq<char>,
    pub username: Seq<char>,
    pub salt: Seq<char>,
    pub hashed_pwd: Seq<char>,
    pub master_key_provided: bool,
}

/// The persisted configuration of one vault.
#[derive(Debug)]
pub struct KoflGlobalConfig {
    config_path: String,
    data_storage_path: String,
    user_id: String,
    username: String,
    salt: String,
    hashed_pwd: String,
    master_key_provided: bool,
}

impl View for KoflGlobalConfig {
    type V = ConfigView;

    closed spec fn view(&self) -> ConfigView {
        ConfigView {
            config_path: self.config_path@,
            data_storage_path: self.data_storage_path@,
            user_id: self.user_id@,
            username: self.username@,
            salt: self.salt@,
            hashed_pwd: self.hashed_pwd@,
            master_key_provided: self.master_key_provided,
        }
    }
}

/// What was found where the configuration is kept.
#[derive(Debug)]
pub enum StoredConfig {
    /// There is no configuration file: this is the first run.
    Missing,
    /// There is a file, but it could not be read as a configuration.
    Unreadable,
    /// The configuration that the file holds.
    Found(KoflGlobalConfig),
}

/// The user id given to a vault until ids are assigned.
pub open spec fn default_user_id() -> Seq<char> {
    "1234567"@
}

/// The user name of a vault whose operator has none.
pub open spec fn default_username() -> Seq<char> {
    "user_12234"@
}

impl KoflGlobalConfig {
    /// The configuration of a vault that has not been initialized: both
    /// files in `home_dir`, no salt, no key hash, no master key.
    pub fn new(home_dir: &str, username: Option<String>) -> (config: KoflGlobalConfig)
        ensures
            config@ == (ConfigView {
                config_path: joined_path(home_dir@, config_file_name()),
                data_storage_path: joined_path(home_dir@, data_file_name()),
                user_id: default_user_id(),
                username: match username {
                    Some(name) => name@,
                    None => default_username(),
                },
                salt: Seq::empty(),
                hashed_pwd: Seq::empty(),
                master_key_provided: false,
            }),
    {
        KoflGlobalConfig {
            config_path: push_path(home_dir, ".kofl"),
            data_storage_path: push_path(home_dir, "kofl.sqlite"),
            user_id: String::from_str("1234567"),
            username: match username {
                Some(name) => name,
                None => String::from_str("user_12234"),
            },
            salt: String::new(),
            hashed_pwd: String::new(),
            master_key_provided: false,
        }
    }

    /// Rebuilds a configuration from the values that were persisted.
    pub fn from_parts(
        config_path: String,
        data_storage_path: String,
        user_id: String,
        username: String,
        salt: String,
        hashed_pwd: String,
        master_key_provided: bool,
    ) -> (config: KoflGlobalConfig)
        ensures
            config@ == (ConfigView {
                config_path: config_path@,
                data_storage_path: data_storage_path@,
                user_id: user_id@,
                username: username@,
                salt: salt@,
                hashed_pwd: hashed_pwd@,
                master_key_provided,
            }),
    {
        KoflGlobalConfig {
            config_path,
            data_storage_path,
            user_id,
            username,
            salt,
            hashed_pwd,
            master_key_provided,
        }
    }

    /// Takes over what was found where the configuration is kept.
    ///
    /// A configuration that was found replaces this one. Where the file is
    /// missing or unreadable this one stays as it is, and where it is
    /// missing the result tells the caller to write this one out, as the
    /// first run does.
    pub fn load(&mut self, stored: StoredConfig) -> (first_run: bool)
        ensures
            match stored {
                StoredConfig::Found(config) => final(self)@ == config@ && !first_run,
                StoredConfig::Unreadable => final(self)@ == old(self)@ && !first_run,
                StoredConfig::Missing => final(self)@ == old(self)@ && first_run,
            },
    {
        match stored {
            StoredConfig::Found(config) => {
                *self = config;
                false
            },
            StoredConfig::Unreadable => false,
            StoredConfig::Missing => true,
        }
    }

    /// A second configuration with the same contents.
    pub fn duplicate(&self) -> (copy: KoflGlobalConfig)
        ensures
            copy@ == self@,
    {
        KoflGlobalConfig {
            config_path: self.config_path.clone(),
            data_storage_path: self.data_storage_path.clone(),
            user_id: self.user_id.clone(),
            username: self.username.clone(),
            salt: self.salt.clone(),
            hashed_pwd: self.hashed_pwd.clone(),
            master_key_provided: self.master_key_provided,
        }
    }

    pub fn get_config_path(&self) -> (path: &String)
        ensures
            path@ == self@.config_path,
    {
        &self.config_path
    }

    pub fn get_data_storage_path(&self) -> (path: &String)
        ensures
            path@ == self@.data_storage_path,
    {
        &self.data_storage_path
    }

    pub fn get_user_id(&self) -> (id: &String)
        ensures
            id@ == self@.user_id,
    {
        &self.user_id
    }

    pub fn get_username(&self) -> (name: &String)
        ensures
            name@ == self@.username,
    {
        &self.username
    }

    pub fn get_salt(&self) -> (salt: &String)
        ensures
            salt@ == self@.salt,
    {
        &self.salt
    }

    /// Replaces the salt and nothing else.
    pub fn set_salt(&mut self, salt_val: String)
        ensures
            final(self)@ == (ConfigView { salt: salt_val@, ..old(self)@ }),
    {
        self.salt = salt_val;
    }

    /// Replaces the master-key hash and nothing else.
    pub fn set_master_key_hash(&mut self, hash_val: String)
        ensures
            final(self)@ == (ConfigView { hashed_pwd: hash_val@, ..old(self)@ }),
    {
        self.hashed_pwd = hash_val;
    }

    /// The master-key hash, as hexadecimal text.
    pub fn get_master_key_hash(&self) -> (hash: String)
        ensures
            hash@ == self@.hashed_pwd,
    {
        self.hashed_pwd.clone()
    }

    /// Records that a master key has been provisioned. The flag only ever
    /// goes up: whatever `is_set` holds, the vault counts as provisioned
    /// afterwards, and nothing else changes.
    pub fn set_master_key_provided(&mut self, is_set: bool)
        ensures
            final(self)@ == (ConfigView { master_key_provided: true, ..old(self)@ }),
    {
        self.master_key_provided = true;
    }

    /// Whether a master key has been provisioned.
    pub fn is_master_key_provided(&self) -> (provided: bool)
        ensures
            provided == self@.master_key_provided,
    {
        self.master_key_provided
    }
}

} // verus!
