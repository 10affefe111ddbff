//! Backups: a snapshot of the configuration and of the data store, and a
//! checksum that tells whether the snapshot is still what was written.
//!
//! The checksum is the SHA-256 digest of the two files' own SHA-256
//! digests, configuration first, as hexadecimal text. A backup replaces the
//! one before it; no history is kept.

use vstd::prelude::*;
use crate::digest::{sha256, sha256_digest};
use crate::errors::ErrorExecution;
use crate::hexcode::hex_text;

verus! {

/// What follows a file's path in the path of its snapshot.
pub open spec fn snapshot_suffix() -> Seq<char> {
    ".bak"@
}

/// The checksum of a snapshot made of these two files.
pub open spec fn checksum_text(config_bytes: Seq<u8>, data_bytes: Seq<u8>) -> Seq<char> {
    hex_text(sha256_digest(sha256_digest(config_bytes) + sha256_digest(data_bytes)))
}

/// What a backup record holds, as plain values.
pub struct BackupRecordView {
    pub config_snapshot_path: Seq<char>,
    pub data_snapshot_path: Seq<char>,
    pub checksum_digest: Seq<char>,
}

/// Where a backup's two snapshots go, and the checksum to write beside
/// them.
#[derive(Debug)]
pub struct BackupRecord {
    pub config_snapshot_path: String,
    pub data_snapshot_path: String,
    pub checksum_digest: String,
}

impl View for BackupRecord {
    type V = BackupRecordView;

    open spec fn view(&self) -> BackupRecordView {
        BackupRecordView {
            config_snapshot_path: self.config_snapshot_path@,
            data_snapshot_path: self.data_snapshot_path@,
            checksum_digest: self.checksum_digest@,
        }
    }
}

/// Plans backups and checks them.
pub struct BackupManager {}

impl BackupManager {
    /// The path of the snapshot of the file at `path`.
    pub fn snapshot_path(path: &str) -> (snapshot: String)
        ensures
            snapshot@ == path@ + snapshot_suffix(),
    {
        String::from_str(path).concat(".bak")
    }

    /// The checksum of a snapshot made of these two files.
    pub fn checksum(config_bytes: &[u8], data_bytes: &[u8]) -> (digest: String)
        ensures
            digest@ == checksum_text(config_bytes@, data_bytes@),
    {
        let mut both = sha256(config_bytes);
        let mut second = sha256(data_bytes);
        both.append(&mut second);
        let digest = sha256(both.as_slice());
        crate::hexcode::encode(digest.as_slice())
    }

    /// Plans a new backup of the two files as they are now: each is to be
    /// copied to its snapshot path, and the checksum of the two written
    /// beside them.
    ///
    /// The checksum in the record is the one that recomputing over the
    /// snapshots gives, so [`BackupManager::verify_backup`] accepts the
    /// snapshots for as long as they stay as written.
    pub fn create_new_backup(
        config_path: &str,
        data_store_path: &str,
        config_bytes: &[u8],
        data_bytes: &[u8],
    ) -> (record: BackupRecord)
        ensures
            record@ == (BackupRecordView {
                config_snapshot_path: config_path@ + snapshot_suffix(),
                data_snapshot_path: data_store_path@ + snapshot_suffix(),
                checksum_digest: checksum_text(config_bytes@, data_bytes@),
            }),
            Self::intact(record@, config_bytes@, data_bytes@),
    {
        BackupRecord {
            config_snapshot_path: Self::snapshot_path(config_path),
            data_snapshot_path: Self::snapshot_path(data_store_path),
            checksum_digest: Self::checksum(config_bytes, data_bytes),
        }
    }

    /// Whether the snapshots still give the checksum that was recorded.
    pub open spec fn intact(
        record: BackupRecordView,
        config_snapshot: Seq<u8>,
        data_snapshot: Seq<u8>,
    ) -> bool {
        record.checksum_digest == checksum_text(config_snapshot, data_snapshot)
    }

    /// Recomputes the checksum over the snapshots as they are now and
    /// compares it with the recorded one. A difference signals corruption
    /// or tampering.
    pub fn verify_backup(record: &BackupRecord, config_snapshot: &[u8], data_snapshot: &[u8]) -> (ok:
        bool)
        ensures
            ok == Self::intact(record@, config_snapshot@, data_snapshot@),
    {
        let recomputed = Self::checksum(config_snapshot, data_snapshot);
        recomputed == record.checksum_digest
    }

    /// How a command that changes the vault ends, given whether the store
    /// was written and whether the backup that follows was. A store that
    /// was written without its backup is told apart from every other
    /// failure.
    pub fn conclude(stored: bool, backed_up: bool) -> (result: Result<(), ErrorExecution>)
        ensures
            match result {
                Ok(_) => stored && backed_up,
                Err(e) => if stored {
                    !backed_up && e is IncompleteBackup
                } else {
                    e is StorageFailure
                },
            },
    {
        if !stored {
            Err(ErrorExecution::StorageFailure)
        } else if !backed_up {
            Err(ErrorExecution::IncompleteBackup)
        } else {
            Ok(())
        }
    }
}

} // verus!
