//! Decisions of the file transfer service: which storage backend a location
//! needs, which path inside it, and what to check and prepare before
//! copying. The storage access itself is done by the caller.
use vstd::prelude::*;
use crate::task::{FileLocation, TransferOptions};
use crate::text::{decimal, u64_to_decimal};
use crate::trusted::{path_parent, spec_path_parent};

verus! {

/// File transfer over storage backends (local, FTP, SFTP, S3, Azure Blob).
#[derive(Debug, Clone, Copy)]
pub struct OpenDalFileTransferService;

/// The storage backend a location is served by, with its settings.
#[derive(Debug, Clone, PartialEq)]
pub enum OperatorConfig {
    /// Local file system rooted at `root`.
    Fs { root: String },
    /// SFTP server at `endpoint` (`host:port`) as `user`, authenticated
    /// with `key` (the location's key, its secret once resolved).
    Sftp { endpoint: String, user: String, key: String },
    /// FTP server at `endpoint` (`host:port`) as `user`, authenticated
    /// with `password` (the location's password, its secret once resolved).
    Ftp { endpoint: String, user: String, password: String },
    /// S3 bucket in a region, with an optional custom endpoint.
    S3 { bucket: String, region: String, endpoint: Option<String> },
    /// Azure Blob container of an account.
    Azblob { account_name: String, container: String },
}

/// What a transfer does besides reading the source and writing the
/// destination.
#[derive(Debug, Clone, PartialEq)]
pub struct TransferPlan {
    /// Path of the source inside its backend.
    pub source_path: String,
    /// Path of the destination inside its backend.
    pub dest_path: String,
    /// Whether the destination must be checked for existence first (it may
    /// not be overwritten).
    pub check_exists: bool,
    /// The directory to create at the destination before writing, if any.
    pub create_dir: Option<String>,
}

/// The path of a location inside its backend.
pub open spec fn location_path(l: FileLocation) -> String {
    match l {
        FileLocation::Local { path } => path,
        FileLocation::Ftp { path, .. } => path,
        FileLocation::Sftp { path, .. } => path,
        FileLocation::S3 { key, .. } => key,
        FileLocation::AzureBlob { blob, .. } => blob,
    }
}

/// `host:port`.
pub open spec fn endpoint_view(host: Seq<char>, port: u16) -> Seq<char> {
    host + ":"@ + decimal(port as nat)
}

/// The directory created before writing `dest_path`: its parent, when
/// directories are to be created and the parent is not empty.
pub open spec fn dir_to_create(options: TransferOptions, dest_path: Seq<char>) -> Option<Seq<char>> {
    if options.create_dirs {
        creatable(spec_path_parent(dest_path))
    } else {
        None
    }
}

/// A parent directory worth creating: one that is not empty.
pub open spec fn creatable(parent: Option<Seq<char>>) -> Option<Seq<char>> {
    match parent {
        Some(p) => if p.len() > 0 { Some(p) } else { None },
        None => None,
    }
}

/// The directory to create, given the destination's parent: the parent
/// when it is not empty.
pub fn creatable_parent(parent: Option<String>) -> (d: Option<String>)
    ensures
        match d {
            Some(x) => parent == Some(x) && x@.len() > 0,
            None => match parent {
                Some(p) => p@.len() == 0,
                None => true,
            },
        },
{
    match parent {
        Some(p) => {
            if p.as_str().unicode_len() > 0 {
                Some(p)
            } else {
                None
            }
        },
        None => None,
    }
}

/// The error for a destination that exists and may not be overwritten.
pub open spec fn destination_exists_message(dest_path: Seq<char>) -> Seq<char> {
    "Destination file '"@ + dest_path + "' already exists"@
}

impl OpenDalFileTransferService {
    /// A new transfer service.
    pub fn new() -> (s: OpenDalFileTransferService) {
        OpenDalFileTransferService
    }

    /// The path of a location inside its backend: the path for local,
    /// FTP and SFTP locations, the key for S3, the blob for Azure.
    pub fn get_path(location: &FileLocation) -> (p: String)
        ensures
            p == location_path(*location),
    {
        match location {
            FileLocation::Local { path } => path.clone(),
            FileLocation::Ftp { path, .. } => path.clone(),
            FileLocation::Sftp { path, .. } => path.clone(),
            FileLocation::S3 { key, .. } => key.clone(),
            FileLocation::AzureBlob { blob, .. } => blob.clone(),
        }
    }

    /// The backend a location needs: the local file system rooted at the
    /// path, an FTP or SFTP server at `host:port`, an S3 bucket, or an
    /// Azure Blob container. Every location has one.
    pub fn operator_config(location: &FileLocation) -> (r: Result<OperatorConfig, String>)
        ensures
            match *location {
                FileLocation::Local { path } => r == Ok::<OperatorConfig, String>(OperatorConfig::Fs { root: path }),
                FileLocation::Ftp { host, port, username, password_secret, .. } =>
                    r matches Ok(OperatorConfig::Ftp { endpoint, user, password })
                        && endpoint@ == endpoint_view(host@, port) && user == username && password == password_secret,
                FileLocation::Sftp { host, port, username, key_secret, .. } =>
                    r matches Ok(OperatorConfig::Sftp { endpoint, user, key })
                        && endpoint@ == endpoint_view(host@, port) && user == username && key == key_secret,
                FileLocation::S3 { bucket, region, endpoint, .. } =>
                    r == Ok::<OperatorConfig, String>(OperatorConfig::S3 { bucket, region, endpoint }),
                FileLocation::AzureBlob { account, container, .. } =>
                    r == Ok::<OperatorConfig, String>(OperatorConfig::Azblob { account_name: account, container }),
            },
    {
        match location {
            FileLocation::Local { path } => Ok(OperatorConfig::Fs { root: path.clone() }),
            FileLocation::Ftp { host, port, username, password_secret, .. } => {
                let mut endpoint = host.clone();
                endpoint.append(":");
                let digits = u64_to_decimal(*port as u64);
                endpoint.append(digits.as_str());
                Ok(OperatorConfig::Ftp { endpoint, user: username.clone(), password: password_secret.clone() })
            },
            FileLocation::Sftp { host, port, username, key_secret, .. } => {
                let mut endpoint = host.clone();
                endpoint.append(":");
                let digits = u64_to_decimal(*port as u64);
                endpoint.append(digits.as_str());
                Ok(OperatorConfig::Sftp { endpoint, user: username.clone(), key: key_secret.clone() })
            },
            FileLocation::S3 { bucket, region, endpoint, .. } => Ok(OperatorConfig::S3 {
                bucket: bucket.clone(),
                region: region.clone(),
                endpoint: endpoint.clone(),
            }),
            FileLocation::AzureBlob { account, container, .. } => Ok(OperatorConfig::Azblob {
                account_name: account.clone(),
                container: container.clone(),
            }),
        }
    }

    /// What a transfer from `source` to `destination` does around the copy:
    /// the paths inside both backends, whether the destination must be
    /// checked first (when it may not be overwritten), and which directory
    /// to create (the destination's non-empty parent, when asked for).
    pub fn plan_transfer(source: &FileLocation, destination: &FileLocation, options: &TransferOptions) -> (p: TransferPlan)
        ensures
            p.source_path == location_path(*source),
            p.dest_path == location_path(*destination),
            p.check_exists == !options.overwrite,
            match p.create_dir {
                Some(d) => dir_to_create(*options, p.dest_path@) == Some(d@),
                None => dir_to_create(*options, p.dest_path@) is None,
            },
    {
        let source_path = Self::get_path(source);
        let dest_path = Self::get_path(destination);
        let create_dir = if options.create_dirs {
            creatable_parent(path_parent(dest_path.as_str()))
        } else {
            None
        };
        TransferPlan { source_path, dest_path, check_exists: !options.overwrite, create_dir }
    }

    /// Refuses the transfer when the destination exists and may not be
    /// overwritten.
    pub fn check_destination(plan: &TransferPlan, exists: bool) -> (r: Result<(), String>)
        ensures
            (plan.check_exists && exists) ==> (r matches Err(e) && e@ == destination_exists_message(plan.dest_path@)),
            !(plan.check_exists && exists) ==> r is Ok,
    {
        if plan.check_exists && exists {
            let mut msg = String::from_str("Destination file '");
            msg.append(plan.dest_path.as_str());
            msg.append("' already exists");
            Err(msg)
        } else {
            Ok(())
        }
    }
}

impl Default for OpenDalFileTransferService {
    fn default() -> (s: Self) {
        Self::new()
    }
}

/// The directory created before writing depends on `create_dirs` and the
/// destination alone, not on whether the destination may be overwritten:
/// with `create_dirs` set it is the destination's parent whenever that is
/// not empty, and without it nothing is created.
pub proof fn lemma_create_dir_ignores_overwrite(options: TransferOptions, dest_path: Seq<char>)
    ensures
        dir_to_create(TransferOptions { overwrite: true, ..options }, dest_path)
            == dir_to_create(TransferOptions { overwrite: false, ..options }, dest_path),
        (options.create_dirs && (spec_path_parent(dest_path) matches Some(parent) && parent.len() > 0))
            ==> dir_to_create(options, dest_path) == spec_path_parent(dest_path),
        (options.create_dirs && (spec_path_parent(dest_path) matches Some(parent) && parent.len() == 0))
            ==> dir_to_create(options, dest_path) is None,
        spec_path_parent(dest_path) is None ==> dir_to_create(options, dest_path) is None,
        !options.create_dirs ==> dir_to_create(options, dest_path) is None,
{
}

} // verus!
