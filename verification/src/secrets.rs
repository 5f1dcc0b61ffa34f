//! Decisions of the secret stores: how keys map to store names and paths,
//! and what a missing secret is answered.
use vstd::prelude::*;
use crate::config::SecretsConfig;
use crate::text::{last_index_of, lemma_last_index_of, rfind_char};

verus! {

/// The full secret name for `key`: `prefix/key` when a prefix is set.
pub open spec fn secret_name(prefix: Option<String>, key: Seq<char>) -> Seq<char> {
    match prefix {
        Some(p) => p@ + "/"@ + key,
        None => key,
    }
}

/// Builds the full secret name for `key`, applying the store's prefix.
pub fn build_secret_name(prefix: &Option<String>, key: &str) -> (s: String)
    ensures
        s@ == secret_name(*prefix, key@),
{
    match prefix {
        Some(p) => {
            let mut s = p.clone();
            s.append("/");
            s.append(key);
            s
        },
        None => String::from_str(key),
    }
}

/// The directory and final component of a key path: split at the last
/// `/`, or the `default` directory when there is none.
pub open spec fn key_path_of(key: Seq<char>) -> (Seq<char>, Seq<char>) {
    match last_index_of(key, '/') {
        Some(i) => (key.subrange(0, i), key.subrange(i + 1, key.len() as int)),
        None => ("default"@, key),
    }
}

/// Splits a key path into its directory and its final component.
pub fn parse_key_path(key: &str) -> (r: (String, String))
    ensures
        (r.0@, r.1@) == key_path_of(key@),
{
    let n = key.unicode_len();
    match rfind_char(key, '/') {
        Some(i) => {
            let path = key.substring_char(0, i);
            let name = key.substring_char(i + 1, n);
            (String::from_str(path), String::from_str(name))
        },
        None => (String::from_str("default"), String::from_str(key)),
    }
}

/// Splitting a key that holds a `/` loses nothing: the directory, a `/`
/// and the final component give the key back, and the final component
/// holds no `/`.
pub proof fn lemma_key_path_roundtrip(key: Seq<char>)
    requires
        key.contains('/'),
    ensures
        key_path_of(key).0 + "/"@ + key_path_of(key).1 == key,
        !key_path_of(key).1.contains('/'),
{
    lemma_last_index_of(key, '/');
    let i = last_index_of(key, '/')->0;
    assert(key_path_of(key).0 + "/"@ + key_path_of(key).1 =~= key) by {
        reveal_strlit("/");
    }
    let name = key_path_of(key).1;
    assert forall|j: int| 0 <= j < name.len() implies name[j] != '/' by {
        assert(name[j] == key[i + 1 + j]);
    }
}

/// The answer for a key missing from a secret path.
pub open spec fn missing_key_message(secret_key: Seq<char>, path: Seq<char>) -> Seq<char> {
    "Secret key '"@ + secret_key + "' not found in path '"@ + path + "'"@
}

/// The value found for a key in a secret path, or the error for a missing
/// key.
pub fn secret_from_lookup(found: Option<String>, secret_key: &str, path: &str) -> (r: Result<String, String>)
    ensures
        match found {
            Some(v) => r == Ok::<String, String>(v),
            None => r matches Err(e) && e@ == missing_key_message(secret_key@, path@),
        },
{
    match found {
        Some(v) => Ok(v),
        None => {
            let mut msg = String::from_str("Secret key '");
            msg.append(secret_key);
            msg.append("' not found in path '");
            msg.append(path);
            msg.append("'");
            Err(msg)
        },
    }
}

/// The answer for a secret stored without a string value.
pub open spec fn no_string_value_message(secret_name: Seq<char>) -> Seq<char> {
    "Secret '"@ + secret_name + "' has no string value"@
}

/// The string value of a stored secret, or the error when it has none.
pub fn secret_string_or_error(value: Option<String>, secret_name: &str) -> (r: Result<String, String>)
    ensures
        match value {
            Some(v) => r == Ok::<String, String>(v),
            None => r matches Err(e) && e@ == no_string_value_message(secret_name@),
        },
{
    match value {
        Some(v) => Ok(v),
        None => {
            let mut msg = String::from_str("Secret '");
            msg.append(secret_name);
            msg.append("' has no string value");
            Err(msg)
        },
    }
}

/// The secrets looked up so far, extended with the store's answer for
/// `key`: the pair when it returned a value; its error otherwise, which
/// ends the lookup of a batch of keys.
pub fn record_secret(found: Vec<(String, String)>, key: String, answer: Result<String, String>) -> (r: Result<Vec<(String, String)>, String>)
    ensures
        match answer {
            Ok(v) => r matches Ok(f2) && f2@ == found@.push((key, v)),
            Err(e) => r == Err::<Vec<(String, String)>, String>(e),
        },
{
    match answer {
        Ok(v) => {
            let mut f2 = found;
            f2.push((key, v));
            Ok(f2)
        },
        Err(e) => Err(e),
    }
}

/// The answer when a secret is to be resolved and no store is configured.
pub open spec fn store_missing_message() -> Seq<char> {
    "Secret repository not configured"@
}

/// Whether a secret can be resolved: only when a store is configured.
pub fn require_secret_store(configured: bool) -> (r: Result<(), String>)
    ensures
        configured ==> r is Ok,
        !configured ==> (r matches Err(e) && e@ == store_missing_message()),
{
    if configured {
        Ok(())
    } else {
        Err(String::from_str("Secret repository not configured"))
    }
}

/// The secret store a configuration selects, with what is needed to reach
/// it.
#[derive(Debug, Clone, PartialEq)]
pub enum SecretStorePlan {
    Vault { url: String, token: String, mount_path: String },
    Aws { region: String, prefix: Option<String> },
    Azure { vault_url: String, tenant_id: String, client_id: String, client_secret: String },
}

/// The answer to a Vault configuration without a token.
pub open spec fn vault_token_required_message() -> Seq<char> {
    "Vault token is required"@
}

/// The answer to an Azure Key Vault configuration without a client secret.
pub open spec fn azure_secret_required_message() -> Seq<char> {
    "Azure client secret is required"@
}

/// Which secret store `config` selects: Vault (which needs a token), AWS
/// Secrets Manager, Azure Key Vault (which needs a client secret), or none.
pub fn secret_store_plan(config: &SecretsConfig) -> (r: Result<Option<SecretStorePlan>, String>)
    ensures
        match *config {
            SecretsConfig::HashiCorpVault { url, token, mount_path, .. } => match token {
                Some(t) => r == Ok::<Option<SecretStorePlan>, String>(Some(SecretStorePlan::Vault { url, token: t, mount_path })),
                None => r matches Err(e) && e@ == vault_token_required_message(),
            },
            SecretsConfig::AwsSecretsManager { region, prefix } =>
                r == Ok::<Option<SecretStorePlan>, String>(Some(SecretStorePlan::Aws { region, prefix })),
            SecretsConfig::AzureKeyVault { vault_url, tenant_id, client_id, client_secret } => match client_secret {
                Some(c) => r == Ok::<Option<SecretStorePlan>, String>(Some(SecretStorePlan::Azure {
                    vault_url, tenant_id, client_id, client_secret: c,
                })),
                None => r matches Err(e) && e@ == azure_secret_required_message(),
            },
            SecretsConfig::Disabled => r == Ok::<Option<SecretStorePlan>, String>(None),
        },
{
    match config {
        SecretsConfig::HashiCorpVault { url, token, mount_path, .. } => match token {
            Some(t) => Ok(Some(SecretStorePlan::Vault { url: url.clone(), token: t.clone(), mount_path: mount_path.clone() })),
            None => Err(String::from_str("Vault token is required")),
        },
        SecretsConfig::AwsSecretsManager { region, prefix } =>
            Ok(Some(SecretStorePlan::Aws { region: region.clone(), prefix: prefix.clone() })),
        SecretsConfig::AzureKeyVault { vault_url, tenant_id, client_id, client_secret } => match client_secret {
            Some(c) => Ok(Some(SecretStorePlan::Azure {
                vault_url: vault_url.clone(),
                tenant_id: tenant_id.clone(),
                client_id: client_id.clone(),
                client_secret: c.clone(),
            })),
            None => Err(String::from_str("Azure client secret is required")),
        },
        SecretsConfig::Disabled => Ok(None),
    }
}

/// Azure Key Vault secret store. The store can be created, but its
/// operations are disabled: reading, storing and deleting secrets are
/// refused.
#[derive(Debug)]
pub struct AzureSecretRepository {
    disabled: (),
}

/// The answer to any Azure Key Vault operation.
pub open spec fn azure_operation_message() -> Seq<char> {
    "Azure Key Vault support is currently disabled"@
}

impl AzureSecretRepository {
    /// Creates the store for the given vault and credentials; creation
    /// always succeeds.
    pub fn new(vault_url: &str, tenant_id: &str, client_id: &str, client_secret: &str) -> (r: Result<AzureSecretRepository, String>)
        ensures
            r is Ok,
    {
        Ok(AzureSecretRepository { disabled: () })
    }

    /// Reading a secret is refused.
    pub fn get(&self, key: &str) -> (r: Result<String, String>)
        ensures
            r matches Err(e) && e@ == azure_operation_message(),
    {
        Err(String::from_str("Azure Key Vault support is currently disabled"))
    }

    /// Storing a secret is refused.
    pub fn set(&self, key: &str, value: &str) -> (r: Result<(), String>)
        ensures
            r matches Err(e) && e@ == azure_operation_message(),
    {
        Err(String::from_str("Azure Key Vault support is currently disabled"))
    }

    /// Deleting a secret is refused.
    pub fn delete(&self, key: &str) -> (r: Result<(), String>)
        ensures
            r matches Err(e) && e@ == azure_operation_message(),
    {
        Err(String::from_str("Azure Key Vault support is currently disabled"))
    }

    /// The health check reports healthy.
    pub fn healthy(&self) -> (r: Result<bool, String>)
        ensures
            r == Ok::<bool, String>(true),
    {
        Ok(true)
    }
}

/// With a prefix, a secret's name is the prefix, then `/`, then the key,
/// whatever the key holds (with or without `/`); without a prefix it is the
/// key itself.
pub proof fn lemma_secret_name_parts(prefix: Option<String>, key: Seq<char>)
    ensures
        match prefix {
            Some(p) => {
                let n = secret_name(prefix, key);
                &&& n.len() == p@.len() + 1 + key.len()
                &&& n.subrange(0, p@.len() as int) =~= p@
                &&& n[p@.len() as int] == '/'
                &&& n.subrange(p@.len() as int + 1, n.len() as int) =~= key
            },
            None => secret_name(prefix, key) == key,
        },
{
    if let Some(p) = prefix {
        let n = secret_name(prefix, key);
        assert(n == p@ + "/"@ + key);
        reveal_strlit("/");
        assert(n.subrange(0, p@.len() as int) =~= p@);
        assert(n.subrange(p@.len() as int + 1, n.len() as int) =~= key);
    }
}

} // verus!
