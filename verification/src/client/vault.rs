//! Operating-system vault for saved OS-account credentials.
//!
//! Saved passwords are stored only in the machine vault: DPAPI-encrypted file on
//! Windows, the freedesktop Secret Service on Linux. If the vault is unavailable
//! the store fails closed; sessions never fall back to plaintext credential
//! persistence.

use vstd::prelude::*;

use crate::text::{concat, same_text, tell, told};

verus! {

pub const VAULT_FILE: &'static str = "vault.json";

/// The vault file holds a handful of DPAPI blobs; an oversized file is a tampering
/// or exhaustion signal, not a legitimate vault.
pub const MAX_VAULT_FILE_BYTES: u64 = 262_144;

/// A saved credential: an account and its encrypted password.
#[derive(Debug)]
pub struct VaultEntry {
    pub user: String,
    pub encrypted: Vec<u8>,
}

/// The credentials that a vault file holds.
#[derive(Debug)]
pub struct VaultFile {
    entries: Vec<VaultEntry>,
}

/// The credentials of entries: the last one for an account counts.
pub open spec fn vault_map(entries: Seq<VaultEntry>) -> Map<Seq<char>, Seq<u8>>
    decreases entries.len(),
{
    if entries.len() == 0 {
        Map::empty()
    } else {
        vault_map(entries.drop_last()).insert(
            entries.last().user@,
            entries.last().encrypted@,
        )
    }
}

impl View for VaultFile {
    type V = Map<Seq<char>, Seq<u8>>;

    closed spec fn view(&self) -> Map<Seq<char>, Seq<u8>> {
        vault_map(self.entries@)
    }
}

impl VaultFile {
    /// An empty vault.
    pub fn new() -> (result: VaultFile)
        ensures
            result@ == Map::<Seq<char>, Seq<u8>>::empty(),
    {
        VaultFile { entries: Vec::new() }
    }

    /// The vault with these entries; the last one for an account counts.
    pub fn from_entries(entries: Vec<VaultEntry>) -> (result: VaultFile)
        ensures
            result@ == vault_map(entries@),
    {
        VaultFile { entries }
    }

    /// The entries of the vault.
    pub fn entries(&self) -> (result: &Vec<VaultEntry>)
        ensures
            vault_map(result@) == self@,
    {
        &self.entries
    }

    /// Reads the encrypted password of an account.
    pub fn load(&self, user: &str) -> (result: Option<Vec<u8>>)
        ensures
            match result {
                Some(encrypted) => self@.contains_key(user@) && self@[user@] == encrypted@,
                None => !self@.contains_key(user@),
            },
    {
        let mut i: usize = self.entries.len();
        let ghost all = self.entries@;
        assert(all.take(i as int) =~= all);
        while i > 0
            invariant
                i <= self.entries.len(),
                all == self.entries@,
                vault_map(all).contains_key(user@) == vault_map(all.take(i as int)).contains_key(
                    user@,
                ),
                vault_map(all)[user@] == vault_map(all.take(i as int))[user@],
            decreases i,
        {
            i -= 1;
            assert(all.take(i + 1).drop_last() =~= all.take(i as int));
            assert(all.take(i + 1).last() == all[i as int]);
            if same_text(&self.entries[i].user, user) {
                return Some(self.entries[i].encrypted.clone());
            }
        }
        assert(all.take(0) =~= Seq::empty());
        None
    }

    /// Forgets the password of an account.
    pub fn delete(&mut self, user: &str)
        ensures
            final(self)@ == old(self)@.remove(user@),
    {
        let ghost all = self.entries@;
        let mut old_entries: Vec<VaultEntry> = Vec::new();
        core::mem::swap(&mut self.entries, &mut old_entries);
        let mut rest: Vec<VaultEntry> = Vec::new();
        let mut n: usize = 0;
        assert(vault_map(rest@) =~= vault_map(all.take(0)).remove(user@)) by {
            assert(all.take(0) =~= Seq::empty());
            assert(rest@ =~= Seq::empty());
        }
        while n < old_entries.len()
            invariant
                n <= old_entries.len(),
                old_entries@ == all,
                vault_map(rest@) == vault_map(all.take(n as int)).remove(user@),
            decreases old_entries.len() - n,
        {
            let ghost before = rest@;
            let ghost taken = all.take(n + 1);
            assert(taken.drop_last() =~= all.take(n as int));
            assert(taken.last() == all[n as int]);
            if !same_text(&old_entries[n].user, user) {
                rest.push(
                    VaultEntry {
                        user: old_entries[n].user.clone(),
                        encrypted: old_entries[n].encrypted.clone(),
                    },
                );
                assert(rest@.drop_last() =~= before);
                assert(vault_map(rest@) =~= vault_map(taken).remove(user@));
            } else {
                assert(vault_map(rest@) =~= vault_map(taken).remove(user@));
            }
            n += 1;
        }
        assert(all.take(all.len() as int) =~= all);
        self.entries = rest;
    }

    /// Saves the encrypted password of an account, in place of an earlier one.
    pub fn store(&mut self, user: &str, encrypted: Vec<u8>)
        ensures
            final(self)@ == old(self)@.insert(user@, encrypted@),
    {
        let ghost before = self@;
        self.delete(user);
        let ghost rest = self.entries@;
        self.entries.push(VaultEntry { user: user.to_owned(), encrypted });
        assert(self.entries@.drop_last() =~= rest);
        assert(vault_map(self.entries@) =~= before.insert(user@, encrypted@));
    }
}

/// Why a vault's file is not read, if it is not.
pub open spec fn vault_fault(path: Seq<char>, length: int, bytes: int) -> Option<Seq<char>> {
    if length > MAX_VAULT_FILE_BYTES {
        Some("credential vault exceeds the 262144-byte limit"@)
    } else if bytes == 0 {
        Some("credential vault is empty: "@ + path)
    } else {
        None
    }
}

/// What is wrong with a vault file, if anything: it has a bounded size, and is not
/// empty.
pub fn check_vault_file(path: &str, length: u64, bytes: usize) -> (result: Result<(), String>)
    ensures
        told(
            result,
            vault_fault(path@, length as int, bytes as int),
        ),
{
    if length > MAX_VAULT_FILE_BYTES {
        return tell("credential vault exceeds the 262144-byte limit");
    }
    if bytes == 0 {
        return tell(&concat("credential vault is empty: ", path));
    }
    Ok(())
}

/// A secret as the Secret Service takes it: its session, no parameters, the
/// secret's bytes, and what they are.
#[derive(Debug)]
pub struct SecretTuple {
    pub session: String,
    pub parameters: Vec<u8>,
    pub value: Vec<u8>,
    pub content_type: &'static str,
}

/// Makes a secret for the Secret Service.
pub fn secret_tuple(session: &str, value: &Vec<u8>) -> (result: SecretTuple)
    ensures
        result.session@ == session@,
        result.parameters@ == Seq::<u8>::empty(),
        result.value@ == value@,
        result.content_type@ == "text/plain"@,
{
    SecretTuple {
        session: session.to_owned(),
        parameters: Vec::new(),
        value: value.clone(),
        content_type: "text/plain",
    }
}

/// The attributes by which the credential of an account is found.
pub fn attributes(user: &str) -> (result: [(&'static str, String); 2])
    ensures
        result[0].0@ == "application"@,
        result[0].1@ == "centrald"@,
        result[1].0@ == "account"@,
        result[1].1@ == user@,
{
    [("application", "centrald".to_owned()), ("account", user.to_owned())]
}

/// What is done with the Secret Service to save a credential.
#[derive(Debug)]
pub enum StoreAction {
    /// Sets the secret of an item that is there.
    SetSecret(String),
    /// Creates an item in the default collection.
    CreateItem,
}

/// The item that holds the credential of an account, among those that were found:
/// the first that is unlocked, or else the first that is locked.
pub open spec fn found_item(unlocked: Seq<String>, locked: Seq<String>) -> Option<Seq<char>> {
    if unlocked.len() > 0 {
        Some(unlocked[0]@)
    } else if locked.len() > 0 {
        Some(locked[0]@)
    } else {
        None
    }
}

/// Picks the item that holds the credential of an account.
pub fn pick_item(unlocked: &Vec<String>, locked: &Vec<String>) -> (result: Option<String>)
    ensures
        crate::text::optional_view(result) == found_item(unlocked@, locked@),
{
    if unlocked.len() > 0 {
        Some(unlocked[0].clone())
    } else if locked.len() > 0 {
        Some(locked[0].clone())
    } else {
        None
    }
}

/// Tells how a credential is saved.
pub fn store_account_credential(unlocked: &Vec<String>, locked: &Vec<String>) -> (result:
    StoreAction)
    ensures
        match found_item(unlocked@, locked@) {
            Some(item) => result matches StoreAction::SetSecret(path) && path@ == item,
            None => result is CreateItem,
        },
{
    match pick_item(unlocked, locked) {
        Some(item) => StoreAction::SetSecret(item),
        None => StoreAction::CreateItem,
    }
}

/// Tells which item is deleted to forget a credential, if there is one.
pub fn delete_account_credential(unlocked: &Vec<String>, locked: &Vec<String>) -> (result: Option<
    String,
>)
    ensures
        crate::text::optional_view(result) == found_item(unlocked@, locked@),
{
    pick_item(unlocked, locked)
}

/// Tells from which item a credential is read, if there is one.
pub fn load_account_credential(unlocked: &Vec<String>, locked: &Vec<String>) -> (result: Option<
    String,
>)
    ensures
        crate::text::optional_view(result) == found_item(unlocked@, locked@),
{
    pick_item(unlocked, locked)
}

/// An item that is unlocked is used before one that is locked, and there is none only where neither
/// was found.
pub proof fn unlocked_items_are_used_first(unlocked: Seq<String>, locked: Seq<String>)
    ensures
        found_item(unlocked, locked) is None <==> unlocked.len() == 0 && locked.len() == 0,
        unlocked.len() > 0 ==> found_item(unlocked, locked) == Some(unlocked.first()@),
        unlocked.len() == 0 && locked.len() > 0 ==> found_item(unlocked, locked) == Some(
            locked.first()@,
        ),
{
}

/// What was stored last for an account is what is read of it, and other accounts keep theirs.
pub proof fn vaults_keep_what_was_stored(
    entries: Seq<VaultEntry>,
    entry: VaultEntry,
    other: Seq<char>,
)
    ensures
        vault_map(entries.push(entry)).contains_key(entry.user@),
        vault_map(entries.push(entry))[entry.user@] == entry.encrypted@,
        other != entry.user@ ==> (vault_map(entries.push(entry)).contains_key(other) <==> vault_map(
            entries,
        ).contains_key(other)),
        other != entry.user@ && vault_map(entries).contains_key(other) ==> vault_map(
            entries.push(entry),
        )[other] == vault_map(entries)[other],
{
    assert(entries.push(entry).drop_last() =~= entries);
}

/// A vault's file is read exactly if it holds something and at most 256 KiB.
pub proof fn bounded_vaults_are_read(path: Seq<char>, length: int, bytes: int)
    ensures
        vault_fault(path, length, bytes) is None <==> length <= 256 * 1024 && bytes != 0,
{
}

} // verus!
