//! The store model: the state the facade leaves on disk and the operations
//! over it.
//!
//! Every operation of the facade is a one-shot filesystem transaction; the
//! filesystem is the sole source of truth. [`StoreView`] is the abstract
//! state of that filesystem as far as the facade observes it: whether the
//! configuration directory exists and the full contents of each of the two
//! files. [`WalletStore`] realises the operations over that state, and its
//! contracts pin down what each one returns and how it changes the state.
//!
//! The plain methods describe runs in which the filesystem obeys; raw write
//! and read failures enter through [`WalletStore::save_wallet_with`] and
//! through the functions of [`crate::outcome`], which take each outcome as
//! an argument and so are verified for every value of it.

use vstd::prelude::*;

use crate::error::StoreError;
use crate::messages::{saved_message, saved_message_string, wallet_not_found_message,
    address_not_found_message};

verus! {

/// Abstract state of the storage directory: whether it exists, and the
/// contents of the keystore file and of the address file, each `None` while
/// the file is absent.
pub struct StoreView {
    pub dir_exists: bool,
    pub keystore: Option<Seq<char>>,
    pub address: Option<Seq<char>>,
}

impl StoreView {
    /// The directory is created before either file is written, so a present
    /// file implies a present directory.
    pub open spec fn wf(self) -> bool {
        (self.keystore is Some || self.address is Some) ==> self.dir_exists
    }

    /// The state before any operation: no directory, no files.
    pub open spec fn initial() -> StoreView {
        StoreView { dir_exists: false, keystore: None, address: None }
    }

    /// The state with the configuration directory created and the files
    /// untouched.
    pub open spec fn with_dir(self) -> StoreView {
        StoreView { dir_exists: true, ..self }
    }

    /// The state a full save leaves behind: directory present, both files
    /// overwritten in full.
    pub open spec fn saved(self, data: Seq<char>, address: Seq<char>) -> StoreView {
        StoreView { dir_exists: true, keystore: Some(data), address: Some(address) }
    }

    /// The state after the keystore write alone: the partial outcome that a
    /// save whose second write fails leaves observable.
    pub open spec fn keystore_saved(self, data: Seq<char>) -> StoreView {
        StoreView { dir_exists: true, keystore: Some(data), address: self.address }
    }

    /// Existence of the wallet is defined solely by the keystore file.
    pub open spec fn wallet_present(self) -> bool {
        self.keystore is Some
    }
}

/// The wallet store over an in-memory image of the directory state.
///
/// The fields mirror [`StoreView`] with owned strings in place of sequences;
/// the view relates the two.
pub struct WalletStore {
    pub dir_exists: bool,
    pub keystore: Option<String>,
    pub address: Option<String>,
}

impl View for WalletStore {
    type V = StoreView;

    open spec fn view(&self) -> StoreView {
        StoreView {
            dir_exists: self.dir_exists,
            keystore: self.keystore.deep_view(),
            address: self.address.deep_view(),
        }
    }
}

impl WalletStore {
    /// A store over a directory that does not exist yet and holds no files.
    pub fn new() -> (s: WalletStore)
        ensures
            s@ == StoreView::initial(),
    {
        WalletStore { dir_exists: false, keystore: None, address: None }
    }

    /// Creates the configuration directory if it is absent, idempotently;
    /// the files are untouched. Every operation performs this step before
    /// touching a file.
    pub fn ensure_dir(&mut self)
        ensures
            final(self)@ == old(self)@.with_dir(),
    {
        self.dir_exists = true;
    }

    /// Overwrites the keystore file with `data` and the address file with
    /// `address`, in full, creating the directory first; reports the fixed
    /// success message.
    pub fn save_wallet(&mut self, data: &str, address: &str) -> (r: Result<String, StoreError>)
        ensures
            final(self)@ == old(self)@.saved(data@, address@),
            r matches Ok(m) && m@ == saved_message(),
    {
        self.save_wallet_with(data, address, Ok(()), Ok(()))
    }

    /// A save against a filesystem that may refuse either write: the outcome
    /// of each write is taken as an argument, keystore first. Propagation
    /// stops at the first failing write, so a failed keystore write leaves
    /// both files untouched, while a failed address write after a successful
    /// keystore write leaves the keystore updated and the address not — the
    /// partial state is observable and no rollback is attempted.
    pub fn save_wallet_with(
        &mut self,
        data: &str,
        address: &str,
        keystore_write: Result<(), String>,
        address_write: Result<(), String>,
    ) -> (r: Result<String, StoreError>)
        ensures
            keystore_write is Err ==> {
                &&& final(self)@ == old(self)@.with_dir()
                &&& r is Err && r->Err_0 is Io
                &&& r->Err_0.message_spec() == keystore_write->Err_0@
            },
            keystore_write is Ok && address_write is Err ==> {
                &&& final(self)@ == old(self)@.keystore_saved(data@)
                &&& r is Err && r->Err_0 is Io
                &&& r->Err_0.message_spec() == address_write->Err_0@
            },
            keystore_write is Ok && address_write is Ok ==> {
                &&& final(self)@ == old(self)@.saved(data@, address@)
                &&& r is Ok && r->Ok_0@ == saved_message()
            },
    {
        self.dir_exists = true;
        match keystore_write {
            Err(e) => Err(StoreError::io(e)),
            Ok(()) => {
                self.keystore = Some(data.to_owned());
                match address_write {
                    Err(e) => Err(StoreError::io(e)),
                    Ok(()) => {
                        self.address = Some(address.to_owned());
                        Ok(saved_message_string())
                    },
                }
            },
        }
    }

    /// Reads the full contents of the keystore file, creating the directory
    /// first. A missing file is reported as the distinct not-found error,
    /// never as empty contents.
    pub fn read_wallet(&mut self) -> (r: Result<String, StoreError>)
        ensures
            final(self)@ == old(self)@.with_dir(),
            old(self)@.keystore matches Some(contents) ==> (r matches Ok(s) && s@ == contents),
            old(self)@.keystore is None ==> (r matches Err(e) && e is NotFound
                && e.message_spec() == wallet_not_found_message()),
    {
        self.dir_exists = true;
        match &self.keystore {
            Some(s) => Ok(s.clone()),
            None => Err(StoreError::wallet_not_found()),
        }
    }

    /// Reads the full contents of the address file, creating the directory
    /// first; the same contract as the keystore read, against the other
    /// file and with its own not-found error.
    pub fn read_address(&mut self) -> (r: Result<String, StoreError>)
        ensures
            final(self)@ == old(self)@.with_dir(),
            old(self)@.address matches Some(contents) ==> (r matches Ok(s) && s@ == contents),
            old(self)@.address is None ==> (r matches Err(e) && e is NotFound
                && e.message_spec() == address_not_found_message()),
    {
        self.dir_exists = true;
        match &self.address {
            Some(s) => Ok(s.clone()),
            None => Err(StoreError::address_not_found()),
        }
    }

    /// Whether the wallet exists: a check on the keystore file alone, after
    /// creating the directory. It returns a plain boolean and has no error
    /// outcome.
    pub fn wallet_exists(&mut self) -> (r: bool)
        ensures
            final(self)@ == old(self)@.with_dir(),
            r == old(self)@.wallet_present(),
    {
        self.dir_exists = true;
        self.keystore.is_some()
    }
}

} // verus!
