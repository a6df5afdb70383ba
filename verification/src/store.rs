//! The store of priors: one record under each hypothesis name, kept in a sled
//! database.
//!
//! To the proofs a store is a map from names to records. What sled does with
//! the map is taken on trust, in [`crate::database`]; what this crate makes of
//! it is proved here.

use crate::binary64::Binary64;
use crate::database::{
    db_entries, db_get, db_insert, db_location, db_open, db_remove, home_dir, path_beneath,
    path_join,
};
use crate::failure::{outcome, Failure, FailureView};
use crate::record::{decode_prior, decoded, encoded, lemma_decode_encode};
use crate::text::lemma_utf8_injective;
use std::path::PathBuf;
use vstd::prelude::*;
use vstd::string::StringExecFns;
use vstd::string::StringSliceAdditionalSpecFns;
use vstd::utf8::encode_utf8;

verus! {

/// The directory, beneath the user's home, that holds the store.
pub const STORE_DIRECTORY: &'static str = ".ask-bayes";

/// The name of the store within its directory.
pub const STORE_FILE: &'static str = "hypotheses.db";

/// The place of the store beneath a home directory.
pub open spec fn store_location(home: PathBuf) -> PathBuf {
    path_beneath(path_beneath(home, STORE_DIRECTORY@), STORE_FILE@)
}

/// The records of a database by hypothesis name: a name's record is the value
/// under the name's UTF-8 encoding.
pub open spec fn records_by_name(entries: Map<Seq<u8>, Seq<u8>>) -> Map<Seq<char>, Seq<u8>> {
    Map::new(
        |name: Seq<char>| entries.contains_key(encode_utf8(name)),
        |name: Seq<char>| entries[encode_utf8(name)],
    )
}

/// What a lookup finds: the record under the name, if there is one.
pub open spec fn record_of(records: Map<Seq<char>, Seq<u8>>, name: Seq<char>) -> Option<
    Seq<u8>,
> {
    if records.contains_key(name) {
        Some(records[name])
    } else {
        None
    }
}

/// The prior that a lookup gives: the value in the record, an error for a
/// record that is no value, and another for a name without a record.
pub open spec fn prior_in(found: Option<Seq<u8>>, name: Seq<char>) -> Result<
    Binary64,
    FailureView,
> {
    match found {
        Some(record) => decoded(record),
        None => Err(FailureView::HypothesisNotFound(name)),
    }
}

/// The prior stored under a name.
pub open spec fn stored_prior(records: Map<Seq<char>, Seq<u8>>, name: Seq<char>) -> Result<
    Binary64,
    FailureView,
> {
    prior_in(record_of(records, name), name)
}

/// Writing under a key of the database writes under the name that the key
/// encodes, and under no other.
proof fn lemma_insert_by_name(entries: Map<Seq<u8>, Seq<u8>>, name: Seq<char>, record: Seq<u8>)
    ensures
        records_by_name(entries.insert(encode_utf8(name), record)) == records_by_name(
            entries,
        ).insert(name, record),
{
    let after = records_by_name(entries.insert(encode_utf8(name), record));
    let expected = records_by_name(entries).insert(name, record);
    assert forall|other: Seq<char>| after.contains_key(other) == expected.contains_key(other) by {
        if encode_utf8(other) == encode_utf8(name) {
            lemma_utf8_injective(other, name);
        }
    }
    assert forall|other: Seq<char>| after.contains_key(other) implies after[other]
        == expected[other] by {
        if encode_utf8(other) == encode_utf8(name) {
            lemma_utf8_injective(other, name);
        }
    }
    assert(after =~= expected);
}

/// Removing a key of the database removes the name that the key encodes, and
/// no other.
proof fn lemma_remove_by_name(entries: Map<Seq<u8>, Seq<u8>>, name: Seq<char>)
    ensures
        records_by_name(entries.remove(encode_utf8(name))) == records_by_name(entries).remove(
            name,
        ),
{
    let after = records_by_name(entries.remove(encode_utf8(name)));
    let expected = records_by_name(entries).remove(name);
    assert forall|other: Seq<char>| after.contains_key(other) == expected.contains_key(other) by {
        if encode_utf8(other) == encode_utf8(name) {
            lemma_utf8_injective(other, name);
        }
    }
    assert(after =~= expected);
}

/// Turns what a lookup found into a prior.
pub fn prior_from_lookup(found: Option<Vec<u8>>, name: &str) -> (result: Result<Binary64, Failure>)
    ensures
        outcome(result) == prior_in(
            match found {
                Some(record) => Some(record@),
                None => None,
            },
            name@,
        ),
{
    match found {
        Some(record) => decode_prior(record.as_slice()),
        None => Err(Failure::HypothesisNotFound(String::from_str(name))),
    }
}

/// An open store of priors.
pub struct PriorStore {
    db: sled::Db,
}

impl View for PriorStore {
    type V = Map<Seq<char>, Seq<u8>>;

    /// The records of the store, by hypothesis name.
    closed spec fn view(&self) -> Map<Seq<char>, Seq<u8>> {
        records_by_name(db_entries(self.db))
    }
}

impl PriorStore {
    /// The path that the store was opened at.
    pub closed spec fn location(&self) -> PathBuf {
        db_location(self.db)
    }

    /// Opens the store at a path, creating it if there is none. A store that
    /// opened is the one at that path.
    pub fn open(path: &PathBuf) -> (result: Result<PriorStore, Failure>)
        ensures
            result matches Ok(store) ==> store.location() == *path,
            result matches Err(error) ==> error@ == FailureView::StoreUnavailable,
    {
        PriorStore::from_opened(db_open(path))
    }

    /// Opens the user's own store, beneath the home directory. A store that
    /// opened lies in its place beneath some home directory.
    pub fn open_default() -> (result: Result<PriorStore, Failure>)
        ensures
            result matches Ok(store) ==> exists|home: PathBuf|
                store.location() == #[trigger] store_location(home),
            result matches Err(error) ==> error@ == FailureView::StoreUnavailable,
    {
        PriorStore::open_beneath(home_dir())
    }

    /// The prior stored under a name.
    ///
    /// Unless the store fails, the answer is the stored value, or says that
    /// there is none, or that the record is no value.
    pub fn get(&self, name: &str) -> (result: Result<Binary64, Failure>)
        ensures
            outcome(result) == stored_prior(self@, name@) || outcome(result) == Err::<
                Binary64,
                FailureView,
            >(FailureView::StoreUnavailable),
    {
        match db_get(&self.db, name.as_bytes()) {
            Ok(found) => prior_from_lookup(found, name),
            Err(_) => Err(Failure::StoreUnavailable),
        }
    }

    /// Stores a prior under a name, in place of the one that was there.
    ///
    /// On success the name holds the record of the value and every other name
    /// is as before.
    pub fn set(&mut self, name: &str, prior: Binary64) -> (result: Result<(), Failure>)
        ensures
            match result {
                Ok(_) => final(self)@ == old(self)@.insert(name@, encoded(prior)),
                Err(error) => error@ == FailureView::StoreUnavailable,
            },
            final(self).location() == old(self).location(),
    {
        let record = prior.to_be_bytes();
        proof {
            lemma_insert_by_name(db_entries(self.db), name@, encoded(prior));
        }
        match db_insert(&mut self.db, name.as_bytes(), record.as_slice()) {
            Ok(_) => Ok(()),
            Err(_) => Err(Failure::StoreUnavailable),
        }
    }

    /// Removes the prior stored under a name. A name without one is no error.
    ///
    /// On success the name holds nothing and every other name is as before.
    pub fn remove(&mut self, name: &str) -> (result: Result<(), Failure>)
        ensures
            match result {
                Ok(_) => final(self)@ == old(self)@.remove(name@),
                Err(error) => error@ == FailureView::StoreUnavailable,
            },
            final(self).location() == old(self).location(),
    {
        proof {
            lemma_remove_by_name(db_entries(self.db), name@);
        }
        match db_remove(&mut self.db, name.as_bytes()) {
            Ok(_) => Ok(()),
            Err(_) => Err(Failure::StoreUnavailable),
        }
    }

    /// Opens the store beneath a home directory, in the directory and under
    /// the name that this crate keeps it in. Without a home directory there
    /// is no store.
    pub fn open_beneath(home: Option<PathBuf>) -> (result: Result<PriorStore, Failure>)
        ensures
            home is None ==> result is Err,
            home matches Some(base) ==> (result matches Ok(store) ==> store.location()
                == store_location(base)),
            result matches Err(failure) ==> failure@ == FailureView::StoreUnavailable,
    {
        match home {
            Some(home) => {
                let directory = path_join(&home, STORE_DIRECTORY);
                let path = path_join(&directory, STORE_FILE);
                PriorStore::open(&path)
            },
            None => Err(Failure::StoreUnavailable),
        }
    }

    /// Makes a store of what opening a database gave: the store of the
    /// records of that database, or none where the database did not open.
    fn from_opened(opened: Result<sled::Db, sled::Error>) -> (result: Result<PriorStore, Failure>)
        ensures
            match opened {
                Ok(db) => result matches Ok(store) && store@ == records_by_name(db_entries(db))
                    && store.location() == db_location(db),
                Err(_) => result matches Err(failure) && failure@
                    == FailureView::StoreUnavailable,
            },
    {
        match opened {
            Ok(db) => Ok(PriorStore { db }),
            Err(_) => Err(Failure::StoreUnavailable),
        }
    }
}

/// A prior that was stored under a name is the prior found there.
pub proof fn lemma_set_then_get(records: Map<Seq<char>, Seq<u8>>, name: Seq<char>, prior: Binary64)
    ensures
        stored_prior(records.insert(name, encoded(prior)), name) == Ok::<Binary64, FailureView>(
            prior,
        ),
{
    lemma_decode_encode(prior);
}

/// After a name was removed, no prior is found under it.
pub proof fn lemma_remove_then_get(records: Map<Seq<char>, Seq<u8>>, name: Seq<char>)
    ensures
        stored_prior(records.remove(name), name) == Err::<Binary64, FailureView>(
            FailureView::HypothesisNotFound(name),
        ),
{
}

/// Storing or removing a prior under one name leaves what is found under
/// every other name as it was.
pub proof fn lemma_other_names_kept(
    records: Map<Seq<char>, Seq<u8>>,
    name: Seq<char>,
    other: Seq<char>,
    prior: Binary64,
)
    requires
        other != name,
    ensures
        stored_prior(records.insert(name, encoded(prior)), other) == stored_prior(records, other),
        stored_prior(records.remove(name), other) == stored_prior(records, other),
{
}

/// The prior of a hypothesis in a store that was to be opened: the failure
/// of the opening where it failed, and what the store gives otherwise.
pub fn prior_in_store(opened: Result<PriorStore, Failure>, name: &str) -> (result: Result<
    Binary64,
    Failure,
>)
    ensures
        match opened {
            Err(failure) => outcome(result) == Err::<Binary64, FailureView>(failure@),
            Ok(store) => outcome(result) == stored_prior(store@, name@) || outcome(result) == Err::<
                Binary64,
                FailureView,
            >(FailureView::StoreUnavailable),
        },
{
    match opened {
        Ok(store) => store.get(name),
        Err(failure) => Err(failure),
    }
}

/// Stores a prior in a store that was to be opened, and hands the store
/// back: the failure of the opening where it failed; otherwise the store
/// with the record under the name, unless the store fails.
pub fn store_prior_in(opened: Result<PriorStore, Failure>, name: &str, prior: Binary64) -> (result:
    Result<PriorStore, Failure>)
    ensures
        match opened {
            Err(failure) => result matches Err(handed) && handed@ == failure@,
            Ok(store) => match result {
                Ok(after) => after@ == store@.insert(name@, encoded(prior)) && after.location()
                    == store.location(),
                Err(failure) => failure@ == FailureView::StoreUnavailable,
            },
        },
{
    match opened {
        Ok(mut store) => match store.set(name, prior) {
            Ok(_) => Ok(store),
            Err(failure) => Err(failure),
        },
        Err(failure) => Err(failure),
    }
}

/// Removes a prior from a store that was to be opened, and hands the store
/// back: the failure of the opening where it failed; otherwise the store
/// without a record under the name, unless the store fails.
pub fn remove_prior_in(opened: Result<PriorStore, Failure>, name: &str) -> (result: Result<
    PriorStore,
    Failure,
>)
    ensures
        match opened {
            Err(failure) => result matches Err(handed) && handed@ == failure@,
            Ok(store) => match result {
                Ok(after) => after@ == store@.remove(name@) && after.location()
                    == store.location(),
                Err(failure) => failure@ == FailureView::StoreUnavailable,
            },
        },
{
    match opened {
        Ok(mut store) => match store.remove(name) {
            Ok(_) => Ok(store),
            Err(failure) => Err(failure),
        },
        Err(failure) => Err(failure),
    }
}

/// What is left to say once a store was written to and is let go: that it
/// went well, or the failure.
pub fn written(stored: Result<PriorStore, Failure>) -> (result: Result<(), Failure>)
    ensures
        match stored {
            Ok(_) => result is Ok,
            Err(failure) => outcome(result) == Err::<(), FailureView>(failure@),
        },
{
    match stored {
        Ok(_) => Ok(()),
        Err(failure) => Err(failure),
    }
}

/// The prior of a hypothesis in the user's own store.
///
/// The answer depends on what the store holds. Whatever it holds, a failure
/// is one of three: the store is unavailable, it has no record under the
/// name, or the record is no value.
pub fn get_prior(name: &str) -> (result: Result<Binary64, Failure>)
    ensures
        result matches Err(error) ==> error@ == FailureView::StoreUnavailable || error@
            == FailureView::HypothesisNotFound(name@) || error@ == FailureView::MalformedStoredValue,
{
    prior_in_store(PriorStore::open_default(), name)
}

/// Stores the prior of a hypothesis in the user's own store.
pub fn set_prior(name: &str, prior: Binary64) -> (result: Result<(), Failure>)
    ensures
        result matches Err(error) ==> error@ == FailureView::StoreUnavailable,
{
    written(store_prior_in(PriorStore::open_default(), name, prior))
}

/// Removes the prior of a hypothesis from the user's own store.
pub fn remove_prior(name: &str) -> (result: Result<(), Failure>)
    ensures
        result matches Err(error) ==> error@ == FailureView::StoreUnavailable,
{
    written(remove_prior_in(PriorStore::open_default(), name))
}

} // verus!
