//! The outside of the store: the sled database and the paths that lead to
//! it.
//!
//! Nothing in this file is proved. Each declaration says what this crate
//! takes on trust of one outside type or function, and the proofs elsewhere
//! rest on exactly that.
//!
//! A database is spoken of through the handle that opened it: what a handle
//! holds is what that handle reads. This crate never clones a handle, so
//! what is written through one handle is written through it alone, and the
//! functions that write take the handle by `&mut` to say so. On Linux, macOS
//! and Windows sled also locks the files of an open database against other
//! processes.

use std::path::PathBuf;
use vstd::prelude::*;

verus! {

/// `sled::Db`, a handle on an open database. Nothing is known of its inside.
#[verifier::external_type_specification]
#[verifier::external_body]
pub struct ExDb(sled::Db);

/// `sled::Error`, the failure of a database operation. Nothing is known of
/// its inside.
#[verifier::external_type_specification]
#[verifier::external_body]
pub struct ExDbError(sled::Error);

/// `std::path::PathBuf`, a path in the file system. Nothing is known of its
/// inside.
#[verifier::external_type_specification]
#[verifier::external_body]
pub struct ExPathBuf(PathBuf);

/// The keys of a database's default tree, each with its value.
pub uninterp spec fn db_entries(db: sled::Db) -> Map<Seq<u8>, Seq<u8>>;

/// The path that a database was opened at.
pub uninterp spec fn db_location(db: sled::Db) -> PathBuf;

/// The path of `part` beneath `base`, as `Path::join` makes it.
pub uninterp spec fn path_beneath(base: PathBuf, part: Seq<char>) -> PathBuf;

/// `dirs::home_dir`: the home directory of the user, where the platform knows
/// one. Nothing is claimed of the answer.
#[verifier::external_body]
pub(crate) fn home_dir() -> (home: Option<PathBuf>) {
    dirs::home_dir()
}

/// `Path::join`: the path of `part` beneath `base`. The answer depends on
/// the two arguments alone, and is given a name; nothing else is claimed of
/// it.
#[verifier::external_body]
pub(crate) fn path_join(base: &PathBuf, part: &str) -> (joined: PathBuf)
    ensures
        joined == path_beneath(*base, part@),
{
    base.join(part)
}

/// `sled::open`: opens the database at a path, creating it if there is none.
/// A database that opened is the one at the path given, which sled keeps in
/// its configuration. Nothing is claimed of what the database holds, nor of
/// when it opens.
#[verifier::external_body]
pub(crate) fn db_open(path: &PathBuf) -> (opened: Result<sled::Db, sled::Error>)
    ensures
        opened matches Ok(db) ==> db_location(db) == *path,
{
    sled::open(path)
}

/// `sled::Tree::get` on the default tree: where it succeeds, the value under
/// the key, or `None` where the key is absent.
#[verifier::external_body]
pub(crate) fn db_get(db: &sled::Db, key: &[u8]) -> (found: Result<Option<Vec<u8>>, sled::Error>)
    ensures
        found matches Ok(value) ==> match value {
            Some(bytes) => db_entries(*db).contains_key(key@) && db_entries(*db)[key@] == bytes@,
            None => !db_entries(*db).contains_key(key@),
        },
{
    match db.get(key) {
        Ok(Some(value)) => Ok(Some(value.to_vec())),
        Ok(None) => Ok(None),
        Err(error) => Err(error),
    }
}

/// `sled::Tree::insert` on the default tree: where it succeeds, the key holds
/// the new value, every other key is as before, and the answer is the value
/// that the key held before, if it held one. Nothing is claimed of the
/// entries of the database after a failure. Its place is the same either way.
#[verifier::external_body]
pub(crate) fn db_insert(db: &mut sled::Db, key: &[u8], value: &[u8]) -> (previous: Result<
    Option<Vec<u8>>,
    sled::Error,
>)
    ensures
        db_location(*final(db)) == db_location(*old(db)),
        previous matches Ok(before) ==> {
            &&& db_entries(*final(db)) == db_entries(*old(db)).insert(key@, value@)
            &&& match before {
                Some(bytes) => db_entries(*old(db)).contains_key(key@) && db_entries(
                    *old(db),
                )[key@] == bytes@,
                None => !db_entries(*old(db)).contains_key(key@),
            }
        },
{
    match db.insert(key, value) {
        Ok(Some(before)) => Ok(Some(before.to_vec())),
        Ok(None) => Ok(None),
        Err(error) => Err(error),
    }
}

/// `sled::Tree::remove` on the default tree: where it succeeds, the key is
/// absent, every other key is as before, and the answer is the value that the
/// key held before, if it held one. Nothing is claimed of the entries of the
/// database after a failure. Its place is the same either way.
#[verifier::external_body]
pub(crate) fn db_remove(db: &mut sled::Db, key: &[u8]) -> (previous: Result<Option<Vec<u8>>, sled::Error>)
    ensures
        db_location(*final(db)) == db_location(*old(db)),
        previous matches Ok(before) ==> {
            &&& db_entries(*final(db)) == db_entries(*old(db)).remove(key@)
            &&& match before {
                Some(bytes) => db_entries(*old(db)).contains_key(key@) && db_entries(
                    *old(db),
                )[key@] == bytes@,
                None => !db_entries(*old(db)).contains_key(key@),
            }
        },
{
    match db.remove(key) {
        Ok(Some(before)) => Ok(Some(before.to_vec())),
        Ok(None) => Ok(None),
        Err(error) => Err(error),
    }
}

} // verus!
