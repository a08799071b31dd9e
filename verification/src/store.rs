//! The interface to a store of live packages.

use crate::address::AccountAddress;
use crate::error::Error;
use crate::object::Object;
use crate::package::{make_package, materialize_error, Package};
use vstd::prelude::*;

verus! {

/// A store of live packages. A cache reads packages through it; nothing is
/// assumed of what an implementation answers.
pub trait PackageStore {
    /// The latest version of the object at `id`.
    fn version(&self, id: AccountAddress) -> Result<u64, Error>;

    /// The contents of the package at `id`. Fails if `id` is not an object,
    /// not a package, or is malformed in some way.
    fn fetch(&self, id: AccountAddress) -> Result<Package, Error>;

    /// Takes in `object`, which the caller already has, if it is a package.
    fn update(&self, object: &Object) -> Result<(), Error>;
}

} // verus!

verus! {

/// The version that a database row holds as a signed number: the same 64
/// bits, read as an unsigned number.
pub open spec fn version_of_column(column: i64) -> u64 {
    if column >= 0 {
        column as u64
    } else {
        (column + 0x1_0000_0000_0000_0000) as u64
    }
}

/// Computes [`version_of_column`].
pub fn row_version(column: i64) -> (version: u64)
    ensures
        version == version_of_column(column),
{
    if column >= 0 {
        column as u64
    } else {
        let below: i64 = -(column + 1);
        u64::MAX - (below as u64)
    }
}

/// The latest row that the database holds for an object.
#[derive(Debug, PartialEq, Eq)]
pub struct ObjectRow {
    pub version: i64,
    /// The object that the row's bytes decode to, or the decoder's message.
    pub object: Result<Object, String>,
}

/// A store that reads the database of an indexer, which mirrors the chain:
/// what the rows that a query brings back mean. Running the query is the
/// caller's part.
pub struct DbPackageStore;

impl DbPackageStore {
    /// What [`DbPackageStore::version`] makes of the answer to its query.
    pub open spec fn version_spec(id: AccountAddress, answer: Result<Option<i64>, String>) -> Result<
        u64,
        Error,
    > {
        match answer {
            Ok(Some(column)) => Ok(version_of_column(column)),
            Ok(None) => Err(Error::PackageNotFound(id)),
            Err(message) => Err(Error::Database(message)),
        }
    }

    /// The latest version of the object at `id`, from the answer to the query
    /// for the version column of its latest row: `PackageNotFound` where
    /// there is no row, `Database` where the query failed.
    pub fn version(id: AccountAddress, answer: Result<Option<i64>, String>) -> (result: Result<
        u64,
        Error,
    >)
        ensures
            result == Self::version_spec(id, answer),
    {
        match answer {
            Ok(Some(column)) => Ok(row_version(column)),
            Ok(None) => Err(Error::PackageNotFound(id)),
            Err(message) => Err(Error::Database(message)),
        }
    }

    /// Why the answer to the query for the latest row of `id` gives no
    /// package, if it gives none.
    pub open spec fn fetch_error(id: AccountAddress, answer: Result<Option<ObjectRow>, String>) -> Option<
        Error,
    > {
        match answer {
            Ok(Some(row)) => match row.object {
                Ok(object) => materialize_error(id, object),
                Err(message) => Some(Error::Bcs(message)),
            },
            Ok(None) => Some(Error::PackageNotFound(id)),
            Err(message) => Some(Error::Database(message)),
        }
    }

    /// The package at `id`, from the answer to the query for its latest row:
    /// the row's object, materialized under `id` and the row's version.
    /// `PackageNotFound` where there is no row, `Database` where the query
    /// failed, `Bcs` where the row's bytes are no object, and else the
    /// materializer's error, if it has one.
    pub fn fetch(id: AccountAddress, answer: Result<Option<ObjectRow>, String>) -> (result: Result<
        Package,
        Error,
    >)
        ensures
            match result {
                Ok(package) => {
                    &&& Self::fetch_error(id, answer) is None
                    &&& answer matches Ok(Some(row))
                    &&& row.object matches Ok(object)
                    &&& package.materializes(id, version_of_column(row.version), object)
                },
                Err(error) => Self::fetch_error(id, answer) == Some(error),
            },
    {
        let row = match answer {
            Ok(Some(row)) => row,
            Ok(None) => {
                return Err(Error::PackageNotFound(id));
            },
            Err(message) => {
                return Err(Error::Database(message));
            },
        };
        let version = row_version(row.version);
        match row.object {
            Ok(object) => make_package(id, version, object),
            Err(message) => Err(Error::Bcs(message)),
        }
    }
}

/// What a store that keeps objects in a local table does after it has looked
/// into the table.
#[derive(Debug, PartialEq, Eq)]
pub enum LocalRead {
    /// The table holds the object: it is the answer.
    Found(Object),
    /// The table does not hold the object: ask the remote node for it.
    AskRemote,
    /// The table failed.
    Failed(Error),
}

/// What such a store does after it has asked the remote node.
#[derive(Debug, PartialEq, Eq)]
pub enum RemoteRead {
    /// The node sent a package: write it to the table, then answer with it.
    Persist(Object),
    /// The node sent an object that is no package: it is the answer, and the
    /// table stays as it is.
    Found(Object),
    /// The node did not send the object.
    Failed(Error),
}

/// A store that keeps package objects in a local durable table, which its
/// owner keeps up to date, and asks a remote node for the objects that the
/// table lacks. These are its decisions; reading and writing the table and
/// asking the node is the caller's part.
pub struct LocalDBPackageStore;

impl LocalDBPackageStore {
    /// What [`LocalDBPackageStore::after_local_read`] decides.
    pub open spec fn local_read(read: Result<Option<Object>, String>) -> LocalRead {
        match read {
            Ok(Some(object)) => LocalRead::Found(object),
            Ok(None) => LocalRead::AskRemote,
            Err(message) => LocalRead::Failed(Error::TypedStore(message)),
        }
    }

    /// The step after the table was read for an object.
    pub fn after_local_read(read: Result<Option<Object>, String>) -> (next: LocalRead)
        ensures
            next == Self::local_read(read),
    {
        match read {
            Ok(Some(object)) => LocalRead::Found(object),
            Ok(None) => LocalRead::AskRemote,
            Err(message) => LocalRead::Failed(Error::TypedStore(message)),
        }
    }

    /// What [`LocalDBPackageStore::after_remote_read`] decides.
    pub open spec fn remote_read(id: AccountAddress, sent: Option<Object>) -> RemoteRead {
        match sent {
            Some(object) => if object.is_package() {
                RemoteRead::Persist(object)
            } else {
                RemoteRead::Found(object)
            },
            None => RemoteRead::Failed(Error::PackageNotFound(id)),
        }
    }

    /// The step after the remote node was asked for the object at `id`;
    /// `sent` is `None` where the request failed.
    pub fn after_remote_read(id: AccountAddress, sent: Option<Object>) -> (next: RemoteRead)
        ensures
            next == Self::remote_read(id, sent),
    {
        match sent {
            Some(object) => if Self::wants(&object) {
                RemoteRead::Persist(object)
            } else {
                RemoteRead::Found(object)
            },
            None => RemoteRead::Failed(Error::PackageNotFound(id)),
        }
    }

    /// What [`LocalDBPackageStore::after_persist`] answers.
    pub open spec fn persisted(object: Object, written: Result<(), String>) -> Result<Object, Error> {
        match written {
            Ok(()) => Ok(object),
            Err(message) => Err(Error::TypedStore(message)),
        }
    }

    /// The answer after `object`, which the remote node sent, was written to
    /// the table.
    pub fn after_persist(object: Object, written: Result<(), String>) -> (result: Result<
        Object,
        Error,
    >)
        ensures
            result == Self::persisted(object, written),
    {
        match written {
            Ok(()) => Ok(object),
            Err(message) => Err(Error::TypedStore(message)),
        }
    }

    /// Whether the table takes in `object`: it keeps packages, and nothing
    /// else.
    pub fn wants(object: &Object) -> (wanted: bool)
        ensures
            wanted == object.is_package(),
    {
        object.try_as_package().is_some()
    }

    /// The latest version of an object, from the object that the store holds
    /// for its address.
    pub fn version(object: &Object) -> (version: u64)
        ensures
            version == object.version,
    {
        object.version()
    }

    /// The package that `object` holds, materialized under the object's own
    /// address and version.
    pub fn fetch(object: Object) -> (result: Result<Package, Error>)
        ensures
            match result {
                Ok(package) => materialize_error(object.id, object) is None
                    && package.materializes(object.id, object.version, object),
                Err(error) => materialize_error(object.id, object) == Some(error),
            },
    {
        let id = object.id();
        let version = object.version();
        make_package(id, version, object)
    }
}

} // verus!

verus! {

/// How a lookup in a store with a local table went: the table afterwards,
/// the answer, and how many times the remote node was asked.
pub struct LocalGet {
    pub table: Map<AccountAddress, Object>,
    pub result: Result<Object, Error>,
    pub remote_reads: nat,
}

/// How the lookup of `id` goes where the table holds `table`, the remote
/// node holds `remote`, and neither fails: the steps of
/// [`LocalDBPackageStore`] in a row. A package that the node sent is written
/// to the table under its own address.
pub open spec fn local_get(
    table: Map<AccountAddress, Object>,
    remote: Map<AccountAddress, Object>,
    id: AccountAddress,
) -> LocalGet {
    let read = if table.contains_key(id) {
        Some(table[id])
    } else {
        None
    };
    match LocalDBPackageStore::local_read(Ok(read)) {
        LocalRead::Found(object) => LocalGet { table, result: Ok(object), remote_reads: 0 },
        LocalRead::Failed(error) => LocalGet { table, result: Err(error), remote_reads: 0 },
        LocalRead::AskRemote => {
            let sent = if remote.contains_key(id) {
                Some(remote[id])
            } else {
                None
            };
            match LocalDBPackageStore::remote_read(id, sent) {
                RemoteRead::Persist(object) => LocalGet {
                    table: table.insert(object.id, object),
                    result: LocalDBPackageStore::persisted(object, Ok(())),
                    remote_reads: 1,
                },
                RemoteRead::Found(object) => LocalGet { table, result: Ok(object), remote_reads: 1 },
                RemoteRead::Failed(error) => LocalGet { table, result: Err(error), remote_reads: 1 },
            }
        },
    }
}

/// An object that the table holds is answered from the table: the remote
/// node is not asked and the table stays as it is. An object that the table
/// lacks costs one request to the remote node. Where the node sent a package
/// that is filed under the address it was asked for, the next lookup of that
/// address is answered from the table, with the same object.
pub proof fn law_one_remote_read_per_miss(
    table: Map<AccountAddress, Object>,
    remote: Map<AccountAddress, Object>,
    id: AccountAddress,
)
    ensures
        table.contains_key(id) ==> local_get(table, remote, id) == (LocalGet {
            table,
            result: Ok(table[id]),
            remote_reads: 0,
        }),
        !table.contains_key(id) ==> local_get(table, remote, id).remote_reads == 1,
        !table.contains_key(id) && remote.contains_key(id) && remote[id].is_package()
            && remote[id].id == id ==> {
            let first = local_get(table, remote, id);
            let second = local_get(first.table, remote, id);
            &&& first.result == Ok::<Object, Error>(remote[id])
            &&& second.result == first.result
            &&& second.remote_reads == 0
            &&& second.table == first.table
        },
{
}

} // verus!
