//! The process registry: a shared map from names to mailbox senders of
//! many request/response pairs. Entries are inserted when a named
//! worker is spawned and removed when its loop exits; a typed lookup
//! recovers a connection, or reports that the name is absent or that
//! the stored sender has another type.
//!
//! The backing store is a concurrent map holding type-erased senders;
//! it is reached only through the trusted wrappers at the bottom of
//! this file, whose contracts speak of the set of registered names.

use vstd::prelude::*;
use crate::connection::Connection;
use crate::message::Message;

verus! {

/// Why a lookup returned no connection.
#[derive(PartialEq, Eq, Structural, Clone, Copy, Debug)]
pub enum RegistryError {
    /// No entry is registered under the name.
    NotFound,
    /// The entry's sender has a different request/response pair.
    WrongType,
}

/// Why a message could not be forwarded by name: the lookup failed, or
/// the send was rejected; the message comes back with the reason.
#[verifier::reject_recursive_types(Resp)]
pub enum RouteError<Req, Resp> {
    RegistryError(Message<Req, Resp>, RegistryError),
    Timeout(Message<Req, Resp>),
    Closed(Message<Req, Resp>),
}

/// The name-to-mailbox map.
pub struct Registry {
    table: RegistryTable,
}

impl Registry {
    /// The set of registered names.
    pub closed spec fn names(&self) -> Set<Seq<char>> {
        table_names(self.table)
    }

    pub fn new() -> (r: Self)
        ensures
            r.names() == Set::<Seq<char>>::empty(),
    {
        Registry { table: table_new() }
    }

    /// Insert a sender under a name. An existing entry under the same
    /// name is overwritten: the last writer wins.
    pub fn register<Req: Send + Sync + 'static, Resp: Send + Sync + 'static>(
        &mut self,
        name: String,
        channel: tokio::sync::mpsc::Sender<Message<Req, Resp>>,
    )
        ensures
            final(self).names() == old(self).names().insert(name@),
    {
        table_insert(&mut self.table, name, channel);
    }

    /// Remove the entry under a name, if any; absent names are left
    /// alone, so unregistering is idempotent.
    pub fn unregister(&mut self, name: &String)
        ensures
            final(self).names() == old(self).names().remove(name@),
    {
        table_remove(&mut self.table, name);
    }

    /// A typed lookup: `NotFound` exactly when the name is absent;
    /// otherwise either a fresh connection cloned from the stored
    /// sender, or `WrongType` when the stored sender's element type is
    /// not `Message<Req, Resp>`.
    pub fn lookup<Req: Send + Sync + 'static, Resp: Send + Sync + 'static>(
        &self,
        name: &String,
    ) -> (r: Result<Connection<Req, Resp>, RegistryError>)
        ensures
            r == Err::<Connection<Req, Resp>, RegistryError>(RegistryError::NotFound)
                <==> !self.names().contains(name@),
            self.names().contains(name@) ==>
                r is Ok || r == Err::<Connection<Req, Resp>, RegistryError>(RegistryError::WrongType),
    {
        match table_lookup::<Req, Resp>(&self.table, name) {
            None => Err(RegistryError::NotFound),
            Some(None) => Err(RegistryError::WrongType),
            Some(Some(channel)) => Ok(Connection::new(channel)),
        }
    }

    /// Presence probe.
    pub fn exist(&self, name: &String) -> (r: bool)
        ensures
            r == self.names().contains(name@),
    {
        table_contains(&self.table, name)
    }
}

/// A name registered and not since unregistered is present; once it is
/// unregistered it is absent, whatever was registered before.
pub proof fn lemma_register_unregister(names: Set<Seq<char>>, name: Seq<char>)
    ensures
        names.insert(name).contains(name),
        !names.insert(name).remove(name).contains(name),
{
}

/// A type-erased mailbox sender.
#[verifier::external_body]
struct Erased {
    value: Box<dyn core::any::Any + Send + Sync + 'static>,
}

/// The concurrent map of type-erased senders. Verified code reads it
/// only through the wrappers below.
#[verifier::external_body]
pub struct RegistryTable {
    map: dashmap::DashMap<String, Erased>,
}

/// The names present in the table.
pub uninterp spec fn table_names(t: RegistryTable) -> Set<Seq<char>>;

/// Relies on dashmap::DashMap::new: the fresh map is empty.
#[verifier::external_body]
fn table_new() -> (t: RegistryTable)
    ensures
        table_names(t) == Set::<Seq<char>>::empty(),
{
    RegistryTable { map: dashmap::DashMap::new() }
}

/// Relies on dashmap::DashMap::insert: the entry is stored under the
/// name, replacing any entry the name had.
#[verifier::external_body]
fn table_insert<Req: Send + Sync + 'static, Resp: Send + Sync + 'static>(
    t: &mut RegistryTable,
    name: String,
    channel: tokio::sync::mpsc::Sender<Message<Req, Resp>>,
)
    ensures
        table_names(*final(t)) == table_names(*old(t)).insert(name@),
{
    t.map.insert(name, Erased { value: Box::new(channel) });
}

/// Relies on dashmap::DashMap::remove: the name's entry, if any, is
/// taken out.
#[verifier::external_body]
fn table_remove(t: &mut RegistryTable, name: &String)
    ensures
        table_names(*final(t)) == table_names(*old(t)).remove(name@),
{
    t.map.remove(name);
}

/// Relies on dashmap::DashMap::contains_key.
#[verifier::external_body]
fn table_contains(t: &RegistryTable, name: &String) -> (r: bool)
    ensures
        r == table_names(*t).contains(name@),
{
    t.map.contains_key(name)
}

/// Relies on dashmap::DashMap::get and core::any::Any::downcast_ref:
/// the outer option says whether the name is present; the inner option
/// says whether the stored sender has the requested element type, and
/// if so hands out a clone of it.
#[verifier::external_body]
fn table_lookup<Req: Send + Sync + 'static, Resp: Send + Sync + 'static>(
    t: &RegistryTable,
    name: &String,
) -> (r: Option<Option<tokio::sync::mpsc::Sender<Message<Req, Resp>>>>)
    ensures
        r is Some <==> table_names(*t).contains(name@),
{
    match t.map.get(name) {
        Some(entry) => Some(
            entry.value().value.downcast_ref::<tokio::sync::mpsc::Sender<Message<Req, Resp>>>()
                .map(|channel| channel.clone()),
        ),
        None => None,
    }
}

} // verus!
