use vstd::prelude::*;
use std::collections::HashMap;
use crate::utils::current_timestamp;

verus! {

broadcast use vstd::std_specs::hash::group_hash_axioms;

/// Metadata of one tracked connection: the table it serves, the peer address
/// (in textual form), and the epoch second at which it was accepted.
#[derive(Debug)]
pub struct TableConnection {
    pub table_id: u8,
    pub address: String,
    pub connected_at: u32,
}

impl View for TableConnection {
    type V = (u8, Seq<char>, u32);

    /// A record is viewed as its three fields, the address as characters.
    open spec fn view(&self) -> (u8, Seq<char>, u32) {
        (self.table_id, self.address@, self.connected_at)
    }
}

impl TableConnection {
    /// A record for a connection accepted now: the acceptance time is read
    /// from the system clock, everything else from the arguments.
    pub fn new(table_id: u8, address: String) -> (r: Self)
        ensures
            r.table_id == table_id,
            r.address@ == address@,
    {
        TableConnection { table_id, address, connected_at: current_timestamp() }
    }
}

/// The connection registry: at most one tracked record per table, keyed by
/// table identifier. Viewed as a map from table identifier to record fields.
///
/// Mutual exclusion between concurrent callers is the embedder's duty: the
/// registry itself is a plain value, to be placed behind a lock.
pub struct ConnectionPool {
    connections: HashMap<u8, TableConnection>,
}

impl View for ConnectionPool {
    type V = Map<u8, (u8, Seq<char>, u32)>;

    closed spec fn view(&self) -> Map<u8, (u8, Seq<char>, u32)> {
        Map::new(
            |table_id: u8| self.connections@.contains_key(table_id),
            |table_id: u8| self.connections@[table_id]@,
        )
    }
}

impl ConnectionPool {
    /// An empty registry: no table has a tracked connection.
    pub fn new() -> (r: Self)
        ensures
            r@ == Map::<u8, (u8, Seq<char>, u32)>::empty(),
    {
        let r = ConnectionPool { connections: HashMap::new() };
        proof {
            assert(r@ =~= Map::<u8, (u8, Seq<char>, u32)>::empty());
        }
        r
    }

    /// Tracks a connection for `table_id`, stamped with the current time,
    /// silently overwriting any prior record for that table. Records of other
    /// tables are untouched. Total: cannot fail.
    pub fn add_connection(&mut self, table_id: u8, address: String)
        ensures
            exists|t: u32|
                final(self)@ == old(self)@.insert(table_id, (table_id, address@, t)),
    {
        let connection = TableConnection::new(table_id, address);
        let ghost stamp = connection.connected_at;
        self.connections.insert(table_id, connection);
        proof {
            assert(self@ =~= old(self)@.insert(table_id, (table_id, address@, stamp)));
        }
    }

    /// Forgets the record for `table_id` if one is tracked; a no-op otherwise.
    /// Records of other tables are untouched. Total: cannot fail.
    pub fn remove_connection(&mut self, table_id: u8)
        ensures
            final(self)@ == old(self)@.remove(table_id),
    {
        let _ = self.connections.remove(&table_id);
        proof {
            assert(self@ =~= old(self)@.remove(table_id));
        }
    }

    /// A snapshot of the record tracked for `table_id`, if any.
    pub fn get_connection(&self, table_id: u8) -> (r: Option<TableConnection>)
        ensures
            match r {
                Some(c) => self@.contains_key(table_id) && c@ == self@[table_id],
                None => !self@.contains_key(table_id),
            },
    {
        match self.connections.get(&table_id) {
            Some(c) => Some(
                TableConnection {
                    table_id: c.table_id,
                    address: c.address.clone(),
                    connected_at: c.connected_at,
                },
            ),
            None => None,
        }
    }

    /// How many tables have a tracked record at the instant of the call.
    pub fn active_connections(&self) -> (r: usize)
        ensures
            r == self@.len(),
    {
        proof {
            assert(self@.dom() =~= self.connections@.dom());
        }
        self.connections.len()
    }
}

/// Registry operations interfere with no other table: after tracking a record
/// under one table identifier, a lookup there returns exactly that record and
/// a removal deletes exactly it, while every other table's record — present
/// or absent — is left as it was.
pub proof fn lemma_registry_isolation(
    m: Map<u8, (u8, Seq<char>, u32)>,
    table_id: u8,
    record: (u8, Seq<char>, u32),
)
    ensures
        m.insert(table_id, record).contains_key(table_id),
        m.insert(table_id, record)[table_id] == record,
        !m.remove(table_id).contains_key(table_id),
        forall|k: u8|
            k != table_id ==> m.insert(table_id, record).contains_key(k) == m.contains_key(k)
                && m.remove(table_id).contains_key(k) == m.contains_key(k),
        forall|k: u8|
            k != table_id && m.contains_key(k) ==> m.insert(table_id, record)[k] == m[k]
                && m.remove(table_id)[k] == m[k],
{
}

} // verus!
