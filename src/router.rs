//! The region router: the one table from region to shard, consulted by
//! every region-scoped operation.

use vstd::prelude::*;
use vstd::string::*;
use crate::area::{Area, AREA_COUNT};
use crate::blockchain::{
    BlockchainDBManager, TransactionLogEntry, appended, chain_valid, entries_of, in_time_order,
};
use crate::config::ConnectionConfig;
use crate::error::ShardError;
use crate::records::User;
use crate::shard::AreaDB;

verus! {

/// A registered shard: its handle and its ledger.
#[derive(Debug)]
pub struct Shard {
    pub handle: AreaDB,
    pub ledger: BlockchainDBManager,
}

/// A change to a user record.
#[derive(Debug, Clone)]
pub enum UserOp {
    Add { username: String, password_hash: String, email: String },
    Update { user_id: i64, username: String, password_hash: String, email: String },
    Delete { user_id: i64 },
}

/// An operation bound to the shard that must run it.
#[derive(Debug, Clone)]
pub struct Routed {
    /// Region of the target shard.
    pub area: Area,
    /// Database of the target shard.
    pub database: String,
    /// What to do there.
    pub op: UserOp,
}

/// How to back a shard up: dump `source` into `file`, then load the file
/// into `backup`, a copy of the database on the same server.
#[derive(Debug, Clone)]
pub struct BackupPlan {
    pub source: ConnectionConfig,
    pub file: String,
    pub backup: ConnectionConfig,
}

/// How to restore a shard: load `file` into `target`.
#[derive(Debug, Clone)]
pub struct RestorePlan {
    pub target: ConnectionConfig,
    pub file: String,
}

/// Name of the dump file of database `db`.
pub open spec fn dump_file_spec(db: Seq<char>) -> Seq<char> {
    db + "_backup.sql"@
}

/// Name of the backup copy of database `db`.
pub open spec fn backup_db_spec(db: Seq<char>) -> Seq<char> {
    db + "_BACKUP"@
}

/// Sum of the counts that `rows` report for region `a`.
pub open spec fn total(rows: Seq<(Area, u64)>, a: Area) -> nat
    decreases rows.len(),
{
    if rows.len() == 0 {
        0
    } else {
        total(rows.drop_last(), a) + if rows.last().0 == a {
            rows.last().1 as nat
        } else {
            0
        }
    }
}

/// A prefix of the rows reports no more than all of them.
proof fn lemma_total_prefix(rows: Seq<(Area, u64)>, j: int, a: Area)
    requires
        0 <= j <= rows.len(),
    ensures
        total(rows.take(j), a) <= total(rows, a),
    decreases rows.len() - j,
{
    if j < rows.len() {
        assert(rows.take(j + 1).drop_last() =~= rows.take(j));
        lemma_total_prefix(rows, j + 1, a);
    } else {
        assert(rows.take(j) =~= rows);
    }
}

/// Region router: at most one shard per region.
#[derive(Debug)]
pub struct GlobalDB {
    slots: Vec<Option<Shard>>,
}

impl GlobalDB {
    /// The shard registered for `a`, if any.
    pub closed spec fn entry(&self, a: Area) -> Option<Shard> {
        self.slots@[a.index_spec()]
    }

    /// Whether a shard is registered for `a`.
    pub open spec fn registered(&self, a: Area) -> bool {
        self.entry(a) is Some
    }

    /// The handle registered for `a`.
    pub open spec fn handle_of(&self, a: Area) -> AreaDB
        recommends
            self.registered(a),
    {
        self.entry(a)->Some_0.handle
    }

    /// The ledger of the shard registered for `a`.
    pub open spec fn ledger_of(&self, a: Area) -> BlockchainDBManager
        recommends
            self.registered(a),
    {
        self.entry(a)->Some_0.ledger
    }

    /// Every registered shard serves the region it is registered for, is
    /// connected, and has an intact ledger.
    pub open spec fn wf(&self) -> bool {
        &&& self.slot_count() == AREA_COUNT
        &&& forall|a: Area| #[trigger]
            self.registered(a) ==> {
                &&& self.handle_of(a).area_spec() == a
                &&& self.handle_of(a).connected_spec()
                &&& self.ledger_of(a).wf()
            }
    }

    /// Length of the slot table.
    pub closed spec fn slot_count(&self) -> nat {
        self.slots@.len()
    }

    /// A router with no shard.
    pub fn new() -> (r: Self)
        ensures
            r.wf(),
            forall|a: Area| #[trigger] r.entry(a) is None,
    {
        let mut slots: Vec<Option<Shard>> = Vec::new();
        slots.push(None);
        slots.push(None);
        slots.push(None);
        let r = GlobalDB { slots };
        assert forall|a: Area| #[trigger] r.entry(a) is None by {
            assert(0 <= a.index_spec() < 3);
        }
        r
    }

    /// Registers a connected shard under its region, with an empty ledger,
    /// replacing whatever was registered there. A handle whose connection is
    /// not open is refused with `ShardUnavailable`, and nothing changes.
    pub fn insert(&mut self, area_db: AreaDB) -> (r: Result<(), ShardError>)
        requires
            old(self).wf(),
        ensures
            final(self).wf(),
            area_db.connected_spec() ==> r is Ok && final(self).registered(area_db.area_spec())
                && final(self).handle_of(area_db.area_spec()) == area_db
                && final(self).ledger_of(area_db.area_spec()).chain().len() == 0
                && forall|a: Area|
                a != area_db.area_spec() ==> #[trigger] final(self).entry(a) == old(self).entry(a),
            !area_db.connected_spec() ==> r == Err::<(), ShardError>(ShardError::ShardUnavailable)
                && *final(self) == *old(self),
    {
        self.insert_with_ledger(area_db, BlockchainDBManager::new())
    }

    /// Registers a connected shard under its region together with the ledger
    /// it already holds, replacing whatever was registered there. A handle
    /// whose connection is not open is refused with `ShardUnavailable`, and
    /// nothing changes.
    pub fn insert_with_ledger(&mut self, area_db: AreaDB, ledger: BlockchainDBManager) -> (r: Result<
        (),
        ShardError,
    >)
        requires
            old(self).wf(),
            ledger.wf(),
        ensures
            final(self).wf(),
            area_db.connected_spec() ==> r is Ok && final(self).registered(area_db.area_spec())
                && final(self).handle_of(area_db.area_spec()) == area_db
                && final(self).ledger_of(area_db.area_spec()) == ledger
                && forall|a: Area|
                a != area_db.area_spec() ==> #[trigger] final(self).entry(a) == old(self).entry(a),
            !area_db.connected_spec() ==> r == Err::<(), ShardError>(ShardError::ShardUnavailable)
                && *final(self) == *old(self),
    {
        if !area_db.is_connected() {
            return Err(ShardError::ShardUnavailable);
        }
        let ghost target = area_db.area_spec();
        let i = area_db.area().index();
        self.slots.set(i, Some(Shard { handle: area_db, ledger }));
        proof {
            assert forall|a: Area| a != target implies #[trigger] self.entry(a) == old(self).entry(a) by {
                crate::area::lemma_index_injective(a, target);
            }
            assert forall|a: Area| #[trigger] self.registered(a) implies {
                &&& self.handle_of(a).area_spec() == a
                &&& self.handle_of(a).connected_spec()
                &&& self.ledger_of(a).wf()
            } by {
                crate::area::lemma_index_injective(a, target);
                if a != target {
                    assert(old(self).registered(a));
                }
            }
        }
        Ok(())
    }

    /// Routes `op` to the shard registered for `area`. It goes to that shard
    /// and no other; with no shard there it fails with `UnknownRegion`.
    pub fn dispatch(&self, area: Area, op: UserOp) -> (r: Result<Routed, ShardError>)
        requires
            self.wf(),
        ensures
            r is Ok <==> self.registered(area),
            !self.registered(area) ==> r == Err::<Routed, ShardError>(ShardError::UnknownRegion),
            r matches Ok(routed) ==> {
                &&& routed.area == area
                &&& routed.area == self.handle_of(area).area_spec()
                &&& routed.database == self.handle_of(area).config_spec().database
                &&& routed.op == op
            },
    {
        let i = area.index();
        match &self.slots[i] {
            Some(shard) => {
                assert(self.registered(area));
                Ok(Routed { area, database: shard.handle.name().clone(), op })
            },
            None => Err(ShardError::UnknownRegion),
        }
    }

    /// Routes the creation of `user` to the shard of `area`.
    pub fn add_user(&self, user: &User, area: &Area) -> (r: Result<Routed, ShardError>)
        requires
            self.wf(),
        ensures
            r is Ok <==> self.registered(*area),
            !self.registered(*area) ==> r == Err::<Routed, ShardError>(ShardError::UnknownRegion),
            r matches Ok(routed) ==> {
                &&& routed.area == *area
                &&& routed.database == self.handle_of(*area).config_spec().database
                &&& routed.op == (UserOp::Add {
                    username: user.username,
                    password_hash: user.password_hash,
                    email: user.email,
                })
            },
    {
        let op = UserOp::Add {
            username: user.username.clone(),
            password_hash: user.password_hash.clone(),
            email: user.email.clone(),
        };
        self.dispatch(*area, op)
    }

    /// Routes the update of `user` to the shard of `area`.
    pub fn update_user(&self, user: &User, area: &Area) -> (r: Result<Routed, ShardError>)
        requires
            self.wf(),
        ensures
            r is Ok <==> self.registered(*area),
            !self.registered(*area) ==> r == Err::<Routed, ShardError>(ShardError::UnknownRegion),
            r matches Ok(routed) ==> {
                &&& routed.area == *area
                &&& routed.database == self.handle_of(*area).config_spec().database
                &&& routed.op == (UserOp::Update {
                    user_id: user.user_id,
                    username: user.username,
                    password_hash: user.password_hash,
                    email: user.email,
                })
            },
    {
        let op = UserOp::Update {
            user_id: user.user_id,
            username: user.username.clone(),
            password_hash: user.password_hash.clone(),
            email: user.email.clone(),
        };
        self.dispatch(*area, op)
    }

    /// Routes the removal of user `user_id` to the shard of `area`.
    pub fn delete_user(&self, user_id: i64, area: &Area) -> (r: Result<Routed, ShardError>)
        requires
            self.wf(),
        ensures
            r is Ok <==> self.registered(*area),
            !self.registered(*area) ==> r == Err::<Routed, ShardError>(ShardError::UnknownRegion),
            r matches Ok(routed) ==> {
                &&& routed.area == *area
                &&& routed.database == self.handle_of(*area).config_spec().database
                &&& routed.op == (UserOp::Delete { user_id })
            },
    {
        self.dispatch(*area, UserOp::Delete { user_id })
    }

    /// Appends a message to the ledger of `area`'s shard and returns the new
    /// block's hash. Only that shard's ledger changes; with no shard there
    /// the call fails with `UnknownRegion` and nothing changes.
    pub fn append(&mut self, area: Area, user_id: i64, channel_id: i64, msg: &String, timestamp: u64) -> (r:
        Result<String, ShardError>)
        requires
            old(self).wf(),
            old(self).registered(area) ==> old(self).ledger_of(area).chain().len() < u64::MAX,
        ensures
            final(self).wf(),
            !old(self).registered(area) ==> r == Err::<String, ShardError>(ShardError::UnknownRegion)
                && *final(self) == *old(self),
            old(self).registered(area) ==> {
                &&& r is Ok
                &&& final(self).registered(area)
                &&& final(self).handle_of(area) == old(self).handle_of(area)
                &&& appended(
                    old(self).ledger_of(area).chain(),
                    final(self).ledger_of(area).chain(),
                    user_id,
                    channel_id,
                    msg@,
                    timestamp,
                )
                &&& final(self).ledger_of(area).log().drop_last() == old(self).ledger_of(area).log()
                &&& r->Ok_0@ == final(self).ledger_of(area).chain().last().block_hash@
            },
            forall|a: Area| a != area ==> #[trigger] final(self).entry(a) == old(self).entry(a),
    {
        let i = area.index();
        match &self.slots[i] {
            None => {
                return Err(ShardError::UnknownRegion);
            },
            Some(_) => {},
        }
        assert(old(self).registered(area));
        assert(old(self).ledger_of(area).wf());
        let mut slot: Option<Shard> = None;
        std::mem::swap(&mut slot, &mut self.slots[i]);
        let mut shard = slot.unwrap();
        assert(shard == old(self).entry(area)->Some_0);
        let hash = shard.ledger.send_message(user_id, channel_id, msg, timestamp);
        self.slots.set(i, Some(shard));
        proof {
            assert forall|a: Area| a != area implies #[trigger] self.entry(a) == old(self).entry(a) by {
                crate::area::lemma_index_injective(a, area);
            }
            assert forall|a: Area| #[trigger] self.registered(a) implies {
                &&& self.handle_of(a).area_spec() == a
                &&& self.handle_of(a).connected_spec()
                &&& self.ledger_of(a).wf()
            } by {
                crate::area::lemma_index_injective(a, area);
                assert(old(self).registered(a));
            }
        }
        Ok(hash)
    }

    /// Checks the ledger of `area`'s shard; fails with `UnknownRegion` when
    /// no shard is registered there.
    pub fn verify(&self, area: Area) -> (r: Result<bool, ShardError>)
        requires
            self.wf(),
        ensures
            !self.registered(area) ==> r == Err::<bool, ShardError>(ShardError::UnknownRegion),
            self.registered(area) ==> r == Ok::<bool, ShardError>(
                chain_valid(self.ledger_of(area).chain()),
            ),
            self.registered(area) ==> r == Ok::<bool, ShardError>(true),
    {
        let i = area.index();
        match &self.slots[i] {
            Some(shard) => Ok(shard.ledger.verify()),
            None => Err(ShardError::UnknownRegion),
        }
    }

    /// The transactions of `user_id` in the ledger of `area`'s shard,
    /// ordered by timestamp, ties in the order they were made.
    pub fn get_user_transactions(&self, area: Area, user_id: i64) -> (r: Result<
        Vec<TransactionLogEntry>,
        ShardError,
    >)
        requires
            self.wf(),
        ensures
            r is Ok <==> self.registered(area),
            !self.registered(area) ==> r == Err::<Vec<TransactionLogEntry>, ShardError>(
                ShardError::UnknownRegion,
            ),
            r matches Ok(v) ==> {
                &&& v@.len() == entries_of(self.ledger_of(area).log(), user_id).len()
                &&& forall|e: TransactionLogEntry| #[trigger]
                    v@.contains(e) <==> self.ledger_of(area).log().contains(e) && e.user_id
                        == user_id
                &&& in_time_order(v@)
            },
    {
        let i = area.index();
        match &self.slots[i] {
            Some(shard) => {
                assert(self.registered(area));
                Ok(shard.ledger.get_user_transactions(user_id))
            },
            None => Err(ShardError::UnknownRegion),
        }
    }

    /// How to back up `area`'s shard: its database goes to the file
    /// `<db>_backup.sql` and then into the database `<db>_BACKUP` on the same
    /// server.
    pub fn dump_db_by_area(&self, area: &Area) -> (r: Result<BackupPlan, ShardError>)
        requires
            self.wf(),
        ensures
            r is Ok <==> self.registered(*area),
            !self.registered(*area) ==> r == Err::<BackupPlan, ShardError>(
                ShardError::UnknownRegion,
            ),
            r matches Ok(p) ==> {
                let c = self.handle_of(*area).config_spec();
                &&& p.source == c
                &&& p.file@ == dump_file_spec(c.database@)
                &&& p.backup.username == c.username
                &&& p.backup.password == c.password
                &&& p.backup.host == c.host
                &&& p.backup.port == c.port
                &&& p.backup.database@ == backup_db_spec(c.database@)
            },
    {
        let i = area.index();
        match &self.slots[i] {
            Some(shard) => {
                let c = shard.handle.config();
                let source = c.with_database(c.database.clone());
                let mut file = c.database.clone();
                file.append("_backup.sql");
                let mut backup_db = c.database.clone();
                backup_db.append("_BACKUP");
                let backup = c.with_database(backup_db);
                Ok(BackupPlan { source, file, backup })
            },
            None => Err(ShardError::UnknownRegion),
        }
    }

    /// How to restore `area`'s shard: load `<db>_backup.sql` into its
    /// database.
    pub fn restore_db_by_area(&self, area: &Area) -> (r: Result<RestorePlan, ShardError>)
        requires
            self.wf(),
        ensures
            r is Ok <==> self.registered(*area),
            !self.registered(*area) ==> r == Err::<RestorePlan, ShardError>(
                ShardError::UnknownRegion,
            ),
            r matches Ok(p) ==> {
                let c = self.handle_of(*area).config_spec();
                &&& p.target == c
                &&& p.file@ == dump_file_spec(c.database@)
            },
    {
        let i = area.index();
        match &self.slots[i] {
            Some(shard) => {
                let c = shard.handle.config();
                let target = c.with_database(c.database.clone());
                let mut file = c.database.clone();
                file.append("_backup.sql");
                Ok(RestorePlan { target, file })
            },
            None => Err(ShardError::UnknownRegion),
        }
    }

    /// `acc` followed by region `a`'s line when a shard is registered there:
    /// the region and the sum of the counts that `rows` report for it.
    pub open spec fn count_line(&self, rows: Seq<(Area, u64)>, acc: Seq<(Area, u64)>, a: Area) -> Seq<
        (Area, u64),
    > {
        if self.registered(a) {
            acc.push((a, total(rows, a) as u64))
        } else {
            acc
        }
    }

    /// One line per registered region, in region order, each with the sum
    /// of the counts reported for it; zero where nothing was reported.
    pub open spec fn counts_spec(&self, rows: Seq<(Area, u64)>) -> Seq<(Area, u64)> {
        let a = self.count_line(rows, Seq::empty(), Area::Unknown);
        let b = self.count_line(rows, a, Area::Russia);
        self.count_line(rows, b, Area::Usa)
    }

    /// The registered regions, in region order.
    pub open spec fn areas_spec(&self) -> Seq<Area> {
        let a = if self.registered(Area::Unknown) {
            seq![Area::Unknown]
        } else {
            Seq::empty()
        };
        let b = if self.registered(Area::Russia) {
            a.push(Area::Russia)
        } else {
            a
        };
        if self.registered(Area::Usa) {
            b.push(Area::Usa)
        } else {
            b
        }
    }

    /// The ledger of `area`'s shard, if one is registered.
    pub fn ledger(&self, area: Area) -> (r: Option<&BlockchainDBManager>)
        requires
            self.wf(),
        ensures
            r is Some <==> self.registered(area),
            r matches Some(l) ==> *l == self.ledger_of(area),
    {
        match &self.slots[area.index()] {
            Some(shard) => Some(&shard.ledger),
            None => None,
        }
    }

    /// The handle of `area`'s shard, if one is registered.
    pub fn handle(&self, area: Area) -> (r: Option<&AreaDB>)
        requires
            self.wf(),
        ensures
            r is Some <==> self.registered(area),
            r matches Some(h) ==> *h == self.handle_of(area),
    {
        match &self.slots[area.index()] {
            Some(shard) => Some(&shard.handle),
            None => None,
        }
    }

    /// Whether a shard is registered for `area`.
    pub fn is_registered(&self, area: Area) -> (r: bool)
        requires
            self.wf(),
        ensures
            r == self.registered(area),
    {
        match &self.slots[area.index()] {
            Some(_) => true,
            None => false,
        }
    }

    /// The registered regions, in region order: the shards a cross-region
    /// query has to visit.
    pub fn registered_areas(&self) -> (r: Vec<Area>)
        requires
            self.wf(),
        ensures
            r@ == self.areas_spec(),
    {
        let mut out: Vec<Area> = Vec::new();
        if self.is_registered(Area::Unknown) {
            out.push(Area::Unknown);
        }
        if self.is_registered(Area::Russia) {
            out.push(Area::Russia);
        }
        if self.is_registered(Area::Usa) {
            out.push(Area::Usa);
        }
        assert(out@ =~= self.areas_spec());
        out
    }

    /// Appends region `a`'s line to `out`, if a shard is registered there.
    fn push_count(&self, out: &mut Vec<(Area, u64)>, a: Area, rows: &Vec<(Area, u64)>)
        requires
            self.wf(),
            total(rows@, a) <= u64::MAX,
        ensures
            final(out)@ == self.count_line(rows@, old(out)@, a),
    {
        if self.is_registered(a) {
            let mut sum: u64 = 0;
            let mut j: usize = 0;
            assert(rows@.take(0) =~= Seq::<(Area, u64)>::empty());
            while j < rows.len()
                invariant
                    j <= rows@.len(),
                    sum == total(rows@.take(j as int), a),
                    total(rows@, a) <= u64::MAX,
                decreases rows@.len() - j,
            {
                proof {
                    assert(rows@.take(j + 1).drop_last() =~= rows@.take(j as int));
                    assert(rows@.take(j + 1).last() == rows@[j as int]);
                    lemma_total_prefix(rows@, j + 1, a);
                }
                let (b, n) = rows[j];
                if b == a {
                    sum = sum + n;
                }
                j = j + 1;
            }
            assert(rows@.take(j as int) =~= rows@);
            out.push((a, sum));
        }
    }

    /// Combines what a per-shard count query returned into one line per
    /// registered region, in region order. `rows` are the rows the shards
    /// returned, each tagged with its shard's region; a region whose shard
    /// returned nothing gets a zero count rather than an error, and rows of
    /// regions with no registered shard are left out.
    pub fn aggregate(&self, rows: &Vec<(Area, u64)>) -> (r: Vec<(Area, u64)>)
        requires
            self.wf(),
            forall|a: Area| #[trigger] total(rows@, a) <= u64::MAX,
        ensures
            r@ == self.counts_spec(rows@),
    {
        let mut out: Vec<(Area, u64)> = Vec::new();
        self.push_count(&mut out, Area::Unknown, rows);
        self.push_count(&mut out, Area::Russia, rows);
        self.push_count(&mut out, Area::Usa, rows);
        out
    }
}

} // verus!
