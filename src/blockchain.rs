//! One shard's ledger: an append-only chain of message blocks, each sealed
//! by a SHA-256 hash over its predecessor's hash, its text and its time, with
//! a transaction log entry documenting every block.

use vstd::prelude::*;
use vstd::string::*;
use crate::error::ShardError;
use crate::text::{decimal, hex_of, push_decimal, to_hex};

verus! {

/// The SHA-256 digest of the UTF-8 encoding of `s`.
pub uninterp spec fn sha256_of(s: Seq<char>) -> Seq<u8>;

/// Relies on `sha2::Sha256::digest`: the SHA-256 digest of the UTF-8 bytes
/// of `s`, which is a function of `s` alone and always 32 bytes long.
#[verifier::external_body]
fn sha256(s: &str) -> (r: Vec<u8>)
    ensures
        r@ == sha256_of(s@),
        r@.len() == 32,
{
    <sha2::Sha256 as sha2::Digest>::digest(s.as_bytes()).to_vec()
}

/// The hash sealing a block: the hex SHA-256 of the previous block's hash,
/// the message text and the decimal timestamp, written one after another.
pub open spec fn block_hash_spec(previous: Seq<char>, text: Seq<char>, timestamp: u64) -> Seq<
    char,
> {
    hex_of(sha256_of(previous + text + decimal(timestamp as nat)))
}

/// The action tag of a transaction that records a sent message.
pub open spec fn send_message_tag() -> Seq<char> {
    "SEND_MESSAGE"@
}

/// One entry of the chain.
#[derive(Debug, Clone)]
pub struct Block {
    /// Position in the chain, starting at 1.
    pub block_id: u64,
    /// Hash of the block before, empty for the first block.
    pub previous_block_hash: String,
    /// Sender.
    pub user_id: i64,
    /// Channel the message went to.
    pub channel_id: i64,
    /// The message.
    pub message_text: String,
    /// When the block was written, in seconds.
    pub timestamp: u64,
    /// The hash sealing this block.
    pub block_hash: String,
}

/// The record of one ledger operation, pointing at the block it documents.
#[derive(Debug, Clone)]
pub struct TransactionLogEntry {
    /// Position in the log, starting at 1.
    pub transaction_id: u64,
    /// Who acted.
    pub user_id: i64,
    /// What was done.
    pub action_type: String,
    /// Channel concerned.
    pub channel_id: i64,
    /// When, in seconds.
    pub timestamp: u64,
    /// Hash of the documented block.
    pub block_hash: String,
}

/// The hash a new block must point back to: the last block's hash, or
/// nothing for an empty chain.
pub open spec fn tail_hash(blocks: Seq<Block>) -> Seq<char> {
    if blocks.len() == 0 {
        Seq::empty()
    } else {
        blocks.last().block_hash@
    }
}

/// Block `i` has the right position and points at its predecessor.
pub open spec fn linked(blocks: Seq<Block>, i: int) -> bool {
    &&& blocks[i].block_id == i + 1
    &&& blocks[i].previous_block_hash@ == tail_hash(blocks.take(i))
}

/// The block's stored hash is the one its contents give.
pub open spec fn sealed(b: Block) -> bool {
    b.block_hash@ == block_hash_spec(b.previous_block_hash@, b.message_text@, b.timestamp)
}

/// An intact chain: positions 1, 2, ... without gaps, each block pointing at
/// its predecessor's hash, and each hash matching its block.
pub open spec fn chain_valid(blocks: Seq<Block>) -> bool {
    forall|i: int| 0 <= i < blocks.len() ==> #[trigger] valid_at(blocks, i)
}

/// Block `i` is linked and sealed.
pub open spec fn valid_at(blocks: Seq<Block>, i: int) -> bool {
    linked(blocks, i) && sealed(blocks[i])
}

/// Entry `e` documents block `b`, the `i`-th of the chain.
pub open spec fn documents(e: TransactionLogEntry, b: Block, i: int) -> bool {
    &&& e.transaction_id == i + 1
    &&& e.user_id == b.user_id
    &&& e.action_type@ == send_message_tag()
    &&& e.channel_id == b.channel_id
    &&& e.timestamp == b.timestamp
    &&& e.block_hash@ == b.block_hash@
}

/// The log holds one entry per block, in chain order.
pub open spec fn log_matches(blocks: Seq<Block>, log: Seq<TransactionLogEntry>) -> bool {
    &&& log.len() == blocks.len()
    &&& forall|i: int| 0 <= i < log.len() ==> #[trigger] documents(log[i], blocks[i], i)
}

/// The hash sealing a block with these contents.
pub fn block_hash(previous: &str, text: &str, timestamp: u64) -> (r: String)
    ensures
        r@ == block_hash_spec(previous@, text@, timestamp),
{
    let mut input = String::new();
    input.append(previous);
    input.append(text);
    push_decimal(&mut input, timestamp);
    assert(input@ =~= previous@ + text@ + decimal(timestamp as nat));
    let digest = sha256(input.as_str());
    to_hex(&digest)
}

/// Checks a chain as read back from storage: positions, links and hashes.
pub fn verify_chain(blocks: &Vec<Block>) -> (r: bool)
    ensures
        r == chain_valid(blocks@),
{
    let mut i: usize = 0;
    while i < blocks.len()
        invariant
            i <= blocks@.len(),
            forall|j: int| 0 <= j < i ==> #[trigger] valid_at(blocks@, j),
        decreases blocks@.len() - i,
    {
        let b = &blocks[i];
        if b.block_id as u128 != i as u128 + 1 {
            assert(!valid_at(blocks@, i as int));
            return false;
        }
        let expected_previous = if i == 0 {
            String::new()
        } else {
            blocks[i - 1].block_hash.clone()
        };
        proof {
            if i > 0 {
                assert(blocks@.take(i as int).last() == blocks@[i - 1]);
            }
        }
        if !(b.previous_block_hash == expected_previous) {
            assert(!valid_at(blocks@, i as int));
            return false;
        }
        let h = block_hash(b.previous_block_hash.as_str(), b.message_text.as_str(), b.timestamp);
        if !(h == b.block_hash) {
            assert(!valid_at(blocks@, i as int));
            return false;
        }
        assert(valid_at(blocks@, i as int));
        i = i + 1;
    }
    true
}

/// Checks a transaction log as read back from storage against its chain:
/// one entry per block, in order, each documenting its block.
pub fn verify_log(blocks: &Vec<Block>, log: &Vec<TransactionLogEntry>) -> (r: bool)
    ensures
        r == log_matches(blocks@, log@),
{
    if log.len() != blocks.len() {
        return false;
    }
    let tag = "SEND_MESSAGE".to_string();
    let mut i: usize = 0;
    while i < log.len()
        invariant
            i <= log@.len(),
            log@.len() == blocks@.len(),
            tag@ == send_message_tag(),
            forall|j: int| 0 <= j < i ==> #[trigger] documents(log@[j], blocks@[j], j),
        decreases log@.len() - i,
    {
        let e = &log[i];
        let b = &blocks[i];
        let ok = e.transaction_id as u128 == i as u128 + 1 && e.user_id == b.user_id
            && e.action_type == tag && e.channel_id == b.channel_id && e.timestamp == b.timestamp
            && e.block_hash == b.block_hash;
        if !ok {
            assert(!documents(log@[i as int], blocks@[i as int], i as int));
            return false;
        }
        assert(documents(log@[i as int], blocks@[i as int], i as int));
        i = i + 1;
    }
    true
}

/// Copy of an entry, field for field.
fn copy_entry(e: &TransactionLogEntry) -> (r: TransactionLogEntry)
    ensures
        r == *e,
{
    TransactionLogEntry {
        transaction_id: e.transaction_id,
        user_id: e.user_id,
        action_type: e.action_type.clone(),
        channel_id: e.channel_id,
        timestamp: e.timestamp,
        block_hash: e.block_hash.clone(),
    }
}

/// The entries of `log` made by `user_id`, in log order.
pub open spec fn entries_of(log: Seq<TransactionLogEntry>, user_id: i64) -> Seq<
    TransactionLogEntry,
> {
    log.filter(|e: TransactionLogEntry| e.user_id == user_id)
}

/// `after` is `before` with one more block at its end, holding the message
/// and pointing back at `before`'s last hash.
pub open spec fn appended(
    before: Seq<Block>,
    after: Seq<Block>,
    user_id: i64,
    channel_id: i64,
    text: Seq<char>,
    timestamp: u64,
) -> bool {
    let b = after.last();
    &&& after.len() == before.len() + 1
    &&& after.drop_last() == before
    &&& b.block_id == before.len() + 1
    &&& b.previous_block_hash@ == tail_hash(before)
    &&& b.user_id == user_id
    &&& b.channel_id == channel_id
    &&& b.message_text@ == text
    &&& b.timestamp == timestamp
    &&& b.block_hash@ == block_hash_spec(tail_hash(before), text, timestamp)
}

/// Appending one block to an intact chain leaves it intact.
pub proof fn lemma_append_keeps_chain(
    before: Seq<Block>,
    after: Seq<Block>,
    user_id: i64,
    channel_id: i64,
    text: Seq<char>,
    timestamp: u64,
)
    requires
        chain_valid(before),
        appended(before, after, user_id, channel_id, text, timestamp),
    ensures
        chain_valid(after),
{
    let n = before.len();
    assert forall|i: int| 0 <= i < after.len() implies #[trigger] valid_at(after, i) by {
        if i < n {
            assert(after[i] == after.drop_last()[i]);
            assert(after.take(i) =~= before.take(i));
            assert(valid_at(before, i));
        } else {
            assert(after.take(i) =~= before);
        }
    }
}

/// Any run of appends to an intact chain, however the callers were
/// scheduled: `states[k + 1]` is what the `k`-th append made of `states[k]`.
/// After `n` appends the chain holds exactly `n` more blocks, the earlier
/// blocks are untouched, the new ones take the next positions in turn, and
/// the chain is still intact: no position is taken twice and no link breaks.
pub proof fn lemma_appends_extend_chain(
    states: Seq<Seq<Block>>,
    users: Seq<i64>,
    channels: Seq<i64>,
    texts: Seq<Seq<char>>,
    times: Seq<u64>,
    n: nat,
)
    requires
        states.len() == n + 1,
        users.len() == n,
        channels.len() == n,
        texts.len() == n,
        times.len() == n,
        chain_valid(states[0]),
        forall|k: int|
            0 <= k < n ==> #[trigger] appended(
                states[k],
                states[k + 1],
                users[k],
                channels[k],
                texts[k],
                times[k],
            ),
    ensures
        states[n as int].len() == states[0].len() + n,
        states[n as int].take(states[0].len() as int) == states[0],
        chain_valid(states[n as int]),
        forall|i: int|
            0 <= i < states[n as int].len() ==> (#[trigger] states[n as int][i]).block_id == i + 1,
    decreases n,
{
    if n > 0 {
        let m = (n - 1) as nat;
        let k = m as int;
        assert(appended(states[k], states[k + 1], users[k], channels[k], texts[k], times[k]));
        assert(states[k + 1] == states[n as int]);
        lemma_appends_extend_chain(
            states.take(n as int),
            users.take(k),
            channels.take(k),
            texts.take(k),
            times.take(k),
            m,
        );
        assert(states.take(n as int)[k] == states[k]);
        assert(states.take(n as int)[0] == states[0]);
        lemma_append_keeps_chain(
            states[k],
            states[n as int],
            users[k],
            channels[k],
            texts[k],
            times[k],
        );
        let l0 = states[0].len() as int;
        assert(states[n as int].take(l0) =~= states[k].take(l0));
    } else {
        assert(states[0].take(states[0].len() as int) =~= states[0]);
    }
    lemma_chain_shape(states[n as int]);
}

/// Chain integrity over any run of appends to a new shard. `states[k + 1]`
/// is what the `k`-th append made of `states[k]`, starting from an empty
/// chain. After `n` appends the chain holds blocks 1 to `n` without gaps,
/// the first block points at nothing, every later block points at its
/// predecessor's hash, and the whole chain verifies.
pub proof fn lemma_appends_form_chain(
    states: Seq<Seq<Block>>,
    users: Seq<i64>,
    channels: Seq<i64>,
    texts: Seq<Seq<char>>,
    times: Seq<u64>,
    n: nat,
)
    requires
        states.len() == n + 1,
        users.len() == n,
        channels.len() == n,
        texts.len() == n,
        times.len() == n,
        states[0].len() == 0,
        forall|k: int|
            0 <= k < n ==> #[trigger] appended(
                states[k],
                states[k + 1],
                users[k],
                channels[k],
                texts[k],
                times[k],
            ),
    ensures
        states[n as int].len() == n,
        chain_valid(states[n as int]),
        forall|i: int|
            0 <= i < n ==> (#[trigger] states[n as int][i]).block_id == i + 1,
        n > 0 ==> states[n as int][0].previous_block_hash@ == Seq::<char>::empty(),
        forall|i: int|
            0 < i < n ==> (#[trigger] states[n as int][i]).previous_block_hash@ == states[n
                as int][i - 1].block_hash@,
{
    lemma_appends_extend_chain(states, users, channels, texts, times, n);
    lemma_chain_shape(states[n as int]);
}

/// The shape an intact chain has: positions 1, 2, ... without gaps, the
/// first block pointing at nothing, each later one at its predecessor.
pub proof fn lemma_chain_shape(blocks: Seq<Block>)
    requires
        chain_valid(blocks),
    ensures
        forall|i: int| 0 <= i < blocks.len() ==> (#[trigger] blocks[i]).block_id == i + 1,
        blocks.len() > 0 ==> blocks[0].previous_block_hash@ == Seq::<char>::empty(),
        forall|i: int|
            0 < i < blocks.len() ==> (#[trigger] blocks[i]).previous_block_hash@ == blocks[i
                - 1].block_hash@,
{
    assert forall|i: int| 0 <= i < blocks.len() implies (#[trigger] blocks[i]).block_id == i + 1 by {
        assert(valid_at(blocks, i));
    }
    if blocks.len() > 0 {
        assert(valid_at(blocks, 0));
    }
    assert forall|i: int| 0 < i < blocks.len() implies (#[trigger] blocks[i]).previous_block_hash@
        == blocks[i - 1].block_hash@ by {
        assert(valid_at(blocks, i));
        assert(blocks.take(i).last() == blocks[i - 1]);
    }
}

/// In an intact chain no two blocks share a position, and positions grow
/// strictly along the chain: however appends were scheduled, each took a
/// fresh position after all earlier ones.
pub proof fn lemma_ids_strictly_increase(blocks: Seq<Block>, i: int, j: int)
    requires
        chain_valid(blocks),
        0 <= i < j < blocks.len(),
    ensures
        blocks[i].block_id < blocks[j].block_id,
{
    assert(valid_at(blocks, i));
    assert(valid_at(blocks, j));
}

/// Changing a stored hash of an intact chain out of band is detected: if
/// block `i` is replaced by `b`, equal to it but for a different
/// `block_hash` or `previous_block_hash`, the chain no longer verifies.
pub proof fn lemma_tampering_detected(blocks: Seq<Block>, i: int, b: Block)
    requires
        chain_valid(blocks),
        0 <= i < blocks.len(),
        b.block_id == blocks[i].block_id,
        b.message_text@ == blocks[i].message_text@,
        b.timestamp == blocks[i].timestamp,
        b.block_hash@ != blocks[i].block_hash@ || b.previous_block_hash@
            != blocks[i].previous_block_hash@,
    ensures
        !chain_valid(blocks.update(i, b)),
{
    let t = blocks.update(i, b);
    assert(valid_at(blocks, i));
    assert(t.take(i) =~= blocks.take(i));
    assert(t[i] == b);
    assert(!valid_at(t, i));
}

/// `a` comes before `b` in time order: an earlier timestamp, or the same
/// timestamp and an earlier position in the log.
pub open spec fn earlier(a: TransactionLogEntry, b: TransactionLogEntry) -> bool {
    a.timestamp < b.timestamp || (a.timestamp == b.timestamp && a.transaction_id
        < b.transaction_id)
}

/// The entries are in strictly increasing time order.
pub open spec fn in_time_order(s: Seq<TransactionLogEntry>) -> bool {
    forall|i: int, j: int| 0 <= i < j < s.len() ==> earlier(#[trigger] s[i], #[trigger] s[j])
}

/// Inserts `e`, younger in the log than every entry of `out`, at its place
/// in time order.
fn insert_in_time_order(out: &mut Vec<TransactionLogEntry>, e: TransactionLogEntry)
    requires
        in_time_order(old(out)@),
        forall|k: int|
            0 <= k < old(out)@.len() ==> (#[trigger] old(out)@[k]).transaction_id
                < e.transaction_id,
    ensures
        final(out)@.len() == old(out)@.len() + 1,
        in_time_order(final(out)@),
        forall|x: TransactionLogEntry| #[trigger]
            final(out)@.contains(x) <==> old(out)@.contains(x) || x == e,
        forall|k: int|
            0 <= k < final(out)@.len() ==> (#[trigger] final(out)@[k]).transaction_id
                <= e.transaction_id,
{
    let mut p: usize = 0;
    while p < out.len() && out[p].timestamp <= e.timestamp
        invariant
            p <= out@.len(),
            forall|q: int| 0 <= q < p ==> (#[trigger] out@[q]).timestamp <= e.timestamp,
        decreases out@.len() - p,
    {
        p = p + 1;
    }
    let ghost before = out@;
    proof {
        assert forall|q: int| p <= q < before.len() implies (#[trigger] before[q]).timestamp
            > e.timestamp by {
            if q > p {
                assert(earlier(before[p as int], before[q]));
            }
        }
    }
    out.insert(p, e);
    proof {
        before.insert_ensures(p as int, e);
        let after = out@;
        assert forall|i: int, j: int| 0 <= i < j < after.len() implies earlier(
            #[trigger] after[i],
            #[trigger] after[j],
        ) by {
            if j < p {
                assert(earlier(before[i], before[j]));
            } else if j == p {
                assert(after[i] == before[i]);
            } else if i < p {
                assert(after[j] == before[j - 1]);
                assert(after[i] == before[i]);
                assert(before[j - 1].timestamp > e.timestamp);
            } else if i == p {
                assert(after[j] == before[j - 1]);
            } else {
                assert(after[j] == before[j - 1]);
                assert(after[i] == before[i - 1]);
                assert(earlier(before[i - 1], before[j - 1]));
            }
        }
        assert forall|x: TransactionLogEntry| #[trigger]
            after.contains(x) <==> before.contains(x) || x == e by {
            if after.contains(x) {
                let w = choose|w: int| 0 <= w < after.len() && after[w] == x;
                if w < p {
                    assert(before[w] == x);
                } else if w > p {
                    assert(before[w - 1] == x);
                }
            }
            if before.contains(x) {
                let w = choose|w: int| 0 <= w < before.len() && before[w] == x;
                if w < p {
                    assert(after[w] == x);
                } else {
                    assert(after[w + 1] == x);
                }
            }
            if x == e {
                assert(after[p as int] == x);
            }
        }
        assert forall|k: int| 0 <= k < after.len() implies (#[trigger] after[k]).transaction_id
            <= e.transaction_id by {
            if k < p {
                assert(after[k] == before[k]);
            } else if k > p {
                assert(after[k] == before[k - 1]);
            }
        }
    }
}

/// A shard's ledger: its chain of blocks and the parallel transaction log.
#[derive(Debug)]
pub struct BlockchainDBManager {
    blocks: Vec<Block>,
    transactions: Vec<TransactionLogEntry>,
}

impl BlockchainDBManager {
    /// The blocks, in chain order.
    pub closed spec fn chain(&self) -> Seq<Block> {
        self.blocks@
    }

    /// The transaction log, in order of writing.
    pub closed spec fn log(&self) -> Seq<TransactionLogEntry> {
        self.transactions@
    }

    /// An intact chain with one log entry per block.
    pub open spec fn wf(&self) -> bool {
        chain_valid(self.chain()) && log_matches(self.chain(), self.log())
    }

    /// An empty ledger.
    pub fn new() -> (r: Self)
        ensures
            r.wf(),
            r.chain().len() == 0,
            r.log().len() == 0,
    {
        BlockchainDBManager { blocks: Vec::new(), transactions: Vec::new() }
    }

    /// A ledger over blocks and log entries read back from storage. Rows that
    /// do not form an intact chain with a matching log are refused with
    /// `ChainIntegrityViolation`.
    pub fn load(blocks: Vec<Block>, transactions: Vec<TransactionLogEntry>) -> (r: Result<
        Self,
        ShardError,
    >)
        ensures
            r is Ok <==> chain_valid(blocks@) && log_matches(blocks@, transactions@),
            r matches Ok(l) ==> l.wf() && l.chain() == blocks@ && l.log() == transactions@,
            r matches Err(e) ==> e == ShardError::ChainIntegrityViolation,
    {
        if !verify_chain(&blocks) || !verify_log(&blocks, &transactions) {
            return Err(ShardError::ChainIntegrityViolation);
        }
        Ok(BlockchainDBManager { blocks, transactions })
    }

    /// Appends `msg` as a new block, records the matching transaction, and
    /// returns the new block's hash. The new block follows the current tail:
    /// its position is one more and it points at the tail's hash.
    pub fn send_message(&mut self, user_id: i64, channel_id: i64, msg: &String, timestamp: u64) -> (r:
        String)
        requires
            old(self).wf(),
            old(self).chain().len() < u64::MAX,
        ensures
            final(self).wf(),
            appended(old(self).chain(), final(self).chain(), user_id, channel_id, msg@, timestamp),
            final(self).log().drop_last() == old(self).log(),
            final(self).log().len() == final(self).chain().len(),
            documents(final(self).log().last(), final(self).chain().last(), old(self).chain().len() as int),
            r@ == final(self).chain().last().block_hash@,
    {
        let n = self.blocks.len();
        let ghost before = self.blocks@;
        let ghost log_before = self.transactions@;
        let previous = if n == 0 {
            String::new()
        } else {
            self.blocks[n - 1].block_hash.clone()
        };
        assert(previous@ == tail_hash(before));
        let hash = block_hash(previous.as_str(), msg.as_str(), timestamp);
        let id = n as u64 + 1;
        let block = Block {
            block_id: id,
            previous_block_hash: previous,
            user_id,
            channel_id,
            message_text: msg.clone(),
            timestamp,
            block_hash: hash.clone(),
        };
        let entry = TransactionLogEntry {
            transaction_id: id,
            user_id,
            action_type: "SEND_MESSAGE".to_string(),
            channel_id,
            timestamp,
            block_hash: hash.clone(),
        };
        self.blocks.push(block);
        self.transactions.push(entry);
        proof {
            let after = self.blocks@;
            let log_after = self.transactions@;
            assert(after.drop_last() =~= before);
            assert(log_after.drop_last() =~= log_before);
            lemma_append_keeps_chain(before, after, user_id, channel_id, msg@, timestamp);
            assert forall|i: int| 0 <= i < log_after.len() implies #[trigger] documents(
                log_after[i],
                after[i],
                i,
            ) by {
                if i < n {
                    assert(documents(log_before[i], before[i], i));
                }
            }
            assert(documents(log_after[n as int], after[n as int], n as int));
        }
        hash
    }

    /// Recomputes every block's hash and link and reports whether the chain
    /// is intact.
    pub fn verify(&self) -> (r: bool)
        ensures
            r == chain_valid(self.chain()),
            self.wf() ==> r,
    {
        verify_chain(&self.blocks)
    }

    /// The transactions of `user_id`, ordered by timestamp; transactions
    /// with the same timestamp come in the order they were made.
    pub fn get_user_transactions(&self, user_id: i64) -> (r: Vec<TransactionLogEntry>)
        requires
            self.wf(),
        ensures
            r@.len() == entries_of(self.log(), user_id).len(),
            forall|e: TransactionLogEntry| #[trigger]
                r@.contains(e) <==> self.log().contains(e) && e.user_id == user_id,
            in_time_order(r@),
    {
        let mut out: Vec<TransactionLogEntry> = Vec::new();
        let mut i: usize = 0;
        let ghost log = self.transactions@;
        assert(log.take(0) =~= Seq::<TransactionLogEntry>::empty());
        while i < self.transactions.len()
            invariant
                i <= log.len(),
                log == self.transactions@,
                self.wf(),
                in_time_order(out@),
                forall|k: int| 0 <= k < out@.len() ==> (#[trigger] out@[k]).transaction_id <= i,
                forall|x: TransactionLogEntry| #[trigger]
                    out@.contains(x) <==> log.take(i as int).contains(x) && x.user_id == user_id,
                out@.len() == entries_of(log.take(i as int), user_id).len(),
            decreases log.len() - i,
        {
            let e = &self.transactions[i];
            let ghost prefix = log.take(i as int);
            let ghost next = log.take(i + 1);
            proof {
                assert(next.drop_last() =~= prefix);
                assert(next.last() == *e);
                reveal(Seq::filter);
                assert(documents(log[i as int], self.blocks@[i as int], i as int));
                assert forall|x: TransactionLogEntry| #[trigger]
                    next.contains(x) <==> prefix.contains(x) || x == *e by {
                    if next.contains(x) {
                        let w = choose|w: int| 0 <= w < next.len() && next[w] == x;
                        if w < i {
                            assert(prefix[w] == x);
                        }
                    }
                    if prefix.contains(x) {
                        let w = choose|w: int| 0 <= w < prefix.len() && prefix[w] == x;
                        assert(next[w] == x);
                    }
                    if x == *e {
                        assert(next[i as int] == x);
                    }
                }
            }
            if e.user_id == user_id {
                insert_in_time_order(&mut out, copy_entry(e));
            }
            i = i + 1;
        }
        assert(log.take(i as int) =~= log);
        out
    }

    /// Number of blocks.
    pub fn len(&self) -> (r: usize)
        ensures
            r == self.chain().len(),
    {
        self.blocks.len()
    }

    /// The blocks, in chain order.
    pub fn blocks(&self) -> (r: &Vec<Block>)
        ensures
            r@ == self.chain(),
    {
        &self.blocks
    }

    /// The transaction log, in order of writing.
    pub fn transactions(&self) -> (r: &Vec<TransactionLogEntry>)
        ensures
            r@ == self.log(),
    {
        &self.transactions
    }
}

} // verus!
