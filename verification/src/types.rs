//! Entity rows and their columnar storage-side buffers.
//!
//! Each entity kind — block, transaction, log — is a fixed set of named,
//! typed, independently nullable attributes. Numbers that fit a machine word
//! are held as `u64`; hashes, addresses and wide (256-bit) integers are held
//! as their big-endian bytes. The storage-side buffers keep one growable
//! sequence per attribute, index-aligned: row `i` of every sequence
//! describes the same logical entity instance.

use crate::error::Error;
use crate::parquet_writer::EntityRows;
use vstd::prelude::*;

verus! {

/// One transaction row as fetched from the upstream source.
#[derive(Debug, Clone, PartialEq, Eq)]
pub struct Transaction {
    pub block_number: Option<u64>,
    pub transaction_index: Option<u64>,
    pub hash: Vec<u8>,
    pub nonce: Vec<u8>,
    pub block_hash: Option<Vec<u8>>,
    pub from: Option<Vec<u8>>,
    pub to: Option<Vec<u8>>,
    pub value: Vec<u8>,
    pub input: Vec<u8>,
    pub transaction_type: Option<u64>,
}

/// One block row as fetched from the upstream source, carrying its
/// transactions.
#[derive(Debug, Clone, PartialEq, Eq)]
pub struct Block {
    pub number: Option<u64>,
    pub hash: Option<Vec<u8>>,
    pub parent_hash: Vec<u8>,
    pub uncles_hash: Vec<u8>,
    pub author: Vec<u8>,
    pub timestamp: Vec<u8>,
    pub size: Option<Vec<u8>>,
    pub nonce: Option<Vec<u8>>,
    pub transactions: Vec<Transaction>,
}

/// One log row as fetched from the upstream source. `topics` is the one
/// repeated attribute: an ordered list of up to 4 values.
#[derive(Debug, Clone, PartialEq, Eq)]
pub struct Log {
    pub block_number: Option<u64>,
    pub address: Vec<u8>,
    pub topics: Vec<Vec<u8>>,
    pub data: Vec<u8>,
    pub block_hash: Option<Vec<u8>>,
    pub transaction_index: Option<u64>,
    pub transaction_hash: Option<Vec<u8>>,
    pub log_index: Option<Vec<u8>>,
    pub transaction_log_index: Option<Vec<u8>>,
}

// ---------------------------------------------------------------------------
// Columnar buffers
// ---------------------------------------------------------------------------

/// The block columns: one sequence per block attribute, index-aligned.
#[derive(Debug, PartialEq, Eq)]
pub struct Blocks {
    pub number: Vec<Option<u64>>,
    pub hash: Vec<Option<Vec<u8>>>,
    pub parent_hash: Vec<Vec<u8>>,
    pub uncles_hash: Vec<Vec<u8>>,
    pub author: Vec<Vec<u8>>,
    pub timestamp: Vec<Vec<u8>>,
    pub size: Vec<Option<Vec<u8>>>,
    pub nonce: Vec<Option<Vec<u8>>>,
}

/// What the block columns keep of one block row: everything but its
/// transactions, which go to their own buffer.
#[derive(Debug, Clone, PartialEq, Eq)]
pub struct BlockRow {
    pub number: Option<u64>,
    pub hash: Option<Vec<u8>>,
    pub parent_hash: Vec<u8>,
    pub uncles_hash: Vec<u8>,
    pub author: Vec<u8>,
    pub timestamp: Vec<u8>,
    pub size: Option<Vec<u8>>,
    pub nonce: Option<Vec<u8>>,
}

impl EntityRows for Blocks {
    type Row = Block;

    type RowModel = BlockRow;

    open spec fn inv(&self) -> bool {
        &&& self.hash@.len() == self.number@.len()
        &&& self.parent_hash@.len() == self.number@.len()
        &&& self.uncles_hash@.len() == self.number@.len()
        &&& self.author@.len() == self.number@.len()
        &&& self.timestamp@.len() == self.number@.len()
        &&& self.size@.len() == self.number@.len()
        &&& self.nonce@.len() == self.number@.len()
    }

    open spec fn rows(&self) -> Seq<BlockRow> {
        Seq::new(
            self.number@.len(),
            |i: int|
                BlockRow {
                    number: self.number@[i],
                    hash: self.hash@[i],
                    parent_hash: self.parent_hash@[i],
                    uncles_hash: self.uncles_hash@[i],
                    author: self.author@[i],
                    timestamp: self.timestamp@[i],
                    size: self.size@[i],
                    nonce: self.nonce@[i],
                },
        )
    }

    open spec fn row_model(row: Block) -> BlockRow {
        BlockRow {
            number: row.number,
            hash: row.hash,
            parent_hash: row.parent_hash,
            uncles_hash: row.uncles_hash,
            author: row.author,
            timestamp: row.timestamp,
            size: row.size,
            nonce: row.nonce,
        }
    }

    open spec fn row_ok(row: Block) -> bool {
        true
    }

    fn new_empty() -> (r: Self) {
        let r = Blocks {
            number: Vec::new(),
            hash: Vec::new(),
            parent_hash: Vec::new(),
            uncles_hash: Vec::new(),
            author: Vec::new(),
            timestamp: Vec::new(),
            size: Vec::new(),
            nonce: Vec::new(),
        };
        proof {
            assert(r.rows() =~= Seq::<BlockRow>::empty());
        }
        r
    }

    fn push_row(&mut self, row: Block) {
        let Block { number, hash, parent_hash, uncles_hash, author, timestamp, size, nonce, transactions: _ } =
            row;
        self.number.push(number);
        self.hash.push(hash);
        self.parent_hash.push(parent_hash);
        self.uncles_hash.push(uncles_hash);
        self.author.push(author);
        self.timestamp.push(timestamp);
        self.size.push(size);
        self.nonce.push(nonce);
        proof {
            assert(self.rows() =~= old(self).rows().push(Self::row_model(row)));
        }
    }

    fn row_count(&self) -> (n: usize) {
        self.number.len()
    }
}

/// The transaction columns: one sequence per transaction attribute,
/// index-aligned.
#[derive(Debug, PartialEq, Eq)]
pub struct Transactions {
    pub block_number: Vec<Option<u64>>,
    pub transaction_index: Vec<Option<u64>>,
    pub hash: Vec<Vec<u8>>,
    pub nonce: Vec<Vec<u8>>,
    pub block_hash: Vec<Option<Vec<u8>>>,
    pub from: Vec<Option<Vec<u8>>>,
    pub to: Vec<Option<Vec<u8>>>,
    pub value: Vec<Vec<u8>>,
    pub input: Vec<Vec<u8>>,
    pub transaction_type: Vec<Option<u64>>,
}

impl EntityRows for Transactions {
    type Row = Transaction;

    type RowModel = Transaction;

    open spec fn inv(&self) -> bool {
        &&& self.transaction_index@.len() == self.block_number@.len()
        &&& self.hash@.len() == self.block_number@.len()
        &&& self.nonce@.len() == self.block_number@.len()
        &&& self.block_hash@.len() == self.block_number@.len()
        &&& self.from@.len() == self.block_number@.len()
        &&& self.to@.len() == self.block_number@.len()
        &&& self.value@.len() == self.block_number@.len()
        &&& self.input@.len() == self.block_number@.len()
        &&& self.transaction_type@.len() == self.block_number@.len()
    }

    open spec fn rows(&self) -> Seq<Transaction> {
        Seq::new(
            self.block_number@.len(),
            |i: int|
                Transaction {
                    block_number: self.block_number@[i],
                    transaction_index: self.transaction_index@[i],
                    hash: self.hash@[i],
                    nonce: self.nonce@[i],
                    block_hash: self.block_hash@[i],
                    from: self.from@[i],
                    to: self.to@[i],
                    value: self.value@[i],
                    input: self.input@[i],
                    transaction_type: self.transaction_type@[i],
                },
        )
    }

    open spec fn row_model(row: Transaction) -> Transaction {
        row
    }

    open spec fn row_ok(row: Transaction) -> bool {
        true
    }

    fn new_empty() -> (r: Self) {
        let r = Transactions {
            block_number: Vec::new(),
            transaction_index: Vec::new(),
            hash: Vec::new(),
            nonce: Vec::new(),
            block_hash: Vec::new(),
            from: Vec::new(),
            to: Vec::new(),
            value: Vec::new(),
            input: Vec::new(),
            transaction_type: Vec::new(),
        };
        proof {
            assert(r.rows() =~= Seq::<Transaction>::empty());
        }
        r
    }

    fn push_row(&mut self, row: Transaction) {
        let ghost pushed = row;
        let Transaction {
            block_number,
            transaction_index,
            hash,
            nonce,
            block_hash,
            from,
            to,
            value,
            input,
            transaction_type,
        } = row;
        self.block_number.push(block_number);
        self.transaction_index.push(transaction_index);
        self.hash.push(hash);
        self.nonce.push(nonce);
        self.block_hash.push(block_hash);
        self.from.push(from);
        self.to.push(to);
        self.value.push(value);
        self.input.push(input);
        self.transaction_type.push(transaction_type);
        proof {
            assert(self.rows() =~= old(self).rows().push(Self::row_model(pushed)));
        }
    }

    fn row_count(&self) -> (n: usize) {
        self.block_number.len()
    }
}

/// The log columns: one sequence per log attribute, index-aligned.
/// `topics` keeps, per row, the row's ordered list of up to 4 topics.
#[derive(Debug, PartialEq, Eq)]
pub struct Logs {
    pub block_number: Vec<Option<u64>>,
    pub address: Vec<Vec<u8>>,
    pub topics: Vec<Vec<Vec<u8>>>,
    pub data: Vec<Vec<u8>>,
    pub block_hash: Vec<Option<Vec<u8>>>,
    pub transaction_index: Vec<Option<u64>>,
    pub transaction_hash: Vec<Option<Vec<u8>>>,
    pub log_index: Vec<Option<Vec<u8>>>,
    pub transaction_log_index: Vec<Option<Vec<u8>>>,
}

impl EntityRows for Logs {
    type Row = Log;

    type RowModel = Log;

    open spec fn inv(&self) -> bool {
        &&& self.address@.len() == self.block_number@.len()
        &&& self.topics@.len() == self.block_number@.len()
        &&& self.data@.len() == self.block_number@.len()
        &&& self.block_hash@.len() == self.block_number@.len()
        &&& self.transaction_index@.len() == self.block_number@.len()
        &&& self.transaction_hash@.len() == self.block_number@.len()
        &&& self.log_index@.len() == self.block_number@.len()
        &&& self.transaction_log_index@.len() == self.block_number@.len()
    }

    open spec fn rows(&self) -> Seq<Log> {
        Seq::new(
            self.block_number@.len(),
            |i: int|
                Log {
                    block_number: self.block_number@[i],
                    address: self.address@[i],
                    topics: self.topics@[i],
                    data: self.data@[i],
                    block_hash: self.block_hash@[i],
                    transaction_index: self.transaction_index@[i],
                    transaction_hash: self.transaction_hash@[i],
                    log_index: self.log_index@[i],
                    transaction_log_index: self.transaction_log_index@[i],
                },
        )
    }

    open spec fn row_model(row: Log) -> Log {
        row
    }

    /// A log row carries at most 4 topics.
    open spec fn row_ok(row: Log) -> bool {
        row.topics@.len() <= 4
    }

    fn new_empty() -> (r: Self) {
        let r = Logs {
            block_number: Vec::new(),
            address: Vec::new(),
            topics: Vec::new(),
            data: Vec::new(),
            block_hash: Vec::new(),
            transaction_index: Vec::new(),
            transaction_hash: Vec::new(),
            log_index: Vec::new(),
            transaction_log_index: Vec::new(),
        };
        proof {
            assert(r.rows() =~= Seq::<Log>::empty());
        }
        r
    }

    fn push_row(&mut self, row: Log) {
        let ghost pushed = row;
        let Log {
            block_number,
            address,
            topics,
            data,
            block_hash,
            transaction_index,
            transaction_hash,
            log_index,
            transaction_log_index,
        } = row;
        self.block_number.push(block_number);
        self.address.push(address);
        self.topics.push(topics);
        self.data.push(data);
        self.block_hash.push(block_hash);
        self.transaction_index.push(transaction_index);
        self.transaction_hash.push(transaction_hash);
        self.log_index.push(log_index);
        self.transaction_log_index.push(transaction_log_index);
        proof {
            assert(self.rows() =~= old(self).rows().push(Self::row_model(pushed)));
        }
    }

    fn row_count(&self) -> (n: usize) {
        self.block_number.len()
    }
}

// ---------------------------------------------------------------------------
// Encoded columns: definition and repetition levels
// ---------------------------------------------------------------------------

/// The definition levels of a nullable column: 1 where a value is present,
/// 0 where it is absent — absence is marked, never conflated with a
/// zero or default value.
pub open spec fn opt_defs<T>(col: Seq<Option<T>>) -> Seq<i16> {
    col.map_values(
        |v: Option<T>|
            if v is Some {
                1i16
            } else {
                0i16
            },
    )
}

/// The present values of a nullable column, in row order.
pub open spec fn somes<T>(col: Seq<Option<T>>) -> Seq<T>
    decreases col.len(),
{
    if col.len() == 0 {
        Seq::empty()
    } else {
        match col.last() {
            Some(v) => somes(col.drop_last()).push(v),
            None => somes(col.drop_last()),
        }
    }
}

/// The values of an unsigned column narrowed to their signed storage type.
pub open spec fn as_signed(vals: Seq<u64>) -> Seq<i64> {
    vals.map_values(|v: u64| v as i64)
}

/// Every present value of the column fits the signed 64-bit storage type.
pub open spec fn fits_i64(col: Seq<Option<u64>>) -> bool {
    forall|i: int| 0 <= i < col.len() && (#[trigger] col[i]) is Some ==> col[i]->0 <= i64::MAX
}

/// The byte views of a byte-array column.
pub open spec fn bytes_views(col: Seq<Vec<u8>>) -> Seq<Seq<u8>> {
    col.map_values(|v: Vec<u8>| v@)
}

/// The definition levels one row of the repeated `topics` attribute
/// contributes: an empty list still writes a single absent entry, so the
/// empty-list case survives a round trip; a non-empty list writes one
/// present entry per slot.
pub open spec fn topics_row_defs(row: Seq<Seq<u8>>) -> Seq<i16> {
    if row.len() == 0 {
        seq![0i16]
    } else {
        Seq::new(row.len(), |i: int| 1i16)
    }
}

/// The repetition levels one row of `topics` contributes: the first entry
/// of a row starts a new list (level 0), every further slot continues it
/// (level 1).
pub open spec fn topics_row_reps(row: Seq<Seq<u8>>) -> Seq<i16> {
    if row.len() == 0 {
        seq![0i16]
    } else {
        Seq::new(
            row.len(),
            |i: int|
                if i == 0 {
                    0i16
                } else {
                    1i16
                },
        )
    }
}

/// The definition levels of the whole repeated column, row by row.
pub open spec fn topics_defs(col: Seq<Vec<Vec<u8>>>) -> Seq<i16>
    decreases col.len(),
{
    if col.len() == 0 {
        Seq::empty()
    } else {
        topics_defs(col.drop_last()) + topics_row_defs(bytes_views(col.last()@))
    }
}

/// The repetition levels of the whole repeated column, row by row.
pub open spec fn topics_reps(col: Seq<Vec<Vec<u8>>>) -> Seq<i16>
    decreases col.len(),
{
    if col.len() == 0 {
        Seq::empty()
    } else {
        topics_reps(col.drop_last()) + topics_row_reps(bytes_views(col.last()@))
    }
}

/// The materialized values of the whole repeated column, row by row; an
/// empty list materializes nothing.
pub open spec fn topics_values(col: Seq<Vec<Vec<u8>>>) -> Seq<Seq<u8>>
    decreases col.len(),
{
    if col.len() == 0 {
        Seq::empty()
    } else {
        topics_values(col.drop_last()) + bytes_views(col.last()@)
    }
}

/// One encoded column chunk, ready to be laid down in an immutable
/// row-group file. Only present values are materialized; definition levels
/// record presence and repetition levels the slots of the repeated
/// attribute, so readers reconstruct nulls and variable-length lists
/// exactly.
#[derive(Debug, Clone, PartialEq, Eq)]
pub enum ColumnChunk {
    /// A nullable 64-bit integer column: one definition level per row, one
    /// narrowed value per present row.
    OptionalInt64 { defs: Vec<i16>, values: Vec<i64> },
    /// A nullable byte-array column.
    OptionalBytes { defs: Vec<i16>, values: Vec<Vec<u8>> },
    /// A required byte-array column: one value per row.
    RequiredBytes { values: Vec<Vec<u8>> },
    /// The repeated byte-array column: one level pair per entry, where an
    /// empty list contributes a single absent entry.
    RepeatedBytes { defs: Vec<i16>, reps: Vec<i16>, values: Vec<Vec<u8>> },
}

/// The chunk encodes the given nullable integer column.
pub open spec fn chunk_is_opt_i64(c: ColumnChunk, col: Seq<Option<u64>>) -> bool {
    &&& c matches ColumnChunk::OptionalInt64 { defs, values }
    &&& c->OptionalInt64_defs@ == opt_defs(col)
    &&& c->OptionalInt64_values@ == as_signed(somes(col))
}

/// The chunk encodes the given nullable byte-array column.
pub open spec fn chunk_is_opt_bytes(c: ColumnChunk, col: Seq<Option<Vec<u8>>>) -> bool {
    &&& c is OptionalBytes
    &&& c->OptionalBytes_defs@ == opt_defs(col)
    &&& bytes_views(c->OptionalBytes_values@) == bytes_views(somes(col))
}

/// The chunk encodes the given required byte-array column.
pub open spec fn chunk_is_req_bytes(c: ColumnChunk, col: Seq<Vec<u8>>) -> bool {
    &&& c is RequiredBytes
    &&& bytes_views(c->RequiredBytes_values@) == bytes_views(col)
}

/// The chunk encodes the given repeated byte-array column.
pub open spec fn chunk_is_topics(c: ColumnChunk, col: Seq<Vec<Vec<u8>>>) -> bool {
    &&& c is RepeatedBytes
    &&& c->RepeatedBytes_defs@ == topics_defs(col)
    &&& c->RepeatedBytes_reps@ == topics_reps(col)
    &&& bytes_views(c->RepeatedBytes_values@) == topics_values(col)
}

/// Levels context of a value being written: how many optional ancestors
/// are present (definition) and the slot's repetition level.
#[derive(Debug, Clone, Copy, PartialEq, Eq, Structural)]
pub struct ToColumnContext {
    pub def: i16,
    pub rep: i16,
}

/// One encoded slot: its definition and repetition levels, and the value
/// to materialize, if any.
#[derive(Debug, Clone, Copy, PartialEq, Eq)]
pub struct ToColumnOutput<T> {
    pub def: i16,
    pub rep: i16,
    pub val: T,
}

/// How one attribute value is lowered to an encoded column slot.
pub trait ToColumn: Sized {
    type Output;

    /// When the value can be written under `ctx`.
    spec fn to_column_req(&self, ctx: ToColumnContext) -> bool;

    /// What the produced slot — or the refusal — must look like.
    spec fn to_column_ens(
        &self,
        ctx: ToColumnContext,
        r: Result<ToColumnOutput<Self::Output>, Error>,
    ) -> bool;

    fn write_to_column_group(&self, ctx: &ToColumnContext) -> (r: Result<
        ToColumnOutput<Self::Output>,
        Error,
    >)
        requires
            self.to_column_req(*ctx),
        ensures
            self.to_column_ens(*ctx, r),
    ;
}

impl ToColumn for Option<u64> {
    type Output = Option<i64>;

    open spec fn to_column_req(&self, ctx: ToColumnContext) -> bool {
        ctx.def < i16::MAX
    }

    /// A present value raises the definition level by one and is narrowed
    /// with an explicit range check — a value above `i64::MAX` is refused,
    /// never silently reinterpreted. An absent value keeps the context
    /// levels and materializes nothing.
    open spec fn to_column_ens(
        &self,
        ctx: ToColumnContext,
        r: Result<ToColumnOutput<Option<i64>>, Error>,
    ) -> bool {
        match *self {
            Some(v) => if v <= i64::MAX {
                r == Ok::<ToColumnOutput<Option<i64>>, Error>(
                    ToColumnOutput {
                        def: (ctx.def + 1) as i16,
                        rep: ctx.rep,
                        val: Some(v as i64),
                    },
                )
            } else {
                r == Err::<ToColumnOutput<Option<i64>>, Error>(Error::ValueOutOfRange)
            },
            None => r == Ok::<ToColumnOutput<Option<i64>>, Error>(
                ToColumnOutput { def: ctx.def, rep: ctx.rep, val: None::<i64> },
            ),
        }
    }

    fn write_to_column_group(&self, ctx: &ToColumnContext) -> (r: Result<
        ToColumnOutput<Option<i64>>,
        Error,
    >) {
        match self {
            Some(v) => if *v <= i64::MAX as u64 {
                Ok(ToColumnOutput { def: ctx.def + 1, rep: ctx.rep, val: Some(*v as i64) })
            } else {
                Err(Error::ValueOutOfRange)
            },
            None => Ok(ToColumnOutput { def: ctx.def, rep: ctx.rep, val: None }),
        }
    }
}

/// A fresh byte vector with the same contents.
fn clone_bytes(v: &Vec<u8>) -> (r: Vec<u8>)
    ensures
        r@ == v@,
{
    let mut r: Vec<u8> = Vec::new();
    let mut i: usize = 0;
    while i < v.len()
        invariant
            i <= v@.len(),
            r@ == v@.subrange(0, i as int),
        decreases v@.len() - i,
    {
        r.push(v[i]);
        proof {
            assert(v@.subrange(0, i + 1) =~= v@.subrange(0, i as int).push(v@[i as int]));
        }
        i = i + 1;
    }
    proof {
        assert(v@.subrange(0, v@.len() as int) =~= v@);
    }
    r
}

/// Lowers one nullable integer column. Succeeds exactly when every present
/// value fits the signed storage type; one value out of range refuses the
/// whole column.
fn encode_optional_u64(col: &Vec<Option<u64>>) -> (r: Result<ColumnChunk, Error>)
    ensures
        r is Ok <==> fits_i64(col@),
        r matches Ok(c) ==> chunk_is_opt_i64(c, col@),
        r is Err ==> r == Err::<ColumnChunk, Error>(Error::ValueOutOfRange),
{
    let mut defs: Vec<i16> = Vec::new();
    let mut values: Vec<i64> = Vec::new();
    let mut i: usize = 0;
    proof {
        assert(opt_defs(col@.subrange(0, 0)) =~= Seq::<i16>::empty());
        assert(as_signed(somes(col@.subrange(0, 0))) =~= Seq::<i64>::empty());
    }
    while i < col.len()
        invariant
            i <= col@.len(),
            defs@ == opt_defs(col@.subrange(0, i as int)),
            values@ == as_signed(somes(col@.subrange(0, i as int))),
            fits_i64(col@.subrange(0, i as int)),
        decreases col@.len() - i,
    {
        let out = match col[i].write_to_column_group(&ToColumnContext { def: 0, rep: 0 }) {
            Ok(out) => out,
            Err(_) => {
                proof {
                    assert(col@[i as int] is Some && col@[i as int]->0 > i64::MAX);
                    assert(!fits_i64(col@));
                }
                return Err(Error::ValueOutOfRange);
            },
        };
        defs.push(out.def);
        if let Some(v) = out.val {
            values.push(v);
        }
        proof {
            let prefix = col@.subrange(0, i as int);
            let next = col@.subrange(0, i + 1);
            assert(next.drop_last() =~= prefix);
            assert(next.last() == col@[i as int]);
            assert(opt_defs(next) =~= opt_defs(prefix).push(
                if col@[i as int] is Some {
                    1i16
                } else {
                    0i16
                },
            ));
            if col@[i as int] is Some {
                assert(as_signed(somes(next)) =~= as_signed(somes(prefix)).push(
                    col@[i as int]->0 as i64,
                ));
            } else {
                assert(somes(next) == somes(prefix));
            }
        }
        i = i + 1;
    }
    proof {
        assert(col@.subrange(0, col@.len() as int) =~= col@);
    }
    Ok(ColumnChunk::OptionalInt64 { defs, values })
}

/// Lowers one nullable byte-array column: one definition level per row,
/// one value per present row.
fn encode_optional_bytes(col: &Vec<Option<Vec<u8>>>) -> (c: ColumnChunk)
    ensures
        chunk_is_opt_bytes(c, col@),
{
    let mut defs: Vec<i16> = Vec::new();
    let mut values: Vec<Vec<u8>> = Vec::new();
    let mut i: usize = 0;
    proof {
        assert(opt_defs(col@.subrange(0, 0)) =~= Seq::<i16>::empty());
        assert(bytes_views(somes(col@.subrange(0, 0))) =~= Seq::<Seq<u8>>::empty());
        assert(bytes_views(values@) =~= Seq::<Seq<u8>>::empty());
    }
    while i < col.len()
        invariant
            i <= col@.len(),
            defs@ == opt_defs(col@.subrange(0, i as int)),
            bytes_views(values@) == bytes_views(somes(col@.subrange(0, i as int))),
        decreases col@.len() - i,
    {
        let ghost old_values = values@;
        match &col[i] {
            Some(v) => {
                defs.push(1);
                values.push(clone_bytes(v));
            },
            None => {
                defs.push(0);
            },
        }
        proof {
            let prefix = col@.subrange(0, i as int);
            let next = col@.subrange(0, i + 1);
            assert(next.drop_last() =~= prefix);
            assert(next.last() == col@[i as int]);
            assert(opt_defs(next) =~= opt_defs(prefix).push(
                if col@[i as int] is Some {
                    1i16
                } else {
                    0i16
                },
            ));
            if col@[i as int] is Some {
                assert(bytes_views(values@) =~= bytes_views(old_values).push(
                    col@[i as int]->0@,
                ));
                assert(bytes_views(somes(next)) =~= bytes_views(somes(prefix)).push(
                    col@[i as int]->0@,
                ));
            } else {
                assert(somes(next) == somes(prefix));
            }
        }
        i = i + 1;
    }
    proof {
        assert(col@.subrange(0, col@.len() as int) =~= col@);
    }
    ColumnChunk::OptionalBytes { defs, values }
}

/// Lowers one required byte-array column: every row materializes a value.
fn encode_required_bytes(col: &Vec<Vec<u8>>) -> (c: ColumnChunk)
    ensures
        chunk_is_req_bytes(c, col@),
{
    let mut values: Vec<Vec<u8>> = Vec::new();
    let mut i: usize = 0;
    proof {
        assert(bytes_views(col@.subrange(0, 0)) =~= Seq::<Seq<u8>>::empty());
        assert(bytes_views(values@) =~= Seq::<Seq<u8>>::empty());
    }
    while i < col.len()
        invariant
            i <= col@.len(),
            bytes_views(values@) == bytes_views(col@.subrange(0, i as int)),
        decreases col@.len() - i,
    {
        let ghost old_values = values@;
        values.push(clone_bytes(&col[i]));
        proof {
            let prefix = col@.subrange(0, i as int);
            let next = col@.subrange(0, i + 1);
            assert(next.drop_last() =~= prefix);
            assert(bytes_views(values@) =~= bytes_views(old_values).push(col@[i as int]@));
            assert(bytes_views(next) =~= bytes_views(prefix).push(col@[i as int]@));
        }
        i = i + 1;
    }
    proof {
        assert(col@.subrange(0, col@.len() as int) =~= col@);
    }
    ColumnChunk::RequiredBytes { values }
}

/// Lowers the repeated `topics` column: per row, one level pair per slot —
/// or a single absent entry for an empty list — and the slot values.
fn encode_topics(col: &Vec<Vec<Vec<u8>>>) -> (c: ColumnChunk)
    ensures
        chunk_is_topics(c, col@),
{
    let mut defs: Vec<i16> = Vec::new();
    let mut reps: Vec<i16> = Vec::new();
    let mut values: Vec<Vec<u8>> = Vec::new();
    let mut i: usize = 0;
    proof {
        assert(topics_defs(col@.subrange(0, 0)) =~= Seq::<i16>::empty());
        assert(topics_reps(col@.subrange(0, 0)) =~= Seq::<i16>::empty());
        assert(topics_values(col@.subrange(0, 0)) =~= Seq::<Seq<u8>>::empty());
        assert(bytes_views(values@) =~= Seq::<Seq<u8>>::empty());
    }
    while i < col.len()
        invariant
            i <= col@.len(),
            defs@ == topics_defs(col@.subrange(0, i as int)),
            reps@ == topics_reps(col@.subrange(0, i as int)),
            bytes_views(values@) == topics_values(col@.subrange(0, i as int)),
        decreases col@.len() - i,
    {
        let ghost old_defs = defs@;
        let ghost old_reps = reps@;
        let ghost old_views = bytes_views(values@);
        let row = &col[i];
        if row.len() == 0 {
            defs.push(0);
            reps.push(0);
        } else {
            let mut j: usize = 0;
            while j < row.len()
                invariant
                    j <= row@.len(),
                    row@ == col@[i as int]@,
                    defs@ == old_defs + Seq::new(j as nat, |k: int| 1i16),
                    reps@ == old_reps + Seq::new(
                        j as nat,
                        |k: int|
                            if k == 0 {
                                0i16
                            } else {
                                1i16
                            },
                    ),
                    bytes_views(values@) == old_views + bytes_views(row@.subrange(0, j as int)),
                decreases row@.len() - j,
            {
                let ghost views_before = bytes_views(values@);
                defs.push(1);
                reps.push(if j == 0 { 0 } else { 1 });
                values.push(clone_bytes(&row[j]));
                proof {
                    assert(defs@ =~= old_defs + Seq::new((j + 1) as nat, |k: int| 1i16));
                    assert(reps@ =~= old_reps + Seq::new(
                        (j + 1) as nat,
                        |k: int|
                            if k == 0 {
                                0i16
                            } else {
                                1i16
                            },
                    ));
                    assert(bytes_views(values@) =~= views_before.push(row@[j as int]@));
                    assert(bytes_views(row@.subrange(0, j + 1)) =~= bytes_views(
                        row@.subrange(0, j as int),
                    ).push(row@[j as int]@));
                }
                j = j + 1;
            }
            proof {
                assert(row@.subrange(0, row@.len() as int) =~= row@);
            }
        }
        proof {
            let prefix = col@.subrange(0, i as int);
            let next = col@.subrange(0, i + 1);
            assert(next.drop_last() =~= prefix);
            assert(next.last() == col@[i as int]);
            let rv = bytes_views(col@[i as int]@);
            if col@[i as int]@.len() == 0 {
                assert(topics_row_defs(rv) =~= seq![0i16]);
                assert(topics_row_reps(rv) =~= seq![0i16]);
                assert(defs@ =~= old_defs + topics_row_defs(rv));
                assert(reps@ =~= old_reps + topics_row_reps(rv));
                assert(bytes_views(values@) =~= old_views + rv);
            } else {
                assert(topics_row_defs(rv) =~= Seq::new(col@[i as int]@.len(), |k: int| 1i16));
                assert(topics_row_reps(rv) =~= Seq::new(
                    col@[i as int]@.len(),
                    |k: int|
                        if k == 0 {
                            0i16
                        } else {
                            1i16
                        },
                ));
            }
            assert(defs@ =~= topics_defs(next));
            assert(reps@ =~= topics_reps(next));
            assert(bytes_views(values@) =~= topics_values(next));
        }
        i = i + 1;
    }
    proof {
        assert(col@.subrange(0, col@.len() as int) =~= col@);
    }
    ColumnChunk::RepeatedBytes { defs, reps, values }
}

/// One row group under construction: the encoded column chunks laid down
/// so far, in declaration order of their entity kind.
#[derive(Debug, Clone, PartialEq, Eq)]
pub struct RowGroup {
    pub columns: Vec<ColumnChunk>,
}

impl RowGroup {
    pub fn new() -> (r: Self)
        ensures
            r.columns@ == Seq::<ColumnChunk>::empty(),
    {
        RowGroup { columns: Vec::new() }
    }
}

// ---------------------------------------------------------------------------
// Writing buffers into row groups
// ---------------------------------------------------------------------------

/// A buffer that can lay its columns down in a row group.
pub trait WriteToRowGroup: Sized {
    /// When the buffer can be laid down.
    spec fn write_req(&self) -> bool;

    /// What the row group holds afterwards, and when writing succeeds.
    spec fn write_ens(&self, before: RowGroup, after: RowGroup, r: Result<(), Error>) -> bool;

    /// Serializes the buffered columns into the row group, appending one
    /// encoded chunk per attribute in declaration order. On failure the
    /// row group is left untouched.
    fn write_to_row_group(&self, writer: &mut RowGroup) -> (r: Result<(), Error>)
        requires
            self.write_req(),
        ensures
            self.write_ens(*old(writer), *final(writer), r),
    ;
}

impl WriteToRowGroup for Blocks {
    open spec fn write_req(&self) -> bool {
        self.inv()
    }

    /// Writing succeeds exactly when every present block number fits the
    /// signed storage type; it then appends the 8 block chunks in
    /// declaration order, each encoding its column.
    open spec fn write_ens(&self, before: RowGroup, after: RowGroup, r: Result<(), Error>) -> bool {
        &&& r is Ok <==> fits_i64(self.number@)
        &&& r is Err ==> after == before && r == Err::<(), Error>(Error::ValueOutOfRange)
        &&& r is Ok ==> ({
            let n = before.columns@.len() as int;
            &&& after.columns@.len() == n + 8
            &&& after.columns@.subrange(0, n) == before.columns@
            &&& chunk_is_opt_i64(after.columns@[n], self.number@)
            &&& chunk_is_opt_bytes(after.columns@[n + 1], self.hash@)
            &&& chunk_is_req_bytes(after.columns@[n + 2], self.parent_hash@)
            &&& chunk_is_req_bytes(after.columns@[n + 3], self.uncles_hash@)
            &&& chunk_is_req_bytes(after.columns@[n + 4], self.author@)
            &&& chunk_is_req_bytes(after.columns@[n + 5], self.timestamp@)
            &&& chunk_is_opt_bytes(after.columns@[n + 6], self.size@)
            &&& chunk_is_opt_bytes(after.columns@[n + 7], self.nonce@)
        })
    }

    fn write_to_row_group(&self, writer: &mut RowGroup) -> (r: Result<(), Error>) {
        let number = match encode_optional_u64(&self.number) {
            Ok(c) => c,
            Err(e) => {
                return Err(e);
            },
        };
        writer.columns.push(number);
        writer.columns.push(encode_optional_bytes(&self.hash));
        writer.columns.push(encode_required_bytes(&self.parent_hash));
        writer.columns.push(encode_required_bytes(&self.uncles_hash));
        writer.columns.push(encode_required_bytes(&self.author));
        writer.columns.push(encode_required_bytes(&self.timestamp));
        writer.columns.push(encode_optional_bytes(&self.size));
        writer.columns.push(encode_optional_bytes(&self.nonce));
        proof {
            assert(writer.columns@.subrange(0, old(writer).columns@.len() as int) =~= old(
                writer,
            ).columns@);
        }
        Ok(())
    }
}

impl WriteToRowGroup for Transactions {
    open spec fn write_req(&self) -> bool {
        self.inv()
    }

    /// Writing succeeds exactly when every present block number,
    /// transaction index and transaction type fits the signed storage type;
    /// it then appends the 10 transaction chunks in declaration order.
    open spec fn write_ens(&self, before: RowGroup, after: RowGroup, r: Result<(), Error>) -> bool {
        &&& r is Ok <==> fits_i64(self.block_number@) && fits_i64(self.transaction_index@)
            && fits_i64(self.transaction_type@)
        &&& r is Err ==> after == before && r == Err::<(), Error>(Error::ValueOutOfRange)
        &&& r is Ok ==> ({
            let n = before.columns@.len() as int;
            &&& after.columns@.len() == n + 10
            &&& after.columns@.subrange(0, n) == before.columns@
            &&& chunk_is_opt_i64(after.columns@[n], self.block_number@)
            &&& chunk_is_opt_i64(after.columns@[n + 1], self.transaction_index@)
            &&& chunk_is_req_bytes(after.columns@[n + 2], self.hash@)
            &&& chunk_is_req_bytes(after.columns@[n + 3], self.nonce@)
            &&& chunk_is_opt_bytes(after.columns@[n + 4], self.block_hash@)
            &&& chunk_is_opt_bytes(after.columns@[n + 5], self.from@)
            &&& chunk_is_opt_bytes(after.columns@[n + 6], self.to@)
            &&& chunk_is_req_bytes(after.columns@[n + 7], self.value@)
            &&& chunk_is_req_bytes(after.columns@[n + 8], self.input@)
            &&& chunk_is_opt_i64(after.columns@[n + 9], self.transaction_type@)
        })
    }

    fn write_to_row_group(&self, writer: &mut RowGroup) -> (r: Result<(), Error>) {
        let block_number = match encode_optional_u64(&self.block_number) {
            Ok(c) => c,
            Err(e) => {
                return Err(e);
            },
        };
        let transaction_index = match encode_optional_u64(&self.transaction_index) {
            Ok(c) => c,
            Err(e) => {
                return Err(e);
            },
        };
        let transaction_type = match encode_optional_u64(&self.transaction_type) {
            Ok(c) => c,
            Err(e) => {
                return Err(e);
            },
        };
        writer.columns.push(block_number);
        writer.columns.push(transaction_index);
        writer.columns.push(encode_required_bytes(&self.hash));
        writer.columns.push(encode_required_bytes(&self.nonce));
        writer.columns.push(encode_optional_bytes(&self.block_hash));
        writer.columns.push(encode_optional_bytes(&self.from));
        writer.columns.push(encode_optional_bytes(&self.to));
        writer.columns.push(encode_required_bytes(&self.value));
        writer.columns.push(encode_required_bytes(&self.input));
        writer.columns.push(transaction_type);
        proof {
            assert(writer.columns@.subrange(0, old(writer).columns@.len() as int) =~= old(
                writer,
            ).columns@);
        }
        Ok(())
    }
}

impl WriteToRowGroup for Logs {
    open spec fn write_req(&self) -> bool {
        self.inv()
    }

    /// Writing succeeds exactly when every present block number and
    /// transaction index fits the signed storage type; it then appends the
    /// 9 log chunks in declaration order, the repeated `topics` column with
    /// both its definition and repetition levels.
    open spec fn write_ens(&self, before: RowGroup, after: RowGroup, r: Result<(), Error>) -> bool {
        &&& r is Ok <==> fits_i64(self.block_number@) && fits_i64(self.transaction_index@)
        &&& r is Err ==> after == before && r == Err::<(), Error>(Error::ValueOutOfRange)
        &&& r is Ok ==> ({
            let n = before.columns@.len() as int;
            &&& after.columns@.len() == n + 9
            &&& after.columns@.subrange(0, n) == before.columns@
            &&& chunk_is_opt_i64(after.columns@[n], self.block_number@)
            &&& chunk_is_req_bytes(after.columns@[n + 1], self.address@)
            &&& chunk_is_topics(after.columns@[n + 2], self.topics@)
            &&& chunk_is_req_bytes(after.columns@[n + 3], self.data@)
            &&& chunk_is_opt_bytes(after.columns@[n + 4], self.block_hash@)
            &&& chunk_is_opt_i64(after.columns@[n + 5], self.transaction_index@)
            &&& chunk_is_opt_bytes(after.columns@[n + 6], self.transaction_hash@)
            &&& chunk_is_opt_bytes(after.columns@[n + 7], self.log_index@)
            &&& chunk_is_opt_bytes(after.columns@[n + 8], self.transaction_log_index@)
        })
    }

    fn write_to_row_group(&self, writer: &mut RowGroup) -> (r: Result<(), Error>) {
        let block_number = match encode_optional_u64(&self.block_number) {
            Ok(c) => c,
            Err(e) => {
                return Err(e);
            },
        };
        let transaction_index = match encode_optional_u64(&self.transaction_index) {
            Ok(c) => c,
            Err(e) => {
                return Err(e);
            },
        };
        writer.columns.push(block_number);
        writer.columns.push(encode_required_bytes(&self.address));
        writer.columns.push(encode_topics(&self.topics));
        writer.columns.push(encode_required_bytes(&self.data));
        writer.columns.push(encode_optional_bytes(&self.block_hash));
        writer.columns.push(transaction_index);
        writer.columns.push(encode_optional_bytes(&self.transaction_hash));
        writer.columns.push(encode_optional_bytes(&self.log_index));
        writer.columns.push(encode_optional_bytes(&self.transaction_log_index));
        proof {
            assert(writer.columns@.subrange(0, old(writer).columns@.len() as int) =~= old(
                writer,
            ).columns@);
        }
        Ok(())
    }
}

} // verus!
