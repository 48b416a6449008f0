//! Field selection: a sparse, mergeable description of the output fields a
//! query wants per entity kind, and its compiler into a concrete projection,
//! either as polars column expressions or as an SQL projection list.
//!
//! Each attribute carries one boolean-optional flag. Absence means "no
//! opinion", `Some(true)` means "include". Merging two selections merges
//! field by field; the flag merge is commutative and associative, so partial
//! selections from several call sites compose losslessly in any order.
//! Compilation is deterministic: output columns come in the fixed declaration
//! order of the structs, and a flag that is unset or `Some(false)`
//! contributes nothing.

use polars::prelude::Expr;
use vstd::prelude::*;
use vstd::string::StringExecFns;

verus! {

#[verifier::external_type_specification]
#[verifier::external_body]
pub struct ExExpr(Expr);

// ---------------------------------------------------------------------------
// Flag merge
// ---------------------------------------------------------------------------

/// Merge of two optional flags: absence yields to the other side, and two
/// present flags are or-ed together.
pub open spec fn merged_flag(left: Option<bool>, right: Option<bool>) -> Option<bool> {
    match (left, right) {
        (None, None) => None,
        (Some(l), None) => Some(l),
        (None, Some(r)) => Some(r),
        (Some(l), Some(r)) => Some(l || r),
    }
}

pub fn merge_opt(left: Option<bool>, right: Option<bool>) -> (r: Option<bool>)
    ensures
        r == merged_flag(left, right),
{
    match left {
        None => right,
        Some(l) => match right {
            None => Some(l),
            Some(r) => Some(l || r),
        },
    }
}

/// Flag merge is commutative.
pub proof fn lemma_merged_flag_commutative(a: Option<bool>, b: Option<bool>)
    ensures
        merged_flag(a, b) == merged_flag(b, a),
{
}

/// Flag merge is associative.
pub proof fn lemma_merged_flag_associative(a: Option<bool>, b: Option<bool>, c: Option<bool>)
    ensures
        merged_flag(merged_flag(a, b), c) == merged_flag(a, merged_flag(b, c)),
{
}

/// Flag merge is idempotent.
pub proof fn lemma_merged_flag_idempotent(a: Option<bool>)
    ensures
        merged_flag(a, a) == a,
{
}

// ---------------------------------------------------------------------------
// Projection model
// ---------------------------------------------------------------------------

/// The character views of the produced columns, in production order.
pub open spec fn col_views(v: Seq<String>) -> Seq<Seq<char>> {
    Seq::new(v.len(), |i: int| v[i]@)
}

proof fn lemma_col_views_push(v: Seq<String>, s: String)
    ensures
        col_views(v.push(s)) =~= col_views(v).push(s@),
{
}

/// One `table.field as table_field` SQL projection fragment.
pub open spec fn sql_col(table: Seq<char>, field: Seq<char>) -> Seq<char> {
    table + "."@ + field + " as "@ + table + "_"@ + field
}

/// The projection after one flag: the given column is appended when the flag
/// is `Some(true)`, and nothing is appended otherwise.
pub open spec fn with_col(cols: Seq<Seq<char>>, flag: Option<bool>, col: Seq<char>) -> Seq<
    Seq<char>,
> {
    if flag == Some(true) {
        cols.push(col)
    } else {
        cols
    }
}

/// Builds `table.field as table_field`.
fn make_sql_col(table: &str, field: &str) -> (r: String)
    ensures
        r@ == sql_col(table@, field@),
{
    let mut r = String::from_str(table);
    r.append(".");
    r.append(field);
    r.append(" as ");
    r.append(table);
    r.append("_");
    r.append(field);
    proof {
        assert(r@ =~= sql_col(table@, field@));
    }
    r
}

/// Appends the SQL fragment for one flagged attribute, or nothing when the
/// flag is unset or `Some(false)`.
fn push_flag_col(cols: &mut Vec<String>, flag: Option<bool>, table: &str, field: &str)
    ensures
        col_views(final(cols)@) == with_col(col_views(old(cols)@), flag, sql_col(table@, field@)),
{
    let ghost old_cols = cols@;
    if let Some(true) = flag {
        let c = make_sql_col(table, field);
        cols.push(c);
        proof {
            lemma_col_views_push(old_cols, cols@.last());
        }
    }
}

/// The polars column expression that selects column `name` and renames its
/// output to `alias`. The expression a given pair of strings produces is
/// fixed, so it can be given a name and spoken of in contracts.
pub uninterp spec fn named_col_expr(name: Seq<char>, alias: Seq<char>) -> Expr;

/// Relies on polars' `col` and `Expr::alias`: building a column expression
/// and renaming its output is a pure function of the two strings.
#[verifier::external_body]
fn aliased_col(name: &str, alias: &str) -> (e: Expr)
    ensures
        e == named_col_expr(name@, alias@),
{
    polars::prelude::col(name).alias(alias)
}

/// The output name of an attribute: the entity-kind prefix, an underscore,
/// then the attribute name.
pub open spec fn prefixed(table: Seq<char>, field: Seq<char>) -> Seq<char> {
    table + "_"@ + field
}

/// The expression list after one flag: the given expression is appended when
/// the flag is `Some(true)`, and nothing is appended otherwise.
pub open spec fn with_expr(exprs: Seq<Expr>, flag: Option<bool>, e: Expr) -> Seq<Expr> {
    if flag == Some(true) {
        exprs.push(e)
    } else {
        exprs
    }
}

/// Appends the column expression for one flagged attribute, renamed with the
/// entity-kind prefix, or nothing when the flag is unset or `Some(false)`.
fn push_flag_expr(exprs: &mut Vec<Expr>, flag: Option<bool>, table: &str, field: &str)
    ensures
        final(exprs)@ == with_expr(
            old(exprs)@,
            flag,
            named_col_expr(field@, prefixed(table@, field@)),
        ),
{
    if let Some(true) = flag {
        let mut alias = String::from_str(table);
        alias.append("_");
        alias.append(field);
        let e = aliased_col(field, alias.as_str());
        exprs.push(e);
    }
}

// ---------------------------------------------------------------------------
// Block
// ---------------------------------------------------------------------------

/// Which block attributes a query wants returned.
#[derive(Debug, Clone, Copy, PartialEq, Eq)]
pub struct BlockFieldSelection {
    pub number: Option<bool>,
    pub hash: Option<bool>,
    pub parent_hash: Option<bool>,
    pub nonce: Option<bool>,
    pub sha3_uncles: Option<bool>,
    pub logs_bloom: Option<bool>,
    pub transactions_root: Option<bool>,
    pub state_root: Option<bool>,
    pub receipts_root: Option<bool>,
    pub miner: Option<bool>,
    pub difficulty: Option<bool>,
    pub total_difficulty: Option<bool>,
    pub extra_data: Option<bool>,
    pub size: Option<bool>,
    pub gas_limit: Option<bool>,
    pub gas_used: Option<bool>,
    pub timestamp: Option<bool>,
}

/// The SQL projection columns of one block selection appended onto `cols`,
/// in the fixed declaration order of the struct.
pub open spec fn block_sql_cols_onto(cols: Seq<Seq<char>>, s: BlockFieldSelection) -> Seq<
    Seq<char>,
> {
    let c = with_col(cols, s.number, sql_col("eth_block"@, "number"@));
    let c = with_col(c, s.hash, sql_col("eth_block"@, "hash"@));
    let c = with_col(c, s.parent_hash, sql_col("eth_block"@, "parent_hash"@));
    let c = with_col(c, s.nonce, sql_col("eth_block"@, "nonce"@));
    let c = with_col(c, s.sha3_uncles, sql_col("eth_block"@, "sha3_uncles"@));
    let c = with_col(c, s.logs_bloom, sql_col("eth_block"@, "logs_bloom"@));
    let c = with_col(c, s.transactions_root, sql_col("eth_block"@, "transactions_root"@));
    let c = with_col(c, s.state_root, sql_col("eth_block"@, "state_root"@));
    let c = with_col(c, s.receipts_root, sql_col("eth_block"@, "receipts_root"@));
    let c = with_col(c, s.miner, sql_col("eth_block"@, "miner"@));
    let c = with_col(c, s.difficulty, sql_col("eth_block"@, "difficulty"@));
    let c = with_col(c, s.total_difficulty, sql_col("eth_block"@, "total_difficulty"@));
    let c = with_col(c, s.extra_data, sql_col("eth_block"@, "extra_data"@));
    let c = with_col(c, s.size, sql_col("eth_block"@, "size"@));
    let c = with_col(c, s.gas_limit, sql_col("eth_block"@, "gas_limit"@));
    let c = with_col(c, s.gas_used, sql_col("eth_block"@, "gas_used"@));
    with_col(c, s.timestamp, sql_col("eth_block"@, "timestamp"@))
}

/// The column expressions of one block selection, in the fixed declaration
/// order of the struct, each renamed with the `block` prefix.
pub open spec fn block_exprs(s: BlockFieldSelection) -> Seq<Expr> {
    let e = with_expr(Seq::empty(), s.number, named_col_expr("number"@, prefixed("block"@, "number"@)));
    let e = with_expr(e, s.hash, named_col_expr("hash"@, prefixed("block"@, "hash"@)));
    let e = with_expr(
        e,
        s.parent_hash,
        named_col_expr("parent_hash"@, prefixed("block"@, "parent_hash"@)),
    );
    let e = with_expr(e, s.nonce, named_col_expr("nonce"@, prefixed("block"@, "nonce"@)));
    let e = with_expr(
        e,
        s.sha3_uncles,
        named_col_expr("sha3_uncles"@, prefixed("block"@, "sha3_uncles"@)),
    );
    let e = with_expr(
        e,
        s.logs_bloom,
        named_col_expr("logs_bloom"@, prefixed("block"@, "logs_bloom"@)),
    );
    let e = with_expr(
        e,
        s.transactions_root,
        named_col_expr("transactions_root"@, prefixed("block"@, "transactions_root"@)),
    );
    let e = with_expr(
        e,
        s.state_root,
        named_col_expr("state_root"@, prefixed("block"@, "state_root"@)),
    );
    let e = with_expr(
        e,
        s.receipts_root,
        named_col_expr("receipts_root"@, prefixed("block"@, "receipts_root"@)),
    );
    let e = with_expr(e, s.miner, named_col_expr("miner"@, prefixed("block"@, "miner"@)));
    let e = with_expr(
        e,
        s.difficulty,
        named_col_expr("difficulty"@, prefixed("block"@, "difficulty"@)),
    );
    let e = with_expr(
        e,
        s.total_difficulty,
        named_col_expr("total_difficulty"@, prefixed("block"@, "total_difficulty"@)),
    );
    let e = with_expr(
        e,
        s.extra_data,
        named_col_expr("extra_data"@, prefixed("block"@, "extra_data"@)),
    );
    let e = with_expr(e, s.size, named_col_expr("size"@, prefixed("block"@, "size"@)));
    let e = with_expr(e, s.gas_limit, named_col_expr("gas_limit"@, prefixed("block"@, "gas_limit"@)));
    let e = with_expr(e, s.gas_used, named_col_expr("gas_used"@, prefixed("block"@, "gas_used"@)));
    with_expr(e, s.timestamp, named_col_expr("timestamp"@, prefixed("block"@, "timestamp"@)))
}

impl BlockFieldSelection {
    /// Field-by-field merge of two block selections.
    pub open spec fn spec_merge(left: Self, right: Self) -> Self {
        BlockFieldSelection {
            number: merged_flag(left.number, right.number),
            hash: merged_flag(left.hash, right.hash),
            parent_hash: merged_flag(left.parent_hash, right.parent_hash),
            nonce: merged_flag(left.nonce, right.nonce),
            sha3_uncles: merged_flag(left.sha3_uncles, right.sha3_uncles),
            logs_bloom: merged_flag(left.logs_bloom, right.logs_bloom),
            transactions_root: merged_flag(left.transactions_root, right.transactions_root),
            state_root: merged_flag(left.state_root, right.state_root),
            receipts_root: merged_flag(left.receipts_root, right.receipts_root),
            miner: merged_flag(left.miner, right.miner),
            difficulty: merged_flag(left.difficulty, right.difficulty),
            total_difficulty: merged_flag(left.total_difficulty, right.total_difficulty),
            extra_data: merged_flag(left.extra_data, right.extra_data),
            size: merged_flag(left.size, right.size),
            gas_limit: merged_flag(left.gas_limit, right.gas_limit),
            gas_used: merged_flag(left.gas_used, right.gas_used),
            timestamp: merged_flag(left.timestamp, right.timestamp),
        }
    }

    /// A selection with no opinion about any attribute.
    pub open spec fn spec_unset() -> Self {
        BlockFieldSelection {
            number: None,
            hash: None,
            parent_hash: None,
            nonce: None,
            sha3_uncles: None,
            logs_bloom: None,
            transactions_root: None,
            state_root: None,
            receipts_root: None,
            miner: None,
            difficulty: None,
            total_difficulty: None,
            extra_data: None,
            size: None,
            gas_limit: None,
            gas_used: None,
            timestamp: None,
        }
    }

    /// Appends this selection's SQL projection columns, in declaration order.
    pub fn to_cols_sql(self, cols: &mut Vec<String>)
        ensures
            col_views(final(cols)@) == block_sql_cols_onto(col_views(old(cols)@), self),
    {
        push_flag_col(cols, self.number, "eth_block", "number");
        push_flag_col(cols, self.hash, "eth_block", "hash");
        push_flag_col(cols, self.parent_hash, "eth_block", "parent_hash");
        push_flag_col(cols, self.nonce, "eth_block", "nonce");
        push_flag_col(cols, self.sha3_uncles, "eth_block", "sha3_uncles");
        push_flag_col(cols, self.logs_bloom, "eth_block", "logs_bloom");
        push_flag_col(cols, self.transactions_root, "eth_block", "transactions_root");
        push_flag_col(cols, self.state_root, "eth_block", "state_root");
        push_flag_col(cols, self.receipts_root, "eth_block", "receipts_root");
        push_flag_col(cols, self.miner, "eth_block", "miner");
        push_flag_col(cols, self.difficulty, "eth_block", "difficulty");
        push_flag_col(cols, self.total_difficulty, "eth_block", "total_difficulty");
        push_flag_col(cols, self.extra_data, "eth_block", "extra_data");
        push_flag_col(cols, self.size, "eth_block", "size");
        push_flag_col(cols, self.gas_limit, "eth_block", "gas_limit");
        push_flag_col(cols, self.gas_used, "eth_block", "gas_used");
        push_flag_col(cols, self.timestamp, "eth_block", "timestamp");
    }

    /// Compiles the selection into polars column expressions: one renamed
    /// expression per flagged attribute, in declaration order.
    pub fn to_cols(self) -> (r: Vec<Expr>)
        ensures
            r@ == block_exprs(self),
    {
        let mut cols: Vec<Expr> = Vec::new();
        push_flag_expr(&mut cols, self.number, "block", "number");
        push_flag_expr(&mut cols, self.hash, "block", "hash");
        push_flag_expr(&mut cols, self.parent_hash, "block", "parent_hash");
        push_flag_expr(&mut cols, self.nonce, "block", "nonce");
        push_flag_expr(&mut cols, self.sha3_uncles, "block", "sha3_uncles");
        push_flag_expr(&mut cols, self.logs_bloom, "block", "logs_bloom");
        push_flag_expr(&mut cols, self.transactions_root, "block", "transactions_root");
        push_flag_expr(&mut cols, self.state_root, "block", "state_root");
        push_flag_expr(&mut cols, self.receipts_root, "block", "receipts_root");
        push_flag_expr(&mut cols, self.miner, "block", "miner");
        push_flag_expr(&mut cols, self.difficulty, "block", "difficulty");
        push_flag_expr(&mut cols, self.total_difficulty, "block", "total_difficulty");
        push_flag_expr(&mut cols, self.extra_data, "block", "extra_data");
        push_flag_expr(&mut cols, self.size, "block", "size");
        push_flag_expr(&mut cols, self.gas_limit, "block", "gas_limit");
        push_flag_expr(&mut cols, self.gas_used, "block", "gas_used");
        push_flag_expr(&mut cols, self.timestamp, "block", "timestamp");
        cols
    }

    /// Merges two block selections field by field.
    pub fn merge(left: Self, right: Self) -> (r: Self)
        ensures
            r == Self::spec_merge(left, right),
    {
        Self {
            number: merge_opt(left.number, right.number),
            hash: merge_opt(left.hash, right.hash),
            parent_hash: merge_opt(left.parent_hash, right.parent_hash),
            nonce: merge_opt(left.nonce, right.nonce),
            sha3_uncles: merge_opt(left.sha3_uncles, right.sha3_uncles),
            logs_bloom: merge_opt(left.logs_bloom, right.logs_bloom),
            transactions_root: merge_opt(left.transactions_root, right.transactions_root),
            state_root: merge_opt(left.state_root, right.state_root),
            receipts_root: merge_opt(left.receipts_root, right.receipts_root),
            miner: merge_opt(left.miner, right.miner),
            difficulty: merge_opt(left.difficulty, right.difficulty),
            total_difficulty: merge_opt(left.total_difficulty, right.total_difficulty),
            extra_data: merge_opt(left.extra_data, right.extra_data),
            size: merge_opt(left.size, right.size),
            gas_limit: merge_opt(left.gas_limit, right.gas_limit),
            gas_used: merge_opt(left.gas_used, right.gas_used),
            timestamp: merge_opt(left.timestamp, right.timestamp),
        }
    }
}

impl Default for BlockFieldSelection {
    /// A selection with every flag unset.
    fn default() -> (r: Self)
        ensures
            r == Self::spec_unset(),
    {
        Self {
            number: None,
            hash: None,
            parent_hash: None,
            nonce: None,
            sha3_uncles: None,
            logs_bloom: None,
            transactions_root: None,
            state_root: None,
            receipts_root: None,
            miner: None,
            difficulty: None,
            total_difficulty: None,
            extra_data: None,
            size: None,
            gas_limit: None,
            gas_used: None,
            timestamp: None,
        }
    }
}

// ---------------------------------------------------------------------------
// Transaction
// ---------------------------------------------------------------------------

/// Which transaction attributes a query wants returned.
#[derive(Debug, Clone, Copy, PartialEq, Eq)]
pub struct TransactionFieldSelection {
    pub block_hash: Option<bool>,
    pub block_number: Option<bool>,
    pub source: Option<bool>,
    pub gas: Option<bool>,
    pub gas_price: Option<bool>,
    pub hash: Option<bool>,
    pub input: Option<bool>,
    pub nonce: Option<bool>,
    pub dest: Option<bool>,
    pub transaction_index: Option<bool>,
    pub value: Option<bool>,
    pub kind: Option<bool>,
    pub chain_id: Option<bool>,
    pub v: Option<bool>,
    pub r: Option<bool>,
    pub s: Option<bool>,
}

/// The SQL projection columns of one transaction selection appended onto
/// `cols`, in the fixed declaration order of the struct.
pub open spec fn tx_sql_cols_onto(cols: Seq<Seq<char>>, s: TransactionFieldSelection) -> Seq<
    Seq<char>,
> {
    let c = with_col(cols, s.block_hash, sql_col("eth_tx"@, "block_hash"@));
    let c = with_col(c, s.block_number, sql_col("eth_tx"@, "block_number"@));
    let c = with_col(c, s.source, sql_col("eth_tx"@, "source"@));
    let c = with_col(c, s.gas, sql_col("eth_tx"@, "gas"@));
    let c = with_col(c, s.gas_price, sql_col("eth_tx"@, "gas_price"@));
    let c = with_col(c, s.hash, sql_col("eth_tx"@, "hash"@));
    let c = with_col(c, s.input, sql_col("eth_tx"@, "input"@));
    let c = with_col(c, s.nonce, sql_col("eth_tx"@, "nonce"@));
    let c = with_col(c, s.dest, sql_col("eth_tx"@, "dest"@));
    let c = with_col(c, s.transaction_index, sql_col("eth_tx"@, "transaction_index"@));
    let c = with_col(c, s.value, sql_col("eth_tx"@, "value"@));
    let c = with_col(c, s.kind, sql_col("eth_tx"@, "kind"@));
    let c = with_col(c, s.chain_id, sql_col("eth_tx"@, "chain_id"@));
    let c = with_col(c, s.v, sql_col("eth_tx"@, "v"@));
    let c = with_col(c, s.r, sql_col("eth_tx"@, "r"@));
    with_col(c, s.s, sql_col("eth_tx"@, "s"@))
}

/// The column expressions of one transaction selection, in the fixed
/// declaration order of the struct, each renamed with the `tx` prefix.
pub open spec fn tx_exprs(s: TransactionFieldSelection) -> Seq<Expr> {
    let e = with_expr(
        Seq::empty(),
        s.block_hash,
        named_col_expr("block_hash"@, prefixed("tx"@, "block_hash"@)),
    );
    let e = with_expr(
        e,
        s.block_number,
        named_col_expr("block_number"@, prefixed("tx"@, "block_number"@)),
    );
    let e = with_expr(e, s.source, named_col_expr("source"@, prefixed("tx"@, "source"@)));
    let e = with_expr(e, s.gas, named_col_expr("gas"@, prefixed("tx"@, "gas"@)));
    let e = with_expr(e, s.gas_price, named_col_expr("gas_price"@, prefixed("tx"@, "gas_price"@)));
    let e = with_expr(e, s.hash, named_col_expr("hash"@, prefixed("tx"@, "hash"@)));
    let e = with_expr(e, s.input, named_col_expr("input"@, prefixed("tx"@, "input"@)));
    let e = with_expr(e, s.nonce, named_col_expr("nonce"@, prefixed("tx"@, "nonce"@)));
    let e = with_expr(e, s.dest, named_col_expr("dest"@, prefixed("tx"@, "dest"@)));
    let e = with_expr(
        e,
        s.transaction_index,
        named_col_expr("transaction_index"@, prefixed("tx"@, "transaction_index"@)),
    );
    let e = with_expr(e, s.value, named_col_expr("value"@, prefixed("tx"@, "value"@)));
    let e = with_expr(e, s.kind, named_col_expr("kind"@, prefixed("tx"@, "kind"@)));
    let e = with_expr(e, s.chain_id, named_col_expr("chain_id"@, prefixed("tx"@, "chain_id"@)));
    let e = with_expr(e, s.v, named_col_expr("v"@, prefixed("tx"@, "v"@)));
    let e = with_expr(e, s.r, named_col_expr("r"@, prefixed("tx"@, "r"@)));
    with_expr(e, s.s, named_col_expr("s"@, prefixed("tx"@, "s"@)))
}

impl TransactionFieldSelection {
    /// Field-by-field merge of two transaction selections.
    pub open spec fn spec_merge(left: Self, right: Self) -> Self {
        TransactionFieldSelection {
            block_hash: merged_flag(left.block_hash, right.block_hash),
            block_number: merged_flag(left.block_number, right.block_number),
            source: merged_flag(left.source, right.source),
            gas: merged_flag(left.gas, right.gas),
            gas_price: merged_flag(left.gas_price, right.gas_price),
            hash: merged_flag(left.hash, right.hash),
            input: merged_flag(left.input, right.input),
            nonce: merged_flag(left.nonce, right.nonce),
            dest: merged_flag(left.dest, right.dest),
            transaction_index: merged_flag(left.transaction_index, right.transaction_index),
            value: merged_flag(left.value, right.value),
            kind: merged_flag(left.kind, right.kind),
            chain_id: merged_flag(left.chain_id, right.chain_id),
            v: merged_flag(left.v, right.v),
            r: merged_flag(left.r, right.r),
            s: merged_flag(left.s, right.s),
        }
    }

    /// A selection with no opinion about any attribute.
    pub open spec fn spec_unset() -> Self {
        TransactionFieldSelection {
            block_hash: None,
            block_number: None,
            source: None,
            gas: None,
            gas_price: None,
            hash: None,
            input: None,
            nonce: None,
            dest: None,
            transaction_index: None,
            value: None,
            kind: None,
            chain_id: None,
            v: None,
            r: None,
            s: None,
        }
    }

    /// Appends this selection's SQL projection columns, in declaration order.
    pub fn to_cols_sql(self, cols: &mut Vec<String>)
        ensures
            col_views(final(cols)@) == tx_sql_cols_onto(col_views(old(cols)@), self),
    {
        push_flag_col(cols, self.block_hash, "eth_tx", "block_hash");
        push_flag_col(cols, self.block_number, "eth_tx", "block_number");
        push_flag_col(cols, self.source, "eth_tx", "source");
        push_flag_col(cols, self.gas, "eth_tx", "gas");
        push_flag_col(cols, self.gas_price, "eth_tx", "gas_price");
        push_flag_col(cols, self.hash, "eth_tx", "hash");
        push_flag_col(cols, self.input, "eth_tx", "input");
        push_flag_col(cols, self.nonce, "eth_tx", "nonce");
        push_flag_col(cols, self.dest, "eth_tx", "dest");
        push_flag_col(cols, self.transaction_index, "eth_tx", "transaction_index");
        push_flag_col(cols, self.value, "eth_tx", "value");
        push_flag_col(cols, self.kind, "eth_tx", "kind");
        push_flag_col(cols, self.chain_id, "eth_tx", "chain_id");
        push_flag_col(cols, self.v, "eth_tx", "v");
        push_flag_col(cols, self.r, "eth_tx", "r");
        push_flag_col(cols, self.s, "eth_tx", "s");
    }

    /// Compiles the selection into polars column expressions: one renamed
    /// expression per flagged attribute, in declaration order.
    pub fn to_cols(self) -> (r: Vec<Expr>)
        ensures
            r@ == tx_exprs(self),
    {
        let mut cols: Vec<Expr> = Vec::new();
        push_flag_expr(&mut cols, self.block_hash, "tx", "block_hash");
        push_flag_expr(&mut cols, self.block_number, "tx", "block_number");
        push_flag_expr(&mut cols, self.source, "tx", "source");
        push_flag_expr(&mut cols, self.gas, "tx", "gas");
        push_flag_expr(&mut cols, self.gas_price, "tx", "gas_price");
        push_flag_expr(&mut cols, self.hash, "tx", "hash");
        push_flag_expr(&mut cols, self.input, "tx", "input");
        push_flag_expr(&mut cols, self.nonce, "tx", "nonce");
        push_flag_expr(&mut cols, self.dest, "tx", "dest");
        push_flag_expr(&mut cols, self.transaction_index, "tx", "transaction_index");
        push_flag_expr(&mut cols, self.value, "tx", "value");
        push_flag_expr(&mut cols, self.kind, "tx", "kind");
        push_flag_expr(&mut cols, self.chain_id, "tx", "chain_id");
        push_flag_expr(&mut cols, self.v, "tx", "v");
        push_flag_expr(&mut cols, self.r, "tx", "r");
        push_flag_expr(&mut cols, self.s, "tx", "s");
        cols
    }

    /// Merges two transaction selections field by field.
    pub fn merge(left: Self, right: Self) -> (r: Self)
        ensures
            r == Self::spec_merge(left, right),
    {
        Self {
            block_hash: merge_opt(left.block_hash, right.block_hash),
            block_number: merge_opt(left.block_number, right.block_number),
            source: merge_opt(left.source, right.source),
            gas: merge_opt(left.gas, right.gas),
            gas_price: merge_opt(left.gas_price, right.gas_price),
            hash: merge_opt(left.hash, right.hash),
            input: merge_opt(left.input, right.input),
            nonce: merge_opt(left.nonce, right.nonce),
            dest: merge_opt(left.dest, right.dest),
            transaction_index: merge_opt(left.transaction_index, right.transaction_index),
            value: merge_opt(left.value, right.value),
            kind: merge_opt(left.kind, right.kind),
            chain_id: merge_opt(left.chain_id, right.chain_id),
            v: merge_opt(left.v, right.v),
            r: merge_opt(left.r, right.r),
            s: merge_opt(left.s, right.s),
        }
    }
}

impl Default for TransactionFieldSelection {
    /// A selection with every flag unset.
    fn default() -> (r: Self)
        ensures
            r == Self::spec_unset(),
    {
        Self {
            block_hash: None,
            block_number: None,
            source: None,
            gas: None,
            gas_price: None,
            hash: None,
            input: None,
            nonce: None,
            dest: None,
            transaction_index: None,
            value: None,
            kind: None,
            chain_id: None,
            v: None,
            r: None,
            s: None,
        }
    }
}

// ---------------------------------------------------------------------------
// Log
// ---------------------------------------------------------------------------

/// Which log attributes a query wants returned.
#[derive(Debug, Clone, Copy, PartialEq, Eq)]
pub struct LogFieldSelection {
    pub address: Option<bool>,
    pub block_hash: Option<bool>,
    pub block_number: Option<bool>,
    pub data: Option<bool>,
    pub log_index: Option<bool>,
    pub removed: Option<bool>,
    pub topics: Option<bool>,
    pub transaction_hash: Option<bool>,
    pub transaction_index: Option<bool>,
}

/// The repeated `topics` attribute always expands into exactly 4 fixed,
/// positionally aliased SQL columns, regardless of how many topics any
/// actual row has.
pub open spec fn with_topics_sql(cols: Seq<Seq<char>>, flag: Option<bool>) -> Seq<Seq<char>> {
    if flag == Some(true) {
        cols.push("eth_log.topic0 as eth_log_topic0"@).push("eth_log.topic1 as eth_log_topic1"@)
            .push("eth_log.topic2 as eth_log_topic2"@).push("eth_log.topic3 as eth_log_topic3"@)
    } else {
        cols
    }
}

/// The SQL projection columns of one log selection appended onto `cols`,
/// in the fixed declaration order of the struct.
pub open spec fn log_sql_cols_onto(cols: Seq<Seq<char>>, s: LogFieldSelection) -> Seq<Seq<char>> {
    let c = with_col(cols, s.address, sql_col("eth_log"@, "address"@));
    let c = with_col(c, s.block_hash, sql_col("eth_log"@, "block_hash"@));
    let c = with_col(c, s.block_number, sql_col("eth_log"@, "block_number"@));
    let c = with_col(c, s.data, sql_col("eth_log"@, "data"@));
    let c = with_col(c, s.log_index, sql_col("eth_log"@, "log_index"@));
    let c = with_col(c, s.removed, sql_col("eth_log"@, "removed"@));
    let c = with_topics_sql(c, s.topics);
    let c = with_col(c, s.transaction_hash, sql_col("eth_log"@, "transaction_hash"@));
    with_col(c, s.transaction_index, sql_col("eth_log"@, "transaction_index"@))
}

/// The repeated `topics` attribute always expands into exactly 4 fixed,
/// positionally aliased column expressions, regardless of how many topics
/// any actual row has.
pub open spec fn with_topics_exprs(exprs: Seq<Expr>, flag: Option<bool>) -> Seq<Expr> {
    if flag == Some(true) {
        exprs.push(named_col_expr("topic0"@, "log_topic0"@)).push(
            named_col_expr("topic1"@, "log_topic1"@),
        ).push(named_col_expr("topic2"@, "log_topic2"@)).push(
            named_col_expr("topic3"@, "log_topic3"@),
        )
    } else {
        exprs
    }
}

/// The column expressions of one log selection, in the fixed declaration
/// order of the struct, each renamed with the `log` prefix.
pub open spec fn log_exprs(s: LogFieldSelection) -> Seq<Expr> {
    let e = with_expr(
        Seq::empty(),
        s.address,
        named_col_expr("address"@, prefixed("log"@, "address"@)),
    );
    let e = with_expr(
        e,
        s.block_hash,
        named_col_expr("block_hash"@, prefixed("log"@, "block_hash"@)),
    );
    let e = with_expr(
        e,
        s.block_number,
        named_col_expr("block_number"@, prefixed("log"@, "block_number"@)),
    );
    let e = with_expr(e, s.data, named_col_expr("data"@, prefixed("log"@, "data"@)));
    let e = with_expr(e, s.log_index, named_col_expr("log_index"@, prefixed("log"@, "log_index"@)));
    let e = with_expr(e, s.removed, named_col_expr("removed"@, prefixed("log"@, "removed"@)));
    let e = with_topics_exprs(e, s.topics);
    let e = with_expr(
        e,
        s.transaction_hash,
        named_col_expr("transaction_hash"@, prefixed("log"@, "transaction_hash"@)),
    );
    with_expr(
        e,
        s.transaction_index,
        named_col_expr("transaction_index"@, prefixed("log"@, "transaction_index"@)),
    )
}

impl LogFieldSelection {
    /// Field-by-field merge of two log selections.
    pub open spec fn spec_merge(left: Self, right: Self) -> Self {
        LogFieldSelection {
            address: merged_flag(left.address, right.address),
            block_hash: merged_flag(left.block_hash, right.block_hash),
            block_number: merged_flag(left.block_number, right.block_number),
            data: merged_flag(left.data, right.data),
            log_index: merged_flag(left.log_index, right.log_index),
            removed: merged_flag(left.removed, right.removed),
            topics: merged_flag(left.topics, right.topics),
            transaction_hash: merged_flag(left.transaction_hash, right.transaction_hash),
            transaction_index: merged_flag(left.transaction_index, right.transaction_index),
        }
    }

    /// A selection with no opinion about any attribute.
    pub open spec fn spec_unset() -> Self {
        LogFieldSelection {
            address: None,
            block_hash: None,
            block_number: None,
            data: None,
            log_index: None,
            removed: None,
            topics: None,
            transaction_hash: None,
            transaction_index: None,
        }
    }

    /// Appends this selection's SQL projection columns, in declaration order.
    pub fn to_cols_sql(self, cols: &mut Vec<String>)
        ensures
            col_views(final(cols)@) == log_sql_cols_onto(col_views(old(cols)@), self),
    {
        push_flag_col(cols, self.address, "eth_log", "address");
        push_flag_col(cols, self.block_hash, "eth_log", "block_hash");
        push_flag_col(cols, self.block_number, "eth_log", "block_number");
        push_flag_col(cols, self.data, "eth_log", "data");
        push_flag_col(cols, self.log_index, "eth_log", "log_index");
        push_flag_col(cols, self.removed, "eth_log", "removed");
        if let Some(true) = self.topics {
            let ghost c0 = cols@;
            cols.push(String::from_str("eth_log.topic0 as eth_log_topic0"));
            proof {
                lemma_col_views_push(c0, cols@.last());
            }
            let ghost c1 = cols@;
            cols.push(String::from_str("eth_log.topic1 as eth_log_topic1"));
            proof {
                lemma_col_views_push(c1, cols@.last());
            }
            let ghost c2 = cols@;
            cols.push(String::from_str("eth_log.topic2 as eth_log_topic2"));
            proof {
                lemma_col_views_push(c2, cols@.last());
            }
            let ghost c3 = cols@;
            cols.push(String::from_str("eth_log.topic3 as eth_log_topic3"));
            proof {
                lemma_col_views_push(c3, cols@.last());
            }
        }
        push_flag_col(cols, self.transaction_hash, "eth_log", "transaction_hash");
        push_flag_col(cols, self.transaction_index, "eth_log", "transaction_index");
    }

    /// Compiles the selection into polars column expressions: one renamed
    /// expression per flagged attribute, in declaration order, with `topics`
    /// expanding into its 4 fixed positional columns.
    pub fn to_cols(self) -> (r: Vec<Expr>)
        ensures
            r@ == log_exprs(self),
    {
        let mut cols: Vec<Expr> = Vec::new();
        push_flag_expr(&mut cols, self.address, "log", "address");
        push_flag_expr(&mut cols, self.block_hash, "log", "block_hash");
        push_flag_expr(&mut cols, self.block_number, "log", "block_number");
        push_flag_expr(&mut cols, self.data, "log", "data");
        push_flag_expr(&mut cols, self.log_index, "log", "log_index");
        push_flag_expr(&mut cols, self.removed, "log", "removed");
        if let Some(true) = self.topics {
            cols.push(aliased_col("topic0", "log_topic0"));
            cols.push(aliased_col("topic1", "log_topic1"));
            cols.push(aliased_col("topic2", "log_topic2"));
            cols.push(aliased_col("topic3", "log_topic3"));
        }
        push_flag_expr(&mut cols, self.transaction_hash, "log", "transaction_hash");
        push_flag_expr(&mut cols, self.transaction_index, "log", "transaction_index");
        cols
    }

    /// Merges two log selections field by field.
    pub fn merge(left: Self, right: Self) -> (r: Self)
        ensures
            r == Self::spec_merge(left, right),
    {
        Self {
            address: merge_opt(left.address, right.address),
            block_hash: merge_opt(left.block_hash, right.block_hash),
            block_number: merge_opt(left.block_number, right.block_number),
            data: merge_opt(left.data, right.data),
            log_index: merge_opt(left.log_index, right.log_index),
            removed: merge_opt(left.removed, right.removed),
            topics: merge_opt(left.topics, right.topics),
            transaction_hash: merge_opt(left.transaction_hash, right.transaction_hash),
            transaction_index: merge_opt(left.transaction_index, right.transaction_index),
        }
    }
}

impl Default for LogFieldSelection {
    /// A selection with every flag unset.
    fn default() -> (r: Self)
        ensures
            r == Self::spec_unset(),
    {
        Self {
            address: None,
            block_hash: None,
            block_number: None,
            data: None,
            log_index: None,
            removed: None,
            topics: None,
            transaction_hash: None,
            transaction_index: None,
        }
    }
}

// ---------------------------------------------------------------------------
// Full selection
// ---------------------------------------------------------------------------

/// One selection per entity kind, composed into a full field selection.
#[derive(Debug, Clone, Copy, PartialEq, Eq)]
pub struct FieldSelection {
    pub block: BlockFieldSelection,
    pub transaction: TransactionFieldSelection,
    pub log: LogFieldSelection,
}

/// The full SQL projection column list of one selection: block columns,
/// then transaction columns, then log columns.
pub open spec fn selection_sql_cols(s: FieldSelection) -> Seq<Seq<char>> {
    log_sql_cols_onto(
        tx_sql_cols_onto(block_sql_cols_onto(Seq::empty(), s.block), s.transaction),
        s.log,
    )
}

/// The columns joined by comma-and-newline into one SQL projection clause.
pub open spec fn join_cols(cols: Seq<Seq<char>>) -> Seq<char>
    decreases cols.len(),
{
    if cols.len() == 0 {
        Seq::empty()
    } else if cols.len() == 1 {
        cols[0]
    } else {
        join_cols(cols.drop_last()) + ",\n"@ + cols.last()
    }
}

/// Joins the produced columns with comma-and-newline.
fn join_all_cols(cols: &Vec<String>) -> (r: String)
    ensures
        r@ == join_cols(col_views(cols@)),
{
    let ghost all = col_views(cols@);
    let mut r = String::new();
    let mut i: usize = 0;
    while i < cols.len()
        invariant
            i <= cols.len(),
            all == col_views(cols@),
            r@ == join_cols(all.subrange(0, i as int)),
        decreases cols.len() - i,
    {
        let ghost prefix = all.subrange(0, i as int);
        if i > 0 {
            r.append(",\n");
        }
        let c: &String = &cols[i];
        r.append(c.as_str());
        i = i + 1;
        proof {
            let next = all.subrange(0, i as int);
            assert(next.last() == all[i - 1]);
            if i > 1 {
                assert(next.drop_last() =~= prefix);
            } else {
                assert(next.len() == 1);
            }
        }
    }
    proof {
        assert(all.subrange(0, cols@.len() as int) =~= all);
    }
    r
}

impl FieldSelection {
    /// Merge of two optional selections: an absent side yields to the other,
    /// and two present selections merge field by field.
    pub open spec fn spec_merge(left: Option<FieldSelection>, right: Option<FieldSelection>) -> Option<
        FieldSelection,
    > {
        match (left, right) {
            (None, _) => right,
            (_, None) => left,
            (Some(l), Some(r)) => Some(
                FieldSelection {
                    block: BlockFieldSelection::spec_merge(l.block, r.block),
                    transaction: TransactionFieldSelection::spec_merge(l.transaction, r.transaction),
                    log: LogFieldSelection::spec_merge(l.log, r.log),
                },
            ),
        }
    }

    /// A selection with no opinion about any attribute of any entity kind.
    pub open spec fn spec_unset() -> Self {
        FieldSelection {
            block: BlockFieldSelection::spec_unset(),
            transaction: TransactionFieldSelection::spec_unset(),
            log: LogFieldSelection::spec_unset(),
        }
    }

    /// Compiles the selection into one SQL projection clause: every flagged
    /// attribute as a `table.attribute as table_attribute` fragment, in
    /// declaration order, joined by comma-and-newline.
    pub fn to_cols_sql(self) -> (r: String)
        ensures
            r@ == join_cols(selection_sql_cols(self)),
    {
        let mut cols: Vec<String> = Vec::new();
        proof {
            assert(col_views(cols@) =~= Seq::empty());
        }
        self.block.to_cols_sql(&mut cols);
        self.transaction.to_cols_sql(&mut cols);
        self.log.to_cols_sql(&mut cols);
        join_all_cols(&cols)
    }

    /// Merges two optional selections.
    pub fn merge(left: Option<Self>, right: Option<Self>) -> (r: Option<Self>)
        ensures
            r == Self::spec_merge(left, right),
    {
        let left = match left {
            Some(left) => left,
            None => {
                return right;
            },
        };
        let right = match right {
            Some(right) => right,
            None => {
                return Some(left);
            },
        };
        Some(
            Self {
                block: BlockFieldSelection::merge(left.block, right.block),
                transaction: TransactionFieldSelection::merge(left.transaction, right.transaction),
                log: LogFieldSelection::merge(left.log, right.log),
            },
        )
    }
}

/// Merge identity: merging with an absent selection returns the other side
/// unchanged, and merging two absent selections stays absent.
pub proof fn lemma_merge_identity(s: Option<FieldSelection>)
    ensures
        FieldSelection::spec_merge(s, None) == s,
        FieldSelection::spec_merge(None, s) == s,
        FieldSelection::spec_merge(None, None) == None::<FieldSelection>,
{
}

/// Block selection merge is commutative, field by field.
pub proof fn lemma_block_merge_commutative(a: BlockFieldSelection, b: BlockFieldSelection)
    ensures
        BlockFieldSelection::spec_merge(a, b) == BlockFieldSelection::spec_merge(b, a),
{
    lemma_merged_flag_commutative(a.number, b.number);
    lemma_merged_flag_commutative(a.hash, b.hash);
    lemma_merged_flag_commutative(a.parent_hash, b.parent_hash);
    lemma_merged_flag_commutative(a.nonce, b.nonce);
    lemma_merged_flag_commutative(a.sha3_uncles, b.sha3_uncles);
    lemma_merged_flag_commutative(a.logs_bloom, b.logs_bloom);
    lemma_merged_flag_commutative(a.transactions_root, b.transactions_root);
    lemma_merged_flag_commutative(a.state_root, b.state_root);
    lemma_merged_flag_commutative(a.receipts_root, b.receipts_root);
    lemma_merged_flag_commutative(a.miner, b.miner);
    lemma_merged_flag_commutative(a.difficulty, b.difficulty);
    lemma_merged_flag_commutative(a.total_difficulty, b.total_difficulty);
    lemma_merged_flag_commutative(a.extra_data, b.extra_data);
    lemma_merged_flag_commutative(a.size, b.size);
    lemma_merged_flag_commutative(a.gas_limit, b.gas_limit);
    lemma_merged_flag_commutative(a.gas_used, b.gas_used);
    lemma_merged_flag_commutative(a.timestamp, b.timestamp);
}

/// Transaction selection merge is commutative, field by field.
pub proof fn lemma_tx_merge_commutative(a: TransactionFieldSelection, b: TransactionFieldSelection)
    ensures
        TransactionFieldSelection::spec_merge(a, b) == TransactionFieldSelection::spec_merge(b, a),
{
    lemma_merged_flag_commutative(a.block_hash, b.block_hash);
    lemma_merged_flag_commutative(a.block_number, b.block_number);
    lemma_merged_flag_commutative(a.source, b.source);
    lemma_merged_flag_commutative(a.gas, b.gas);
    lemma_merged_flag_commutative(a.gas_price, b.gas_price);
    lemma_merged_flag_commutative(a.hash, b.hash);
    lemma_merged_flag_commutative(a.input, b.input);
    lemma_merged_flag_commutative(a.nonce, b.nonce);
    lemma_merged_flag_commutative(a.dest, b.dest);
    lemma_merged_flag_commutative(a.transaction_index, b.transaction_index);
    lemma_merged_flag_commutative(a.value, b.value);
    lemma_merged_flag_commutative(a.kind, b.kind);
    lemma_merged_flag_commutative(a.chain_id, b.chain_id);
    lemma_merged_flag_commutative(a.v, b.v);
    lemma_merged_flag_commutative(a.r, b.r);
    lemma_merged_flag_commutative(a.s, b.s);
}

/// Log selection merge is commutative, field by field.
pub proof fn lemma_log_merge_commutative(a: LogFieldSelection, b: LogFieldSelection)
    ensures
        LogFieldSelection::spec_merge(a, b) == LogFieldSelection::spec_merge(b, a),
{
    lemma_merged_flag_commutative(a.address, b.address);
    lemma_merged_flag_commutative(a.block_hash, b.block_hash);
    lemma_merged_flag_commutative(a.block_number, b.block_number);
    lemma_merged_flag_commutative(a.data, b.data);
    lemma_merged_flag_commutative(a.log_index, b.log_index);
    lemma_merged_flag_commutative(a.removed, b.removed);
    lemma_merged_flag_commutative(a.topics, b.topics);
    lemma_merged_flag_commutative(a.transaction_hash, b.transaction_hash);
    lemma_merged_flag_commutative(a.transaction_index, b.transaction_index);
}

/// Selection merge is commutative: both orders produce the same selection.
pub proof fn lemma_merge_commutative(a: Option<FieldSelection>, b: Option<FieldSelection>)
    ensures
        FieldSelection::spec_merge(a, b) == FieldSelection::spec_merge(b, a),
{
    if a is Some && b is Some {
        lemma_block_merge_commutative(a->0.block, b->0.block);
        lemma_tx_merge_commutative(a->0.transaction, b->0.transaction);
        lemma_log_merge_commutative(a->0.log, b->0.log);
    }
}

/// Block selection merge is associative, field by field.
pub proof fn lemma_block_merge_associative(
    a: BlockFieldSelection,
    b: BlockFieldSelection,
    c: BlockFieldSelection,
)
    ensures
        BlockFieldSelection::spec_merge(BlockFieldSelection::spec_merge(a, b), c)
            == BlockFieldSelection::spec_merge(a, BlockFieldSelection::spec_merge(b, c)),
{
    lemma_merged_flag_associative(a.number, b.number, c.number);
    lemma_merged_flag_associative(a.hash, b.hash, c.hash);
    lemma_merged_flag_associative(a.parent_hash, b.parent_hash, c.parent_hash);
    lemma_merged_flag_associative(a.nonce, b.nonce, c.nonce);
    lemma_merged_flag_associative(a.sha3_uncles, b.sha3_uncles, c.sha3_uncles);
    lemma_merged_flag_associative(a.logs_bloom, b.logs_bloom, c.logs_bloom);
    lemma_merged_flag_associative(a.transactions_root, b.transactions_root, c.transactions_root);
    lemma_merged_flag_associative(a.state_root, b.state_root, c.state_root);
    lemma_merged_flag_associative(a.receipts_root, b.receipts_root, c.receipts_root);
    lemma_merged_flag_associative(a.miner, b.miner, c.miner);
    lemma_merged_flag_associative(a.difficulty, b.difficulty, c.difficulty);
    lemma_merged_flag_associative(a.total_difficulty, b.total_difficulty, c.total_difficulty);
    lemma_merged_flag_associative(a.extra_data, b.extra_data, c.extra_data);
    lemma_merged_flag_associative(a.size, b.size, c.size);
    lemma_merged_flag_associative(a.gas_limit, b.gas_limit, c.gas_limit);
    lemma_merged_flag_associative(a.gas_used, b.gas_used, c.gas_used);
    lemma_merged_flag_associative(a.timestamp, b.timestamp, c.timestamp);
}

/// Transaction selection merge is associative, field by field.
pub proof fn lemma_tx_merge_associative(
    a: TransactionFieldSelection,
    b: TransactionFieldSelection,
    c: TransactionFieldSelection,
)
    ensures
        TransactionFieldSelection::spec_merge(TransactionFieldSelection::spec_merge(a, b), c)
            == TransactionFieldSelection::spec_merge(a, TransactionFieldSelection::spec_merge(b, c)),
{
    lemma_merged_flag_associative(a.block_hash, b.block_hash, c.block_hash);
    lemma_merged_flag_associative(a.block_number, b.block_number, c.block_number);
    lemma_merged_flag_associative(a.source, b.source, c.source);
    lemma_merged_flag_associative(a.gas, b.gas, c.gas);
    lemma_merged_flag_associative(a.gas_price, b.gas_price, c.gas_price);
    lemma_merged_flag_associative(a.hash, b.hash, c.hash);
    lemma_merged_flag_associative(a.input, b.input, c.input);
    lemma_merged_flag_associative(a.nonce, b.nonce, c.nonce);
    lemma_merged_flag_associative(a.dest, b.dest, c.dest);
    lemma_merged_flag_associative(a.transaction_index, b.transaction_index, c.transaction_index);
    lemma_merged_flag_associative(a.value, b.value, c.value);
    lemma_merged_flag_associative(a.kind, b.kind, c.kind);
    lemma_merged_flag_associative(a.chain_id, b.chain_id, c.chain_id);
    lemma_merged_flag_associative(a.v, b.v, c.v);
    lemma_merged_flag_associative(a.r, b.r, c.r);
    lemma_merged_flag_associative(a.s, b.s, c.s);
}

/// Log selection merge is associative, field by field.
pub proof fn lemma_log_merge_associative(
    a: LogFieldSelection,
    b: LogFieldSelection,
    c: LogFieldSelection,
)
    ensures
        LogFieldSelection::spec_merge(LogFieldSelection::spec_merge(a, b), c)
            == LogFieldSelection::spec_merge(a, LogFieldSelection::spec_merge(b, c)),
{
    lemma_merged_flag_associative(a.address, b.address, c.address);
    lemma_merged_flag_associative(a.block_hash, b.block_hash, c.block_hash);
    lemma_merged_flag_associative(a.block_number, b.block_number, c.block_number);
    lemma_merged_flag_associative(a.data, b.data, c.data);
    lemma_merged_flag_associative(a.log_index, b.log_index, c.log_index);
    lemma_merged_flag_associative(a.removed, b.removed, c.removed);
    lemma_merged_flag_associative(a.topics, b.topics, c.topics);
    lemma_merged_flag_associative(a.transaction_hash, b.transaction_hash, c.transaction_hash);
    lemma_merged_flag_associative(a.transaction_index, b.transaction_index, c.transaction_index);
}

/// Selection merge is associative: grouping does not matter.
pub proof fn lemma_merge_associative(
    a: Option<FieldSelection>,
    b: Option<FieldSelection>,
    c: Option<FieldSelection>,
)
    ensures
        FieldSelection::spec_merge(FieldSelection::spec_merge(a, b), c)
            == FieldSelection::spec_merge(a, FieldSelection::spec_merge(b, c)),
{
    if a is Some && b is Some && c is Some {
        lemma_block_merge_associative(a->0.block, b->0.block, c->0.block);
        lemma_tx_merge_associative(a->0.transaction, b->0.transaction, c->0.transaction);
        lemma_log_merge_associative(a->0.log, b->0.log, c->0.log);
    }
}

/// Compile determinism: any two compilations of the same selection produce
/// the same projection clause, byte for byte — the output is a function of
/// the selection alone, in fixed declaration order.
pub proof fn lemma_compile_deterministic(s: FieldSelection, r1: String, r2: String)
    requires
        r1@ == join_cols(selection_sql_cols(s)),
        r2@ == join_cols(selection_sql_cols(s)),
    ensures
        r1@ == r2@,
{
}

/// Empty selection: compiling a fully unset selection yields an empty
/// projection list, in every output form.
pub proof fn lemma_empty_selection_empty_projection()
    ensures
        selection_sql_cols(FieldSelection::spec_unset()) == Seq::<Seq<char>>::empty(),
        join_cols(selection_sql_cols(FieldSelection::spec_unset())) == Seq::<char>::empty(),
        block_exprs(BlockFieldSelection::spec_unset()) == Seq::<Expr>::empty(),
        tx_exprs(TransactionFieldSelection::spec_unset()) == Seq::<Expr>::empty(),
        log_exprs(LogFieldSelection::spec_unset()) == Seq::<Expr>::empty(),
{
}

/// Topics expansion: a selection that flags only the log `topics` attribute
/// compiles to exactly the 4 positional topic columns, however many topics
/// any actual row has.
pub proof fn lemma_topics_expansion(s: FieldSelection)
    requires
        s.block == BlockFieldSelection::spec_unset(),
        s.transaction == TransactionFieldSelection::spec_unset(),
        s.log == (LogFieldSelection { topics: Some(true), ..LogFieldSelection::spec_unset() }),
    ensures
        selection_sql_cols(s) == seq![
            "eth_log.topic0 as eth_log_topic0"@,
            "eth_log.topic1 as eth_log_topic1"@,
            "eth_log.topic2 as eth_log_topic2"@,
            "eth_log.topic3 as eth_log_topic3"@,
        ],
        log_exprs(s.log) == seq![
            named_col_expr("topic0"@, "log_topic0"@),
            named_col_expr("topic1"@, "log_topic1"@),
            named_col_expr("topic2"@, "log_topic2"@),
            named_col_expr("topic3"@, "log_topic3"@),
        ],
{
    assert(selection_sql_cols(s) =~= seq![
        "eth_log.topic0 as eth_log_topic0"@,
        "eth_log.topic1 as eth_log_topic1"@,
        "eth_log.topic2 as eth_log_topic2"@,
        "eth_log.topic3 as eth_log_topic3"@,
    ]);
    assert(log_exprs(s.log) =~= seq![
        named_col_expr("topic0"@, "log_topic0"@),
        named_col_expr("topic1"@, "log_topic1"@),
        named_col_expr("topic2"@, "log_topic2"@),
        named_col_expr("topic3"@, "log_topic3"@),
    ]);
}

impl Default for FieldSelection {
    /// A selection with every flag of every entity kind unset.
    fn default() -> (r: Self)
        ensures
            r == Self::spec_unset(),
    {
        Self {
            block: BlockFieldSelection::default(),
            transaction: TransactionFieldSelection::default(),
            log: LogFieldSelection::default(),
        }
    }
}

} // verus!
