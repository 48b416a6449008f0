use eth_archive::field_selection::{
    merge_opt, BlockFieldSelection, FieldSelection, LogFieldSelection, TransactionFieldSelection,
};
use polars::prelude::{col, Expr};

fn flags() -> Vec<Option<bool>> {
    vec![None, Some(false), Some(true)]
}

#[test]
fn merge_opt_table() {
    assert_eq!(merge_opt(None, None), None);
    assert_eq!(merge_opt(Some(true), None), Some(true));
    assert_eq!(merge_opt(Some(false), None), Some(false));
    assert_eq!(merge_opt(None, Some(true)), Some(true));
    assert_eq!(merge_opt(None, Some(false)), Some(false));
    assert_eq!(merge_opt(Some(false), Some(false)), Some(false));
    assert_eq!(merge_opt(Some(false), Some(true)), Some(true));
    assert_eq!(merge_opt(Some(true), Some(false)), Some(true));
    assert_eq!(merge_opt(Some(true), Some(true)), Some(true));
}

#[test]
fn merge_opt_commutative_all_triples() {
    for a in flags() {
        for b in flags() {
            assert_eq!(merge_opt(a, b), merge_opt(b, a));
        }
    }
}

#[test]
fn merge_opt_idempotent() {
    for a in flags() {
        assert_eq!(merge_opt(a, a), a);
    }
}

#[test]
fn merge_opt_associative_all_triples() {
    for a in flags() {
        for b in flags() {
            for c in flags() {
                assert_eq!(
                    merge_opt(merge_opt(a, b), c),
                    merge_opt(a, merge_opt(b, c))
                );
            }
        }
    }
}

fn sample_selection() -> FieldSelection {
    let mut s = FieldSelection::default();
    s.block.number = Some(true);
    s.block.hash = Some(true);
    s.transaction.source = Some(true);
    s.log.topics = Some(true);
    s
}

#[test]
fn merge_identity() {
    let s = sample_selection();
    assert_eq!(FieldSelection::merge(Some(s), None), Some(s));
    assert_eq!(FieldSelection::merge(None, Some(s)), Some(s));
    assert_eq!(FieldSelection::merge(None, None), None);
}

#[test]
fn merge_is_field_wise_or() {
    let mut a = FieldSelection::default();
    a.block.number = Some(true);
    a.log.removed = Some(false);
    let mut b = FieldSelection::default();
    b.block.hash = Some(true);
    b.log.removed = Some(true);
    let m = FieldSelection::merge(Some(a), Some(b)).unwrap();
    assert_eq!(m.block.number, Some(true));
    assert_eq!(m.block.hash, Some(true));
    assert_eq!(m.block.parent_hash, None);
    assert_eq!(m.log.removed, Some(true));
}

#[test]
fn compile_deterministic() {
    let s = sample_selection();
    assert_eq!(s.to_cols_sql(), s.to_cols_sql());
    assert_eq!(s.block.to_cols(), s.block.to_cols());
    assert_eq!(s.transaction.to_cols(), s.transaction.to_cols());
    assert_eq!(s.log.to_cols(), s.log.to_cols());
}

#[test]
fn empty_selection_compiles_to_nothing() {
    let s = FieldSelection::default();
    assert_eq!(s.to_cols_sql(), "");
    assert!(s.block.to_cols().is_empty());
    assert!(s.transaction.to_cols().is_empty());
    assert!(s.log.to_cols().is_empty());
}

#[test]
fn sql_fragment_shape() {
    let mut s = FieldSelection::default();
    s.block.number = Some(true);
    s.block.hash = Some(true);
    assert_eq!(
        s.to_cols_sql(),
        "eth_block.number as eth_block_number,\neth_block.hash as eth_block_hash"
    );
}

#[test]
fn sql_output_follows_declaration_order() {
    let mut s = FieldSelection::default();
    // set in reverse declaration order on purpose
    s.log.transaction_index = Some(true);
    s.transaction.gas = Some(true);
    s.block.timestamp = Some(true);
    assert_eq!(
        s.to_cols_sql(),
        "eth_block.timestamp as eth_block_timestamp,\n\
         eth_tx.gas as eth_tx_gas,\n\
         eth_log.transaction_index as eth_log_transaction_index"
    );
}

#[test]
fn some_false_contributes_nothing() {
    let mut s = FieldSelection::default();
    s.block.number = Some(false);
    s.transaction.hash = Some(false);
    assert_eq!(s.to_cols_sql(), "");
}

#[test]
fn topics_expand_to_four_sql_columns() {
    let mut s = FieldSelection::default();
    s.log.topics = Some(true);
    assert_eq!(
        s.to_cols_sql(),
        "eth_log.topic0 as eth_log_topic0,\n\
         eth_log.topic1 as eth_log_topic1,\n\
         eth_log.topic2 as eth_log_topic2,\n\
         eth_log.topic3 as eth_log_topic3"
    );
}

#[test]
fn topics_expand_to_four_exprs() {
    let mut log = LogFieldSelection::default();
    log.topics = Some(true);
    let cols = log.to_cols();
    assert_eq!(cols.len(), 4);
    for (i, e) in cols.iter().enumerate() {
        let expected: Expr = col(format!("topic{}", i).as_str()).alias(
            format!("log_topic{}", i).as_str(),
        );
        assert_eq!(*e, expected);
    }
}

#[test]
fn exprs_are_aliased_with_entity_prefix() {
    let mut block = BlockFieldSelection::default();
    block.number = Some(true);
    let cols = block.to_cols();
    assert_eq!(cols.len(), 1);
    let expected: Expr = col("number").alias("block_number");
    assert_eq!(cols[0], expected);
    // the alias matters: a bare column expression is not enough
    assert_ne!(cols[0], col("number"));

    let mut tx = TransactionFieldSelection::default();
    tx.dest = Some(true);
    tx.value = Some(true);
    let cols = tx.to_cols();
    assert_eq!(cols.len(), 2);
    assert_eq!(cols[0], col("dest").alias("tx_dest"));
    assert_eq!(cols[1], col("value").alias("tx_value"));
}
