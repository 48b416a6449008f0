use eth_archive::error::Error;
use eth_archive::parquet_writer::{EntityRows, ParquetConfig, ParquetWriter};
use eth_archive::types::{
    Block, Blocks, ColumnChunk, Log, Logs, RowGroup, ToColumn, ToColumnContext, Transaction,
    Transactions, WriteToRowGroup,
};

fn block(number: u64) -> Block {
    Block {
        number: Some(number),
        hash: Some(vec![0xaa; 32]),
        parent_hash: vec![0xbb; 32],
        uncles_hash: vec![0xcc; 32],
        author: vec![0x01; 20],
        timestamp: vec![0x02; 32],
        size: Some(vec![0x03]),
        nonce: None,
        transactions: Vec::new(),
    }
}

fn transaction(block_number: u64, index: u64) -> Transaction {
    Transaction {
        block_number: Some(block_number),
        transaction_index: Some(index),
        hash: vec![0x10; 32],
        nonce: vec![0x11],
        block_hash: None,
        from: Some(vec![0x12; 20]),
        to: None,
        value: vec![0x13],
        input: Vec::new(),
        transaction_type: None,
    }
}

fn log(block_number: u64, topics: Vec<Vec<u8>>) -> Log {
    Log {
        block_number: Some(block_number),
        address: vec![0x20; 20],
        topics,
        data: vec![0x21],
        block_hash: None,
        transaction_index: Some(0),
        transaction_hash: None,
        log_index: None,
        transaction_log_index: None,
    }
}

fn writer(rows_per_file: usize) -> ParquetWriter<Blocks> {
    ParquetWriter::new(ParquetConfig { path: String::from("data/block/block"), rows_per_file })
}

#[test]
fn first_flush_exactly_at_the_threshold() {
    let mut w = writer(100);
    for i in 0..99u64 {
        let flushed = w.send(vec![block(i)]);
        assert!(flushed.is_none());
        assert_eq!(w.len(), (i + 1) as usize);
    }
    // the 100th row triggers the first and only flush
    let flushed = w.send(vec![block(99)]);
    let full = flushed.expect("the 100th row must flush");
    assert_eq!(full.number.len(), 100);
    assert_eq!(full.number[0], Some(0));
    assert_eq!(full.number[99], Some(99));
    // the in-memory buffer is empty immediately after
    assert_eq!(w.len(), 0);
}

#[test]
fn batch_crossing_the_threshold_flushes_everything_buffered() {
    let mut w = writer(5);
    assert!(w.send(vec![block(0), block(1), block(2)]).is_none());
    assert_eq!(w.len(), 3);
    // 3 + 4 = 7 >= 5: the whole buffer rotates out
    let full = w.send(vec![block(3), block(4), block(5), block(6)]).expect("must flush");
    assert_eq!(full.number.len(), 7);
    assert_eq!(w.len(), 0);
}

#[test]
fn under_threshold_only_buffers() {
    let mut w = writer(1000);
    assert!(w.send(vec![block(1), block(2)]).is_none());
    assert_eq!(w.len(), 2);
}

#[test]
fn transactions_and_logs_buffer_index_aligned() {
    let mut w: ParquetWriter<Transactions> =
        ParquetWriter::new(ParquetConfig { path: String::from("data/tx/tx"), rows_per_file: 2 });
    let full = w
        .send(vec![transaction(5, 0), transaction(5, 1)])
        .expect("two rows reach the threshold");
    assert_eq!(full.block_number, vec![Some(5), Some(5)]);
    assert_eq!(full.transaction_index, vec![Some(0), Some(1)]);
    assert_eq!(full.hash.len(), 2);

    let mut w: ParquetWriter<Logs> =
        ParquetWriter::new(ParquetConfig { path: String::from("data/log/log"), rows_per_file: 1 });
    let full = w.send(vec![log(9, vec![vec![0x30; 32]])]).expect("one row reaches the threshold");
    assert_eq!(full.block_number, vec![Some(9)]);
    assert_eq!(full.topics.len(), 1);
}

#[test]
fn per_value_levels_mark_presence() {
    let ctx = ToColumnContext { def: 0, rep: 0 };
    let out = Some(5u64).write_to_column_group(&ctx).expect("in range");
    assert_eq!(out.def, 1);
    assert_eq!(out.rep, 0);
    assert_eq!(out.val, Some(5i64));
    let out = None::<u64>.write_to_column_group(&ctx).expect("absent is fine");
    assert_eq!(out.def, 0);
    assert_eq!(out.rep, 0);
    assert_eq!(out.val, None);
    let err = Some(u64::MAX).write_to_column_group(&ctx).unwrap_err();
    assert_eq!(err, Error::ValueOutOfRange);
}

#[test]
fn blocks_write_marks_nulls_and_narrows_numbers() {
    let mut blocks = Blocks::new_empty();
    blocks.push_row(block(7));
    let mut absent = block(0);
    absent.number = None;
    absent.hash = None;
    blocks.push_row(absent);

    let mut group = RowGroup::new();
    blocks.write_to_row_group(&mut group).expect("all numbers fit");
    assert_eq!(group.columns.len(), 8);
    match &group.columns[0] {
        ColumnChunk::OptionalInt64 { defs, values } => {
            assert_eq!(defs, &vec![1, 0]);
            assert_eq!(values, &vec![7i64]);
        }
        other => panic!("block number must be an optional integer column, got {:?}", other),
    }
    match &group.columns[1] {
        ColumnChunk::OptionalBytes { defs, values } => {
            assert_eq!(defs, &vec![1, 0]);
            assert_eq!(values.len(), 1);
            assert_eq!(values[0], vec![0xaa; 32]);
        }
        other => panic!("block hash must be an optional byte column, got {:?}", other),
    }
    match &group.columns[2] {
        ColumnChunk::RequiredBytes { values } => {
            assert_eq!(values.len(), 2);
            assert_eq!(values[0], vec![0xbb; 32]);
        }
        other => panic!("parent hash must be a required byte column, got {:?}", other),
    }
}

#[test]
fn out_of_range_number_is_refused_loudly() {
    let mut blocks = Blocks::new_empty();
    blocks.push_row(block(u64::MAX));
    let mut group = RowGroup::new();
    let err = blocks.write_to_row_group(&mut group).unwrap_err();
    assert_eq!(err, Error::ValueOutOfRange);
    // the row group is left untouched
    assert!(group.columns.is_empty());
}

#[test]
fn transactions_write_follows_declaration_order() {
    let mut txs = Transactions::new_empty();
    txs.push_row(transaction(3, 1));
    let mut group = RowGroup::new();
    txs.write_to_row_group(&mut group).expect("all numbers fit");
    assert_eq!(group.columns.len(), 10);
    assert!(matches!(group.columns[0], ColumnChunk::OptionalInt64 { .. }));
    assert!(matches!(group.columns[1], ColumnChunk::OptionalInt64 { .. }));
    assert!(matches!(group.columns[2], ColumnChunk::RequiredBytes { .. }));
    assert!(matches!(group.columns[9], ColumnChunk::OptionalInt64 { .. }));
}

#[test]
fn topics_levels_reconstruct_lists_exactly() {
    let mut logs = Logs::new_empty();
    logs.push_row(log(1, vec![vec![0x41; 32], vec![0x42; 32]]));
    logs.push_row(log(2, Vec::new()));
    logs.push_row(log(3, vec![vec![0x43; 32]]));
    let mut group = RowGroup::new();
    logs.write_to_row_group(&mut group).expect("all numbers fit");
    assert_eq!(group.columns.len(), 9);
    match &group.columns[2] {
        ColumnChunk::RepeatedBytes { defs, reps, values } => {
            // two slots, one empty-list marker, one slot
            assert_eq!(defs, &vec![1, 1, 0, 1]);
            // a 0 starts each row's list, a 1 continues it
            assert_eq!(reps, &vec![0, 1, 0, 0]);
            // only real slots materialize values
            assert_eq!(values.len(), 3);
            assert_eq!(values[0], vec![0x41; 32]);
            assert_eq!(values[1], vec![0x42; 32]);
            assert_eq!(values[2], vec![0x43; 32]);
        }
        other => panic!("topics must be a repeated byte column, got {:?}", other),
    }
}
