use eth_archive::error::RpcError;
use eth_archive::ingester::{
    batch_requests, process_stride, start_block_poll, stride_ranges, stride_starts, tail_step,
    IngestConfig, Ingester, StartPoll, TailStep,
};
use eth_archive::types::Block;

fn cfg(from_block: Option<usize>, to_block: Option<usize>) -> IngestConfig {
    IngestConfig {
        eth_rpc_url: String::from("http://localhost:8545"),
        from_block,
        to_block,
        http_req_concurrency: 2,
        tx_batch_size: 5,
        block_batch_size: 5,
    }
}

fn block(number: u64) -> Block {
    Block {
        number: Some(number),
        hash: Some(vec![0xab; 32]),
        parent_hash: vec![0xcd; 32],
        uncles_hash: vec![0xef; 32],
        author: vec![0x01; 20],
        timestamp: vec![0x02; 32],
        size: None,
        nonce: None,
        transactions: Vec::new(),
    }
}

#[test]
fn from_block_takes_the_larger_bound() {
    let ing = Ingester::new(cfg(Some(10), None));
    // configured floor wins over a lower resume point
    assert_eq!(ing.from_block(Some(5)), 10);
    // resume point wins over a lower floor
    let ing = Ingester::new(cfg(Some(5), None));
    assert_eq!(ing.from_block(Some(10)), 11);
    // only one side given
    let ing = Ingester::new(cfg(Some(7), None));
    assert_eq!(ing.from_block(None), 7);
    let ing = Ingester::new(cfg(None, None));
    assert_eq!(ing.from_block(Some(41)), 42);
    assert_eq!(ing.from_block(None), 0);
}

#[test]
fn resumed_cursor_never_rewinds() {
    // across simulated restarts, the resumed start is never below max + 1
    for prev_max in [0usize, 1, 10, 99, 1_000_000] {
        for floor in [None, Some(0usize), Some(50), Some(2_000_000)] {
            let ing = Ingester::new(cfg(floor, None));
            assert!(ing.from_block(Some(prev_max)) >= prev_max + 1);
        }
    }
}

#[test]
fn to_block_prefers_configured_ceiling() {
    let ing = Ingester::new(cfg(None, Some(123)));
    assert_eq!(ing.to_block(999), 123);
    let ing = Ingester::new(cfg(None, None));
    assert_eq!(ing.to_block(999), 1000);
}

#[test]
fn sync_step_is_concurrency_times_batch() {
    let ing = Ingester::new(cfg(None, None));
    assert_eq!(ing.sync_step(), 10);
    assert_eq!(ing.write_step(), 10);
}

#[test]
fn stride_starts_cover_the_range() {
    assert_eq!(stride_starts(10, 50, 10), vec![10, 20, 30, 40]);
    assert_eq!(stride_starts(0, 1, 10), vec![0]);
    assert_eq!(stride_starts(50, 50, 10), Vec::<usize>::new());
    assert_eq!(stride_starts(60, 50, 10), Vec::<usize>::new());
}

#[test]
fn stride_ranges_tile_the_stride() {
    // the documented scenario: from 10, concurrency 2, batch size 5
    let ranges = stride_ranges(10, 2, 5);
    assert_eq!(ranges, vec![(10, 15), (15, 20)]);

    // over the whole sync from 10 to 50 the sub-ranges tile [10, 50)
    // exactly: no gaps, no overlaps
    let mut covered = Vec::new();
    for start in stride_starts(10, 50, 10) {
        for (lo, hi) in stride_ranges(start, 2, 5) {
            for b in lo..hi {
                covered.push(b);
            }
        }
    }
    let expected: Vec<usize> = (10..50).collect();
    assert_eq!(covered, expected);
}

#[test]
fn batch_requests_are_contiguous() {
    let reqs = batch_requests(15, 20);
    assert_eq!(reqs.len(), 5);
    for (i, r) in reqs.iter().enumerate() {
        assert_eq!(r.block_number, 15 + i);
    }
    assert!(batch_requests(7, 7).is_empty());
}

#[test]
fn stride_with_one_failed_sub_range_still_advances() {
    // 4 sub-ranges, one permanently failing after 3 bounded retries
    let failing = vec![RpcError::Transport, RpcError::Transport, RpcError::Transport];
    let group = vec![
        Ok(vec![block(10), block(11)]),
        Err(failing.clone()),
        Ok(vec![block(20), block(21)]),
        Ok(vec![block(25), block(26)]),
    ];
    let outcome = process_stride(10, 20, group);
    // the three successful batches are written, in order
    assert_eq!(outcome.writes.len(), 3);
    assert_eq!(outcome.writes[0][0].number, Some(10));
    assert_eq!(outcome.writes[1][0].number, Some(20));
    assert_eq!(outcome.writes[2][0].number, Some(25));
    // the failure is reported, not escalated
    assert_eq!(outcome.skipped, 1);
    // the cursor still advances past the whole stride
    assert_eq!(outcome.next_block, 30);
}

#[test]
fn stride_with_all_failures_still_advances() {
    let group: Vec<Result<Vec<Block>, Vec<RpcError>>> =
        vec![Err(vec![RpcError::Decode]), Err(vec![RpcError::Remote])];
    let outcome = process_stride(100, 10, group);
    assert!(outcome.writes.is_empty());
    assert_eq!(outcome.skipped, 2);
    assert_eq!(outcome.next_block, 110);
}

#[test]
fn tail_advances_one_block_at_a_time() {
    match tail_step(77, None) {
        TailStep::Poll { sleep_secs } => assert_eq!(sleep_secs, 1),
        TailStep::Advance { .. } => panic!("tail must wait when the block is missing"),
    }
    match tail_step(77, Some(block(77))) {
        TailStep::Advance { block, delete_block, next_block } => {
            assert_eq!(block.number, Some(77));
            assert_eq!(delete_block, 77);
            assert_eq!(next_block, 78);
        }
        TailStep::Poll { .. } => panic!("tail must advance once the block arrived"),
    }
}

#[test]
fn start_poll_waits_for_a_first_block() {
    assert_eq!(start_block_poll(None), StartPoll::Sleep(5));
    assert_eq!(start_block_poll(Some(12)), StartPoll::Ready(12));
}

#[test]
fn rpc_error_classification() {
    assert!(RpcError::Transport.is_client_side());
    assert!(RpcError::Decode.is_client_side());
    assert!(!RpcError::Remote.is_client_side());
}
