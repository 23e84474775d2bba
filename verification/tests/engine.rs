use fanout::engine::{broadcast_chunk, copy_in_memory, CopyEngine, EngineState};

#[test]
fn empty_input_drains_at_once_with_no_writes() {
    let mut engine = CopyEngine::new(8192, 500, false);
    assert_eq!(engine.state, EngineState::Priming);
    let buf: Vec<u8> = Vec::new();
    let plan = engine.on_chunk(&buf, 0);
    assert_eq!(engine.state, EngineState::Drained);
    assert_eq!(plan.write_len, 0);
    assert_eq!(plan.report, None);
    assert!(!plan.sync_before);
    assert_eq!(engine.total_bytes, 0);
    assert_eq!(engine.iteration, 0);
}

#[test]
fn cadence_drives_sync_and_report() {
    let mut engine = CopyEngine::new(4, 2, false);
    let buf = vec![1u8, 2, 3, 4];

    let plan = engine.on_chunk(&buf, 4);
    assert!(plan.sync_before);
    assert_eq!(plan.report, Some(4));
    assert_eq!(plan.write_len, 4);

    let plan = engine.on_chunk(&buf, 4);
    assert!(!plan.sync_before);
    assert_eq!(plan.report, None);

    let plan = engine.on_chunk(&buf, 2);
    assert!(plan.sync_before);
    assert_eq!(plan.report, Some(10));
    assert_eq!(plan.write_len, 2);

    assert_eq!(engine.total_bytes, 10);
    assert_eq!(engine.iteration, 3);
    assert_eq!(engine.state, EngineState::Streaming);

    // End of stream: no write, but one final durable commit.
    let plan = engine.on_chunk(&buf, 0);
    assert_eq!(plan.write_len, 0);
    assert!(plan.sync_before);
    assert_eq!(plan.report, None);
    assert_eq!(engine.state, EngineState::Drained);
    assert_eq!(engine.total_bytes, 10);
}

#[test]
fn quiet_mode_never_reports() {
    let mut engine = CopyEngine::new(4, 1, true);
    let buf = vec![9u8, 9, 9, 9];
    for _ in 0..5 {
        let plan = engine.on_chunk(&buf, 4);
        assert_eq!(plan.report, None);
        assert!(plan.sync_before);
    }
    assert_eq!(engine.total_bytes, 20);
}

#[test]
fn broadcast_appends_to_every_destination() {
    let mut dests: Vec<Vec<u8>> = vec![vec![7u8], Vec::new()];
    let data = vec![1u8, 2, 3];
    broadcast_chunk(&mut dests, &data, 2);
    assert_eq!(dests, vec![vec![7u8, 1, 2], vec![1u8, 2]]);
}

#[test]
fn broadcast_of_nothing_changes_nothing() {
    let mut dests: Vec<Vec<u8>> = vec![vec![7u8], Vec::new()];
    let data = vec![1u8, 2, 3];
    broadcast_chunk(&mut dests, &data, 0);
    assert_eq!(dests, vec![vec![7u8], Vec::new()]);
}

#[test]
fn priming_becomes_streaming_on_first_chunk() {
    let mut engine = CopyEngine::new(8, 500, false);
    assert_eq!(engine.state, EngineState::Priming);
    let buf = vec![0u8; 8];
    engine.on_chunk(&buf, 8);
    assert_eq!(engine.state, EngineState::Streaming);
}

#[test]
fn two_destinations_ten_thousand_bytes() {
    let input: Vec<u8> = (0..10_000u32).map(|i| (i % 251) as u8).collect();
    let mut engine = CopyEngine::new(4096, 500, false);
    let outs = copy_in_memory(&mut engine, &input, 2);
    assert_eq!(outs.len(), 2);
    assert_eq!(outs[0].len(), 10_000);
    assert_eq!(outs[1].len(), 10_000);
    assert_eq!(outs[0], input);
    assert_eq!(outs[1], input);
    assert_eq!(engine.total_bytes, 10_000);
    // Two full 4096-byte chunks and one 1808-byte tail.
    assert_eq!(engine.iteration, 3);
    assert_eq!(engine.state, EngineState::Drained);
}

#[test]
fn length_preserved_whatever_the_block_size() {
    let input: Vec<u8> = (0..10u8).collect();
    for blocksize in [1usize, 3, 5, 10, 16] {
        let mut engine = CopyEngine::new(blocksize, 500, false);
        let outs = copy_in_memory(&mut engine, &input, 3);
        assert_eq!(engine.total_bytes, 10);
        for out in &outs {
            assert_eq!(out.len(), input.len());
            assert_eq!(out, &input);
        }
    }
}

#[test]
fn empty_input_writes_nothing() {
    let input: Vec<u8> = Vec::new();
    let mut engine = CopyEngine::new(8192, 500, false);
    let outs = copy_in_memory(&mut engine, &input, 4);
    assert_eq!(outs.len(), 4);
    for out in &outs {
        assert!(out.is_empty());
    }
    assert_eq!(engine.iteration, 0);
    assert_eq!(engine.total_bytes, 0);
    assert_eq!(engine.state, EngineState::Drained);
}

#[test]
fn zero_destinations_is_a_quiet_run() {
    let input = vec![1u8, 2, 3];
    let mut engine = CopyEngine::new(2, 500, true);
    let outs = copy_in_memory(&mut engine, &input, 0);
    assert!(outs.is_empty());
    assert_eq!(engine.total_bytes, 3);
    assert_eq!(engine.iteration, 2);
}
