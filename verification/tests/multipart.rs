use object_store::multipart::{check_completion_list, MultipartWriter, Part, PartId, WriteOutcome};
use object_store::Error;

const MIB: usize = 1024 * 1024;

fn id_for(index: usize) -> PartId {
    PartId {
        content_id: format!("part-{index}"),
    }
}

#[test]
fn streaming_write_carves_minimum_size_parts() {
    // Write 12 MiB in three 4 MiB calls with a 5 MiB minimum part size:
    // once the accumulation reaches the minimum, the whole of it is carved.
    let mut writer = MultipartWriter::new(5 * MIB, 8);
    let mut dispatched: Vec<Part> = Vec::new();
    for _ in 0..3 {
        match writer.write(vec![7u8; 4 * MIB]) {
            WriteOutcome::Buffered => {}
            WriteOutcome::Dispatched(p) => dispatched.push(p),
            WriteOutcome::Blocked(_) => panic!("the concurrency budget should admit the upload"),
        }
    }
    let final_part = writer.close().expect("a final part");
    // exactly two uploaded parts in total
    assert_eq!(dispatched.len(), 1);
    assert_eq!(dispatched[0].index, 0);
    assert_eq!(dispatched[0].bytes.len(), 8 * MIB);
    assert!(dispatched[0].bytes.len() >= 5 * MIB);
    assert_eq!(final_part.index, 1);
    assert_eq!(final_part.bytes.len(), 4 * MIB);
    assert_eq!(dispatched[0].bytes.len() + final_part.bytes.len(), 12 * MIB);
}

#[test]
fn reconstruction_matches_written_bytes() {
    // Arbitrary write boundaries: the parts, concatenated in index order,
    // are exactly the bytes written.
    let data: Vec<u8> = (0..997u32).map(|i| (i % 251) as u8).collect();
    let min = 100;
    let mut writer = MultipartWriter::new(min, 8);
    let mut parts: Vec<Part> = Vec::new();
    for chunk in data.chunks(37) {
        match writer.write(chunk.to_vec()) {
            WriteOutcome::Buffered => {}
            WriteOutcome::Dispatched(p) => {
                // acknowledge immediately so the budget never runs out
                writer.part_uploaded(p.index, id_for(p.index));
                parts.push(p);
            }
            WriteOutcome::Blocked(_) => panic!("the concurrency budget should admit the upload"),
        }
    }
    if let Some(p) = writer.close() {
        parts.push(p);
    }
    parts.sort_by_key(|p| p.index);
    for (position, part) in parts.iter().enumerate() {
        assert_eq!(part.index, position);
        if position + 1 < parts.len() {
            assert!(part.bytes.len() >= min);
        }
    }
    let rebuilt: Vec<u8> = parts.iter().flat_map(|p| p.bytes.iter().copied()).collect();
    assert_eq!(rebuilt, data);
}

#[test]
fn zero_byte_close_emits_one_empty_final_part() {
    let mut writer = MultipartWriter::new(5 * MIB, 8);
    let part = writer.close().expect("one zero-length final part");
    assert_eq!(part.index, 0);
    assert_eq!(part.bytes.len(), 0);
    writer.part_uploaded(0, id_for(0));
    assert!(writer.can_complete());
    let ids = writer.into_result().expect("a zero-byte object completes");
    assert_eq!(ids.len(), 1);
    assert_eq!(ids[0].content_id, "part-0");
}

#[test]
fn concurrency_budget_blocks_writes() {
    // Instrumented driver: count entries minus acknowledgements and check
    // the bound is never exceeded; the writer suspends instead.
    let bound = 2;
    let mut writer = MultipartWriter::new(1, bound);
    let mut in_flight = 0usize;
    let mut max_seen = 0usize;
    for i in 0..bound {
        match writer.write(vec![1u8, 2, 3]) {
            WriteOutcome::Dispatched(p) => {
                assert_eq!(p.index, i);
                in_flight += 1;
                max_seen = max_seen.max(in_flight);
            }
            _ => panic!("the first writes must dispatch"),
        }
    }
    match writer.write(vec![9u8]) {
        WriteOutcome::Blocked(returned) => assert_eq!(returned, vec![9u8]),
        _ => panic!("the writer must suspend at the concurrency bound"),
    }
    writer.part_uploaded(0, id_for(0));
    in_flight -= 1;
    match writer.write(vec![9u8]) {
        WriteOutcome::Dispatched(p) => {
            assert_eq!(p.index, 2);
            in_flight += 1;
            max_seen = max_seen.max(in_flight);
        }
        _ => panic!("an acknowledgement frees the budget"),
    }
    assert!(max_seen <= bound);
}

#[test]
fn upload_failure_prevents_completion() {
    let mut writer = MultipartWriter::new(1, 4);
    let mut complete_calls = 0usize;
    match writer.write(vec![1u8]) {
        WriteOutcome::Dispatched(p) => assert_eq!(p.index, 0),
        _ => panic!("the write must dispatch"),
    }
    writer.record_failure(Error::Transport("part 0: connection reset".to_string()));
    assert!(writer.close().is_none());
    assert!(!writer.can_complete());
    if writer.can_complete() {
        complete_calls += 1;
    }
    assert_eq!(complete_calls, 0);
    match writer.into_result() {
        Err(Error::Transport(message)) => assert!(message.contains("part 0")),
        _ => panic!("close must fail with the first recorded failure"),
    }
}

#[test]
fn first_failure_wins() {
    let mut writer = MultipartWriter::new(1, 4);
    writer.record_failure(Error::Transport("first".to_string()));
    writer.record_failure(Error::Transport("second".to_string()));
    assert!(writer.close().is_some());
    match writer.into_result() {
        Err(Error::Transport(message)) => assert_eq!(message, "first"),
        _ => panic!("the first failure must be the one propagated"),
    }
}

#[test]
fn completion_list_sorted_despite_reverse_acknowledgement() {
    let count = 4;
    let mut writer = MultipartWriter::new(1, 8);
    for i in 0..count {
        match writer.write(vec![i as u8]) {
            WriteOutcome::Dispatched(p) => assert_eq!(p.index, i),
            _ => panic!("each write must dispatch"),
        }
    }
    assert!(writer.close().is_none());
    for i in (0..count).rev() {
        writer.part_uploaded(i, id_for(i));
    }
    let ids = writer.into_result().unwrap();
    let got: Vec<String> = ids.into_iter().map(|p| p.content_id).collect();
    let expected: Vec<String> = (0..count).map(|i| format!("part-{i}")).collect();
    assert_eq!(got, expected);
}

#[test]
fn close_with_outstanding_uploads_is_invalid() {
    let mut writer = MultipartWriter::new(1, 8);
    match writer.write(vec![1u8]) {
        WriteOutcome::Dispatched(_) => {}
        _ => panic!("the write must dispatch"),
    }
    assert!(writer.close().is_none());
    match writer.into_result() {
        Err(Error::Validation(_)) => {}
        _ => panic!("an unacknowledged part must be rejected"),
    }
}

#[test]
fn completion_list_validation() {
    assert!(check_completion_list(&vec![0, 1, 2]).is_ok());
    assert!(check_completion_list(&vec![]).is_ok());
    match check_completion_list(&vec![0, 2]) {
        Err(Error::Validation(_)) => {}
        _ => panic!("a gap must be rejected"),
    }
    match check_completion_list(&vec![1, 0]) {
        Err(Error::Validation(_)) => {}
        _ => panic!("an unsorted list must be rejected"),
    }
    match check_completion_list(&vec![0, 0, 1]) {
        Err(Error::Validation(_)) => {}
        _ => panic!("a duplicate must be rejected"),
    }
}

#[test]
fn empty_write_calls_change_nothing_material() {
    let mut writer = MultipartWriter::new(4, 8);
    match writer.write(Vec::new()) {
        WriteOutcome::Buffered => {}
        _ => panic!("an empty write below the minimum is buffered"),
    }
    match writer.write(vec![1u8, 2, 3, 4]) {
        WriteOutcome::Dispatched(p) => assert_eq!(p.bytes, vec![1u8, 2, 3, 4]),
        _ => panic!("reaching the minimum carves a part"),
    }
}
