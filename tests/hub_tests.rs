use iot_telemetry::hub::{batch_of, Batcher, HubAction, StagingBuffer, BUFFER_KEY};

#[test]
fn batching_boundary() {
    let mut buffer = StagingBuffer::new(Batcher::new(3).unwrap());
    assert_eq!(buffer.push("A"), None);
    assert_eq!(buffer.push("B"), None);
    assert_eq!(buffer.len(), 2);
    assert_eq!(buffer.push("C"), Some(vec!["A", "B", "C"]));
    assert_eq!(buffer.len(), 0);
}

#[test]
fn batches_keep_arrival_order_and_leave_the_remainder() {
    for k in 1..=5usize {
        for n in 0..=13usize {
            let mut buffer = StagingBuffer::new(Batcher::new(k).unwrap());
            let mut batches: Vec<Vec<usize>> = Vec::new();
            for r in 0..n {
                if let Some(b) = buffer.push(r) {
                    batches.push(b);
                }
            }
            assert_eq!(batches.len(), n / k);
            for (i, b) in batches.iter().enumerate() {
                assert_eq!(*b, (i * k..i * k + k).collect::<Vec<_>>());
            }
            assert_eq!(buffer.len(), n % k);
        }
    }
}

#[test]
fn plan_flushes_when_the_record_completes_a_batch() {
    let b = Batcher::new(3).unwrap();
    assert_eq!(b.batch_size(), 3);
    assert_eq!(b.plan(0), HubAction::Push);
    assert_eq!(b.plan(1), HubAction::Push);
    assert_eq!(b.plan(2), HubAction::Flush { pop: 2 });
    assert_eq!(b.plan(9), HubAction::Flush { pop: 2 });
    let one = Batcher::new(1).unwrap();
    assert_eq!(one.plan(0), HubAction::Flush { pop: 0 });
}

#[test]
fn zero_batch_size_is_refused() {
    assert!(Batcher::new(0).is_none());
}

#[test]
fn batch_ends_with_the_trigger() {
    assert_eq!(batch_of(vec![1, 2], 3), vec![1, 2, 3]);
    assert_eq!(batch_of(Vec::new(), 9), vec![9]);
    assert_eq!(BUFFER_KEY, "processed_agent_data");
}
