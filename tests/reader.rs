use spill_reader::descriptor::{
    decode_descriptor, deserialize, requires_fetch, SerializedPayload, SpillDescriptor,
    SpilledPayload,
};
use spill_reader::error::SpillError;
use spill_reader::fetch::{fetch_locations, join_reads};
use spill_reader::layout::split_columns;
use spill_reader::port::{DataBatch, InputPort, OutputPort};
use spill_reader::processor::{Event, Pending, TransformSpillReader};

fn bytes(n: u8) -> Vec<u8> {
    (0..n).map(|i| i * 3 + 1).collect()
}

fn on_disk(bucket: isize, location: &str, layout: Vec<usize>) -> SpillDescriptor {
    SpillDescriptor::OnDisk(SpilledPayload {
        bucket,
        location: location.to_string(),
        columns_layout: layout,
    })
}

fn resident(bucket: isize, columns: Vec<Vec<u8>>) -> SpillDescriptor {
    SpillDescriptor::InMemorySerialized(SerializedPayload { bucket, columns })
}

fn partitioned_seven() -> SpillDescriptor {
    SpillDescriptor::Partitioned {
        bucket: 7,
        parts: vec![
            on_disk(7, "p0", vec![2, 5]),
            resident(7, vec![vec![9, 9]]),
            on_disk(7, "p2", vec![3]),
        ],
    }
}

fn plain_batch(tag: u8) -> DataBatch {
    DataBatch { columns: vec![vec![tag, tag]], meta: None }
}

#[test]
fn split_columns_cuts_at_cumulative_offsets() {
    let b = bytes(10);
    let cols = split_columns(&b, &vec![4, 10]).unwrap();
    assert_eq!(cols, vec![b[0..4].to_vec(), b[4..10].to_vec()]);
}

#[test]
fn split_columns_empty_layout_and_buffer() {
    assert_eq!(split_columns(&vec![], &vec![]), Some(vec![]));
    assert_eq!(split_columns(&vec![1], &vec![]), None);
}

#[test]
fn split_columns_rejects_bad_layouts() {
    let b = bytes(10);
    // final offset short of the buffer
    assert_eq!(split_columns(&b, &vec![4, 9]), None);
    // final offset past the buffer
    assert_eq!(split_columns(&b, &vec![4, 11]), None);
    // offsets not strictly increasing
    assert_eq!(split_columns(&b, &vec![4, 4, 10]), None);
    assert_eq!(split_columns(&b, &vec![6, 4, 10]), None);
    // an empty first column
    assert_eq!(split_columns(&b, &vec![0, 10]), None);
}

#[test]
fn round_trip_reproduces_buffer_and_layout() {
    let b = bytes(12);
    let layout = vec![1, 5, 12];
    let cols = split_columns(&b, &layout).unwrap();
    let rebuilt: Vec<u8> = cols.concat();
    assert_eq!(rebuilt, b);
    let mut ends = Vec::new();
    let mut total = 0;
    for c in &cols {
        total += c.len();
        ends.push(total);
    }
    assert_eq!(ends, layout);
}

#[test]
fn deserialize_keeps_bucket() {
    let b = bytes(6);
    let payload = SpilledPayload { bucket: -2, location: "x".to_string(), columns_layout: vec![6] };
    assert_eq!(deserialize(payload, &b), Some(resident(-2, vec![b.clone()])));
    let payload = SpilledPayload { bucket: -2, location: "x".to_string(), columns_layout: vec![5] };
    assert_eq!(deserialize(payload, &b), None);
}

#[test]
fn requires_fetch_cases() {
    assert!(requires_fetch(&on_disk(1, "a", vec![1])));
    assert!(requires_fetch(&partitioned_seven()));
    assert!(!requires_fetch(&resident(1, vec![])));
    assert!(!requires_fetch(&SpillDescriptor::InMemory));
    assert!(!requires_fetch(&SpillDescriptor::CurrentlySpilling));
    let all_resident = SpillDescriptor::Partitioned {
        bucket: 1,
        parts: vec![resident(1, vec![]), SpillDescriptor::InMemory],
    };
    assert!(!requires_fetch(&all_resident));
}

#[test]
fn fetch_locations_in_part_order() {
    assert_eq!(fetch_locations(&on_disk(3, "spill/3", vec![4, 10])), vec!["spill/3".to_string()]);
    assert_eq!(
        fetch_locations(&partitioned_seven()),
        vec!["p0".to_string(), "p2".to_string()]
    );
    assert_eq!(fetch_locations(&resident(1, vec![])), Vec::<String>::new());
}

#[test]
fn join_reads_outcomes() {
    assert_eq!(
        join_reads(Ok(vec![Ok(vec![1]), Ok(vec![2, 3])])),
        Ok(vec![vec![1], vec![2, 3]])
    );
    assert_eq!(
        join_reads(Ok(vec![Ok(vec![1]), Err("first".to_string()), Err("second".to_string())])),
        Err(SpillError::StorageRead("first".to_string()))
    );
    assert_eq!(
        join_reads(Err("worker gone".to_string())),
        Err(SpillError::Join("worker gone".to_string()))
    );
}

#[test]
fn decode_partitioned_replaces_on_disk_parts_in_place() {
    let b0 = bytes(5);
    let b2 = bytes(3);
    let out = decode_descriptor(partitioned_seven(), &vec![b0.clone(), b2.clone()]).unwrap();
    assert_eq!(
        out,
        SpillDescriptor::Partitioned {
            bucket: 7,
            parts: vec![
                resident(7, vec![b0[0..2].to_vec(), b0[2..5].to_vec()]),
                resident(7, vec![vec![9, 9]]),
                resident(7, vec![b2.clone()]),
            ],
        }
    );
}

#[test]
fn decode_partitioned_fails_on_bad_buffer() {
    assert_eq!(decode_descriptor(partitioned_seven(), &vec![bytes(5), bytes(4)]), None);
}

#[test]
fn pass_through_and_spilled_batch_in_order() {
    let mut reader = TransformSpillReader::create();
    let mut input = InputPort::create();
    let mut output = OutputPort::create();
    let b = bytes(10);

    // batch A, no descriptor
    input.push_data(plain_batch(1));
    assert_eq!(reader.event(&mut input, &mut output), Event::NeedConsume);
    assert_eq!(output.pull_data(), Some(plain_batch(1)));

    // batch B, spilled
    input.push_data(DataBatch { columns: vec![], meta: Some(on_disk(3, "spill/3", vec![4, 10])) });
    assert_eq!(reader.event(&mut input, &mut output), Event::Async);
    assert!(!input.need_data);
    assert_eq!(reader.fetch_request(), Some(vec!["spill/3".to_string()]));
    assert_eq!(reader.on_fetched(Ok(vec![Ok(b.clone())])), Ok(()));
    assert_eq!(reader.event(&mut input, &mut output), Event::Sync);
    assert_eq!(reader.process(), Ok(()));
    assert_eq!(reader.event(&mut input, &mut output), Event::NeedConsume);
    let out = output.pull_data().unwrap();
    assert!(out.columns.is_empty());
    assert_eq!(out.meta, Some(resident(3, vec![b[0..4].to_vec(), b[4..10].to_vec()])));

    // nothing left: ask for input, then drain
    assert_eq!(reader.event(&mut input, &mut output), Event::NeedData);
    assert!(input.need_data);
    input.finish();
    assert_eq!(reader.event(&mut input, &mut output), Event::Finished);
    assert!(output.finished);
}

#[test]
fn partitioned_fan_out_decodes_in_order() {
    let mut reader = TransformSpillReader::create();
    let mut input = InputPort::create();
    let mut output = OutputPort::create();
    let b0 = bytes(5);
    let b2 = bytes(3);

    input.push_data(DataBatch { columns: vec![], meta: Some(partitioned_seven()) });
    assert_eq!(reader.event(&mut input, &mut output), Event::Async);
    assert_eq!(reader.fetch_request(), Some(vec!["p0".to_string(), "p2".to_string()]));
    assert_eq!(reader.on_fetched(Ok(vec![Ok(b0.clone()), Ok(b2.clone())])), Ok(()));
    assert_eq!(reader.process(), Ok(()));
    assert_eq!(reader.event(&mut input, &mut output), Event::NeedConsume);
    let out = output.pull_data().unwrap();
    assert_eq!(
        out.meta,
        Some(SpillDescriptor::Partitioned {
            bucket: 7,
            parts: vec![
                resident(7, vec![b0[0..2].to_vec(), b0[2..5].to_vec()]),
                resident(7, vec![vec![9, 9]]),
                resident(7, vec![b2.clone()]),
            ],
        })
    );
}

#[test]
fn failed_read_fails_the_stage_without_output() {
    let mut reader = TransformSpillReader::create();
    let mut input = InputPort::create();
    let mut output = OutputPort::create();

    input.push_data(DataBatch { columns: vec![], meta: Some(partitioned_seven()) });
    assert_eq!(reader.event(&mut input, &mut output), Event::Async);
    let r = reader.on_fetched(Ok(vec![Ok(bytes(5)), Err("p2 unreadable".to_string())]));
    assert_eq!(r, Err(SpillError::StorageRead("p2 unreadable".to_string())));
    assert!(matches!(reader.pending, Pending::Nothing));
    assert_eq!(reader.process(), Ok(()));
    assert_eq!(reader.event(&mut input, &mut output), Event::NeedData);
    assert_eq!(output.slot, None);
}

#[test]
fn join_failure_is_reported_distinctly() {
    let mut reader = TransformSpillReader::create();
    let mut input = InputPort::create();
    let mut output = OutputPort::create();
    input.push_data(DataBatch { columns: vec![], meta: Some(partitioned_seven()) });
    assert_eq!(reader.event(&mut input, &mut output), Event::Async);
    let r = reader.on_fetched(Err("task panicked".to_string()));
    assert_eq!(r, Err(SpillError::Join("task panicked".to_string())));
    assert!(matches!(reader.pending, Pending::Nothing));
}

#[test]
fn malformed_buffer_is_a_decode_error() {
    let mut reader = TransformSpillReader::create();
    let mut input = InputPort::create();
    let mut output = OutputPort::create();
    input.push_data(DataBatch { columns: vec![], meta: Some(on_disk(3, "spill/3", vec![4, 10])) });
    assert_eq!(reader.event(&mut input, &mut output), Event::Async);
    assert_eq!(reader.on_fetched(Ok(vec![Ok(bytes(9))])), Ok(()));
    assert_eq!(reader.process(), Err(SpillError::Decode));
    assert_eq!(SpillError::Decode.message(), "spilled buffer does not match its column layout");
    assert!(matches!(reader.pending, Pending::Nothing));
    assert_eq!(reader.event(&mut input, &mut output), Event::NeedData);
    assert_eq!(output.slot, None);
}

#[test]
fn finished_downstream_finishes_upstream() {
    let mut reader = TransformSpillReader::create();
    let mut input = InputPort::create();
    let mut output = OutputPort::create();
    output.finish();
    input.push_data(DataBatch { columns: vec![], meta: Some(on_disk(3, "spill/3", vec![4, 10])) });
    assert_eq!(reader.event(&mut input, &mut output), Event::Finished);
    assert!(input.finished);
    assert!(input.has_data());
    assert!(matches!(reader.pending, Pending::Nothing));
    assert_eq!(reader.fetch_request(), None);
    assert_eq!(reader.event(&mut input, &mut output), Event::Finished);
}

#[test]
fn finished_downstream_while_fetch_pending() {
    let mut reader = TransformSpillReader::create();
    let mut input = InputPort::create();
    let mut output = OutputPort::create();
    input.push_data(DataBatch { columns: vec![], meta: Some(on_disk(3, "spill/3", vec![4, 10])) });
    assert_eq!(reader.event(&mut input, &mut output), Event::Async);
    output.finish();
    assert_eq!(reader.event(&mut input, &mut output), Event::Finished);
    assert!(input.finished);
}

#[test]
fn resident_descriptors_pass_through_unchanged_and_in_order() {
    let mut reader = TransformSpillReader::create();
    let mut input = InputPort::create();
    let mut output = OutputPort::create();
    let first = DataBatch { columns: vec![vec![1]], meta: Some(resident(4, vec![vec![5, 6]])) };
    let second = DataBatch {
        columns: vec![],
        meta: Some(SpillDescriptor::Partitioned { bucket: 2, parts: vec![resident(2, vec![vec![1]])] }),
    };
    input.push_data(first);
    assert_eq!(reader.event(&mut input, &mut output), Event::NeedConsume);
    // downstream has not drained: backpressure, nothing pulled
    input.push_data(second);
    assert_eq!(reader.event(&mut input, &mut output), Event::NeedConsume);
    assert!(input.has_data());
    assert_eq!(
        output.pull_data(),
        Some(DataBatch { columns: vec![vec![1]], meta: Some(resident(4, vec![vec![5, 6]])) })
    );
    assert_eq!(reader.event(&mut input, &mut output), Event::NeedConsume);
    assert_eq!(
        output.pull_data(),
        Some(DataBatch {
            columns: vec![],
            meta: Some(SpillDescriptor::Partitioned { bucket: 2, parts: vec![resident(2, vec![vec![1]])] }),
        })
    );
}

#[test]
fn reader_name() {
    assert_eq!(TransformSpillReader::create().name(), "TransformSpillReader");
}
