use badcat::stream::{ByteSink, ByteSource, MemSink, MemSource};

#[test]
fn sink_appends_in_order() {
    let mut sink = MemSink::new();
    assert_eq!(sink.write(&[1, 2]), Ok(2));
    assert_eq!(sink.write(&[]), Ok(0));
    assert_eq!(sink.write(&[3]), Ok(1));
    assert_eq!(sink.into_inner(), vec![1, 2, 3]);
}

#[test]
fn sink_writes_all_or_nothing() {
    let mut sink = MemSink::with_limit(3);
    assert_eq!(sink.write(&[1, 2]), Ok(2));
    assert_eq!(sink.write(&[3, 4]), Err(()));
    assert_eq!(sink.write(&[5]), Ok(1));
    assert_eq!(sink.write(&[6]), Err(()));
    assert_eq!(sink.write(&[]), Ok(0));
    assert_eq!(sink.into_inner(), vec![1, 2, 5]);
}

#[test]
fn sink_without_room_takes_only_nothing() {
    let mut sink = MemSink::with_limit(0);
    assert_eq!(sink.write(&[9]), Err(()));
    assert_eq!(sink.write(&[]), Ok(0));
    assert_eq!(sink.into_inner(), Vec::<u8>::new());
}

#[test]
fn source_hands_out_from_the_front() {
    let mut source = MemSource::new(vec![1, 2, 3, 4, 5]);
    assert_eq!(source.remaining(), 5);
    assert_eq!(source.read(2), Ok(vec![1, 2]));
    assert_eq!(source.remaining(), 3);
    assert_eq!(source.read(0), Ok(vec![]));
    assert_eq!(source.remaining(), 3);
    assert_eq!(source.read(7), Ok(vec![3, 4, 5]));
    assert_eq!(source.remaining(), 0);
    assert_eq!(source.read(1), Ok(vec![]));
}

#[test]
fn empty_source_reads_nothing() {
    let mut source = MemSource::new(Vec::new());
    assert_eq!(source.remaining(), 0);
    assert_eq!(source.read(3), Ok(vec![]));
    assert_eq!(source.read(usize::MAX), Ok(vec![]));
}
