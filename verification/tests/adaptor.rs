use async_filelike::adaptor::{Activity, Close, Flush, Outcome, Request, Seek, Step};
use async_filelike::handle::{Access, RawContainer};
use async_filelike::operation::{Direction, Happened, Next, Run};
use async_filelike::{Adaptor, Handle, SeekFrom};
use futures_lite::future::block_on;

type Object = Vec<u8>;

fn registered() -> Adaptor<Object, u32> {
    let registration: Option<Result<RawContainer, ()>> = Some(Ok(RawContainer(3)));
    match Adaptor::new(vec![], registration) {
        Ok(adaptor) => adaptor,
        Err(_) => panic!(),
    }
}

fn pooled() -> Adaptor<Object, u32> {
    Adaptor::from(Handle::new_blocking(vec![]))
}

fn started(step: Step<Object>) -> Request<Object> {
    match step {
        Step::Start(request) => request,
        _ => panic!("no request"),
    }
}

fn ended(request: Request<Object>, result: Result<usize, &'static str>) -> Outcome<Object, &'static str> {
    Outcome { io: request.io, buffer: request.buffer, offset: request.offset, result }
}

/// Write `data` to a file, of which the file takes `count` bytes.
fn write(adaptor: &mut Adaptor<Object, u32>, file: &mut Vec<u8>, data: &[u8], count: usize) {
    let request = started(adaptor.poll_write(data));
    adaptor.begin_write(1);
    assert_eq!(request.buffer, data);
    let start = request.offset as usize;
    if file.len() < start + count {
        file.resize(start + count, 0);
    }
    file[start..start + count].copy_from_slice(&request.buffer[..count]);
    assert_eq!(adaptor.end_write(ended(request, Ok(count))), Ok(count));
}

/// Read from a file into `target`.
fn read(adaptor: &mut Adaptor<Object, u32>, file: &[u8], target: &mut [u8]) -> usize {
    let mut request = started(adaptor.poll_read(target));
    adaptor.begin_read(1);
    let start = (request.offset as usize).min(file.len());
    let count = (file.len() - start).min(request.buffer.len());
    request.buffer[..count].copy_from_slice(&file[start..start + count]);
    let taken = count.min(target.len());
    assert_eq!(adaptor.end_read(ended(request, Ok(count)), target), Ok(taken));
    taken
}

#[test]
fn reads_give_back_what_was_written() {
    let mut file = vec![];
    let mut adaptor = registered();
    write(&mut adaptor, &mut file, b"Hello, world!", 13);
    assert_eq!(adaptor.poll_seek(SeekFrom::Start(0)), Seek::Moved(0));
    let mut buf = [0u8; 13];
    assert_eq!(read(&mut adaptor, &file, &mut buf), 13);
    assert_eq!(&buf, b"Hello, world!");
    assert_eq!(adaptor.poll_seek(SeekFrom::Current(0)), Seek::Moved(13));
}

#[test]
fn reads_beyond_what_was_written_give_back_the_file() {
    let mut file = b"Hello, world!".to_vec();
    let mut adaptor = registered();
    write(&mut adaptor, &mut file, b"JELL", 3);
    assert_eq!(adaptor.poll_seek(SeekFrom::Start(0)), Seek::Moved(0));
    let mut buf = [0u8; 15];
    assert_eq!(read(&mut adaptor, &file, &mut buf), 13);
    assert_eq!(&buf, b"JELlo, world!\0\0");
    assert_eq!(adaptor.poll_seek(SeekFrom::Current(0)), Seek::Moved(13));
}

#[test]
fn transfers_are_contiguous() {
    let mut file = vec![];
    let mut adaptor = registered();
    write(&mut adaptor, &mut file, b"Hello", 5);
    write(&mut adaptor, &mut file, b", world!", 7);
    write(&mut adaptor, &mut file, b"!", 1);
    assert_eq!(file, b"Hello, world!");
    assert_eq!(adaptor.poll_seek(SeekFrom::Current(-6)), Seek::Moved(7));
    let mut buf = [0u8; 3];
    assert_eq!(read(&mut adaptor, &file[..10], &mut buf), 3);
    assert_eq!(&buf, b"wor");
}

#[test]
fn short_reads_follow_longer_transfers() {
    // A write leaves a long buffer behind.
    let mut file = vec![];
    let mut adaptor = registered();
    write(&mut adaptor, &mut file, b"Hello, world!", 13);
    assert_eq!(adaptor.poll_seek(SeekFrom::Start(0)), Seek::Moved(0));
    let mut buf = [0u8; 5];
    assert_eq!(read(&mut adaptor, &file, &mut buf), 5);
    assert_eq!(&buf, b"Hello");
    assert_eq!(read(&mut adaptor, &file, &mut buf), 5);
    assert_eq!(&buf, b", wor");
    assert_eq!(read(&mut adaptor, &file, &mut buf), 3);
    assert_eq!(&buf, b"ld!or");

    // So does a read.
    let mut adaptor = registered();
    let mut long = [0u8; 4];
    assert_eq!(read(&mut adaptor, &[1, 2, 3, 4], &mut long), 4);
    assert_eq!(adaptor.poll_seek(SeekFrom::Start(0)), Seek::Moved(0));
    let mut short = [0u8; 2];
    assert_eq!(read(&mut adaptor, &[1, 2, 3, 4], &mut short), 2);
    assert_eq!(short, [1, 2]);
    assert_eq!(adaptor.poll_seek(SeekFrom::Current(0)), Seek::Moved(2));
}

#[test]
fn pending_read_ends_in_a_shorter_buffer() {
    let mut adaptor = registered();
    let mut request = started(adaptor.poll_read(&[0; 4]));
    adaptor.begin_read(1);
    assert!(matches!(adaptor.poll_read(&[0; 1]), Step::Task));
    request.buffer = vec![5, 6, 7, 8];
    let mut short = [0u8; 1];
    assert_eq!(adaptor.end_read(ended(request, Ok(4)), &mut short), Ok(1));
    assert_eq!(short, [5]);
    let request = started(adaptor.poll_read(&short));
    assert_eq!(request.offset, 1);
}

#[test]
fn seeking_before_the_first_byte_fails_and_stays() {
    let mut adaptor = registered();
    assert_eq!(adaptor.poll_seek(SeekFrom::Start(3)), Seek::Moved(3));
    assert_eq!(adaptor.poll_seek(SeekFrom::Current(-5)), Seek::Invalid);
    assert_eq!(adaptor.poll_seek(SeekFrom::Current(0)), Seek::Moved(3));
    assert_eq!(adaptor.poll_seek(SeekFrom::Current(-3)), Seek::Moved(0));
}

#[test]
fn reading_resizes_the_buffer() {
    let mut adaptor = registered();
    let mut request = started(adaptor.poll_read(&[7; 4]));
    assert_eq!(request.buffer, vec![0; 4]);
    assert_eq!(request.offset, 0);
    adaptor.begin_read(1);
    request.buffer = vec![1, 2, 3, 4];
    let mut target = [9; 6];
    assert_eq!(adaptor.end_read(ended(request, Ok(3)), &mut target), Ok(3));
    assert_eq!(target, [1, 2, 3, 9, 9, 9]);

    // A longer read keeps what is there, and a shorter one does not cut it off.
    let request = started(adaptor.poll_read(&[0; 6]));
    assert_eq!(request.buffer, vec![1, 2, 3, 4, 0, 0]);
    assert_eq!(request.offset, 3);
    adaptor.begin_read(2);
    assert_eq!(adaptor.end_read(ended(request, Ok(0)), &mut target), Ok(0));
    let request = started(adaptor.poll_read(&[0; 2]));
    assert_eq!(request.buffer.len(), 6);
    assert_eq!(request.offset, 3);
}

#[test]
fn writing_replaces_the_buffer() {
    let mut adaptor = registered();
    let request = started(adaptor.poll_write(&[1, 2, 3]));
    adaptor.begin_write(1);
    assert_eq!(adaptor.end_write(ended(request, Ok(3))), Ok(3));
    let request = started(adaptor.poll_write(&[4]));
    assert_eq!(request.buffer, vec![4]);
    assert_eq!(request.offset, 3);
}

#[test]
fn failed_transfers_stay() {
    let mut adaptor = registered();
    assert_eq!(adaptor.poll_seek(SeekFrom::Start(5)), Seek::Moved(5));
    let mut target = [9; 2];
    let request = started(adaptor.poll_read(&target));
    adaptor.begin_read(1);
    assert_eq!(adaptor.end_read(ended(request, Err("failed")), &mut target), Err("failed"));
    assert_eq!(target, [9, 9]);
    let request = started(adaptor.poll_write(&[1]));
    assert_eq!(request.offset, 5);
    adaptor.begin_write(1);
    assert_eq!(adaptor.end_write(ended(request, Err("failed"))), Err("failed"));
    assert_eq!(adaptor.poll_seek(SeekFrom::Current(0)), Seek::Moved(5));
}

#[test]
fn position_stops_at_the_end() {
    let mut adaptor = registered();
    assert_eq!(adaptor.poll_seek(SeekFrom::Start(u64::MAX - 1)), Seek::Moved(u64::MAX - 1));
    let request = started(adaptor.poll_write(&[1, 2, 3]));
    adaptor.begin_write(1);
    assert_eq!(adaptor.end_write(ended(request, Ok(3))), Ok(3));
    assert_eq!(adaptor.poll_seek(SeekFrom::Current(0)), Seek::Moved(u64::MAX));
}

#[test]
fn pending_task_is_polled_again() {
    let mut adaptor = registered();
    assert_eq!(adaptor.activity(), Activity::Idle);
    let request = started(adaptor.poll_read(&[0; 2]));
    assert_eq!(adaptor.activity(), Activity::Hole(Direction::Read));
    adaptor.begin_read(41);
    assert_eq!(adaptor.activity(), Activity::Reading);
    assert!(matches!(adaptor.poll_read(&[0; 2]), Step::Task));
    match adaptor.task() {
        Some(task) => *task += 1,
        None => panic!(),
    }
    assert_eq!(adaptor.task(), Some(&mut 42));
    assert!(adaptor.inner().is_none());
    assert_eq!(adaptor.end_read(ended(request, Ok(0)), &mut []), Ok(0));
    assert_eq!(adaptor.activity(), Activity::Idle);
    assert!(adaptor.task().is_none());

    let _request = started(adaptor.poll_write(&[0; 2]));
    assert_eq!(adaptor.activity(), Activity::Hole(Direction::Write));
    adaptor.begin_write(7);
    assert_eq!(adaptor.activity(), Activity::Writing);
    assert!(matches!(adaptor.poll_write(&[0; 2]), Step::Task));
    assert_eq!(adaptor.task(), Some(&mut 7));
}

#[test]
fn pooled_adaptor_delegates() {
    let mut adaptor = pooled();
    assert!(matches!(adaptor.poll_read(&[0; 2]), Step::Pool));
    assert!(matches!(adaptor.poll_write(&[0; 2]), Step::Pool));
    assert_eq!(adaptor.poll_seek(SeekFrom::Start(4)), Seek::Pool);
    assert_eq!(adaptor.poll_seek(SeekFrom::End(0)), Seek::Pool);
    assert_eq!(adaptor.poll_flush(), Flush::Pool);
    assert_eq!(adaptor.poll_close(), Close::Pool);
    assert_eq!(adaptor.activity(), Activity::Idle);
    match adaptor.inner() {
        Some(Access::Pool(pool)) => assert_eq!(block_on(pool.get_mut()).len(), 0),
        _ => panic!(),
    }
}

#[test]
fn registered_adaptor_flushes_the_object_and_closes_at_once() {
    let mut adaptor = registered();
    assert_eq!(adaptor.poll_flush(), Flush::Object);
    assert_eq!(adaptor.poll_close(), Close::Closed);
    match adaptor.inner() {
        Some(Access::Object(object)) => object.push(1),
        _ => panic!(),
    }
    match adaptor.inner() {
        Some(Access::Object(object)) => assert_eq!(object, &vec![1]),
        _ => panic!(),
    }
}

#[test]
fn seeks_move_the_next_transfer() {
    let mut adaptor = registered();
    assert_eq!(adaptor.poll_seek(SeekFrom::Start(100)), Seek::Moved(100));
    assert_eq!(adaptor.poll_seek(SeekFrom::Current(-30)), Seek::Moved(70));
    assert_eq!(adaptor.poll_seek(SeekFrom::Current(30)), Seek::Moved(100));
    assert_eq!(adaptor.poll_seek(SeekFrom::End(0)), Seek::Unsupported);
    assert_eq!(started(adaptor.poll_read(&[])).offset, 100);
}

#[test]
fn adaptors_with_capacity_start_out_empty() {
    let registration: Option<Result<RawContainer, ()>> = Some(Ok(RawContainer(4)));
    let mut adaptor: Adaptor<Object, u32> = match Adaptor::with_capacity(64, vec![], registration) {
        Ok(adaptor) => adaptor,
        Err(_) => panic!(),
    };
    let request = started(adaptor.poll_read(&[]));
    assert_eq!(request.buffer.len(), 0);
    assert_eq!(request.offset, 0);
    assert_eq!(request.io.raw(), Some(RawContainer(4)));

    let mut adaptor: Adaptor<Object, u32> =
        Adaptor::with_handle_and_capacity(64, Handle::new_blocking(vec![]));
    assert!(matches!(adaptor.poll_read(&[]), Step::Pool));
}

#[test]
fn capacity_changes_no_result() {
    let mut results = vec![];
    for capacity in [0usize, 1, 64] {
        let registration: Option<Result<RawContainer, ()>> = Some(Ok(RawContainer(3)));
        let mut adaptor: Adaptor<Object, u32> =
            match Adaptor::with_capacity(capacity, vec![], registration) {
                Ok(adaptor) => adaptor,
                Err(_) => panic!(),
            };
        let mut file = vec![];
        write(&mut adaptor, &mut file, b"abcdef", 6);
        let seek = adaptor.poll_seek(SeekFrom::Current(-4));
        let mut buf = [0u8; 3];
        let count = read(&mut adaptor, &file, &mut buf);
        results.push((file, seek, count, buf));
    }
    let expected = (b"abcdef".to_vec(), Seek::Moved(2), 3, *b"cde");
    assert_eq!(results, vec![expected.clone(), expected.clone(), expected]);
}

#[test]
fn buffers_are_made_for_the_capacity() {
    let registration: Option<Result<RawContainer, ()>> = Some(Ok(RawContainer(3)));
    let mut adaptor: Adaptor<Object, u32> = match Adaptor::with_capacity(64, vec![], registration) {
        Ok(adaptor) => adaptor,
        Err(_) => panic!(),
    };
    let request = started(adaptor.poll_read(&[0; 10]));
    let room = request.buffer.capacity();
    assert!(room >= 64);
    adaptor.begin_read(1);
    assert_eq!(adaptor.end_read(ended(request, Ok(10)), &mut [0; 10]), Ok(10));
    let request = started(adaptor.poll_write(&[1; 64]));
    assert_eq!((request.buffer.len(), request.buffer.capacity()), (64, room));
    adaptor.begin_write(2);
    assert_eq!(adaptor.end_write(ended(request, Ok(64))), Ok(64));
    let request = started(adaptor.poll_read(&[0; 20]));
    assert_eq!((request.buffer.len(), request.buffer.capacity()), (64, room));
}

#[test]
fn failed_registration_gives_no_adaptor() {
    assert!(matches!(Adaptor::<Object, u32>::new(vec![], Some(Err(5))), Err(5)));
    assert!(matches!(Adaptor::<Object, u32>::with_capacity(usize::MAX, vec![], Some(Err(6))), Err(6)));
    let adaptor: Result<Adaptor<Object, u32>, ()> = Adaptor::new(vec![], None);
    assert!(matches!(adaptor, Ok(adaptor) if adaptor.poll_close() == Close::Pool));
}

#[test]
fn writes_and_reads_reach_the_queue() {
    let mut adaptor = registered();
    assert_eq!(adaptor.poll_seek(SeekFrom::Start(20)), Seek::Moved(20));
    let request = started(adaptor.poll_write(&[1, 2]));
    let (run, _): (Run<Object, ()>, Next<Object, (), ()>) =
        request.io.write_from(request.buffer, request.offset);
    match run.step::<()>(Happened::Keyed(5)).1 {
        Next::Submit { key, raw, transfer } => {
            assert_eq!((key, raw), (5, RawContainer(3)));
            assert_eq!((transfer.direction, transfer.offset), (Direction::Write, 20));
            assert_eq!(transfer.buffer.get(), Some(&vec![1, 2]));
        }
        _ => panic!(),
    }

    let mut adaptor = registered();
    assert_eq!(adaptor.poll_seek(SeekFrom::Start(30)), Seek::Moved(30));
    let request = started(adaptor.poll_read(&[9; 3]));
    let (run, _): (Run<Object, ()>, Next<Object, (), ()>) =
        request.io.read_into(request.buffer, request.offset);
    match run.step::<()>(Happened::Keyed(6)).1 {
        Next::Submit { key, raw, transfer } => {
            assert_eq!((key, raw), (6, RawContainer(3)));
            assert_eq!((transfer.direction, transfer.offset), (Direction::Read, 30));
            assert_eq!(transfer.buffer.get(), Some(&vec![0, 0, 0]));
        }
        _ => panic!(),
    }
}
