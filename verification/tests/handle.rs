use async_filelike::handle::{Access, Inner, RawContainer};
use async_filelike::operation::{
    transferred, Direction, Happened, MovableBuf, Next, Positioned, Run, Transfer,
};
use async_filelike::{Handle, SeekFrom};
use futures_lite::future::block_on;

type Started = (Run<Vec<u8>, &'static str>, Next<Vec<u8>, &'static str, &'static str>);

fn registered() -> Handle<String> {
    let registration: Option<Result<RawContainer, ()>> = Some(Ok(RawContainer(3)));
    match Handle::new(String::from("object"), registration) {
        Ok(handle) => handle,
        Err(_) => panic!(),
    }
}

#[test]
fn blocking_handle_wraps_the_object_for_the_pool() {
    let handle = Handle::new_blocking(String::from("object"));
    assert!(handle.is_blocking());
    assert!(handle.raw().is_none());
    match handle.into_inner() {
        Inner::Pool(pool) => assert_eq!(block_on(pool.into_inner()), "object"),
        Inner::Object(_) => panic!(),
    }
}

#[test]
fn handle_without_a_queue_is_blocking() {
    let mut handle = match Handle::<String>::new::<()>(String::from("object"), None) {
        Ok(handle) => handle,
        Err(_) => panic!(),
    };
    match handle.get_mut() {
        Access::Pool(pool) => block_on(pool.get_mut()).push('s'),
        Access::Object(_) => panic!(),
    }
    match handle.into_inner() {
        Inner::Pool(pool) => assert_eq!(block_on(pool.into_inner()), "objects"),
        Inner::Object(_) => panic!(),
    }
}

#[test]
fn registered_object_comes_back() {
    let mut handle = registered();
    assert!(!handle.is_blocking());
    assert_eq!(handle.raw().map(|raw| raw.as_raw()), Some(3));
    match handle.get_mut() {
        Access::Object(object) => object.push('s'),
        Access::Pool(_) => panic!(),
    }
    match handle.into_inner() {
        Inner::Object(object) => assert_eq!(object, "objects"),
        Inner::Pool(_) => panic!(),
    }
}

#[test]
fn failed_registration_gives_no_handle() {
    assert!(matches!(Handle::new(5, Some(Err("refused"))), Err("refused")));
}

#[test]
fn pooled_read_is_handed_over_and_returned() {
    let handle = Handle::new_blocking(String::from("object"));
    let (run, next): Started = handle.read_into(vec![0; 4], 7);
    match next {
        Next::RunOnPool(transfer) => {
            assert_eq!(transfer.direction, Direction::Read);
            assert_eq!(transfer.buffer, vec![0; 4]);
            assert_eq!(transfer.offset, 7);
        }
        _ => panic!(),
    }
    let (run, next): Started = run.step(Happened::Ran(vec![1, 2], Ok(2)));
    assert!(matches!(run, Run::Finished));
    match next {
        Next::Return(buffer, result) => assert_eq!((buffer, result), (vec![1, 2], Ok(2))),
        _ => panic!(),
    }
}

#[test]
fn submitted_write_completes() {
    let (run, next): Started = registered().write_from(vec![1, 2, 3], 7);
    assert!(matches!(next, Next::GetKey));
    let (run, next): Started = run.step(Happened::Keyed(42));
    match next {
        Next::Submit { key, raw, mut transfer } => {
            assert_eq!((key, raw.as_raw()), (42, 3));
            assert_eq!(transfer.direction, Direction::Write);
            assert_eq!(transfer.offset, 7);
            assert_eq!(transfer.buffer.get(), Some(&vec![1, 2, 3]));
            assert_eq!(transfer.buffer.take(), Some(vec![1, 2, 3]));
        }
        _ => panic!(),
    }
    let (run, next): Started = run.step(Happened::Submitted(Ok(())));
    assert!(matches!(next, Next::Wait(42)));
    let (run, next): Started = run.step(Happened::Waited(Ok("completion")));
    assert!(matches!(next, Next::Unlock("completion")));
    let (run, next): Started = run.step(Happened::Unlocked(vec![1, 2, 3], Ok(2)));
    assert!(matches!(run, Run::Finished));
    match next {
        Next::Return(buffer, result) => assert_eq!((buffer, result), (vec![1, 2, 3], Ok(2))),
        _ => panic!(),
    }
}

#[test]
fn completion_can_carry_an_error() {
    let run: Run<Vec<u8>, &'static str> = Run::Unlocking;
    let (_, next): Started = run.step(Happened::Unlocked(vec![5], Err("failed")));
    match next {
        Next::Return(buffer, result) => assert_eq!((buffer, result), (vec![5], Err("failed"))),
        _ => panic!(),
    }
}

#[test]
fn refused_submission_is_waited_for_all_the_same() {
    let run: Run<Vec<u8>, &'static str> = Run::Submitting { key: 42 };
    let (run, next): Started = run.step(Happened::Submitted(Err("refused")));
    assert!(matches!(run, Run::Waiting { key: 42 }));
    assert!(matches!(next, Next::Wait(42)));
}

#[test]
fn failed_wait_cancels_and_gives_the_buffer_back() {
    let run: Run<Vec<u8>, &'static str> = Run::Waiting { key: 42 };
    let (run, next): Started = run.step(Happened::Waited(Err("broken")));
    assert!(matches!(next, Next::Cancel));
    let (run, next): Started = run.step(Happened::Cancelled(vec![9]));
    assert!(matches!(run, Run::Finished));
    match next {
        Next::Return(buffer, result) => assert_eq!((buffer, result), (vec![9], Err("broken"))),
        _ => panic!(),
    }
}

#[test]
fn counts_keep_their_bits() {
    assert_eq!(transferred(0), 0);
    assert_eq!(transferred(13), 13);
    assert_eq!(transferred(isize::MAX), isize::MAX as usize);
    assert_eq!(transferred(-1), usize::MAX);
    assert_eq!(transferred(isize::MIN), 1usize << (usize::BITS - 1));
}

#[test]
fn pool_moves_before_it_reads() {
    let transfer = Transfer { direction: Direction::Read, buffer: "buffer", offset: 12 };
    assert_eq!(transfer.target(), SeekFrom::Start(12));
    match transfer.sought::<()>(Ok(Some(12))) {
        Positioned::Perform(transfer) => assert_eq!((transfer.buffer, transfer.offset), ("buffer", 12)),
        Positioned::Fail(..) => panic!(),
    }
}

#[test]
fn object_that_ignores_seeking_is_read_where_it_stands() {
    let transfer = Transfer { direction: Direction::Write, buffer: "buffer", offset: 12 };
    assert!(matches!(transfer.sought::<()>(Ok(None)), Positioned::Perform(_)));
}

#[test]
fn failed_seek_gives_the_buffer_back() {
    let transfer = Transfer { direction: Direction::Read, buffer: "buffer", offset: 12 };
    assert!(matches!(transfer.sought(Err("pipe")), Positioned::Fail("buffer", "pipe")));
}

#[test]
fn buffer_moves_out_once() {
    let mut movable = MovableBuf::from(vec![1]);
    assert_eq!(movable.get(), Some(&vec![1]));
    assert_eq!(movable.take(), Some(vec![1]));
    assert_eq!(movable.get(), None);
    assert_eq!(movable.take(), None);
}
