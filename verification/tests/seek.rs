use async_filelike::seek::{advance, displace};
use async_filelike::{MaybeSeek, SeekFrom, WontSeek};

#[test]
fn wont_seek_ignores_seeking() {
    let mut object = WontSeek::from(5u8);
    assert!(matches!(object.seek(SeekFrom::Start(17)), Ok(None)));
    assert!(matches!(object.seek(SeekFrom::End(-1)), Ok(None)));
    assert!(matches!(object.seek(SeekFrom::Current(3)), Ok(None)));
    assert_eq!(object, WontSeek(5));
}

#[test]
fn wont_seek_gives_access_to_the_object() {
    let mut object = WontSeek(vec![1]);
    object.push(2);
    assert_eq!(*object, vec![1, 2]);
    assert_eq!(object.len(), 2);
}

#[test]
fn advancing_stops_at_the_last_position() {
    assert_eq!(advance(10, 13), 23);
    assert_eq!(advance(10, 0), 10);
    assert_eq!(advance(u64::MAX - 3, 3), u64::MAX);
    assert_eq!(advance(u64::MAX - 3, 4), u64::MAX);
    assert_eq!(advance(advance(7, 5), 6), advance(7, 11));
}

#[test]
fn displacing_adds_and_subtracts() {
    assert_eq!(displace(100, 20), Some(120));
    assert_eq!(displace(100, -20), Some(80));
    assert_eq!(displace(80, 20), Some(100));
    assert_eq!(displace(100, -100), Some(0));
    assert_eq!(displace(0, i64::MAX), Some(i64::MAX as u64));
}

#[test]
fn displacing_by_nothing_stays() {
    for offset in [0, 1, i64::MAX as u64, 1 << 63, u64::MAX] {
        assert_eq!(displace(offset, 0), Some(offset));
    }
}

#[test]
fn displacing_before_the_first_byte_fails() {
    assert_eq!(displace(0, -1), None);
    assert_eq!(displace(3, -5), None);
    assert_eq!(displace(10, i64::MIN), None);
    assert_eq!(displace(i64::MAX as u64, i64::MIN), None);
    assert_eq!(displace(1 << 63, i64::MIN), Some(0));
}

#[test]
fn displacing_saturates() {
    assert_eq!(displace(i64::MAX as u64, 1), Some(i64::MAX as u64));
    assert_eq!(displace(5, i64::MAX), Some(i64::MAX as u64));
    assert_eq!(displace(u64::MAX, 1), Some(u64::MAX));
    for (offset, delta) in [(5u64, -4i64), (5, 7), (7, i64::MAX), (i64::MAX as u64, 1)] {
        assert_eq!(displace(offset, delta), Some((offset as i64).saturating_add(delta) as u64));
    }
}

#[test]
fn displacing_keeps_its_direction_beyond_signed_positions() {
    assert_eq!(displace(1 << 63, -1), Some((1 << 63) - 1));
    assert_eq!(displace((1 << 63) + 5, 1), Some((1 << 63) + 6));
    assert_eq!(displace(u64::MAX, -1), Some(u64::MAX - 1));
}
