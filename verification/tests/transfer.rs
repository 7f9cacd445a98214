use dronecan::Error;
use dronecan::Tail;
use dronecan::Transfer;
use managed::ManagedSlice;

#[test]
fn tail_byte() {
    let tail = Tail(0xFF);
    assert!(tail.start());
    assert!(tail.end());
    assert!(tail.toggle());
    assert!(tail.transfer_id() == 31);

    let tail = Tail(0x7C);
    assert!(!tail.start());
    assert!(tail.end());
    assert!(tail.toggle());
    assert!(tail.transfer_id() == 28)
}

#[test]
fn transfer_single() {
    // 4-byte transfer
    let mut transfer = Transfer::new(ManagedSlice::Owned(vec![]));
    let res = transfer.add_frame(&[0x01, 0x02, 0x03, 0x04, 0xFF]);
    assert_eq!(res, Ok(Some([0x01, 0x02, 0x03, 0x04].as_ref())));

    // 7-byte transfer
    let mut transfer = Transfer::new(ManagedSlice::Owned(vec![]));
    let res = transfer.add_frame(&[0x01, 0x02, 0x03, 0x04, 0x05, 0x06, 0x07, 0xFF]);
    assert_eq!(
        res,
        Ok(Some([0x01, 0x02, 0x03, 0x04, 0x05, 0x06, 0x07].as_ref()))
    );
}

#[test]
fn tansfer_multi() {
    let mut transfer = Transfer::new(ManagedSlice::Owned(vec![]));
    let res = transfer.add_frame(&[0x01, 0x98, 0x01, 0x00, 0x68, 0xB5, 0x02, 0x9D]);
    assert_eq!(res, Ok(None));
    let res = transfer.add_frame(&[0x00, 0x7D, 0x33, 0x7D]);
    let data = &[0x01, 0x00, 0x68, 0xB5, 0x02, 0x00, 0x7D, 0x33];
    assert_eq!(res, Ok(Some(data.as_ref())));
}

#[test]
fn tansfer_buffer_too_small() {
    let mut storage = [0; 7]; // 1 byte too small
    let mut transfer = Transfer::new(ManagedSlice::Borrowed(storage.as_mut_slice()));
    let res = transfer.add_frame(&[0x01, 0x98, 0x01, 0x00, 0x68, 0xB5, 0x02, 0x9D]);
    assert_eq!(res, Ok(None));
    let res = transfer.add_frame(&[0x00, 0x7D, 0x33, 0x7D]);
    assert_eq!(res, Err(Error::BufferTooSmall));
}

#[test]
fn owned_storage_is_reset() {
    // every element of an owned storage is reset on construction
    let mut transfer = Transfer::new(ManagedSlice::Owned(vec![0x99, 0x99, 0x99]));
    let res = transfer.add_frame(&[0x01, 0x02, 0xFF]);
    assert_eq!(res, Ok(Some([0x01, 0x02].as_ref())));
}

#[test]
fn transfer_multi_into_fixed_storage() {
    let mut storage = [0; 8];
    let mut transfer = Transfer::new_fixed(storage.as_mut_slice());
    let res = transfer.add_frame(&[0x01, 0x98, 0x01, 0x00, 0x68, 0xB5, 0x02, 0x9D]);
    assert_eq!(res, Ok(None));
    let res = transfer.add_frame(&[0x00, 0x7D, 0x33, 0x7D]);
    let data = &[0x01, 0x00, 0x68, 0xB5, 0x02, 0x00, 0x7D, 0x33];
    assert_eq!(res, Ok(Some(data.as_ref())));
}

#[test]
fn transfer_three_frames_toggle_alternates() {
    let mut transfer = Transfer::new_growable(vec![]);
    // start, not end, toggle 0, id 5
    let res = transfer.add_frame(&[0xAA, 0xBB, 0x01, 0x02, 0x85]);
    assert_eq!(res, Ok(None));
    // continuation, not end, toggle 1, id 5
    let res = transfer.add_frame(&[0x03, 0x04, 0x25]);
    assert_eq!(res, Ok(None));
    // continuation, end, toggle 0, id 5
    let res = transfer.add_frame(&[0x05, 0x45]);
    assert_eq!(res, Ok(Some([0x01, 0x02, 0x03, 0x04, 0x05].as_ref())));
}

#[test]
fn frame_length_is_checked() {
    let mut transfer = Transfer::new_growable(vec![]);
    let res = transfer.add_frame(&[]);
    assert_eq!(res, Err(Error::DataLength));
    let res = transfer.add_frame(&[0x01, 0x02, 0x03, 0x04, 0x05, 0x06, 0x07, 0x08, 0xFF]);
    assert_eq!(res, Err(Error::DataLength));
}

#[test]
fn end_frame_cannot_come_first() {
    let mut transfer = Transfer::new_growable(vec![]);
    // continuation with the end mark as the very first frame
    let res = transfer.add_frame(&[0x01, 0x40]);
    assert_eq!(res, Err(Error::FrameOrder));
}

#[test]
fn start_frame_cannot_come_again() {
    let mut transfer = Transfer::new_growable(vec![]);
    let res = transfer.add_frame(&[0x01, 0x98, 0x01, 0x00, 0x68, 0xB5, 0x02, 0x9D]);
    assert_eq!(res, Ok(None));
    // a second start frame before the transfer ended
    let res = transfer.add_frame(&[0x01, 0x02, 0x03, 0x04, 0x9D]);
    assert_eq!(res, Err(Error::FrameOrder));
}

#[test]
fn transfer_id_must_match() {
    let mut transfer = Transfer::new_growable(vec![]);
    // start, not end, toggle 0, id 29
    let res = transfer.add_frame(&[0x01, 0x98, 0x01, 0x00, 0x68, 0xB5, 0x02, 0x9D]);
    assert_eq!(res, Ok(None));
    // continuation with id 28 instead of 29
    let res = transfer.add_frame(&[0x00, 0x7D, 0x33, 0x7C]);
    assert_eq!(res, Err(Error::IdMismatch));
}

#[test]
fn toggle_must_alternate() {
    let mut transfer = Transfer::new_growable(vec![]);
    // start, not end, toggle 0, id 29
    let res = transfer.add_frame(&[0x01, 0x98, 0x01, 0x00, 0x68, 0xB5, 0x02, 0x9D]);
    assert_eq!(res, Ok(None));
    // continuation with toggle still 0
    let res = transfer.add_frame(&[0x00, 0x7D, 0x33, 0x5D]);
    assert_eq!(res, Err(Error::Toggle));
}
