use cloud_mirror::dynamic_buf::{size_query_outcome, BufferCall, DynamicBufPtr};
use std::cell::Cell;

fn call(succeeded: bool, required_len: u32, last_error: u32, filled: Vec<u8>) -> BufferCall {
    BufferCall { succeeded, required_len, last_error, filled }
}

#[test]
fn insufficient_buffer_then_filled() {
    let calls = Cell::new(0);
    let r = DynamicBufPtr::<u64>::new(|buf| {
        calls.set(calls.get() + 1);
        match buf {
            None => call(false, 4, 122, vec![]),
            Some(n) => call(true, n, 0, vec![7; n as usize]),
        }
    })
    .unwrap();
    assert_eq!(r.as_bytes(), &[7, 7, 7, 7]);
    assert_eq!(calls.get(), 2);
}

#[test]
fn first_call_other_error_is_returned() {
    let calls = Cell::new(0);
    let e = DynamicBufPtr::<u64>::new(|_| {
        calls.set(calls.get() + 1);
        call(false, 0, 5, vec![])
    })
    .err()
    .unwrap();
    assert_eq!(e.code as u32, 0x80070005);
    assert_eq!(calls.get(), 1);
}

#[test]
fn second_call_error_is_returned() {
    let e = DynamicBufPtr::<u64>::new(|buf| match buf {
        None => call(true, 8, 0, vec![]),
        Some(_) => call(false, 8, 87, vec![]),
    })
    .err()
    .unwrap();
    assert_eq!(e.code as u32, 0x80070057);
}

#[test]
fn size_query_decisions() {
    assert_eq!(size_query_outcome(&call(false, 16, 122, vec![])), Ok(16));
    assert_eq!(size_query_outcome(&call(true, 0, 0, vec![])), Ok(0));
    assert!(size_query_outcome(&call(false, 16, 6, vec![])).is_err());
}
