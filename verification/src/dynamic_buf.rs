//! Buffers sized by the call that fills them: the call is made once to learn
//! the size it needs, then again with a buffer of that size.
use vstd::prelude::*;
use std::marker::PhantomData;
use crate::win_error::{spec_hresult_from_win32, WinError, ERROR_INSUFFICIENT_BUFFER};

verus! {

/// What one call of a buffer-filling function reported: whether it succeeded,
/// the buffer size it asks for, the thread's last Win32 error code after it,
/// and the bytes it wrote into the buffer it was given.
#[derive(Debug)]
pub struct BufferCall {
    pub succeeded: bool,
    pub required_len: u32,
    pub last_error: u32,
    pub filled: Vec<u8>,
}

/// What the size query (the call with no buffer) means: the size to allocate,
/// unless it failed for another reason than the missing buffer.
pub open spec fn spec_size_query(succeeded: bool, required_len: u32, last_error: u32) -> Result<
    u32,
    WinError,
> {
    if !succeeded && last_error != ERROR_INSUFFICIENT_BUFFER {
        Err(WinError { code: spec_hresult_from_win32(last_error) })
    } else {
        Ok(required_len)
    }
}

/// Decides what the size query reported.
pub fn size_query_outcome(first: &BufferCall) -> (r: Result<u32, WinError>)
    ensures
        r == spec_size_query(first.succeeded, first.required_len, first.last_error),
{
    if !first.succeeded && first.last_error != ERROR_INSUFFICIENT_BUFFER {
        Err(WinError::from_win32(first.last_error))
    } else {
        Ok(first.required_len)
    }
}

/// A buffer filled in by a call, holding a record of type `T`.
#[derive(Debug)]
pub struct DynamicBufPtr<T> {
    buf: Vec<u8>,
    record: PhantomData<T>,
}

impl<T> View for DynamicBufPtr<T> {
    type V = Seq<u8>;

    closed spec fn view(&self) -> Seq<u8> {
        self.buf@
    }
}

impl<T> DynamicBufPtr<T> {
    /// Calls `f` with no buffer (`None`) to learn the size it needs, then with
    /// a buffer of that size. An error of the first call other than a missing
    /// buffer is returned, as is any error of the second call; otherwise the
    /// bytes the second call wrote are kept.
    pub fn new<F: Fn(Option<u32>) -> BufferCall>(f: F) -> (r: Result<Self, WinError>)
        requires
            forall|a: Option<u32>| call_requires(f, (a,)),
        ensures
            exists|first: BufferCall|
                #[trigger] call_ensures(f, (None::<u32>,), first) && match spec_size_query(
                    first.succeeded,
                    first.required_len,
                    first.last_error,
                ) {
                    Err(e) => r == Err::<Self, WinError>(e),
                    Ok(len) => exists|second: BufferCall|
                        #[trigger] call_ensures(f, (Some(len),), second) && if second.succeeded {
                            r matches Ok(p) && p@ == second.filled@
                        } else {
                            r == Err::<Self, WinError>(
                                WinError { code: spec_hresult_from_win32(second.last_error) },
                            )
                        },
                },
    {
        let first = f(None);
        let ghost first_call = first;
        assert(call_ensures(f, (None::<u32>,), first_call));
        let len = match size_query_outcome(&first) {
            Ok(len) => len,
            Err(e) => {
                return Err(e);
            },
        };
        let second = f(Some(len));
        let ghost second_call = second;
        assert(call_ensures(f, (Some(len),), second_call));
        if !second.succeeded {
            return Err(WinError::from_win32(second.last_error));
        }
        Ok(DynamicBufPtr { buf: second.filled, record: PhantomData })
    }

    /// The bytes of the record.
    pub fn as_bytes(&self) -> (r: &[u8])
        ensures
            r@ == self@,
    {
        self.buf.as_slice()
    }
}

/// The size query goes on to the second call exactly when the first call
/// succeeded or failed only for want of a buffer, and then with the size the
/// first call asked for; any other failure is reported by its own code.
pub proof fn lemma_size_query(succeeded: bool, required_len: u32, last_error: u32)
    ensures
        spec_size_query(succeeded, required_len, last_error) is Ok <==> (succeeded || last_error
            == ERROR_INSUFFICIENT_BUFFER),
        spec_size_query(succeeded, required_len, last_error) matches Ok(len) ==> len == required_len,
        spec_size_query(succeeded, required_len, last_error) matches Err(e) ==> e.code
            == spec_hresult_from_win32(last_error),
{
}

} // verus!
