//! Firmware call gateway: the eight-register synchronous call record, the
//! (error, value) reply decoding, and the closed taxonomy of firmware errors.
//!
//! The real gateway issues one trapping instruction and reads the reply from
//! two result registers. Here firmware is modelled as scripted state: a
//! [`Firmware`] value holds the queue of replies the firmware will give, in
//! order, and the log of every call made to it, so that contracts can speak
//! both of what was asked and of what came back.

use vstd::prelude::*;

verus! {

/// The closed set of named firmware error kinds, plus `Unknown` as the
/// explicit fallback for reply codes outside the documented range.
#[derive(Clone, Copy, Debug, PartialEq, Eq, Structural)]
pub enum SbiError {
    Failed,
    NotSupported,
    InvalidParam,
    Denied,
    InvalidAddress,
    AlreadyAvailable,
    AlreadyStarted,
    AlreadyStopped,
    NoShmem,
    InvalidState,
    BadRange,
    Timeout,
    Io,
    /// A nonzero reply code outside `-13 ..= -1`. The firmware specification
    /// leaves such codes undefined; they are rejected with this kind rather
    /// than treated as any named condition.
    Unknown,
}

/// The value carried by a successful firmware reply.
#[derive(Clone, Copy, Debug, PartialEq, Eq, Structural)]
pub struct SbiValue(pub i32);

/// Outcome of one firmware call: success with a value, or one error kind.
pub type SbiResult = Result<SbiValue, SbiError>;

/// The fixed table from a nonzero reply code to its error kind.
pub open spec fn spec_error_of_code(code: i32) -> SbiError {
    if code == -1 {
        SbiError::Failed
    } else if code == -2 {
        SbiError::NotSupported
    } else if code == -3 {
        SbiError::InvalidParam
    } else if code == -4 {
        SbiError::Denied
    } else if code == -5 {
        SbiError::InvalidAddress
    } else if code == -6 {
        SbiError::AlreadyAvailable
    } else if code == -7 {
        SbiError::AlreadyStarted
    } else if code == -8 {
        SbiError::AlreadyStopped
    } else if code == -9 {
        SbiError::NoShmem
    } else if code == -10 {
        SbiError::InvalidState
    } else if code == -11 {
        SbiError::BadRange
    } else if code == -12 {
        SbiError::Timeout
    } else if code == -13 {
        SbiError::Io
    } else {
        SbiError::Unknown
    }
}

/// The reverse direction of the fixed table: the reply code a named error
/// kind stands for. `Unknown` stands for no single code; it is given a
/// positive sentinel outside the reply-code range.
pub open spec fn spec_code_of_error(e: SbiError) -> i32 {
    match e {
        SbiError::Failed => -1i32,
        SbiError::NotSupported => -2i32,
        SbiError::InvalidParam => -3i32,
        SbiError::Denied => -4i32,
        SbiError::InvalidAddress => -5i32,
        SbiError::AlreadyAvailable => -6i32,
        SbiError::AlreadyStarted => -7i32,
        SbiError::AlreadyStopped => -8i32,
        SbiError::NoShmem => -9i32,
        SbiError::InvalidState => -10i32,
        SbiError::BadRange => -11i32,
        SbiError::Timeout => -12i32,
        SbiError::Io => -13i32,
        SbiError::Unknown => 1i32,
    }
}

/// The two directions of the error table invert each other: every
/// documented reply code maps to the kind that maps back to it, and every
/// named kind maps to the code that maps back to it.
pub proof fn lemma_error_table_round_trip(code: i32, e: SbiError)
    ensures
        -13 <= code <= -1 ==> spec_code_of_error(spec_error_of_code(code)) == code,
        e != SbiError::Unknown ==> spec_error_of_code(spec_code_of_error(e)) == e,
{
}

/// How the gateway reads one (error, value) reply: a zero error code is
/// success with the value unchanged; any nonzero code maps through the table.
pub open spec fn spec_decode_reply(error: i32, value: i32) -> SbiResult {
    if error == 0 {
        Ok(SbiValue(value))
    } else {
        Err(spec_error_of_code(error))
    }
}

/// Looks a nonzero reply code up in the fixed error table.
pub fn error_of_code(code: i32) -> (e: SbiError)
    ensures
        e == spec_error_of_code(code),
{
    if code == -1 {
        SbiError::Failed
    } else if code == -2 {
        SbiError::NotSupported
    } else if code == -3 {
        SbiError::InvalidParam
    } else if code == -4 {
        SbiError::Denied
    } else if code == -5 {
        SbiError::InvalidAddress
    } else if code == -6 {
        SbiError::AlreadyAvailable
    } else if code == -7 {
        SbiError::AlreadyStarted
    } else if code == -8 {
        SbiError::AlreadyStopped
    } else if code == -9 {
        SbiError::NoShmem
    } else if code == -10 {
        SbiError::InvalidState
    } else if code == -11 {
        SbiError::BadRange
    } else if code == -12 {
        SbiError::Timeout
    } else if code == -13 {
        SbiError::Io
    } else {
        SbiError::Unknown
    }
}

/// One eight-register firmware call record: six data arguments, a function
/// identifier and an extension identifier, in the fixed calling convention.
#[derive(Clone, Copy, Debug, PartialEq, Eq, Structural)]
pub struct SbiCall {
    pub arg0: i32,
    pub arg1: i32,
    pub arg2: i32,
    pub arg3: i32,
    pub arg4: i32,
    pub arg5: i32,
    pub fid: i32,
    pub eid: i32,
}

/// The scripted firmware model. `replies` is the fixed script of (error,
/// value) register pairs the firmware will hand back, `next` the index of the
/// reply the next call receives, and `calls` the log of every call record
/// marshalled to the firmware so far, in order.
pub struct Firmware {
    pub replies: Vec<(i32, i32)>,
    pub next: usize,
    pub calls: Vec<SbiCall>,
}

impl Firmware {
    /// The firmware never runs out of its script while calls keep coming.
    pub open spec fn can_reply(&self) -> bool {
        self.next < self.replies@.len()
    }

    /// A fresh firmware with a scripted reply queue and an empty call log.
    pub fn new(replies: Vec<(i32, i32)>) -> (fw: Firmware)
        ensures
            fw.replies == replies,
            fw.next == 0,
            fw.calls@ == Seq::<SbiCall>::empty(),
    {
        Firmware { replies, next: 0, calls: Vec::new() }
    }
}

/// The firmware call gateway: marshals the eight arguments into one call,
/// hands it to the firmware, and decodes the (error, value) reply — zero
/// error is success with the value unchanged, a nonzero error maps through
/// the fixed table. Synchronous and blocking: exactly one reply is consumed,
/// and no retry is made.
pub fn sbi_call(
    fw: &mut Firmware,
    arg0: i32,
    arg1: i32,
    arg2: i32,
    arg3: i32,
    arg4: i32,
    arg5: i32,
    fid: i32,
    eid: i32,
) -> (r: SbiResult)
    requires
        old(fw).can_reply(),
    ensures
        final(fw).replies == old(fw).replies,
        final(fw).next == old(fw).next + 1,
        final(fw).calls@ == old(fw).calls@.push(
            SbiCall { arg0, arg1, arg2, arg3, arg4, arg5, fid, eid },
        ),
        r == spec_decode_reply(
            old(fw).replies@[old(fw).next as int].0,
            old(fw).replies@[old(fw).next as int].1,
        ),
{
    let record = SbiCall { arg0, arg1, arg2, arg3, arg4, arg5, fid, eid };
    fw.calls.push(record);
    let (error, value): (i32, i32) = fw.replies[fw.next];
    proof {
        // the script index stays within the reply vector, whose length fits usize
        assert(fw.next < fw.replies.len());
    }
    fw.next = fw.next + 1;
    if error == 0 {
        Ok(SbiValue(value))
    } else {
        Err(error_of_code(error))
    }
}

} // verus!
