//! Console output through the firmware call gateway: one firmware call per
//! character, no buffering, and an immediate abort of the whole write on the
//! first firmware error.

use vstd::prelude::*;
use crate::sbi::{
    sbi_call, spec_decode_reply, spec_error_of_code, Firmware, SbiCall, SbiError, SbiResult,
};

verus! {

/// The call record the writer marshals for one character: extension id 1,
/// function id 0, data argument 0 = the code point, remaining data zero.
pub open spec fn spec_putchar_call(c: i32) -> SbiCall {
    SbiCall { arg0: c, arg1: 0, arg2: 0, arg3: 0, arg4: 0, arg5: 0, fid: 0, eid: 1 }
}

/// The call records a whole character sequence marshals, in order.
pub open spec fn putchar_calls(s: Seq<char>) -> Seq<SbiCall> {
    Seq::new(s.len(), |i: int| spec_putchar_call(s[i] as i32))
}

/// Length of the longest prefix of the `n` scripted replies from `st` on
/// whose error register is zero. The writer makes exactly this many
/// successful calls before it either finishes or hits the first failure.
pub open spec fn ok_run(reps: Seq<(i32, i32)>, st: int, n: int) -> int
    decreases n,
{
    if n <= 0 {
        0
    } else if reps[st].0 != 0 {
        0
    } else {
        1 + ok_run(reps, st + 1, n - 1)
    }
}

/// What one whole console write does to the firmware: if every reply for
/// the sequence succeeds the write makes one call per character, in order,
/// and succeeds; otherwise it stops right after the first failing call —
/// which is the last one made — and hands back that reply's decoded error.
pub open spec fn wrote_exactly(
    prev: Firmware,
    cur: Firmware,
    s: Seq<char>,
    r: Result<(), SbiError>,
) -> bool {
    let reps = prev.replies@;
    let st = prev.next as int;
    let n = s.len() as int;
    let p = ok_run(reps, st, n);
    &&& cur.replies == prev.replies
    &&& if p == n {
        &&& r is Ok
        &&& cur.next == st + n
        &&& cur.calls@ == prev.calls@ + putchar_calls(s)
    } else {
        &&& r == Err::<(), SbiError>(spec_error_of_code(reps[st + p].0))
        &&& cur.next == st + p + 1
        &&& cur.calls@ == prev.calls@ + putchar_calls(s.take(p + 1))
    }
}

pub proof fn lemma_ok_run_all(reps: Seq<(i32, i32)>, st: int, n: int)
    requires
        0 <= n,
        forall|j: int| 0 <= j < n ==> (#[trigger] reps[st + j]).0 == 0,
    ensures
        ok_run(reps, st, n) == n,
    decreases n,
{
    if n > 0 {
        assert(reps[st + 0].0 == 0);
        assert(forall|j: int| 0 <= j < n - 1 ==> (#[trigger] reps[st + 1 + j]).0 == 0) by {
            assert(forall|j: int|
                0 <= j < n - 1 ==> #[trigger] reps[st + 1 + j] == reps[st + (j + 1)]);
        }
        lemma_ok_run_all(reps, st + 1, n - 1);
    }
}

pub proof fn lemma_ok_run_fail(reps: Seq<(i32, i32)>, st: int, n: int, k: int)
    requires
        0 <= k < n,
        forall|j: int| 0 <= j < k ==> (#[trigger] reps[st + j]).0 == 0,
        reps[st + k].0 != 0,
    ensures
        ok_run(reps, st, n) == k,
    decreases k,
{
    if k == 0 {
        assert(reps[st + 0].0 != 0);
    } else {
        assert(reps[st + 0].0 == 0);
        assert(forall|j: int| 0 <= j < k - 1 ==> (#[trigger] reps[st + 1 + j]).0 == 0) by {
            assert(forall|j: int|
                0 <= j < k - 1 ==> #[trigger] reps[st + 1 + j] == reps[st + (j + 1)]);
        }
        assert(reps[(st + 1) + (k - 1)].0 != 0);
        lemma_ok_run_fail(reps, st + 1, n - 1, k - 1);
    }
}

/// Emits one character through the gateway: extension id 1, function id 0,
/// data argument 0 = the code point, remaining data arguments zero.
pub fn putchar(fw: &mut Firmware, c: i32) -> (r: SbiResult)
    requires
        old(fw).can_reply(),
    ensures
        final(fw).replies == old(fw).replies,
        final(fw).next == old(fw).next + 1,
        final(fw).calls@ == old(fw).calls@.push(spec_putchar_call(c)),
        r == spec_decode_reply(
            old(fw).replies@[old(fw).next as int].0,
            old(fw).replies@[old(fw).next as int].1,
        ),
{
    sbi_call(fw, c, 0, 0, 0, 0, 0, 0, 1)
}

/// Writes characters one firmware call at a time, with no buffering.
pub struct ConsoleWriter;

impl ConsoleWriter {
    /// Writes the characters of `v` one firmware call each, in order,
    /// aborting on the first firmware error with no further call.
    pub fn write_chars(&mut self, fw: &mut Firmware, v: &Vec<char>) -> (r: Result<(), SbiError>)
        requires
            old(fw).next + v@.len() <= old(fw).replies@.len(),
        ensures
            wrote_exactly(*old(fw), *final(fw), v@, r),
    {
        let n = v.len();
        let mut i: usize = 0;
        while i < n
            invariant
                n == v@.len(),
                i <= n,
                fw.replies == old(fw).replies,
                old(fw).next + n <= old(fw).replies@.len(),
                fw.next == old(fw).next + i,
                fw.calls@ == old(fw).calls@ + putchar_calls(v@.take(i as int)),
                forall|j: int| 0 <= j < i ==> (#[trigger] fw.replies@[old(fw).next + j]).0 == 0,
            decreases n - i,
        {
            let c = v[i];
            let res = putchar(fw, c as i32);
            match res {
                Ok(_) => {
                    proof {
                        assert(fw.calls@ =~= old(fw).calls@ + putchar_calls(v@.take(i + 1)));
                    }
                },
                Err(e) => {
                    proof {
                        lemma_ok_run_fail(
                            old(fw).replies@,
                            old(fw).next as int,
                            v@.len() as int,
                            i as int,
                        );
                        assert(fw.calls@ =~= old(fw).calls@ + putchar_calls(v@.take(i + 1)));
                    }
                    return Err(e);
                },
            }
            i = i + 1;
        }
        proof {
            lemma_ok_run_all(old(fw).replies@, old(fw).next as int, v@.len() as int);
            assert(v@.take(n as int) =~= v@);
        }
        Ok(())
    }

    /// Writes `s` one character per firmware call, in order. If every reply
    /// for the sequence succeeds, all `s@.len()` calls are made and the
    /// write succeeds; on the first failing reply the write stops
    /// immediately and the decoded error is handed back to the caller.
    pub fn write_str(&mut self, fw: &mut Firmware, s: &str) -> (r: Result<(), SbiError>)
        requires
            old(fw).next + s@.len() <= old(fw).replies@.len(),
        ensures
            wrote_exactly(*old(fw), *final(fw), s@, r),
    {
        let v = crate::render::chars_of(s);
        self.write_chars(fw, &v)
    }
}

} // verus!
