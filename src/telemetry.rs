//! Framing of text for the link's fixed-size log messages.
use vstd::prelude::*;

verus! {

/// Bytes carried by one log message.
pub const LOG_CHUNK: usize = 16;

/// Byte `j` of chunk `k` of `msg`: the message's byte there, or zero past
/// its end.
pub open spec fn chunk_byte(msg: Seq<u8>, k: int, j: int) -> u8 {
    if LOG_CHUNK * k + j < msg.len() {
        msg[LOG_CHUNK * k + j]
    } else {
        0
    }
}

/// Splits a message into sixteen-byte chunks, the last one padded with
/// zeros; an empty message gives no chunk.
pub fn log_chunks(msg: &Vec<u8>) -> (r: Vec<[u8; 16]>)
    ensures
        r@.len() == (msg@.len() + 15) / 16,
        forall|k: int, j: int| 0 <= k < r@.len() && 0 <= j < 16 ==> #[trigger] r@[k]@[j] == chunk_byte(msg@, k, j),
{
    let n = msg.len();
    let count: usize = if n % 16 == 0 { n / 16 } else { n / 16 + 1 };
    assert(count == (n + 15) / 16);
    let mut out: Vec<[u8; 16]> = Vec::new();
    while out.len() < count
        invariant
            n == msg@.len(),
            count == (n + 15) / 16,
            out@.len() <= count,
            forall|k: int, j: int| 0 <= k < out@.len() && 0 <= j < 16 ==> #[trigger] out@[k]@[j] == chunk_byte(msg@, k, j),
        decreases count - out@.len(),
    {
        let k = out.len();
        assert(16 * k < n) by (nonlinear_arith)
            requires
                k < count,
                count == (n + 15) / 16,
        ;
        let start = 16 * k;
        let mut buf: [u8; 16] = [0; 16];
        let mut j: usize = 0;
        while j < 16
            invariant
                n == msg@.len(),
                start == 16 * k,
                start < n,
                k == out@.len(),
                j <= 16,
                forall|i: int| 0 <= i < j ==> buf@[i] == chunk_byte(msg@, k as int, i),
                forall|i: int| j <= i < 16 ==> buf@[i] == 0,
            decreases 16 - j,
        {
            if j < n - start {
                buf[j] = msg[start + j];
            }
            j = j + 1;
        }
        out.push(buf);
        proof {
            assert forall|a: int, b: int| 0 <= a < out@.len() && 0 <= b < 16 implies #[trigger] out@[a]@[b]
                == chunk_byte(msg@, a, b) by {
                if a == k {
                    assert(out@[a] == buf);
                }
            }
        }
    }
    out
}

} // verus!
