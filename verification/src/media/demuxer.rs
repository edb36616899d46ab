use std::sync::mpsc::Receiver;
use vstd::prelude::*;

verus! {

#[verifier::external_type_specification]
#[verifier::external_body]
#[verifier::reject_recursive_types(T)]
pub struct ExReceiver<T>(Receiver<T>);

#[verifier::external_type_specification]
#[verifier::external_body]
pub struct ExIoError(std::io::Error);

/// `std::sync::mpsc::Receiver::recv`: blocks until a chunk arrives; `None`
/// once every sender is gone. What arrives is not claimed.
#[verifier::external_body]
fn recv_chunk(rx: &Receiver<Vec<u8>>) -> Option<Vec<u8>> {
    rx.recv().ok()
}

/// Turns chunks from a channel into a byte stream.
pub struct ChannelReader {
    pub rx: Receiver<Vec<u8>>,
    pub buffer: Vec<u8>,
}

/// Reading from a stream whose next bytes are `chunk` into a buffer of
/// `cap` bytes that held `before`: the first `n` bytes of the chunk are
/// copied in, the rest of the buffer stays, and the rest of the chunk waits.
pub open spec fn reads(chunk: Seq<u8>, before: Seq<u8>, after: Seq<u8>, rest: Seq<u8>, n: nat) -> bool {
    &&& n == (if before.len() < chunk.len() { before.len() } else { chunk.len() })
    &&& after == chunk.take(n as int) + before.skip(n as int)
    &&& rest == chunk.skip(n as int)
}

/// A read neither loses nor repeats a byte: what it hands out, followed by
/// what stays buffered, is exactly what arrived; and the caller's buffer
/// keeps its length.
pub proof fn lemma_read_loses_nothing(
    chunk: Seq<u8>,
    before: Seq<u8>,
    after: Seq<u8>,
    rest: Seq<u8>,
    n: nat,
)
    requires
        reads(chunk, before, after, rest, n),
    ensures
        after.take(n as int) + rest == chunk,
        after.len() == before.len(),
{
    assert(after.take(n as int) =~= chunk.take(n as int));
    assert(chunk.take(n as int) + chunk.skip(n as int) =~= chunk);
}

impl ChannelReader {
    /// Reads the buffered bytes, or the next chunk when none are buffered,
    /// into `buf`. Returns 0 once the channel is closed.
    pub fn read(&mut self, buf: &mut [u8]) -> (r: Result<usize, std::io::Error>)
        ensures
            old(self).buffer@.len() > 0 ==> (r matches Ok(n) && reads(
                old(self).buffer@,
                old(buf)@,
                final(buf)@,
                final(self).buffer@,
                n as nat,
            )),
            old(self).buffer@.len() == 0 ==> (r matches Ok(n) && reads(
                final(buf)@.take(n as int) + final(self).buffer@,
                old(buf)@,
                final(buf)@,
                final(self).buffer@,
                n as nat,
            )),
    {
        if self.buffer.len() == 0 {
            // Block until a new chunk arrives
            match recv_chunk(&self.rx) {
                Some(data) => self.buffer = data,
                None => {
                    let ghost empty = Seq::<u8>::empty();
                    assert(empty.take(0) + buf@.skip(0) =~= buf@);
                    assert(empty.skip(0) =~= self.buffer@);
                    assert(buf@.take(0) + self.buffer@ =~= empty);
                    assert(reads(empty, old(buf)@, buf@, self.buffer@, 0usize as nat));
                    return Ok(0);
                },
            }
        }
        let ghost chunk = self.buffer@;
        let len = if buf.len() < self.buffer.len() {
            buf.len()
        } else {
            self.buffer.len()
        };
        let mut i: usize = 0;
        while i < len
            invariant
                len <= buf@.len(),
                len <= self.buffer@.len(),
                self.buffer@ == chunk,
                i <= len,
                buf@.len() == old(buf)@.len(),
                forall|j: int| 0 <= j < i ==> buf@[j] == chunk[j],
                forall|j: int| i <= j < buf@.len() ==> buf@[j] == old(buf)@[j],
            decreases len - i,
        {
            let b = self.buffer[i];
            buf[i] = b;
            i = i + 1;
        }
        let rest = self.buffer.split_off(len);
        self.buffer = rest;
        assert(buf@ =~= chunk.take(len as int) + old(buf)@.skip(len as int));
        assert(self.buffer@ =~= chunk.skip(len as int));
        assert(reads(chunk, old(buf)@, buf@, self.buffer@, len as nat));
        assert(buf@.take(len as int) + self.buffer@ =~= chunk);
        Ok(len)
    }
}

/// A VP8 frame handed to the event loop.
pub struct Vp8Packet {
    pub data: Vec<u8>,
    pub timestamp_ms: u64,
}

impl Vp8Packet {
    /// The packet made of the first `n` bytes that a read left in `buf`.
    pub fn from_read(buf: &[u8], n: usize) -> (p: Self)
        requires
            n <= buf@.len(),
        ensures
            p.data@ == buf@.take(n as int),
            p.timestamp_ms == 0,
    {
        let mut data: Vec<u8> = Vec::new();
        let mut i: usize = 0;
        while i < n
            invariant
                n <= buf@.len(),
                i <= n,
                data@ == buf@.take(i as int),
            decreases n - i,
        {
            data.push(buf[i]);
            i = i + 1;
            assert(data@ =~= buf@.take(i as int));
        }
        Vp8Packet { data, timestamp_ms: 0 }
    }
}

} // verus!
