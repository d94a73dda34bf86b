//! Output streams that append to a caller-provided buffer and truncate
//! everything past the buffer's capacity (stdout/stderr of WASI programs).
use vstd::prelude::*;

verus! {

/// An error of an output stream: the stream traps with the message.
#[derive(Debug)]
pub struct StreamError {
    pub message: String,
}

/// What the buffer holds after `data` was written to a buffer holding
/// `buffer`: everything fits below the capacity, or the data is cut at the
/// capacity; a buffer that is already full takes none of it.
pub open spec fn limited_append(buffer: Seq<u8>, data: Seq<u8>, capacity: nat) -> Seq<u8> {
    if data.len() == 0 || buffer.len() + data.len() < capacity {
        buffer + data
    } else if buffer.len() >= capacity {
        buffer
    } else {
        buffer + data.take(capacity - buffer.len())
    }
}

/// The message of the error for a write to a frozen buffer.
pub open spec fn frozen_message() -> Seq<char> {
    "Cannot write to a frozen buffer."@
}

/// How many of `incoming` bytes a write appends to a buffer that holds
/// `current` bytes: all of them when they fit below `capacity`, else as many
/// as fill the buffer up to `capacity` (none, when it is already full). A
/// frozen buffer takes no write.
pub fn portion_to_write(current: usize, incoming: usize, capacity: usize, frozen: bool) -> (r: Result<usize, StreamError>)
    ensures
        frozen ==> r is Err && r->Err_0.message@ == frozen_message(),
        !frozen ==> r is Ok,
        !frozen && incoming == 0 ==> r == Ok::<usize, StreamError>(0),
        !frozen && incoming > 0 && current + incoming < capacity ==> r == Ok::<usize, StreamError>(incoming),
        !frozen && incoming > 0 && current + incoming >= capacity && current < capacity
            ==> r == Ok::<usize, StreamError>((capacity - current) as usize),
        !frozen && incoming > 0 && current >= capacity ==> r == Ok::<usize, StreamError>(0),
{
    if frozen {
        return Err(StreamError { message: String::from_str("Cannot write to a frozen buffer.") });
    }
    if incoming == 0 {
        return Ok(0);
    }
    if current >= capacity {
        return Ok(0);
    }
    match current.checked_add(incoming) {
        Some(total) => {
            if total < capacity {
                Ok(incoming)
            } else {
                Ok(capacity - current)
            }
        },
        None => Ok(capacity - current),
    }
}

/// A buffer that limits the number of bytes that can be written to it.
/// If the buffer is full, it truncates the data. Used for the stdout and
/// stderr of WASI programs.
pub struct OutputLimitedBuffer {
    buffer: Vec<u8>,
    frozen: bool,
    /// The maximum number of bytes that can be written to the buffer.
    capacity: usize,
}

impl OutputLimitedBuffer {
    pub closed spec fn spec_buffer(&self) -> Seq<u8> {
        self.buffer@
    }

    pub closed spec fn spec_frozen(&self) -> bool {
        self.frozen
    }

    pub closed spec fn spec_capacity(&self) -> nat {
        self.capacity as nat
    }

    /// Creates a buffer over `buffer`'s bytes with the given capacity; a
    /// frozen buffer refuses every write.
    pub fn new(buffer: Vec<u8>, frozen: bool, capacity: usize) -> (b: Self)
        ensures
            b.spec_buffer() == buffer@,
            b.spec_frozen() == frozen,
            b.spec_capacity() == capacity,
    {
        OutputLimitedBuffer { buffer, frozen, capacity }
    }

    /// The bytes written so far (with what the buffer held initially).
    pub fn contents(&self) -> (c: &Vec<u8>)
        ensures
            c@ == self.spec_buffer(),
    {
        &self.buffer
    }

    /// Appends `buf`, truncated at the capacity. Writing to a frozen buffer
    /// traps; the data written is otherwise accepted whole, whether it was
    /// truncated or not.
    #[verifier::loop_isolation(false)]
    pub fn write(&mut self, buf: &[u8]) -> (r: Result<(), StreamError>)
        ensures
            final(self).spec_frozen() == old(self).spec_frozen(),
            final(self).spec_capacity() == old(self).spec_capacity(),
            old(self).spec_frozen() ==> r is Err && r->Err_0.message@ == frozen_message()
                && final(self).spec_buffer() == old(self).spec_buffer(),
            !old(self).spec_frozen() ==> r is Ok && final(self).spec_buffer()
                == limited_append(old(self).spec_buffer(), buf@, old(self).spec_capacity()),
    {
        let n = match portion_to_write(self.buffer.len(), buf.len(), self.capacity, self.frozen) {
            Ok(n) => n,
            Err(e) => return Err(e),
        };
        let ghost before = self.buffer@;
        let mut i: usize = 0;
        while i < n
            invariant
                n <= buf@.len(),
                i <= n,
                self.buffer@ == before + buf@.take(i as int),
                self.frozen == old(self).frozen,
                self.capacity == old(self).capacity,
            decreases n - i,
        {
            self.buffer.push(buf[i]);
            assert(buf@.take(i + 1) =~= buf@.take(i as int).push(buf@[i as int]));
            i = i + 1;
        }
        proof {
            if buf@.len() == 0 || before.len() + buf@.len() < self.capacity {
                assert(buf@.take(buf@.len() as int) =~= buf@);
            } else if before.len() >= self.capacity {
                assert(buf@.take(0) =~= Seq::<u8>::empty());
                assert(self.buffer@ =~= before);
            }
        }
        Ok(())
    }

    /// How many bytes the stream accepts for the next write: any number.
    pub fn check_write(&self) -> (r: Result<usize, StreamError>)
        ensures
            r == Ok::<usize, StreamError>(usize::MAX),
    {
        Ok(usize::MAX)
    }

    /// Flushing has nothing to do.
    pub fn flush(&mut self) -> (r: Result<(), StreamError>)
        ensures
            r is Ok,
            *final(self) == *old(self),
    {
        Ok(())
    }

    /// The buffer is not a terminal.
    pub fn is_terminal(&self) -> (r: bool)
        ensures
            !r,
    {
        false
    }
}

/// Writing in two steps leaves the same bytes as writing everything at once:
/// the buffer holds the first bytes of all that was written, up to the
/// capacity.
pub proof fn lemma_limited_append_concat(buffer: Seq<u8>, x: Seq<u8>, y: Seq<u8>, capacity: nat)
    ensures
        limited_append(limited_append(buffer, x, capacity), y, capacity)
            == limited_append(buffer, x + y, capacity),
{
    let b1 = limited_append(buffer, x, capacity);
    if x.len() == 0 {
        assert(x + y =~= y);
    } else if buffer.len() >= capacity {
    } else if buffer.len() + x.len() < capacity {
        if buffer.len() + x.len() + y.len() < capacity {
            assert(b1 + y =~= buffer + (x + y));
        } else {
            assert(b1 + y.take(capacity - b1.len()) =~= buffer + (x + y).take(capacity - buffer.len()));
        }
    } else {
        assert(b1.len() == capacity);
        assert(y.take(0) =~= Seq::<u8>::empty());
        assert(b1 =~= buffer + (x + y).take(capacity - buffer.len()));
    }
}

/// A buffer that holds no more than its capacity never grows past it.
pub proof fn lemma_limited_append_bounded(buffer: Seq<u8>, data: Seq<u8>, capacity: nat)
    requires
        buffer.len() <= capacity,
    ensures
        limited_append(buffer, data, capacity).len() <= capacity,
        buffer.is_prefix_of(limited_append(buffer, data, capacity)),
{
    let r = limited_append(buffer, data, capacity);
    assert(r.subrange(0, buffer.len() as int) =~= buffer);
}

} // verus!
