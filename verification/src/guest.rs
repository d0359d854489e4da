//! The guest programs of this library, modeled on the host side of the
//! boundary.
//!
//! Each function here states, over plain values and the linear-memory
//! model, exactly what the corresponding guest export computes; the
//! execution engine that would run the compiled module is an external
//! collaborator. Where a guest export calls back into the host, the model
//! takes the host side — a `CounterCell` or a `HostOutcome` — as an
//! explicit argument.
use vstd::prelude::*;
use vstd::utf8::{decode_utf8, valid_utf8};

use crate::counter::CounterCell;
use crate::errors::BoundaryError;
use crate::memory::{bytes_after_write, GuestMemory};
use crate::outcome::{absorb_host_outcome, HostOutcome};

verus! {

/// The buffer capacity the guest declares; host and guest agree on it out
/// of band, and the host must guard it before every write.
pub const WASM_MEMORY_BUFFER_SIZE: usize = 1024;

/// The guest export that adds one to its 32-bit argument.
pub fn add_one(x: i32) -> (r: i32)
    requires
        x < i32::MAX,
    ensures
        r == x + 1,
{
    x + 1
}

/// The guest export whose only purpose is to call an imported function
/// and then return `24`. When the import aborts, the guest call unwinds
/// immediately and the declared return value is never produced; the
/// caller sees the abort, never a normal return.
pub fn exit_early(interrupt: HostOutcome) -> (r: Result<i32, BoundaryError>)
    ensures
        interrupt matches HostOutcome::Abort(reason) ==> r == Err::<i32, BoundaryError>(
            BoundaryError::HostAbort { reason },
        ),
        interrupt matches HostOutcome::Continue(_) ==> r == Ok::<i32, BoundaryError>(24),
{
    match absorb_host_outcome(interrupt) {
        Ok(_) => Ok(24),
        Err(e) => Err(e),
    }
}

/// The guest export whose body runs straight into an unreachable
/// instruction: every call of it ends in a trap carrying the engine's
/// diagnostic, whatever wording the engine gives it, and never in a
/// value.
pub fn throw_wasm_error(diagnostic: String) -> (r: Result<i32, BoundaryError>)
    ensures
        r == Err::<i32, BoundaryError>(BoundaryError::Trap { message: diagnostic }),
{
    Err(BoundaryError::Trap { message: diagnostic })
}

/// The guest export that reads the counter through one import, then adds
/// one to it `number_of_times` times through the other, and returns the
/// last value it saw. Starting from a cell holding zero, the cell ends at
/// `number_of_times` and the return value equals it.
pub fn increment_counter_loop(counter: &mut CounterCell, number_of_times: i32) -> (r: i32)
    requires
        number_of_times > 0 ==> old(counter).value + number_of_times <= i32::MAX,
    ensures
        number_of_times > 0 ==> final(counter).value == old(counter).value + number_of_times,
        number_of_times <= 0 ==> final(counter).value == old(counter).value,
        r == final(counter).value,
{
    let mut current_counter = counter.get_counter();
    let ghost start = counter.value;
    let mut i: i32 = 0;
    while i < number_of_times
        invariant
            0 <= i,
            number_of_times > 0 ==> i <= number_of_times,
            number_of_times > 0 ==> start + number_of_times <= i32::MAX,
            number_of_times <= 0 ==> i == 0,
            counter.value == start + i,
            current_counter == counter.value,
        decreases number_of_times - i,
    {
        current_counter = counter.add_to_counter(1);
        i = i + 1;
    }
    current_counter
}

/// The bytes of the phrase the buffer guest appends.
pub open spec fn cool_suffix() -> Seq<u8> {
    seq![32u8, 87u8, 97u8, 115u8, 109u8, 32u8, 105u8, 115u8, 32u8, 99u8, 111u8, 111u8, 108u8, 33u8]
}

/// The phrase the buffer guest appends, as a byte vector.
fn cool_suffix_vec() -> (v: Vec<u8>)
    ensures
        v@ == cool_suffix(),
{
    let v: Vec<u8> = vec![32u8, 87u8, 97u8, 115u8, 109u8, 32u8, 105u8, 115u8, 32u8, 99u8, 111u8, 111u8, 108u8, 33u8];
    proof {
        assert(v@ =~= cool_suffix());
    }
    v
}

/// An instance of the guest that owns a fixed-capacity byte buffer inside
/// its linear memory for exchanging text with the host.
pub struct BufferGuest {
    pub memory: GuestMemory,
    pub buffer_ptr: usize,
}

impl BufferGuest {
    /// The declared buffer lies inside linear memory.
    pub open spec fn wf(self) -> bool {
        self.buffer_ptr + WASM_MEMORY_BUFFER_SIZE <= self.memory@.len()
    }

    /// The bytes the declared buffer currently holds.
    pub open spec fn buffer_bytes(self) -> Seq<u8> {
        self.memory@.subrange(
            self.buffer_ptr as int,
            self.buffer_ptr + WASM_MEMORY_BUFFER_SIZE,
        )
    }

    /// A fresh instance whose buffer starts at `buffer_ptr` in a zeroed
    /// linear memory just large enough to hold it.
    pub fn instantiate(buffer_ptr: usize) -> (g: BufferGuest)
        requires
            buffer_ptr + WASM_MEMORY_BUFFER_SIZE <= usize::MAX,
        ensures
            g.wf(),
            g.buffer_ptr == buffer_ptr,
            g.buffer_bytes() == Seq::new(WASM_MEMORY_BUFFER_SIZE as nat, |i: int| 0u8),
    {
        let g = BufferGuest {
            memory: GuestMemory::new(buffer_ptr + WASM_MEMORY_BUFFER_SIZE),
            buffer_ptr,
        };
        proof {
            assert(g.buffer_bytes() =~= Seq::new(WASM_MEMORY_BUFFER_SIZE as nat, |i: int| 0u8));
        }
        g
    }

    /// The guest export the host calls to learn where the buffer lies.
    /// The host must call it again after any guest call that may have
    /// moved memory, rather than hold on to an earlier pointer.
    pub fn get_wasm_memory_buffer_pointer(&self) -> (p: usize)
        ensures
            p == self.buffer_ptr,
    {
        self.buffer_ptr
    }

    /// The host-side write into the guest buffer: refused with
    /// `OutOfBounds` before a single byte moves when the data would
    /// exceed the declared capacity.
    pub fn write_buffer(&mut self, data: &[u8]) -> (r: Result<(), BoundaryError>)
        requires
            old(self).wf(),
        ensures
            final(self).wf(),
            final(self).buffer_ptr == old(self).buffer_ptr,
            r is Ok <==> data@.len() <= WASM_MEMORY_BUFFER_SIZE,
            r is Ok ==> final(self).memory@ == bytes_after_write(
                old(self).memory@,
                old(self).buffer_ptr as int,
                data@,
            ),
            r is Ok ==> final(self).buffer_bytes() == data@ + old(self).buffer_bytes().skip(
                data@.len() as int,
            ),
            r matches Err(e) ==> e is OutOfBounds && *final(self) == *old(self),
    {
        if data.len() > WASM_MEMORY_BUFFER_SIZE {
            return Err(BoundaryError::OutOfBounds);
        }
        match self.memory.write_bytes(self.buffer_ptr, data) {
            Ok(u) => {
                proof {
                    assert(self.buffer_bytes() =~= data@ + old(self).buffer_bytes().skip(
                        data@.len() as int,
                    ));
                }
                Ok(u)
            },
            Err(e) => {
                proof {
                    assert(false);
                }
                Err(e)
            },
        }
    }

    /// The guest export that interprets the first `passed_string_length`
    /// buffer bytes as UTF-8 text, appends its phrase after them, and
    /// returns the new length for the host to read back. As the guest
    /// does, it first reads the passed bytes — a length beyond the
    /// declared capacity is refused with `OutOfBounds` — and interprets
    /// them, refusing bytes that are not UTF-8 with `InvalidEncoding`;
    /// only then does it append, refusing with `OutOfBounds` an appended
    /// string that would exceed the capacity. On failure the instance is
    /// unchanged.
    pub fn add_wasm_is_cool(&mut self, passed_string_length: usize) -> (r: Result<
        usize,
        BoundaryError,
    >)
        requires
            old(self).wf(),
        ensures
            final(self).wf(),
            final(self).buffer_ptr == old(self).buffer_ptr,
            r is Ok <==> (passed_string_length + cool_suffix().len() <= WASM_MEMORY_BUFFER_SIZE
                && valid_utf8(
                old(self).buffer_bytes().subrange(0, passed_string_length as int),
            )),
            r matches Ok(new_length) ==> new_length == passed_string_length + cool_suffix().len()
                && final(self).memory@ == bytes_after_write(
                old(self).memory@,
                old(self).buffer_ptr + passed_string_length,
                cool_suffix(),
            ) && final(self).buffer_bytes() == old(self).buffer_bytes().subrange(
                0,
                passed_string_length as int,
            ) + cool_suffix() + old(self).buffer_bytes().skip(
                passed_string_length + cool_suffix().len(),
            ),
            passed_string_length > WASM_MEMORY_BUFFER_SIZE ==> (r matches Err(e)
                && e is OutOfBounds && *final(self) == *old(self)),
            passed_string_length <= WASM_MEMORY_BUFFER_SIZE && !valid_utf8(
                old(self).buffer_bytes().subrange(0, passed_string_length as int),
            ) ==> (r matches Err(e) && e is InvalidEncoding && *final(self) == *old(self)),
            passed_string_length <= WASM_MEMORY_BUFFER_SIZE && valid_utf8(
                old(self).buffer_bytes().subrange(0, passed_string_length as int),
            ) && passed_string_length + cool_suffix().len() > WASM_MEMORY_BUFFER_SIZE ==> (
            r matches Err(e) && e is OutOfBounds && *final(self) == *old(self)),
    {
        if passed_string_length > WASM_MEMORY_BUFFER_SIZE {
            return Err(BoundaryError::OutOfBounds);
        }
        let passed = match self.memory.read_bytes(self.buffer_ptr, passed_string_length) {
            Ok(v) => v,
            Err(_) => {
                proof {
                    assert(false);
                }
                return Err(BoundaryError::OutOfBounds);
            },
        };
        proof {
            assert(passed@ =~= old(self).buffer_bytes().subrange(0, passed_string_length as int));
        }
        if !crate::encoding::validate_utf8(passed.as_slice()) {
            return Err(BoundaryError::InvalidEncoding);
        }
        let suffix = cool_suffix_vec();
        if suffix.len() > WASM_MEMORY_BUFFER_SIZE - passed_string_length {
            return Err(BoundaryError::OutOfBounds);
        }
        proof {
            self.memory.size_bound();
        }
        let write_at = self.buffer_ptr + passed_string_length;
        match self.memory.write_bytes(write_at, suffix.as_slice()) {
            Ok(_) => {
                proof {
                    assert(self.buffer_bytes() =~= old(self).buffer_bytes().subrange(
                        0,
                        passed_string_length as int,
                    ) + cool_suffix() + old(self).buffer_bytes().skip(
                        passed_string_length + cool_suffix().len(),
                    ));
                }
                Ok(passed_string_length + suffix.len())
            },
            Err(_) => {
                proof {
                    assert(false);
                }
                Err(BoundaryError::OutOfBounds)
            },
        }
    }

    /// The host-side read back out of the guest buffer: `length` bytes
    /// from the buffer's start, interpreted as UTF-8. Refused with
    /// `OutOfBounds` past the declared capacity and with
    /// `InvalidEncoding` when the bytes are not UTF-8.
    pub fn read_buffer_string(&self, length: usize) -> (r: Result<String, BoundaryError>)
        requires
            self.wf(),
        ensures
            r is Ok <==> (length <= WASM_MEMORY_BUFFER_SIZE && valid_utf8(
                self.buffer_bytes().subrange(0, length as int),
            )),
            r matches Ok(s) ==> s@ == decode_utf8(self.buffer_bytes().subrange(0, length as int)),
            length > WASM_MEMORY_BUFFER_SIZE ==> (r matches Err(e) && e is OutOfBounds),
            length <= WASM_MEMORY_BUFFER_SIZE && !valid_utf8(
                self.buffer_bytes().subrange(0, length as int),
            ) ==> (r matches Err(e) && e is InvalidEncoding),
    {
        if length > WASM_MEMORY_BUFFER_SIZE {
            return Err(BoundaryError::OutOfBounds);
        }
        proof {
            assert(self.buffer_bytes().subrange(0, length as int) =~= self.memory@.subrange(
                self.buffer_ptr as int,
                self.buffer_ptr + length,
            ));
        }
        self.memory.read_string(self.buffer_ptr, length)
    }
}

} // verus!
