//! Moving bytes across the boundary between host and guest.
//!
//! A guest names its data by offset and length into its own linear memory.
//! Nothing here trusts those numbers: every range is held against the size
//! that the memory has at that moment, before a byte is copied.

use vstd::prelude::*;
use vstd::string::StringSliceAdditionalSpecFns;
use vstd::utf8::{encode_utf8, valid_utf8};
use wasmtime::{Memory, StoreContextMut, TypedFunc};
use crate::runtime::{
    allocator_home, call_allocator, context_home, error_text, memory_bytes, memory_home,
    memory_read, memory_size, memory_write, spliced,
};

verus! {

/// Why a transfer did not happen.
#[derive(Clone, Copy, Debug, PartialEq, Eq, Structural)]
pub enum MemoryError {
    /// The range does not lie within the guest's memory.
    OutOfBounds,
    /// The bytes are not UTF-8.
    InvalidUtf8,
}

/// Why a string could not be handed to a guest.
#[derive(Clone, Debug, PartialEq, Eq)]
pub enum PlaceError {
    /// The guest exports no allocator.
    MissingAllocator,
    /// The string is longer than a guest length can say.
    TextTooLong,
    /// The guest's allocator trapped; the text is the runtime's account.
    AllocatorTrapped(String),
    /// The guest's allocator returned a range outside the guest's memory.
    OutOfBounds,
}

/// Whether `len` bytes from `ptr` on lie within a memory of `size` bytes.
pub open spec fn in_bounds(ptr: int, len: int, size: nat) -> bool {
    0 <= ptr && 0 <= len && ptr + len <= size
}

/// `String::from_utf8`: the string whose UTF-8 form is `bytes`, where they
/// are UTF-8, and nothing where they are not.
#[verifier::external_body]
pub(crate) fn string_from_utf8(bytes: Vec<u8>) -> (text: Option<String>)
    ensures
        text is Some <==> valid_utf8(bytes@),
        text matches Some(s) ==> encode_utf8(s@) == bytes@,
{
    String::from_utf8(bytes).ok()
}

/// The linear memory of one guest, reached through a context of the store
/// that it lives in. All access to guest bytes goes through the checked
/// operations of this type.
pub struct GuestMemory<'a> {
    pub ctx: StoreContextMut<'a, ()>,
    pub memory: Memory,
}

impl<'a> GuestMemory<'a> {
    /// The memory belongs to the store that the context is of.
    pub open spec fn wf(&self) -> bool {
        memory_home(self.memory) == context_home(self.ctx)
    }

    /// The bytes that the memory holds.
    pub open spec fn view(&self) -> Seq<u8> {
        memory_bytes(self.ctx, self.memory)
    }

    /// The number of bytes that the memory holds.
    pub fn size(&self) -> (size: usize)
        requires
            self.wf(),
        ensures
            size == self@.len(),
    {
        memory_size(&self.ctx, &self.memory)
    }

    /// Copies `len` bytes out of the guest, from `ptr` on. A range that is
    /// negative in either number or runs past the end of the memory is
    /// refused, and nothing is read.
    pub fn read_bytes(&self, ptr: i32, len: i32) -> (read: Result<Vec<u8>, MemoryError>)
        requires
            self.wf(),
        ensures
            match read {
                Ok(bytes) => in_bounds(ptr as int, len as int, self@.len()) && bytes@
                    == self@.subrange(ptr as int, ptr + len),
                Err(e) => e == MemoryError::OutOfBounds && !in_bounds(
                    ptr as int,
                    len as int,
                    self@.len(),
                ),
            },
    {
        if ptr < 0 || len < 0 {
            return Err(MemoryError::OutOfBounds);
        }
        let size = self.size();
        let offset = ptr as usize;
        let count = len as usize;
        if offset > size || count > size - offset {
            return Err(MemoryError::OutOfBounds);
        }
        match memory_read(&self.ctx, &self.memory, offset, count) {
            Some(bytes) => Ok(bytes),
            None => Err(MemoryError::OutOfBounds),
        }
    }

    /// Copies `len` bytes out of the guest as text. Beyond what `read_bytes`
    /// refuses, bytes that are not UTF-8 are refused.
    pub fn read_utf8(&self, ptr: i32, len: i32) -> (read: Result<String, MemoryError>)
        requires
            self.wf(),
        ensures
            match read {
                Ok(text) => in_bounds(ptr as int, len as int, self@.len()) && encode_utf8(text@)
                    == self@.subrange(ptr as int, ptr + len),
                Err(MemoryError::OutOfBounds) => !in_bounds(ptr as int, len as int, self@.len()),
                Err(MemoryError::InvalidUtf8) => in_bounds(ptr as int, len as int, self@.len())
                    && !valid_utf8(self@.subrange(ptr as int, ptr + len)),
            },
    {
        match self.read_bytes(ptr, len) {
            Err(e) => Err(e),
            Ok(bytes) => match string_from_utf8(bytes) {
                Some(text) => Ok(text),
                None => Err(MemoryError::InvalidUtf8),
            },
        }
    }

    /// Copies `bytes` into the guest, from `ptr` on. A negative `ptr`, or a
    /// range that runs past the end of the memory, is refused, and the
    /// memory stays as it is.
    pub fn write_bytes(&mut self, ptr: i32, bytes: &[u8]) -> (written: Result<(), MemoryError>)
        requires
            old(self).wf(),
        ensures
            final(self).wf(),
            final(self).memory == old(self).memory,
            context_home(final(self).ctx) == context_home(old(self).ctx),
            match written {
                Ok(()) => in_bounds(ptr as int, bytes@.len() as int, old(self)@.len())
                    && final(self)@ == spliced(old(self)@, ptr as int, bytes@),
                Err(e) => e == MemoryError::OutOfBounds && !in_bounds(
                    ptr as int,
                    bytes@.len() as int,
                    old(self)@.len(),
                ) && final(self)@ == old(self)@,
            },
    {
        if ptr < 0 {
            return Err(MemoryError::OutOfBounds);
        }
        if memory_write(&mut self.ctx, &self.memory, ptr as usize, bytes) {
            Ok(())
        } else {
            Err(MemoryError::OutOfBounds)
        }
    }

    /// Copies `text` to where the guest's allocator pointed, and answers
    /// with that pointer. The pointer is the guest's word and is checked
    /// like any other: one that leaves no room for the text within the
    /// memory is refused, and the memory stays as it is.
    pub fn place_at(&mut self, ptr: i32, text: &str) -> (placed: Result<i32, PlaceError>)
        requires
            old(self).wf(),
        ensures
            final(self).wf(),
            final(self).memory == old(self).memory,
            context_home(final(self).ctx) == context_home(old(self).ctx),
            placed == if in_bounds(
                ptr as int,
                text.spec_bytes().len() as int,
                old(self)@.len(),
            ) {
                Ok::<i32, PlaceError>(ptr)
            } else {
                Err::<i32, PlaceError>(PlaceError::OutOfBounds)
            },
            final(self)@ == if placed is Ok {
                spliced(old(self)@, ptr as int, text.spec_bytes())
            } else {
                old(self)@
            },
            placed is Ok ==> final(self)@.subrange(ptr as int, ptr + text.spec_bytes().len())
                == text.spec_bytes(),
    {
        let bytes = text.as_bytes();
        let ghost before = self@;
        match self.write_bytes(ptr, bytes) {
            Ok(()) => {
                assert(spliced(before, ptr as int, bytes@).subrange(
                    ptr as int,
                    ptr + bytes@.len(),
                ) =~= bytes@);
                Ok(ptr)
            },
            Err(_) => Err(PlaceError::OutOfBounds),
        }
    }

    /// Hands `text` to the guest: asks the guest's allocator for room for its
    /// bytes and copies them to where the allocator points. On success the
    /// bytes of `text` stand in the guest's memory at the pointer returned.
    ///
    /// The allocator is guest code. It may answer with any pointer, so the
    /// copy is checked like any other, and it may rearrange the guest's
    /// memory, so nothing is said of bytes elsewhere.
    pub fn place_string_in_guest(
        &mut self,
        allocator: Option<&TypedFunc<i32, i32>>,
        text: &str,
    ) -> (placed: Result<i32, PlaceError>)
        requires
            old(self).wf(),
            allocator matches Some(f) ==> allocator_home(*f) == context_home(old(self).ctx),
        ensures
            final(self).wf(),
            final(self).memory == old(self).memory,
            context_home(final(self).ctx) == context_home(old(self).ctx),
            placed == Err::<i32, PlaceError>(PlaceError::MissingAllocator) <==> allocator is None,
            placed == Err::<i32, PlaceError>(PlaceError::TextTooLong) <==> allocator is Some
                && text.spec_bytes().len() > i32::MAX,
            placed is Err && !(placed matches Err(PlaceError::AllocatorTrapped(_)))
                && !(placed matches Err(PlaceError::OutOfBounds)) ==> final(self)@ == old(self)@,
            placed matches Ok(ptr) ==> allocator is Some && in_bounds(
                ptr as int,
                text.spec_bytes().len() as int,
                final(self)@.len(),
            ) && final(self)@.subrange(ptr as int, ptr + text.spec_bytes().len())
                == text.spec_bytes(),
    {
        let allocator = match allocator {
            Some(f) => f,
            None => {
                return Err(PlaceError::MissingAllocator);
            },
        };
        let bytes = text.as_bytes();
        if bytes.len() > i32::MAX as usize {
            return Err(PlaceError::TextTooLong);
        }
        let ptr = match call_allocator(&mut self.ctx, allocator, bytes.len() as i32) {
            Ok(ptr) => ptr,
            Err(trap) => {
                return Err(PlaceError::AllocatorTrapped(error_text(&trap)));
            },
        };
        self.place_at(ptr, text)
    }
}

} // verus!
