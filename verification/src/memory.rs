use vstd::prelude::*;

verus! {

/// What a read of `addr` returns from a store with the contents `mem`: the
/// byte at that address, or zero where the store has no such address.
pub open spec fn read_at(mem: Seq<u8>, addr: u16) -> u8 {
    if addr < mem.len() {
        mem[addr as int]
    } else {
        0
    }
}

/// The contents of a store after a write of `val` to `addr`: the byte at
/// that address is replaced; a write to an address that the store does not
/// have changes nothing.
pub open spec fn write_at(mem: Seq<u8>, addr: u16, val: u8) -> Seq<u8> {
    if addr < mem.len() {
        mem.update(addr as int, val)
    } else {
        mem
    }
}

/// The contents `mem` with the bytes of `src` laid over them from position
/// `at` on.
pub open spec fn overlay(mem: Seq<u8>, at: int, src: Seq<u8>) -> Seq<u8> {
    Seq::new(
        mem.len(),
        |i: int|
            if at <= i < at + src.len() {
                src[i - at]
            } else {
                mem[i]
            },
    )
}

/// The bus of the processor: a store of bytes addressed by 16-bit numbers.
///
/// Reads and writes never fail. A read of an address outside the store
/// gives zero and a write there is dropped.
pub trait MemoryAccess {
    /// The bytes of the store, by address.
    spec fn view(&self) -> Seq<u8>;

    fn read_byte(&self, addr: u16) -> (val: u8)
        ensures
            val == read_at(self@, addr),
    ;

    fn write_byte(&mut self, addr: u16, val: u8)
        ensures
            final(self)@ == write_at(old(self)@, addr, val),
    ;

    fn read_bytes(&self, addr: u16, count: u16) -> (bytes: &[u8])
        requires
            addr + count <= self@.len(),
        ensures
            bytes@ == self@.subrange(addr as int, addr + count),
    ;

    fn write_bytes(&mut self, addr: u16, val: &[u8])
        requires
            addr + val@.len() <= old(self)@.len(),
        ensures
            final(self)@ == overlay(old(self)@, addr as int, val@),
    ;
}

/// A store of `N` bytes, at the addresses from 0 on.
pub struct Memory<const N: usize> {
    arr: [u8; N],
}

impl<const N: usize> Memory<N> {
    /// A store of type `Memory<N>` holds `N` bytes.
    pub proof fn lemma_len(&self)
        ensures
            self@.len() == N,
    {
    }

    /// A store of `N` zero bytes.
    pub fn new() -> (memory: Self)
        ensures
            memory@ == Seq::new(N as nat, |i: int| 0u8),
            memory@.len() == N,
    {
        let memory = Memory { arr: [0 as u8;N] };
        assert(memory@ =~= Seq::new(N as nat, |i: int| 0u8));
        memory
    }

    /// Copies the bytes of `src` into the store, the first to `index`.
    pub fn copy_into_from_slice(&mut self, src: &[u8], index: u16)
        requires
            index + src@.len() <= N,
        ensures
            final(self)@ == overlay(old(self)@, index as int, src@),
            final(self)@.len() == N,
            forall|i: int|
                0 <= i < src@.len() ==> #[trigger] final(self)@[index + i] == src@[i],
            forall|i: int|
                0 <= i < N && !(index <= i < index + src@.len()) ==> #[trigger] final(self)@[i]
                    == old(self)@[i],
    {
        proof {
            self.lemma_len();
        }
        self.write_bytes(index, src);
    }

    /// The bytes from address `start` up to, not including, address `end`.
    pub fn get_bytes(&self, start: u16, end: u16) -> (bytes: &[u8])
        requires
            start <= end <= N,
        ensures
            bytes@ == self@.subrange(start as int, end as int),
            bytes@.len() == end - start,
            forall|i: int| 0 <= i < end - start ==> #[trigger] bytes@[i] == self@[start + i],
    {
        &self.arr[start as usize..end as usize]
    }
}

impl<const N: usize> MemoryAccess for Memory<N> {
    closed spec fn view(&self) -> Seq<u8> {
        self.arr@
    }

    fn read_byte(&self, addr: u16) -> (val: u8)
        ensures
            self@.len() == N,
    {
        if (addr as usize) >= N {
            return 0;
        }
        return self.arr[addr as usize]
    }

    fn write_byte(&mut self, addr: u16, val: u8)
        ensures
            final(self)@.len() == N,
    {
        if (addr as usize) < N {
            self.arr[addr as usize] = val
        }
    }

    fn read_bytes(&self, addr: u16, count: u16) -> (bytes: &[u8])
        ensures
            bytes@.len() == count,
    {
        let start = addr as usize;
        let end = start + count as usize;
        &self.arr[start..end]
    }

    fn write_bytes(&mut self, addr: u16, val: &[u8])
        ensures
            final(self)@.len() == N,
    {
        let start = addr as usize;
        let len = val.len();
        let mut done: usize = 0;
        while done < len
            invariant
                len == val@.len(),
                start + len <= N,
                done <= len,
                self@ == overlay(old(self)@, start as int, val@.subrange(0, done as int)),
            decreases len - done,
        {
            self.arr[start + done] = val[done];
            done += 1;
            assert(self@ =~= overlay(old(self)@, start as int, val@.subrange(0, done as int)));
        }
        assert(val@.subrange(0, len as int) =~= val@);
    }
}

/// A store has as many bytes after a write as before.
pub proof fn lemma_write_keeps_length(mem: Seq<u8>, addr: u16, val: u8)
    ensures
        write_at(mem, addr, val).len() == mem.len(),
{
}

/// A read after a write gives the byte written where the store has the
/// address, and what was there before at every other address.
pub proof fn lemma_read_after_write(mem: Seq<u8>, addr: u16, val: u8, other: u16)
    ensures
        addr < mem.len() ==> read_at(write_at(mem, addr, val), addr) == val,
        other != addr ==> read_at(write_at(mem, addr, val), other) == read_at(mem, other),
{
}

} // verus!
