use crate::consts::{Byte, Word};
use vstd::prelude::*;
use vstd::std_specs::convert::FromSpecImpl;

verus! {

/// Size of the 6502 address space in bytes.
pub const MEMORY_SIZE: usize = 0x10000;

/// The most recent access a memory saw.
#[derive(Copy, Clone, Debug, PartialEq, Eq, Structural)]
pub enum Operation {
    Read(Word),
    Write(Word),
}

/// Abstract state of a memory: its bytes and the most recent access.
pub type MemView = (Seq<Byte>, Option<Operation>);

/// State after reading `addr`: contents unchanged, the read is recorded.
pub open spec fn mem_after_read(m: MemView, addr: Word) -> MemView {
    (m.0, Some(Operation::Read(addr)))
}

/// State after writing `val` to `addr`.
pub open spec fn mem_after_write(m: MemView, addr: Word, val: Byte) -> MemView {
    (m.0.update(addr as int, val), Some(Operation::Write(addr)))
}

/// Byte stored at `addr`.
pub open spec fn mem_at(m: MemView, addr: Word) -> Byte {
    m.0[addr as int]
}

/// A read gives back what the last write to the same address wrote; a write leaves every
/// other address as it was, and a read changes no byte.
pub proof fn lemma_read_after_write(m: MemView, a: Word, b: Word, v: Byte)
    requires
        m.0.len() == MEMORY_SIZE,
    ensures
        mem_at(mem_after_write(m, a, v), a) == v,
        a != b ==> mem_at(mem_after_write(m, a, v), b) == mem_at(m, b),
        mem_after_read(m, a).0 == m.0,
        mem_after_write(m, a, v).0.len() == MEMORY_SIZE,
{
}

/// A byte-addressed memory seen by the processor, one access per call.
pub trait Memory {
    /// The bytes and the last access of this memory.
    spec fn mem_view(&self) -> MemView;

    /// Whether the memory covers the whole 16-bit address space.
    spec fn mem_wf(&self) -> bool;

    /// Reads the byte at `addr` and records the access.
    fn read(&mut self, addr: Word) -> (r: Byte)
        requires
            old(self).mem_wf(),
        ensures
            final(self).mem_wf(),
            r == mem_at(old(self).mem_view(), addr),
            final(self).mem_view() == mem_after_read(old(self).mem_view(), addr),
    ;

    /// Writes `val` at `addr` and records the access.
    fn write(&mut self, addr: Word, val: Byte)
        requires
            old(self).mem_wf(),
        ensures
            final(self).mem_wf(),
            final(self).mem_view() == mem_after_write(old(self).mem_view(), addr, val),
    ;
}

/// A flat 64 KiB memory that remembers its most recent access.
pub struct Generic64kMem {
    pub last_op: Option<Operation>,
    pub data: Vec<Byte>,
}

impl View for Generic64kMem {
    type V = MemView;

    open spec fn view(&self) -> MemView {
        (self.data@, self.last_op)
    }
}

impl Generic64kMem {
    /// Well-formed: the memory spans the whole address space.
    pub open spec fn wf(&self) -> bool {
        self.data@.len() == MEMORY_SIZE
    }

    /// A zero-filled memory that has seen no access yet.
    pub fn new() -> (r: Self)
        ensures
            r.wf(),
            r@.0 == Seq::new(MEMORY_SIZE as nat, |i: int| 0u8),
            r@.1 == None::<Operation>,
    {
        let mut data: Vec<Byte> = Vec::new();
        let mut i: usize = 0;
        while i < MEMORY_SIZE
            invariant
                i <= MEMORY_SIZE,
                data@ == Seq::new(i as nat, |j: int| 0u8),
            decreases MEMORY_SIZE - i,
        {
            data.push(0);
            i = i + 1;
        }
        Generic64kMem { last_op: None, data }
    }

    /// Stores each `(address, value)` pair in order; a later pair wins over an earlier one.
    pub fn store(&mut self, payload: &[(Word, Byte)])
        requires
            old(self).wf(),
        ensures
            final(self).wf(),
            final(self)@.1 == old(self)@.1,
            final(self)@.0 == stores_applied(old(self)@.0, payload@),
    {
        let mut i: usize = 0;
        while i < payload.len()
            invariant
                0 <= i <= payload@.len(),
                self.wf(),
                self@.1 == old(self)@.1,
                self@.0 == stores_applied(old(self)@.0, payload@.take(i as int)),
            decreases payload@.len() - i,
        {
            let (address, value) = payload[i];
            let idx: usize = address as usize;
            self.data.set(idx, value);
            proof {
                assert(payload@.take(i as int + 1).drop_last() == payload@.take(i as int));
            }
            i = i + 1;
        }
        proof {
            assert(payload@.take(payload@.len() as int) == payload@);
        }
    }

    /// Copies `payload` into consecutive bytes starting at `addr`.
    pub fn insert(&mut self, addr: Word, payload: &[Byte])
        requires
            old(self).wf(),
            addr as int + payload@.len() <= MEMORY_SIZE,
        ensures
            final(self).wf(),
            final(self)@.1 == old(self)@.1,
            final(self)@.0 == old(self)@.0.take(addr as int) + payload@ + old(self)@.0.skip(
                addr as int + payload@.len(),
            ),
    {
        let mut tgt_addr: usize = addr as usize;
        let mut i: usize = 0;
        while i < payload.len()
            invariant
                0 <= i <= payload@.len(),
                tgt_addr == addr as int + i,
                old(self).wf(),
                addr as int + payload@.len() <= MEMORY_SIZE,
                self.wf(),
                self@.1 == old(self)@.1,
                forall|j: int|
                    0 <= j < MEMORY_SIZE ==> #[trigger] self@.0[j] == if addr <= j < addr + i {
                        payload@[j - addr]
                    } else {
                        old(self)@.0[j]
                    },
            decreases payload@.len() - i,
        {
            let ghost prev = self@.0;
            self.data.set(tgt_addr, payload[i]);
            proof {
                assert forall|j: int| 0 <= j < MEMORY_SIZE implies #[trigger] self@.0[j] == if addr
                    <= j < addr + i + 1 {
                    payload@[j - addr]
                } else {
                    old(self)@.0[j]
                } by {
                    if j != tgt_addr {
                        assert(self@.0[j] == prev[j]);
                    }
                }
            }
            tgt_addr = tgt_addr + 1;
            i = i + 1;
        }
        proof {
            assert(self@.0 =~= old(self)@.0.take(addr as int) + payload@ + old(self)@.0.skip(
                addr as int + payload@.len(),
            ));
        }
    }

    /// The most recent access, if any.
    pub fn get_last_operation(&self) -> (r: Option<Operation>)
        ensures
            r == self@.1,
    {
        self.last_op
    }
}

/// Contents after applying `(address, value)` stores in order.
pub open spec fn stores_applied(data: Seq<Byte>, stores: Seq<(Word, Byte)>) -> Seq<Byte>
    decreases stores.len(),
{
    if stores.len() == 0 {
        data
    } else {
        let last = stores.last();
        stores_applied(data, stores.drop_last()).update(last.0 as int, last.1)
    }
}

/// Every store keeps the length of the contents.
pub proof fn lemma_stores_applied_len(data: Seq<Byte>, stores: Seq<(Word, Byte)>)
    requires
        data.len() == MEMORY_SIZE,
    ensures
        stores_applied(data, stores).len() == data.len(),
    decreases stores.len(),
{
    if stores.len() > 0 {
        lemma_stores_applied_len(data, stores.drop_last());
    }
}

impl Default for Generic64kMem {
    fn default() -> (r: Self)
        ensures
            r.wf(),
            r@.0 == Seq::new(MEMORY_SIZE as nat, |i: int| 0u8),
            r@.1 == None::<Operation>,
    {
        Self::new()
    }
}

/// A zero-filled memory with the given `(address, value)` pairs stored in order.
pub open spec fn memory_from_stores(stores: Seq<(Word, Byte)>) -> Seq<Byte> {
    stores_applied(Seq::new(MEMORY_SIZE as nat, |i: int| 0u8), stores)
}

impl<'a> From<&'a [(Word, Byte)]> for Generic64kMem {
    /// A fresh memory with each `(address, value)` pair stored in order.
    fn from(value: &'a [(Word, Byte)]) -> (r: Self)
        ensures
            r.wf(),
            r@.0 == memory_from_stores(value@),
            r@.1 == None::<Operation>,
    {
        let mut res = Generic64kMem::new();
        res.store(value);
        res
    }
}

impl<'a> FromSpecImpl<&'a [(Word, Byte)]> for Generic64kMem {
    // A memory holds a `Vec`, which no spec expression builds; the contract of `from`
    // above states the result instead.
    open spec fn obeys_from_spec() -> bool {
        false
    }

    open spec fn from_spec(v: &'a [(Word, Byte)]) -> Generic64kMem {
        vstd::pervasive::arbitrary()
    }
}

impl std::ops::Index<std::ops::Range<Word>> for Generic64kMem {
    type Output = [Byte];

    /// The bytes from `idx.start` up to, not including, `idx.end`.
    fn index(&self, idx: std::ops::Range<Word>) -> (r: &[Byte])
        ensures
            r@ == self.data@.subrange(idx.start as int, idx.end as int),
    {
        let start: usize = idx.start as usize;
        let end: usize = idx.end as usize;
        vstd::slice::slice_subrange(self.data.as_slice(), start, end)
    }
}

impl vstd::std_specs::core::IndexSpecImpl<std::ops::Range<Word>> for Generic64kMem {
    /// Slicing needs an ordered range inside the memory.
    open spec fn index_req(&self, index: &std::ops::Range<Word>) -> bool {
        self.wf() && index.start <= index.end
    }
}

impl Memory for Generic64kMem {
    open spec fn mem_view(&self) -> MemView {
        self@
    }

    open spec fn mem_wf(&self) -> bool {
        self.wf()
    }

    fn read(&mut self, addr: Word) -> (r: Byte) {
        proof {
            assert(old(self).mem_wf());
            assert(self.data@.len() == MEMORY_SIZE);
        }
        let mem_address: usize = addr as usize;
        let value = self.data[mem_address];
        self.last_op = Some(Operation::Read(addr));
        proof {
            assert(value == old(self).data@[addr as int]);
            assert(self.data@ == old(self).data@);
            assert(old(self).mem_view() == old(self)@);
            assert(mem_at(old(self).mem_view(), addr) == old(self).data@[addr as int]);
        }
        value
    }

    fn write(&mut self, addr: Word, val: Byte) {
        let mem_address: usize = addr as usize;
        self.last_op = Some(Operation::Write(addr));
        self.data.set(mem_address, val);
    }
}

} // verus!
