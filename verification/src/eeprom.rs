//! EEPROM abstraction: a bounded byte store whose capacity and address
//! width come from the device descriptor.
//!
//! Every access is bounds-checked: an address at or past the capacity
//! fails with [`OutOfBoundsError`] and touches neither the store nor the
//! address register. Bulk operations iterate the single-byte ones.
//!
//! On the device a write polls a completion flag before returning,
//! because EEPROM cells are orders of magnitude slower than the CPU; that
//! wait has no effect on the stored values, so the model completes a
//! write in place.

use vstd::prelude::*;
use crate::descriptor::{AddrWidth, EepromDesc};

verus! {

/// The value an erased EEPROM cell reads as.
pub const ERASED_BYTE: u8 = 0xff;

/// An access named an address at or past the capacity; no register was
/// touched.
#[derive(Clone, Copy, PartialEq, Eq, Structural, Debug)]
pub struct OutOfBoundsError;

/// The EEPROM bank: its shape from the descriptor, the address register
/// as last written, and the cell contents.
#[derive(Debug)]
pub struct Eeprom {
    pub capacity: u16,
    pub addr_width: AddrWidth,
    pub addr_reg: u16,
    pub cells: Vec<u8>,
}

impl Eeprom {
    /// Well-formedness: one cell per address, a non-empty store that its
    /// address width can address, and an address register that has only
    /// ever held in-range addresses.
    pub open spec fn spec_wf(self) -> bool {
        &&& self.cells@.len() == self.capacity
        &&& self.capacity > 0
        &&& self.addr_width == AddrWidth::Width8 ==> self.capacity <= 256
        &&& self.addr_reg < self.capacity
    }

    /// Claims the EEPROM bank described by `desc`, every cell in the
    /// erased state.
    #[verifier::loop_isolation(false)]
    pub fn new(desc: EepromDesc) -> (r: Eeprom)
        requires
            crate::descriptor::spec_eeprom_wf(desc),
        ensures
            r.spec_wf(),
            r.capacity == desc.capacity,
            r.addr_width == desc.addr_width,
            r.addr_reg == 0,
            forall|a: int| 0 <= a < desc.capacity ==> r.cells@[a] == ERASED_BYTE,
    {
        let mut cells: Vec<u8> = Vec::new();
        let mut i: usize = 0;
        let n = desc.capacity as usize;
        while i < n
            invariant
                0 <= i <= n,
                cells@.len() == i,
                forall|a: int| 0 <= a < i ==> cells@[a] == ERASED_BYTE,
            decreases n - i,
        {
            cells.push(ERASED_BYTE);
            i += 1;
        }
        Eeprom { capacity: desc.capacity, addr_width: desc.addr_width, addr_reg: 0, cells }
    }

    /// The capacity of the bank in bytes.
    pub fn capacity(&self) -> (r: u16)
        ensures
            r == self.capacity,
    {
        self.capacity
    }

    /// Reads the byte at `address`.
    ///
    /// Succeeds exactly on `address < capacity`, returning the stored
    /// byte after latching the address register; otherwise fails and
    /// leaves everything untouched. Reads never block and never change
    /// the store.
    pub fn read_byte(&mut self, address: u16) -> (r: Result<u8, OutOfBoundsError>)
        requires
            old(self).spec_wf(),
        ensures
            final(self).spec_wf(),
            final(self).cells == old(self).cells,
            final(self).capacity == old(self).capacity,
            final(self).addr_width == old(self).addr_width,
            address < old(self).capacity ==> r == Ok::<u8, OutOfBoundsError>(
                old(self).cells@[address as int],
            ) && final(self).addr_reg == address,
            address >= old(self).capacity ==> r == Err::<u8, OutOfBoundsError>(OutOfBoundsError)
                && *final(self) == *old(self),
    {
        if address >= self.capacity {
            return Err(OutOfBoundsError);
        }
        self.addr_reg = address;
        Ok(self.cells[address as usize])
    }

    /// Writes `value` to the cell at `address`.
    ///
    /// Succeeds exactly on `address < capacity`: the one cell takes the
    /// value, the address register latches the address, and nothing else
    /// changes. Otherwise fails and touches no register.
    pub fn write_byte(&mut self, address: u16, value: u8) -> (r: Result<
        (),
        OutOfBoundsError,
    >)
        requires
            old(self).spec_wf(),
        ensures
            final(self).spec_wf(),
            final(self).capacity == old(self).capacity,
            final(self).addr_width == old(self).addr_width,
            address < old(self).capacity ==> r == Ok::<(), OutOfBoundsError>(()) && final(self).cells@ == old(self).cells@.update(address as int, value) && final(self).addr_reg
                == address,
            address >= old(self).capacity ==> r == Err::<(), OutOfBoundsError>(OutOfBoundsError)
                && *final(self) == *old(self),
    {
        if address >= self.capacity {
            return Err(OutOfBoundsError);
        }
        self.addr_reg = address;
        self.cells[address as usize] = value;
        Ok(())
    }

    /// Writes the erased value back to the cell at `address`.
    pub fn erase_byte(&mut self, address: u16) -> (r: Result<(), OutOfBoundsError>)
        requires
            old(self).spec_wf(),
        ensures
            final(self).spec_wf(),
            final(self).capacity == old(self).capacity,
            final(self).addr_width == old(self).addr_width,
            address < old(self).capacity ==> r == Ok::<(), OutOfBoundsError>(()) && final(self).cells@ == old(self).cells@.update(address as int, ERASED_BYTE) && final(self).addr_reg == address,
            address >= old(self).capacity ==> r == Err::<(), OutOfBoundsError>(OutOfBoundsError)
                && *final(self) == *old(self),
    {
        self.write_byte(address, ERASED_BYTE)
    }

    /// Reads `len` bytes starting at `offset`, one byte at a time.
    ///
    /// Succeeds exactly when the whole range lies inside the capacity,
    /// and then returns the cells of the range in order; otherwise fails
    /// before any access.
    #[verifier::loop_isolation(false)]
    pub fn read(&mut self, offset: u16, len: u16) -> (r: Result<Vec<u8>, OutOfBoundsError>)
        requires
            old(self).spec_wf(),
        ensures
            final(self).spec_wf(),
            final(self).cells == old(self).cells,
            final(self).capacity == old(self).capacity,
            final(self).addr_width == old(self).addr_width,
            offset + len <= old(self).capacity ==> (match r {
                Ok(buf) => buf@ == old(self).cells@.subrange(
                    offset as int,
                    offset as int + len as int,
                ),
                Err(_) => false,
            }) && final(self).addr_reg == if len == 0 {
                old(self).addr_reg
            } else {
                (offset + len - 1) as u16
            },
            offset + len > old(self).capacity ==> r == Err::<Vec<u8>, OutOfBoundsError>(
                OutOfBoundsError,
            ) && *final(self) == *old(self),
    {
        if offset as u32 + len as u32 > self.capacity as u32 {
            return Err(OutOfBoundsError);
        }
        let mut buf: Vec<u8> = Vec::new();
        let mut i: u16 = 0;
        while i < len
            invariant
                0 <= i <= len,
                self.spec_wf(),
                self.cells == old(self).cells,
                self.capacity == old(self).capacity,
                self.addr_width == old(self).addr_width,
                buf@ == old(self).cells@.subrange(offset as int, offset as int + i as int),
                self.addr_reg == if i == 0 {
                    old(self).addr_reg
                } else {
                    (offset + i - 1) as u16
                },
            decreases len - i,
        {
            let b = match self.read_byte(offset + i) {
                Ok(b) => b,
                Err(_) => {
                    proof {
                        assert(false);
                    }
                    0
                },
            };
            buf.push(b);
            proof {
                assert(buf@ =~= old(self).cells@.subrange(
                    offset as int,
                    offset as int + (i + 1) as int,
                ));
            }
            i += 1;
        }
        Ok(buf)
    }

    /// Writes `data` starting at `offset`, one byte at a time.
    ///
    /// Succeeds exactly when the whole range lies inside the capacity:
    /// the range takes the data in order and every cell outside it keeps
    /// its value. Otherwise fails before any access.
    #[verifier::loop_isolation(false)]
    pub fn write(&mut self, offset: u16, data: &Vec<u8>) -> (r: Result<(), OutOfBoundsError>)
        requires
            old(self).spec_wf(),
        ensures
            final(self).spec_wf(),
            final(self).capacity == old(self).capacity,
            final(self).addr_width == old(self).addr_width,
            offset + data@.len() <= old(self).capacity ==> r == Ok::<(), OutOfBoundsError>(())
                && final(self).cells@.len() == old(self).cells@.len() && (forall|a: int|
                0 <= a < offset ==> final(self).cells@[a] == old(self).cells@[a]) && (forall|
                k: int,
            |
                0 <= k < data@.len() ==> final(self).cells@[offset + k] == data@[k]) && (forall|
                a: int,
            |
                offset + data@.len() <= a < old(self).capacity ==> final(self).cells@[a] == old(self).cells@[a]) && final(self).addr_reg == if data@.len() == 0 {
                old(self).addr_reg
            } else {
                (offset + data@.len() - 1) as u16
            },
            offset + data@.len() > old(self).capacity ==> r == Err::<(), OutOfBoundsError>(
                OutOfBoundsError,
            ) && *final(self) == *old(self),
    {
        if offset > self.capacity {
            return Err(OutOfBoundsError);
        }
        if data.len() > (self.capacity - offset) as usize {
            return Err(OutOfBoundsError);
        }
        let mut k: usize = 0;
        while k < data.len()
            invariant
                0 <= k <= data@.len(),
                self.spec_wf(),
                self.capacity == old(self).capacity,
                self.addr_width == old(self).addr_width,
                offset + data@.len() <= old(self).capacity,
                self.cells@.len() == old(self).cells@.len(),
                forall|a: int| 0 <= a < offset ==> self.cells@[a] == old(self).cells@[a],
                forall|k2: int| 0 <= k2 < k ==> self.cells@[offset + k2] == data@[k2],
                forall|a: int|
                    offset + data@.len() <= a < old(self).capacity ==> self.cells@[a] == old(self).cells@[a],
                self.addr_reg == if k == 0 {
                    old(self).addr_reg
                } else {
                    (offset + k - 1) as u16
                },
            decreases data@.len() - k,
        {
            let res = self.write_byte(offset + (k as u16), data[k]);
            proof {
                assert(res is Ok);
            }
            k += 1;
        }
        Ok(())
    }

    /// Writes the erased value over the address range from `from` up to,
    /// not including, `to`.
    ///
    /// Succeeds exactly when the range is ordered and lies inside the
    /// capacity; otherwise fails before any access.
    #[verifier::loop_isolation(false)]
    pub fn erase(&mut self, from: u16, to: u16) -> (r: Result<(), OutOfBoundsError>)
        requires
            old(self).spec_wf(),
        ensures
            final(self).spec_wf(),
            final(self).capacity == old(self).capacity,
            final(self).addr_width == old(self).addr_width,
            from <= to <= old(self).capacity ==> r == Ok::<(), OutOfBoundsError>(()) && final(self).cells@.len() == old(self).cells@.len() && (forall|a: int|
                from <= a < to ==> final(self).cells@[a] == ERASED_BYTE) && (forall|a: int|
                0 <= a < old(self).capacity && !(from <= a < to) ==> final(self).cells@[a] == old(self).cells@[a]) && final(self).addr_reg == if from == to {
                old(self).addr_reg
            } else {
                (to - 1) as u16
            },
            !(from <= to <= old(self).capacity) ==> r == Err::<(), OutOfBoundsError>(
                OutOfBoundsError,
            ) && *final(self) == *old(self),
    {
        if from > to || to > self.capacity {
            return Err(OutOfBoundsError);
        }
        let mut a: u16 = from;
        while a < to
            invariant
                from <= a <= to,
                self.spec_wf(),
                self.capacity == old(self).capacity,
                self.addr_width == old(self).addr_width,
                to <= old(self).capacity,
                self.cells@.len() == old(self).cells@.len(),
                forall|a2: int| from <= a2 < a ==> self.cells@[a2] == ERASED_BYTE,
                forall|a2: int|
                    0 <= a2 < old(self).capacity && !(from <= a2 < a) ==> self.cells@[a2] == old(self).cells@[a2],
                self.addr_reg == if a == from {
                    old(self).addr_reg
                } else {
                    (a - 1) as u16
                },
            decreases to - a,
        {
            let res = self.write_byte(a, ERASED_BYTE);
            proof {
                assert(res is Ok);
            }
            a += 1;
        }
        Ok(())
    }
}

/// For every in-range address, a write is read back exactly: the store
/// after `write_byte(a, v)` holds `v` at `a` and every other cell
/// unchanged, so `read_byte(a)` returns `v`. An out-of-range address is
/// refused by both operations with the store untouched, as their
/// contracts state.
pub proof fn lemma_eeprom_round_trip(e: Eeprom, a: u16, v: u8)
    requires
        e.spec_wf(),
        a < e.capacity,
    ensures
        e.cells@.update(a as int, v)[a as int] == v,
        forall|a2: int|
            0 <= a2 < e.capacity && a2 != a ==> e.cells@.update(a as int, v)[a2] == e.cells@[a2],
{
}

} // verus!
