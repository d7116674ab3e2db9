//! The part of the flash memory that holds the settings, as an image in
//! memory.
//!
//! Flash is written a half-word at a time, and only where it is erased; it
//! is erased a page at a time. The image behaves that way. Every change to
//! it is also put on a list, in order, for whoever has to make the same
//! changes on the memory itself.

use vstd::prelude::*;

verus! {

/// The value of an erased half-word.
pub const ERASED: u16 = 0xffff;

/// Why an operation on flash failed.
#[derive(Copy, Clone, Debug, PartialEq, Eq, Structural)]
pub enum FlashError {
    /// The controller could not be unlocked.
    UnlockFailed,
    /// The operation did not complete in time.
    Timeout,
    /// The half-word to program was not erased.
    ProgrammingError,
    /// The address is write-protected.
    WriteProtectionError,
    /// The controller is busy.
    Busy,
}

/// A change to the memory.
#[derive(Copy, Clone, Debug, PartialEq, Eq, Structural)]
pub enum FlashOp {
    /// The half-word at `address` was programmed with `data`.
    Program { address: u32, data: u16 },
    /// The page that starts at `address` was erased.
    ErasePage { address: u32 },
}

/// The image of the pages.
pub struct Flash {
    /// The address of the first half-word.
    base: u32,
    /// The size of a page, in bytes.
    page_size: u32,
    cells: Vec<u16>,
    log: Vec<FlashOp>,
}

/// The state of a [`Flash`].
pub struct FlashView {
    pub base: u32,
    pub page_size: u32,
    /// The half-words, from `base` on.
    pub cells: Seq<u16>,
    /// The changes made so far and not yet taken.
    pub log: Seq<FlashOp>,
}

impl FlashView {
    /// The image is made of whole pages and lies within the address space.
    pub open spec fn wf(self) -> bool {
        &&& self.page_size >= 2
        &&& self.page_size % 2 == 0
        &&& (self.cells.len() as int * 2) % (self.page_size as int) == 0
        &&& self.base + self.cells.len() * 2 <= u32::MAX
    }

    /// `address` is that of a half-word of the image.
    pub open spec fn holds(self, address: u32) -> bool {
        &&& self.base <= address
        &&& address + 2 <= self.base + self.cells.len() * 2
        &&& (address - self.base) % 2 == 0
    }

    /// `address` is that of the start of a page of the image.
    pub open spec fn holds_page(self, address: u32) -> bool {
        &&& self.base <= address
        &&& address + self.page_size <= self.base + self.cells.len() * 2
        &&& (address - self.base) % (self.page_size as int) == 0
    }

    /// The place of the half-word at `address` in the image.
    pub open spec fn index(self, address: u32) -> int {
        (address - self.base) / 2
    }

    /// The half-word at `address`.
    pub open spec fn at(self, address: u32) -> u16 {
        self.cells[self.index(address)]
    }

    /// The image after the half-word at `address` was programmed.
    pub open spec fn programmed(self, address: u32, data: u16) -> FlashView {
        FlashView {
            cells: self.cells.update(self.index(address), data),
            log: self.log.push(FlashOp::Program { address: address, data: data }),
            ..self
        }
    }

    /// The image after the page at `address` was erased.
    pub open spec fn page_erased(self, address: u32) -> FlashView {
        FlashView {
            cells: Seq::new(
                self.cells.len(),
                |i: int|
                    if self.index(address) <= i < self.index(address) + self.page_size / 2 {
                        ERASED
                    } else {
                        self.cells[i]
                    },
            ),
            log: self.log.push(FlashOp::ErasePage { address: address }),
            ..self
        }
    }
}

impl View for Flash {
    type V = FlashView;

    closed spec fn view(&self) -> FlashView {
        FlashView { base: self.base, page_size: self.page_size, cells: self.cells@, log: self.log@ }
    }
}

impl Flash {
    /// The image of a memory that holds `cells` from `base` on, in pages of
    /// `page_size` bytes.
    pub fn new(base: u32, page_size: u32, cells: Vec<u16>) -> (flash: Flash)
        requires
            page_size >= 2,
            page_size % 2 == 0,
            (cells@.len() as int * 2) % (page_size as int) == 0,
            base + cells@.len() * 2 <= u32::MAX,
        ensures
            flash@.wf(),
            flash@ == (FlashView {
                base: base,
                page_size: page_size,
                cells: cells@,
                log: Seq::empty(),
            }),
    {
        Flash { base, page_size, cells, log: Vec::new() }
    }

    /// The address of the first half-word.
    pub fn base(&self) -> (base: u32)
        ensures
            base == self@.base,
    {
        self.base
    }

    /// The size of a page, in bytes.
    pub fn page_size(&self) -> (size: u32)
        ensures
            size == self@.page_size,
    {
        self.page_size
    }

    /// The number of half-words.
    pub fn len(&self) -> (len: usize)
        ensures
            len == self@.cells.len(),
    {
        self.cells.len()
    }

    /// The half-word at `address`.
    pub fn read(&self, address: u32) -> (data: u16)
        requires
            self@.holds(address),
        ensures
            data == self@.at(address),
    {
        self.cells[((address - self.base) / 2) as usize]
    }

    /// Programs the half-word at `address` with `data`. A half-word that
    /// is not erased is left as it is and gives `ProgrammingError`.
    pub fn write(&mut self, address: u32, data: u16) -> (r: Result<(), FlashError>)
        requires
            old(self)@.holds(address),
        ensures
            r is Ok <==> old(self)@.at(address) == ERASED,
            r is Ok ==> final(self)@ == old(self)@.programmed(address, data),
            r is Err ==> r->Err_0 == FlashError::ProgrammingError && final(self)@ == old(self)@,
    {
        let i: usize = ((address - self.base) / 2) as usize;
        if self.cells[i] != ERASED {
            return Err(FlashError::ProgrammingError);
        }
        self.cells.set(i, data);
        self.log.push(FlashOp::Program { address, data });
        Ok(())
    }

    /// Erases the page that starts at `address`.
    pub fn page_erase(&mut self, address: u32) -> (r: Result<(), FlashError>)
        requires
            old(self)@.wf(),
            old(self)@.holds_page(address),
        ensures
            r is Ok,
            final(self)@ == old(self)@.page_erased(address),
            final(self)@.wf(),
    {
        let first: usize = ((address - self.base) / 2) as usize;
        let count: usize = (self.page_size / 2) as usize;
        let len: usize = self.cells.len();
        proof {
            let off = (address - self.base) as int;
            let size = self.page_size as int;
            assert(off % 2 == 0) by {
                vstd::arithmetic::div_mod::lemma_fundamental_div_mod(off, size);
                vstd::arithmetic::div_mod::lemma_fundamental_div_mod(size, 2);
                assert(off == size * (off / size));
                assert(size == 2 * (size / 2));
                assert(off == 2 * ((size / 2) * (off / size))) by (nonlinear_arith)
                    requires
                        off == size * (off / size),
                        size == 2 * (size / 2),
                ;
            }
            assert(first + count <= self.cells@.len());
        }
        let mut i: usize = 0;
        while i < count
            invariant
                i <= count,
                first + count <= len,
                len == self.cells@.len(),
                self.cells@.len() == old(self).cells@.len(),
                self.base == old(self).base,
                self.page_size == old(self).page_size,
                self.log == old(self).log,
                forall|k: int|
                    0 <= k < self.cells@.len() ==> #[trigger] self.cells@[k] == if first <= k
                        < first + i {
                        ERASED
                    } else {
                        old(self).cells@[k]
                    },
            decreases count - i,
        {
            self.cells.set(first + i, ERASED);
            i = i + 1;
        }
        self.log.push(FlashOp::ErasePage { address });
        assert(self@.cells =~= old(self)@.page_erased(address).cells);
        Ok(())
    }

    /// The half-words of the image.
    pub fn cells(&self) -> (cells: &Vec<u16>)
        ensures
            cells@ == self@.cells,
    {
        &self.cells
    }

    /// The changes made since the list was last taken, in order.
    pub fn log(&self) -> (log: &Vec<FlashOp>)
        ensures
            log@ == self@.log,
    {
        &self.log
    }

    /// Takes the list of changes, which starts anew.
    pub fn take_log(&mut self) -> (log: Vec<FlashOp>)
        ensures
            log@ == old(self)@.log,
            final(self)@ == (FlashView { log: Seq::empty(), ..old(self)@ }),
    {
        let mut log: Vec<FlashOp> = Vec::new();
        std::mem::swap(&mut self.log, &mut log);
        log
    }
}

} // verus!
