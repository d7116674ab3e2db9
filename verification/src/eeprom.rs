//! A store of 16-bit values under 16-bit tags, kept in flash memory.
//!
//! The store uses two or more pages. One of them is active: its first item
//! holds a marker, and every further item a tag and a value. A write adds an
//! item behind the last one, so that the latest item of a tag holds its
//! value. When the active page is full, the latest item of every tag is
//! copied to the next page, which becomes the active one, and the full page
//! is erased.

use crate::flash::{Flash, FlashError, FlashView, ERASED};
use vstd::prelude::*;

verus! {

/// The first half-word of the active page.
pub const ACTIVE_PAGE_MARKER: u16 = 0xABCD;

/// An item that was never written: both half-words erased.
pub const ERASED_ITEM: u32 = 0xffff_ffff;

/// The size of an item, in bytes: a tag and a value.
pub const ITEM_SIZE: u32 = 4;

/// Tags from here on are reserved.
pub const RESERVED_TAGS: u16 = 0x8000;

/// The store.
pub struct EEPROM {
    first_page_offset: u32,
    page_size: u32,
    /// The number of items in a page.
    page_items: u32,
    page_count: u32,
    flash: Flash,
}

/// The state of an [`EEPROM`].
pub struct EepromView {
    pub first_page_offset: u32,
    pub page_size: u32,
    pub page_items: u32,
    pub page_count: u32,
    pub flash: FlashView,
}

impl EepromView {
    /// The store covers its flash image exactly, in two pages or more of
    /// two items or more.
    pub open spec fn sound(self) -> bool {
        &&& self.flash.wf()
        &&& self.flash.base == self.first_page_offset
        &&& self.flash.page_size == self.page_size
        &&& self.page_size % 4 == 0
        &&& self.page_items == self.page_size / 4
        &&& self.page_items >= 2
        &&& self.page_count >= 2
        &&& self.flash.cells.len() == self.page_count * self.page_items * 2
    }

    /// `page` and `item` are those of an item of the store.
    pub open spec fn has(self, page: int, item: int) -> bool {
        0 <= page < self.page_count && 0 <= item < self.page_items
    }

    /// The place in the image of the tag of an item; its value follows.
    pub open spec fn slot(self, page: int, item: int) -> int {
        (page * self.page_items + item) * 2
    }

    /// The address of an item.
    pub open spec fn address(self, page: int, item: int) -> int {
        self.first_page_offset + (page * self.page_items + item) * 4
    }

    pub open spec fn tag(self, page: int, item: int) -> u16 {
        self.flash.cells[self.slot(page, item)]
    }

    pub open spec fn data(self, page: int, item: int) -> u16 {
        self.flash.cells[self.slot(page, item) + 1]
    }

    /// The item was never written.
    pub open spec fn erased(self, page: int, item: int) -> bool {
        self.tag(page, item) == ERASED && self.data(page, item) == ERASED
    }

    /// Nothing in the page was written.
    pub open spec fn clean(self, page: int) -> bool {
        forall|i: int| 0 <= i < self.page_items ==> #[trigger] self.erased(page, i)
    }

    /// The page holds the marker.
    pub open spec fn marked(self, page: int) -> bool {
        self.tag(page, 0) == ACTIVE_PAGE_MARKER
    }

    /// The first page from `from` on that holds the marker.
    pub open spec fn first_marked(self, from: int) -> Option<int>
        decreases self.page_count - from,
    {
        if from >= self.page_count {
            None
        } else if self.marked(from) {
            Some(from)
        } else {
            self.first_marked(from + 1)
        }
    }

    /// The active page.
    pub open spec fn active(self) -> Option<int> {
        self.first_marked(0)
    }

    /// The value of the last of the items `lo` to `hi - 1` of `page` that
    /// have the tag `tag`.
    pub open spec fn latest(self, page: int, lo: int, hi: int, tag: u16) -> Option<u16>
        decreases hi - lo,
    {
        if lo >= hi {
            None
        } else {
            match self.latest(page, lo + 1, hi, tag) {
                Some(d) => Some(d),
                None => if self.tag(page, lo) == tag {
                    Some(self.data(page, lo))
                } else {
                    None
                },
            }
        }
    }

    /// The value that the store holds under `tag`.
    pub open spec fn value(self, tag: u16) -> Option<u16> {
        match self.active() {
            Some(page) => self.latest(page, 1, self.page_items as int, tag),
            None => None,
        }
    }

    /// The items 1 to `level - 1` of `page` are written, with tags that are
    /// not reserved, and those from `level` on are not.
    pub open spec fn packed(self, page: int, level: int) -> bool {
        &&& 1 <= level <= self.page_items
        &&& forall|i: int| 1 <= i < level ==> #[trigger] self.tag(page, i) < RESERVED_TAGS
        &&& forall|i: int| level <= i < self.page_items ==> #[trigger] self.erased(page, i)
    }

    /// The number of tags among the items from `lo` on in `page`: the
    /// items that no later item of the same tag follows.
    pub open spec fn live(self, page: int, lo: int) -> int
        decreases self.page_items - lo,
    {
        if lo >= self.page_items {
            0
        } else {
            self.live(page, lo + 1) + if self.tag(page, lo) != ERASED && self.latest(
                page,
                lo + 1,
                self.page_items as int,
                self.tag(page, lo),
            ) is None {
                1int
            } else {
                0int
            }
        }
    }

    /// The store as it is between two operations: one page is active and
    /// packed up to `level`, and the others are clean.
    pub open spec fn tidy_at(self, page: int, level: int) -> bool {
        &&& self.sound()
        &&& self.active() == Some(page)
        &&& 0 <= page < self.page_count
        &&& self.packed(page, level)
        &&& forall|p: int| 0 <= p < self.page_count && p != page ==> #[trigger] self.clean(p)
    }

    /// The store as it is between two operations.
    pub open spec fn tidy(self) -> bool {
        exists|page: int, level: int| #[trigger] self.tidy_at(page, level)
    }

    /// A write finds a free item, at once or after the tags of the full
    /// page were copied to the next one.
    pub open spec fn has_room(self) -> bool {
        exists|page: int, level: int|
            #[trigger] self.tidy_at(page, level) && (level < self.page_items || self.live(page, 1)
                < self.page_items - 1)
    }

    /// The stores have the same shape.
    pub open spec fn like(self, other: EepromView) -> bool {
        &&& self.first_page_offset == other.first_page_offset
        &&& self.page_size == other.page_size
        &&& self.page_items == other.page_items
        &&& self.page_count == other.page_count
        &&& self.flash.base == other.flash.base
        &&& self.flash.page_size == other.flash.page_size
        &&& self.flash.cells.len() == other.flash.cells.len()
    }

    /// The item is the same in both stores.
    pub open spec fn same_item(self, other: EepromView, page: int, item: int) -> bool {
        self.tag(page, item) == other.tag(page, item) && self.data(page, item) == other.data(
            page,
            item,
        )
    }

    /// The page is the same in both stores.
    pub open spec fn same_page(self, other: EepromView, page: int) -> bool {
        forall|i: int| 0 <= i < self.page_items ==> #[trigger] self.same_item(other, page, i)
    }
}

/// Items of a page lie within the image.
pub proof fn lemma_slot_in_range(v: EepromView, page: int, item: int)
    requires
        v.sound(),
        v.has(page, item),
    ensures
        0 <= page * v.page_items + item < v.page_count * v.page_items,
        0 <= v.slot(page, item),
        v.slot(page, item) + 1 < v.flash.cells.len(),
        v.address(page, item) + 4 <= u32::MAX,
        v.page_count * v.page_items * 4 == v.page_count * v.page_size,
{
    let n = v.page_items as int;
    let c = v.page_count as int;
    assert(0 <= page * n + item < c * n) by (nonlinear_arith)
        requires
            0 <= page < c,
            0 <= item < n,
    ;
    assert(c * n * 2 == c * (n * 2)) by (nonlinear_arith);
    assert(c * n * 4 == c * (n * 4)) by (nonlinear_arith);
    assert(n * 4 == v.page_size);
}

/// Two items have two places.
pub proof fn lemma_slots_apart(v: EepromView, pa: int, ia: int, pb: int, ib: int)
    requires
        v.has(pa, ia),
        v.has(pb, ib),
        pa != pb || ia != ib,
    ensures
        v.slot(pa, ia) != v.slot(pb, ib),
        v.slot(pa, ia) != v.slot(pb, ib) + 1,
        v.slot(pa, ia) + 1 != v.slot(pb, ib),
        pa < pb ==> v.slot(pa, ia) + 1 < v.slot(pb, 0),
{
    let n = v.page_items as int;
    assert(pa * n + ia != pb * n + ib) by (nonlinear_arith)
        requires
            0 <= ia < n,
            0 <= ib < n,
            pa != pb || ia != ib,
    ;
    if pa < pb {
        assert(pa * n + ia < pb * n) by (nonlinear_arith)
            requires
                0 <= ia < n,
                pa < pb,
        ;
    }
}

/// A value that is found among the later items is found among more items
/// too.
pub proof fn lemma_latest_extends(v: EepromView, page: int, lower: int, lo: int, hi: int, tag: u16)
    requires
        lower <= lo,
        v.latest(page, lo, hi, tag) is Some,
    ensures
        v.latest(page, lower, hi, tag) == v.latest(page, lo, hi, tag),
    decreases lo - lower,
{
    if lower < lo {
        lemma_latest_extends(v, page, lower + 1, lo, hi, tag);
    }
}

/// Where nothing is found among the later items, the earlier ones decide.
pub proof fn lemma_latest_splits(v: EepromView, page: int, lo: int, mid: int, hi: int, tag: u16)
    requires
        lo <= mid <= hi,
    ensures
        v.latest(page, lo, hi, tag) == match v.latest(page, mid, hi, tag) {
            Some(d) => Some(d),
            None => v.latest(page, lo, mid, tag),
        },
    decreases mid - lo,
{
    if lo < mid {
        lemma_latest_splits(v, page, lo + 1, mid, hi, tag);
        if v.latest(page, mid, hi, tag) is None {
            assert(v.latest(page, lo + 1, hi, tag) == v.latest(page, lo + 1, mid, tag));
        }
    } else {
        assert(v.latest(page, lo, mid, tag) is None);
    }
}

/// What is found in a page depends on the items of that page only.
pub proof fn lemma_latest_same(
    a: EepromView,
    b: EepromView,
    page: int,
    lo: int,
    hi: int,
    tag: u16,
)
    requires
        a.page_items == b.page_items,
        0 <= lo,
        hi <= a.page_items,
        forall|i: int| lo <= i < hi ==> #[trigger] a.same_item(b, page, i),
    ensures
        a.latest(page, lo, hi, tag) == b.latest(page, lo, hi, tag),
    decreases hi - lo,
{
    if lo < hi {
        lemma_latest_same(a, b, page, lo + 1, hi, tag);
        assert(a.same_item(b, page, lo));
    }
}

/// A tag that is not itself the erased value is not found among erased
/// items.
pub proof fn lemma_latest_erased(v: EepromView, page: int, lo: int, hi: int, tag: u16)
    requires
        tag != ERASED,
        0 <= lo,
        hi <= v.page_items,
        forall|i: int| lo <= i < hi ==> #[trigger] v.erased(page, i),
    ensures
        v.latest(page, lo, hi, tag) is None,
    decreases hi - lo,
{
    if lo < hi {
        lemma_latest_erased(v, page, lo + 1, hi, tag);
        assert(v.erased(page, lo));
    }
}

/// The active page is a page, holds the marker, and is the first to do so.
pub proof fn lemma_active(v: EepromView, from: int)
    requires
        0 <= from,
    ensures
        v.first_marked(from) matches Some(p) ==> from <= p < v.page_count && v.marked(p) && forall|
            q: int,
        |
            from <= q < p ==> !#[trigger] v.marked(q),
        v.first_marked(from) is None ==> forall|q: int|
            from <= q < v.page_count ==> !#[trigger] v.marked(q),
    decreases v.page_count - from,
{
    if from < v.page_count && !v.marked(from) {
        lemma_active(v, from + 1);
    }
}

/// The first page that holds the marker is the active one.
pub proof fn lemma_first_marked(v: EepromView, from: int, page: int)
    requires
        0 <= from <= page < v.page_count,
        v.marked(page),
        forall|q: int| from <= q < page ==> !#[trigger] v.marked(q),
    ensures
        v.first_marked(from) == Some(page),
    decreases page - from,
{
    if from < page {
        assert(!v.marked(from));
        lemma_first_marked(v, from + 1, page);
    }
}

/// The number of tags in a page is at most the number of its items.
pub proof fn lemma_live_bound(v: EepromView, page: int, lo: int)
    requires
        0 <= lo <= v.page_items,
    ensures
        0 <= v.live(page, lo) <= v.page_items - lo,
    decreases v.page_items - lo,
{
    if lo < v.page_items {
        lemma_live_bound(v, page, lo + 1);
    }
}

impl View for EEPROM {
    type V = EepromView;

    closed spec fn view(&self) -> EepromView {
        EepromView {
            first_page_offset: self.first_page_offset,
            page_size: self.page_size,
            page_items: self.page_items,
            page_count: self.page_count,
            flash: self.flash@,
        }
    }
}

/// Something that a store can be made of.
pub trait EEPROMExt: Sized {
    /// Whether a store can be made of this.
    spec fn fits(&self) -> bool;

    /// The image that the store will keep.
    spec fn image(&self) -> FlashView;

    /// The store that uses all of this.
    fn eeprom(self) -> (e: EEPROM)
        requires
            self.fits(),
        ensures
            e@.sound(),
            e@.flash == self.image(),
    ;
}

impl EEPROMExt for Flash {
    /// An image of two pages or more, whose pages are a multiple of four
    /// bytes and hold two items or more.
    open spec fn fits(&self) -> bool {
        &&& self@.wf()
        &&& self@.page_size % 4 == 0
        &&& self@.page_size >= 8
        &&& self@.cells.len() * 2 >= 2 * self@.page_size
    }

    open spec fn image(&self) -> FlashView {
        self@
    }

    fn eeprom(self) -> (e: EEPROM) {
        let base: u32 = self.base();
        let page_size: u32 = self.page_size();
        let bytes: usize = self.len() * 2;
        let page_count: u32 = (bytes / page_size as usize) as u32;
        proof {
            let size = page_size as int;
            vstd::arithmetic::div_mod::lemma_fundamental_div_mod(bytes as int, size);
            assert(bytes == size * (bytes as int / size));
            assert(bytes as int / size >= 2) by (nonlinear_arith)
                requires
                    bytes >= 2 * size,
                    bytes == size * (bytes as int / size),
                    size > 0,
            ;
        }
        EEPROM::new(base, page_size, page_count, self)
    }
}

impl EEPROM {
    /// A store in `page_count` pages of `page_size` bytes from
    /// `first_page_offset` on, which are the pages of `flash`.
    pub fn new(first_page_offset: u32, page_size: u32, page_count: u32, flash: Flash) -> (e: EEPROM)
        requires
            flash@.wf(),
            flash@.base == first_page_offset,
            flash@.page_size == page_size,
            page_size % 4 == 0,
            page_size >= 8,
            page_count >= 2,
            flash@.cells.len() * 2 == page_count * page_size,
        ensures
            e@.sound(),
            e@ == (EepromView {
                first_page_offset: first_page_offset,
                page_size: page_size,
                page_items: page_size / 4,
                page_count: page_count,
                flash: flash@,
            }),
    {
        proof {
            let n = (page_size / 4) as int;
            let c = page_count as int;
            assert(c * (n * 4) == c * n * 2 * 2) by (nonlinear_arith);
        }
        EEPROM {
            first_page_offset,
            page_size,
            page_items: page_size / ITEM_SIZE,
            page_count,
            flash,
        }
    }

    /// The image of the flash, with the list of the changes to it.
    pub fn flash(&self) -> (flash: &Flash)
        ensures
            flash@ == self@.flash,
    {
        &self.flash
    }

    /// Takes the list of the changes to the flash, which starts anew.
    pub fn take_log(&mut self) -> (log: Vec<crate::flash::FlashOp>)
        ensures
            log@ == old(self)@.flash.log,
            final(self)@ == (EepromView {
                flash: FlashView { log: Seq::empty(), ..old(self)@.flash },
                ..old(self)@
            }),
    {
        self.flash.take_log()
    }

    /// The address of an item.
    fn item_offset(&self, page: u32, item: u32) -> (a: u32)
        requires
            self@.sound(),
            self@.has(page as int, item as int),
        ensures
            a == self@.address(page as int, item as int),
            self@.flash.holds(a),
            self@.flash.holds((a + 2) as u32),
            self@.flash.index(a) == self@.slot(page as int, item as int),
            self@.flash.index((a + 2) as u32) == self@.slot(page as int, item as int) + 1,
    {
        proof {
            lemma_slot_in_range(self@, page as int, item as int);
            let n = self.page_items as int;
            assert(page * n >= 0) by (nonlinear_arith)
                requires
                    page >= 0,
                    n >= 0,
            ;
        }
        self.first_page_offset + (page * self.page_items + item) * ITEM_SIZE
    }

    /// The address of a page.
    fn page_offset(&self, page: u32) -> (a: u32)
        requires
            self@.sound(),
            page < self@.page_count,
        ensures
            a == self@.address(page as int, 0),
            self@.flash.holds(a),
            self@.flash.holds_page(a),
            self@.flash.index(a) == self@.slot(page as int, 0),
    {
        let a = self.item_offset(page, 0);
        proof {
            let n = self.page_items as int;
            let c = self.page_count as int;
            let size = self.page_size as int;
            lemma_slot_in_range(self@, page as int, 0);
            assert(page * n * 4 == size * page) by (nonlinear_arith)
                requires
                    n * 4 == size,
            ;
            vstd::arithmetic::div_mod::lemma_mod_multiples_basic(page as int, size);
            assert(size * page == page * size) by (nonlinear_arith);
            assert((page + 1) * n <= c * n) by (nonlinear_arith)
                requires
                    page + 1 <= c,
                    n >= 0,
            ;
            assert((page + 1) * n * 4 == page * n * 4 + size) by (nonlinear_arith)
                requires
                    n * 4 == size,
            ;
            assert(c * n * 2 * 2 == c * n * 4) by (nonlinear_arith);
        }
        a
    }

    /// The tag and the value of an item.
    fn read_item_tuple(&self, page: u32, item: u32) -> (r: (u16, u16))
        requires
            self@.sound(),
            self@.has(page as int, item as int),
        ensures
            r.0 == self@.tag(page as int, item as int),
            r.1 == self@.data(page as int, item as int),
    {
        let offset = self.item_offset(page, item);
        let tag = self.flash.read(offset);
        let data = self.flash.read(offset + 2);
        (tag, data)
    }

    /// An item as one word: the value above the tag.
    fn read_item(&self, page: u32, item: u32) -> (word: u32)
        requires
            self@.sound(),
            self@.has(page as int, item as int),
        ensures
            word == self@.data(page as int, item as int) * 0x1_0000 + self@.tag(
                page as int,
                item as int,
            ),
            word == ERASED_ITEM <==> self@.erased(page as int, item as int),
    {
        let (tag, data) = self.read_item_tuple(page, item);
        (data as u32) * 0x1_0000 + (tag as u32)
    }

    /// The first half-word of a page.
    fn page_status(&self, page: u32) -> (status: u16)
        requires
            self@.sound(),
            page < self@.page_count,
        ensures
            status == self@.tag(page as int, 0),
    {
        let offset = self.page_offset(page);
        self.flash.read(offset)
    }

    /// The first page that holds the marker.
    fn find_active(&self) -> (r: Option<u32>)
        requires
            self@.sound(),
        ensures
            r is Some <==> self@.active() is Some,
            r matches Some(p) ==> self@.active() == Some(p as int) && p < self@.page_count
                && self@.marked(p as int),
    {
        let mut page: u32 = 0;
        while page < self.page_count
            invariant
                self@.sound(),
                page <= self.page_count,
                self@.active() == self@.first_marked(page as int),
            decreases self.page_count - page,
        {
            if self.page_status(page) == ACTIVE_PAGE_MARKER {
                return Some(page);
            }
            page = page + 1;
        }
        None
    }

    /// The value of the last of the items 1 to `max_item - 1` of `page`
    /// that have the tag `tag`.
    fn search(&self, page: u32, max_item: u32, tag: u16) -> (r: Option<u16>)
        requires
            self@.sound(),
            page < self@.page_count,
            1 <= max_item <= self@.page_items,
        ensures
            r == self@.latest(page as int, 1, max_item as int, tag),
    {
        let mut item: u32 = max_item;
        while item > 1
            invariant
                self@.sound(),
                page < self@.page_count,
                1 <= item <= max_item <= self@.page_items,
                self@.latest(page as int, item as int, max_item as int, tag) is None,
            decreases item,
        {
            item = item - 1;
            let (t, data) = self.read_item_tuple(page, item);
            if t == tag {
                proof {
                    lemma_latest_extends(self@, page as int, 1, item as int, max_item as int, tag);
                }
                return Some(data);
            }
        }
        None
    }

    /// The active page, if there is one.
    pub fn active_page(&self) -> (r: Option<u32>)
        requires
            self@.sound(),
        ensures
            r is Some <==> self@.active() is Some,
            r matches Some(p) ==> self@.active() == Some(p as int) && p < self@.page_count,
    {
        self.find_active()
    }

    /// The value that the store holds under `tag`, if it holds one.
    pub fn read(&self, tag: u16) -> (r: Option<u16>)
        requires
            self@.sound(),
            self@.active() is Some,
            tag < RESERVED_TAGS,
        ensures
            r == self@.value(tag),
    {
        match self.find_active() {
            Some(page) => self.search(page, self.page_items, tag),
            None => None,
        }
    }

    /// Whether anything in the page was written.
    fn is_page_dirty(&self, page: u32) -> (dirty: bool)
        requires
            self@.sound(),
            page < self@.page_count,
        ensures
            dirty == !self@.clean(page as int),
    {
        let mut item: u32 = 0;
        while item < self.page_items
            invariant
                self@.sound(),
                page < self@.page_count,
                item <= self.page_items,
                forall|i: int| 0 <= i < item ==> #[trigger] self@.erased(page as int, i),
            decreases self.page_items - item,
        {
            if self.read_item(page, item) != ERASED_ITEM {
                assert(!self@.erased(page as int, item as int));
                return true;
            }
            item = item + 1;
        }
        false
    }

    /// Erases a page, unless it is clean already.
    fn erase_page(&mut self, page: u32) -> (r: Result<(), FlashError>)
        requires
            old(self)@.sound(),
            page < old(self)@.page_count,
        ensures
            r is Ok,
            final(self)@.sound(),
            final(self)@.like(old(self)@),
            final(self)@.clean(page as int),
            forall|p: int|
                0 <= p < old(self)@.page_count && p != page ==> #[trigger] final(self)@.same_page(
                    old(self)@,
                    p,
                ),
    {
        if self.is_page_dirty(page) {
            self.force_erase(page)
        } else {
            assert forall|p: int| 0 <= p < old(self)@.page_count && p != page implies #[trigger]
                self@.same_page(old(self)@, p) by {
                assert forall|i: int| 0 <= i < self@.page_items implies #[trigger] self@.same_item(
                    old(self)@,
                    p,
                    i,
                ) by {}
            }
            Ok(())
        }
    }

    /// Erases a page.
    fn force_erase(&mut self, page: u32) -> (r: Result<(), FlashError>)
        requires
            old(self)@.sound(),
            page < old(self)@.page_count,
        ensures
            r is Ok,
            final(self)@.sound(),
            final(self)@.like(old(self)@),
            final(self)@.clean(page as int),
            forall|p: int|
                0 <= p < old(self)@.page_count && p != page ==> #[trigger] final(self)@.same_page(
                    old(self)@,
                    p,
                ),
    {
        let page_offset = self.page_offset(page);
        let r = self.flash.page_erase(page_offset);
        proof {
            let o = old(self)@;
            let n = self@;
            let first = o.slot(page as int, 0);
            let items = o.page_items as int;
            assert(o.page_size / 2 == items * 2);
            assert forall|i: int| 0 <= i < items implies #[trigger] n.erased(page as int, i) by {
                lemma_slot_in_range(o, page as int, i);
                assert(o.slot(page as int, i) == first + i * 2);
            }
            assert forall|p: int| 0 <= p < o.page_count && p != page implies #[trigger] n.same_page(
                o,
                p,
            ) by {
                assert forall|i: int| 0 <= i < items implies #[trigger] n.same_item(o, p, i) by {
                    lemma_slot_in_range(o, p, i);
                    if p < page {
                        lemma_slots_apart(o, p, i, page as int, 0);
                    } else {
                        lemma_slots_apart(o, page as int, items - 1, p, 0);
                        assert(o.slot(page as int, items - 1) == first + (items - 1) * 2);
                        assert(o.slot(p, i) == o.slot(p, 0) + i * 2);
                    }
                }
            }
        }
        r
    }

    /// Writes an item: the value first, so that a tag never stands without
    /// its value.
    fn program_item(&mut self, page: u32, pos: u32, tag: u16, data: u16) -> (r: Result<
        (),
        FlashError,
    >)
        requires
            old(self)@.sound(),
            old(self)@.has(page as int, pos as int),
            old(self)@.erased(page as int, pos as int),
        ensures
            r is Ok,
            final(self)@.sound(),
            final(self)@.like(old(self)@),
            final(self)@.tag(page as int, pos as int) == tag,
            final(self)@.data(page as int, pos as int) == data,
            forall|p: int, i: int|
                old(self)@.has(p, i) && (p != page || i != pos) ==> #[trigger] final(self)@.same_item(old(self)@, p, i),
    {
        let item_addr = self.item_offset(page, pos);
        match self.flash.write(item_addr + 2, data) {
            Err(e) => {
                return Err(e);
            },
            Ok(()) => {},
        }
        match self.flash.write(item_addr, tag) {
            Err(e) => {
                return Err(e);
            },
            Ok(()) => {},
        }
        proof {
            let o = old(self)@;
            assert forall|p: int, i: int| o.has(p, i) && (p != page || i != pos) implies #[trigger]
                self@.same_item(o, p, i) by {
                lemma_slots_apart(o, p, i, page as int, pos as int);
                lemma_slot_in_range(o, p, i);
            }
            lemma_slot_in_range(o, page as int, pos as int);
        }
        Ok(())
    }

    /// Marks a clean page as the active one.
    fn set_page_status(&mut self, page: u32, status: u16) -> (r: Result<(), FlashError>)
        requires
            old(self)@.sound(),
            page < old(self)@.page_count,
            old(self)@.tag(page as int, 0) == ERASED,
        ensures
            r is Ok,
            final(self)@.sound(),
            final(self)@.like(old(self)@),
            final(self)@.tag(page as int, 0) == status,
            final(self)@.data(page as int, 0) == old(self)@.data(page as int, 0),
            forall|p: int, i: int|
                old(self)@.has(p, i) && (p != page || i != 0) ==> #[trigger] final(self)@.same_item(old(self)@, p, i),
    {
        let page_offset = self.page_offset(page);
        let r = self.flash.write(page_offset, status);
        proof {
            let o = old(self)@;
            assert forall|p: int, i: int| o.has(p, i) && (p != page || i != 0) implies #[trigger]
                self@.same_item(o, p, i) by {
                lemma_slots_apart(o, p, i, page as int, 0);
                lemma_slot_in_range(o, p, i);
            }
            lemma_slot_in_range(o, page as int, 0);
        }
        r
    }

    /// Brings the store into order: keeps the active page, if there is one,
    /// and erases every other page that is not clean. Without an active page
    /// the first page becomes the active one, and the store is empty.
    pub fn init(&mut self) -> (r: Result<(), FlashError>)
        requires
            old(self)@.sound(),
        ensures
            r is Ok,
            final(self)@.sound(),
            final(self)@.like(old(self)@),
            old(self)@.active() matches Some(a) ==> final(self)@.active() == Some(a) && final(self)@.same_page(old(self)@, a) && forall|level: int|
                old(self)@.packed(a, level) ==> #[trigger] final(self)@.tidy_at(a, level),
            old(self)@.active() is None ==> final(self)@.tidy_at(0, 1),
            final(self)@.active() matches Some(a) && forall|p: int|
                0 <= p < final(self)@.page_count && p != a ==> #[trigger] final(self)@.clean(p),
            forall|tag: u16| tag != ERASED ==> #[trigger] final(self)@.value(tag) == old(self)@.value(tag),
    {
        let active = self.find_active();
        let ghost o = old(self)@;
        proof {
            lemma_active(o, 0);
        }
        let mut page: u32 = 0;
        while page < self.page_count
            invariant
                self@.sound(),
                self@.like(o),
                o.sound(),
                page <= self.page_count,
                active is Some <==> o.active() is Some,
                active matches Some(p) ==> o.active() == Some(p as int) && p < o.page_count
                    && o.marked(p as int),
                forall|p: int|
                    0 <= p < page && active != Some(p as u32) ==> #[trigger] self@.clean(p),
                forall|p: int|
                    0 <= p < o.page_count && (p >= page || active == Some(p as u32))
                        ==> #[trigger] self@.same_page(o, p),
            decreases self.page_count - page,
        {
            let keep: bool = match active {
                Some(p) => p == page,
                None => false,
            };
            if !keep {
                let ghost before = self@;
                match self.erase_page(page) {
                    Err(e) => {
                        return Err(e);
                    },
                    Ok(()) => {},
                }
                proof {
                    let now = self@;
                    assert forall|p: int|
                        0 <= p < page + 1 && active != Some(p as u32) implies #[trigger] now.clean(
                        p,
                    ) by {
                        if p < page {
                            assert(before.clean(p));
                            assert(now.same_page(before, p));
                            assert forall|i: int| 0 <= i < now.page_items implies #[trigger]
                                now.erased(p, i) by {
                                assert(now.same_item(before, p, i));
                                assert(before.erased(p, i));
                            }
                        }
                    }
                    assert forall|p: int|
                        0 <= p < o.page_count && (p >= page + 1 || active == Some(
                            p as u32,
                        )) implies #[trigger] now.same_page(o, p) by {
                        assert(now.same_page(before, p));
                        assert(before.same_page(o, p));
                        assert forall|i: int| 0 <= i < now.page_items implies #[trigger]
                            now.same_item(o, p, i) by {
                            assert(now.same_item(before, p, i));
                            assert(before.same_item(o, p, i));
                        }
                    }
                }
            }
            page = page + 1;
        }
        match active {
            None => {
                let ghost before = self@;
                assert(before.clean(0));
                assert(before.erased(0, 0));
                let r = self.set_page_status(0, ACTIVE_PAGE_MARKER);
                proof {
                    let now = self@;
                    lemma_first_marked(now, 0, 0);
                    assert forall|i: int| 1 <= i < now.page_items implies #[trigger] now.erased(
                        0,
                        i,
                    ) by {
                        assert(before.erased(0, i));
                        assert(now.same_item(before, 0, i));
                    }
                    assert forall|p: int| 0 <= p < now.page_count && p != 0 implies #[trigger]
                        now.clean(p) by {
                        assert(before.clean(p));
                        assert forall|i: int| 0 <= i < now.page_items implies #[trigger]
                            now.erased(p, i) by {
                            assert(before.erased(p, i));
                            assert(now.same_item(before, p, i));
                        }
                    }
                    assert(now.packed(0, 1));
                    assert forall|tag: u16| tag != ERASED implies #[trigger] now.value(tag)
                        == o.value(tag) by {
                        lemma_latest_erased(now, 0, 1, now.page_items as int, tag);
                    }
                }
                r
            },
            Some(a) => {
                proof {
                    let now = self@;
                    assert(now.same_page(o, a as int));
                    assert(now.same_item(o, a as int, 0));
                    assert forall|q: int| 0 <= q < a implies !#[trigger] now.marked(q) by {
                        assert(now.clean(q));
                        assert(now.erased(q, 0));
                    }
                    lemma_first_marked(now, 0, a as int);
                    assert forall|tag: u16| tag != ERASED implies #[trigger] now.value(tag)
                        == o.value(tag) by {
                        lemma_latest_same(now, o, a as int, 1, now.page_items as int, tag);
                    }
                    assert forall|level: int| o.packed(a as int, level) implies #[trigger]
                        now.tidy_at(a as int, level) by {
                        assert forall|i: int| 1 <= i < level implies #[trigger] now.tag(
                            a as int,
                            i,
                        ) < RESERVED_TAGS by {
                            assert(now.same_item(o, a as int, i));
                            assert(o.tag(a as int, i) < RESERVED_TAGS);
                        }
                        assert forall|i: int| level <= i < now.page_items implies #[trigger]
                            now.erased(a as int, i) by {
                            assert(now.same_item(o, a as int, i));
                            assert(o.erased(a as int, i));
                        }
                    }
                }
                Ok(())
            },
        }
    }

    /// Erases every page and makes the first page the active one: the
    /// store is empty.
    pub fn erase(&mut self) -> (r: Result<(), FlashError>)
        requires
            old(self)@.sound(),
        ensures
            r is Ok,
            final(self)@.like(old(self)@),
            final(self)@.tidy_at(0, 1),
            forall|tag: u16| tag != ERASED ==> #[trigger] final(self)@.value(tag) is None,
    {
        let mut page: u32 = 0;
        while page < self.page_count
            invariant
                self@.sound(),
                self@.like(old(self)@),
                page <= self.page_count,
                forall|p: int| 0 <= p < page ==> #[trigger] self@.clean(p),
            decreases self.page_count - page,
        {
            let ghost before = self@;
            match self.force_erase(page) {
                Err(e) => {
                    return Err(e);
                },
                Ok(()) => {},
            }
            proof {
                let now = self@;
                assert forall|p: int| 0 <= p < page + 1 implies #[trigger] now.clean(p) by {
                    if p < page {
                        assert(before.clean(p));
                        assert(now.same_page(before, p));
                        assert forall|i: int| 0 <= i < now.page_items implies #[trigger] now.erased(
                            p,
                            i,
                        ) by {
                            assert(now.same_item(before, p, i));
                            assert(before.erased(p, i));
                        }
                    }
                }
            }
            page = page + 1;
        }
        let ghost before = self@;
        assert(before.clean(0));
        assert(before.erased(0, 0));
        let r = self.set_page_status(0, ACTIVE_PAGE_MARKER);
        proof {
            let now = self@;
            lemma_first_marked(now, 0, 0);
            assert forall|i: int| 1 <= i < now.page_items implies #[trigger] now.erased(0, i) by {
                assert(before.erased(0, i));
                assert(now.same_item(before, 0, i));
            }
            assert forall|p: int| 0 <= p < now.page_count && p != 0 implies #[trigger] now.clean(
                p,
            ) by {
                assert(before.clean(p));
                assert forall|i: int| 0 <= i < now.page_items implies #[trigger] now.erased(
                    p,
                    i,
                ) by {
                    assert(before.erased(p, i));
                    assert(now.same_item(before, p, i));
                }
            }
            assert(now.packed(0, 1));
            assert forall|tag: u16| tag != ERASED implies #[trigger] now.value(tag) is None by {
                lemma_latest_erased(now, 0, 1, now.page_items as int, tag);
            }
        }
        r
    }

    /// Makes room in a full page: copies the latest item of every tag to
    /// the page after it, the first page after the last, makes that page the
    /// active one, and erases the full page. Returns the active page, in
    /// which an item is free from the returned level on. A page with a free
    /// item is left as it is.
    fn rescue_if_full(&mut self, src_page: u32, Ghost(level): Ghost<int>) -> (r: Result<
        (u32, Ghost<int>),
        FlashError,
    >)
        requires
            old(self)@.tidy_at(src_page as int, level),
            level < old(self)@.page_items || old(self)@.live(src_page as int, 1) < old(self)@.page_items - 1,
        ensures
            r is Ok,
            final(self)@.like(old(self)@),
            r matches Ok(found) ==> final(self)@.tidy_at(found.0 as int, found.1@) && found.1@
                < final(self)@.page_items && (level < old(self)@.page_items ==> final(self)@
                == old(self)@ && found.0 == src_page && found.1@ == level),
            r matches Ok(found) ==> (level >= old(self)@.page_items ==> found.0 == (src_page + 1) % (
            old(self)@.page_count as int) && found.1@ == old(self)@.live(src_page as int, 1) + 1),
            forall|tag: u16| tag != ERASED ==> #[trigger] final(self)@.value(tag) == old(self)@.value(tag),
    {
        let ghost o = old(self)@;
        let ghost src = src_page as int;
        let ghost items = o.page_items as int;
        // The tag and the value are both looked at, as a write that failed
        // may have left a value without its tag.
        if self.read_item(src_page, self.page_items - 1) == ERASED_ITEM {
            proof {
                if level >= items {
                    assert(o.tag(src, items - 1) < RESERVED_TAGS);
                }
            }
            return Ok((src_page, Ghost(level)));
        }
        proof {
            if level < items {
                assert(o.erased(src, items - 1));
            }
            lemma_live_bound(o, src, 1);
        }
        let tgt_page: u32 = if src_page == self.page_count - 1 {
            0
        } else {
            src_page + 1
        };
        let ghost tgt = tgt_page as int;
        assert(tgt == (src + 1) % (o.page_count as int)) by {
            if src == o.page_count - 1 {
                assert((src + 1) % (o.page_count as int) == 0) by (nonlinear_arith)
                    requires
                        src + 1 == o.page_count,
                        o.page_count > 0,
                ;
            } else {
                assert((src + 1) % (o.page_count as int) == src + 1) by (nonlinear_arith)
                    requires
                        0 <= src + 1 < o.page_count,
                ;
            }
        }
        assert(o.clean(tgt));
        // The first item holds the marker.
        let mut tgt_pos: u32 = 1;
        let mut item: u32 = self.page_items;
        // From the end, so that the latest value of a tag is met first.
        while item > 1
            invariant
                o.tidy_at(src, items),
                o.live(src, 1) < items - 1,
                items == o.page_items,
                src == src_page,
                tgt == tgt_page,
                0 <= tgt < o.page_count,
                tgt != src,
                self@.sound(),
                self@.like(o),
                1 <= item <= items,
                1 <= tgt_pos,
                tgt_pos - 1 == o.live(src, item as int),
                self@.same_page(o, src),
                forall|p: int|
                    0 <= p < o.page_count && p != src && p != tgt ==> #[trigger] self@.clean(p),
                self@.erased(tgt, 0),
                forall|i: int| 1 <= i < tgt_pos ==> #[trigger] self@.tag(tgt, i) < RESERVED_TAGS,
                forall|i: int| tgt_pos <= i < items ==> #[trigger] self@.erased(tgt, i),
                forall|tag: u16|
                    tag != ERASED ==> #[trigger] self@.latest(tgt, 1, tgt_pos as int, tag)
                        == o.latest(src, item as int, items, tag),
            decreases item,
        {
            item = item - 1;
            proof {
                lemma_live_monotone(o, src, 1, item as int);
                lemma_live_bound(o, src, item as int + 1);
                assert(self@.same_item(o, src, item as int));
            }
            let (tag, data) = self.read_item_tuple(src_page, item);
            if tag != ERASED {
                let ghost before = self@;
                let there = self.search(tgt_page, tgt_pos, tag);
                if there.is_none() {
                    assert(before.erased(tgt, tgt_pos as int));
                    match self.program_item(tgt_page, tgt_pos, tag, data) {
                        Err(e) => {
                            return Err(e);
                        },
                        Ok(()) => {},
                    }
                    proof {
                        let now = self@;
                        let pos = tgt_pos as int;
                        assert(o.tag(src, item as int) < RESERVED_TAGS);
                        assert(now.same_page(o, src)) by {
                            assert forall|i: int| 0 <= i < items implies #[trigger] now.same_item(
                                o,
                                src,
                                i,
                            ) by {
                                assert(now.same_item(before, src, i));
                                assert(before.same_item(o, src, i));
                            }
                        }
                        assert forall|p: int|
                            0 <= p < o.page_count && p != src && p != tgt implies #[trigger]
                            now.clean(p) by {
                            assert(before.clean(p));
                            assert forall|i: int| 0 <= i < items implies #[trigger] now.erased(
                                p,
                                i,
                            ) by {
                                assert(now.same_item(before, p, i));
                                assert(before.erased(p, i));
                            }
                        }
                        assert(now.same_item(before, tgt, 0));
                        assert forall|i: int| 1 <= i < pos + 1 implies #[trigger] now.tag(tgt, i)
                            < RESERVED_TAGS by {
                            if i < pos {
                                assert(now.same_item(before, tgt, i));
                                assert(before.tag(tgt, i) < RESERVED_TAGS);
                            }
                        }
                        assert forall|i: int| pos + 1 <= i < items implies #[trigger] now.erased(
                            tgt,
                            i,
                        ) by {
                            assert(now.same_item(before, tgt, i));
                            assert(before.erased(tgt, i));
                        }
                        assert forall|t: u16| t != ERASED implies #[trigger] now.latest(
                            tgt,
                            1,
                            pos + 1,
                            t,
                        ) == o.latest(src, item as int, items, t) by {
                            lemma_latest_splits(now, tgt, 1, pos, pos + 1, t);
                            assert(now.latest(tgt, pos + 1, pos + 1, t) is None);
                            assert forall|i: int| 1 <= i < pos implies #[trigger] now.same_item(
                                before,
                                tgt,
                                i,
                            ) by {}
                            lemma_latest_same(now, before, tgt, 1, pos, t);
                            assert(before.latest(tgt, 1, pos, t) == o.latest(
                                src,
                                item as int + 1,
                                items,
                                t,
                            ));
                        }
                    }
                    tgt_pos = tgt_pos + 1;
                }
            }
        }
        let ghost copied = self@;
        match self.set_page_status(tgt_page, ACTIVE_PAGE_MARKER) {
            Err(e) => {
                return Err(e);
            },
            Ok(()) => {},
        }
        let ghost marked = self@;
        match self.erase_page(src_page) {
            Err(e) => {
                return Err(e);
            },
            Ok(()) => {},
        }
        proof {
            let now = self@;
            let pos = tgt_pos as int;
            assert(now.same_page(marked, tgt));
            assert forall|i: int| 0 <= i < items implies now.tag(tgt, i) == if i == 0 {
                ACTIVE_PAGE_MARKER
            } else {
                copied.tag(tgt, i)
            } && (i > 0 ==> now.data(tgt, i) == copied.data(tgt, i)) by {
                assert(now.same_item(marked, tgt, i));
                if i > 0 {
                    assert(marked.same_item(copied, tgt, i));
                }
            }
            assert forall|p: int| 0 <= p < now.page_count && p != tgt implies #[trigger] now.clean(
                p,
            ) by {
                if p != src {
                    assert(copied.clean(p));
                    assert(now.same_page(marked, p));
                    assert forall|i: int| 0 <= i < items implies #[trigger] now.erased(p, i) by {
                        assert(now.same_item(marked, p, i));
                        assert(marked.same_item(copied, p, i));
                        assert(copied.erased(p, i));
                    }
                }
            }
            assert forall|q: int| 0 <= q < tgt implies !#[trigger] now.marked(q) by {
                assert(now.clean(q));
                assert(now.erased(q, 0));
            }
            lemma_first_marked(now, 0, tgt);
            assert(now.packed(tgt, pos)) by {
                assert forall|i: int| 1 <= i < pos implies #[trigger] now.tag(tgt, i)
                    < RESERVED_TAGS by {
                    assert(copied.tag(tgt, i) < RESERVED_TAGS);
                }
                assert forall|i: int| pos <= i < items implies #[trigger] now.erased(tgt, i) by {
                    assert(copied.erased(tgt, i));
                }
            }
            assert forall|t: u16| t != ERASED implies #[trigger] now.value(t) == o.value(t) by {
                lemma_latest_splits(now, tgt, 1, pos, items, t);
                lemma_latest_erased(now, tgt, pos, items, t);
                assert forall|i: int| 1 <= i < pos implies #[trigger] now.same_item(
                    copied,
                    tgt,
                    i,
                ) by {}
                lemma_latest_same(now, copied, tgt, 1, pos, t);
            }
        }
        Ok((tgt_page, Ghost(tgt_pos as int)))
    }

    /// Stores `data` under `tag`: every other tag keeps its value. The item
    /// goes to the active page, or, where that is full, to the page after it,
    /// which becomes the active one.
    pub fn write(&mut self, tag: u16, data: u16) -> (r: Result<(), FlashError>)
        requires
            old(self)@.has_room(),
            tag < RESERVED_TAGS,
        ensures
            r is Ok,
            final(self)@.like(old(self)@),
            final(self)@.tidy(),
            final(self)@.value(tag) == Some(data),
            forall|other: u16|
                other != ERASED && other != tag ==> #[trigger] final(self)@.value(other) == old(self)@.value(other),
            old(self)@.active() matches Some(page) && final(self)@.active() == Some(
                if old(self)@.erased(page, old(self)@.page_items - 1) {
                    page
                } else {
                    (page + 1) % (old(self)@.page_count as int)
                },
            ),
    {
        let ghost o = old(self)@;
        let ghost (at, level) = choose|page: int, level: int|
            #[trigger] o.tidy_at(page, level) && (level < o.page_items || o.live(page, 1)
                < o.page_items - 1);
        let page: u32 = match self.find_active() {
            Some(page) => page,
            None => {
                // A store in order has an active page.
                assert(o.active() is Some);
                0
            },
        };
        // The values of a full page are taken to the next one first.
        let (page, free) = match self.rescue_if_full(page, Ghost(level)) {
            Ok(found) => found,
            Err(e) => {
                return Err(e);
            },
        };
        let ghost rescued = self@;
        let ghost items = o.page_items as int;
        let ghost next = if o.erased(at, items - 1) {
            at
        } else {
            (at + 1) % (o.page_count as int)
        };
        proof {
            if level < items {
                assert(o.erased(at, items - 1));
            } else {
                assert(o.tag(at, items - 1) < RESERVED_TAGS);
            }
        }
        let mut item: u32 = 1;
        while item < self.page_items
            invariant
                self@ == rescued,
                o == old(self)@,
                o.active() == Some(at),
                page as int == next,
                next == if o.erased(at, items - 1) {
                    at
                } else {
                    (at + 1) % (o.page_count as int)
                },
                tag < RESERVED_TAGS,
                rescued.like(o),
                forall|t: u16| t != ERASED ==> #[trigger] rescued.value(t) == o.value(t),
                rescued.tidy_at(page as int, free@),
                free@ < items,
                items == rescued.page_items,
                1 <= item <= free@,
            decreases self.page_items - item,
        {
            if self.read_item(page, item) == ERASED_ITEM {
                assert(item == free@) by {
                    if item < free@ {
                        assert(rescued.tag(page as int, item as int) < RESERVED_TAGS);
                    }
                }
                let r = self.program_item(page, item, tag, data);
                proof {
                    let now = self@;
                    let pg = page as int;
                    let pos = item as int;
                    assert(now.same_item(rescued, pg, 0));
                    assert forall|q: int| 0 <= q < pg implies !#[trigger] now.marked(q) by {
                        assert(rescued.clean(q));
                        assert(rescued.erased(q, 0));
                        assert(now.same_item(rescued, q, 0));
                    }
                    lemma_active(rescued, 0);
                    lemma_first_marked(now, 0, pg);
                    assert forall|p: int| 0 <= p < now.page_count && p != pg implies #[trigger]
                        now.clean(p) by {
                        assert(rescued.clean(p));
                        assert forall|i: int| 0 <= i < items implies #[trigger] now.erased(
                            p,
                            i,
                        ) by {
                            assert(now.same_item(rescued, p, i));
                            assert(rescued.erased(p, i));
                        }
                    }
                    assert(now.packed(pg, pos + 1)) by {
                        assert forall|i: int| 1 <= i < pos + 1 implies #[trigger] now.tag(pg, i)
                            < RESERVED_TAGS by {
                            if i < pos {
                                assert(now.same_item(rescued, pg, i));
                                assert(rescued.tag(pg, i) < RESERVED_TAGS);
                            }
                        }
                        assert forall|i: int| pos + 1 <= i < items implies #[trigger] now.erased(
                            pg,
                            i,
                        ) by {
                            assert(now.same_item(rescued, pg, i));
                            assert(rescued.erased(pg, i));
                        }
                    }
                    assert(now.tidy_at(pg, pos + 1));
                    assert forall|t: u16| t != ERASED implies #[trigger] now.value(t) == if t
                        == tag {
                        Some(data)
                    } else {
                        o.value(t)
                    } by {
                        lemma_latest_splits(now, pg, 1, pos + 1, items, t);
                        lemma_latest_erased(now, pg, pos + 1, items, t);
                        lemma_latest_splits(now, pg, 1, pos, pos + 1, t);
                        assert(now.latest(pg, pos + 1, pos + 1, t) is None);
                        assert forall|i: int| 1 <= i < pos implies #[trigger] now.same_item(
                            rescued,
                            pg,
                            i,
                        ) by {}
                        lemma_latest_same(now, rescued, pg, 1, pos, t);
                        lemma_latest_splits(rescued, pg, 1, pos, items, t);
                        lemma_latest_erased(rescued, pg, pos, items, t);
                        assert(rescued.value(t) == o.value(t));
                    }
                }
                return r;
            }
            item = item + 1;
        }
        // The item at the level is free, and the search has found it.
        proof {
            assert(rescued.erased(page as int, free@));
        }
        Err(FlashError::ProgrammingError)
    }

    /// The value of the last of the items `lo` to `hi - 1` of `page` that
    /// have the tag `tag`.
    fn search_above(&self, page: u32, lo: u32, hi: u32, tag: u16) -> (r: Option<u16>)
        requires
            self@.sound(),
            page < self@.page_count,
            lo <= hi <= self@.page_items,
        ensures
            r == self@.latest(page as int, lo as int, hi as int, tag),
    {
        let mut item: u32 = hi;
        while item > lo
            invariant
                self@.sound(),
                page < self@.page_count,
                lo <= item <= hi <= self@.page_items,
                self@.latest(page as int, item as int, hi as int, tag) is None,
            decreases item,
        {
            item = item - 1;
            let (t, data) = self.read_item_tuple(page, item);
            if t == tag {
                proof {
                    lemma_latest_extends(
                        self@,
                        page as int,
                        lo as int,
                        item as int,
                        hi as int,
                        tag,
                    );
                }
                return Some(data);
            }
        }
        None
    }

    /// The level up to which `page` is packed, if it is packed.
    fn level_of(&self, page: u32) -> (r: Option<u32>)
        requires
            self@.sound(),
            page < self@.page_count,
        ensures
            r matches Some(level) ==> self@.packed(page as int, level as int),
            r is None ==> forall|level: int| !#[trigger] self@.packed(page as int, level),
    {
        let ghost v = self@;
        let ghost pg = page as int;
        let mut item: u32 = 1;
        let mut stopped: bool = false;
        while item < self.page_items && !stopped
            invariant
                self@ == v,
                v.sound(),
                pg == page,
                page < v.page_count,
                1 <= item <= v.page_items,
                forall|i: int| 1 <= i < item ==> #[trigger] v.tag(pg, i) < RESERVED_TAGS,
                stopped ==> item < v.page_items && v.tag(pg, item as int) >= RESERVED_TAGS,
            decreases self.page_items - item + if stopped { 0int } else { 1int },
        {
            let (tag, data) = self.read_item_tuple(page, item);
            if tag >= RESERVED_TAGS {
                stopped = true;
            } else {
                item = item + 1;
            }
        }
        let level: u32 = item;
        while item < self.page_items
            invariant
                self@ == v,
                v.sound(),
                pg == page,
                page < v.page_count,
                1 <= level <= item <= v.page_items,
                forall|i: int| 1 <= i < level ==> #[trigger] v.tag(pg, i) < RESERVED_TAGS,
                level < v.page_items ==> v.tag(pg, level as int) >= RESERVED_TAGS,
                forall|i: int| level <= i < item ==> #[trigger] v.erased(pg, i),
            decreases self.page_items - item,
        {
            if self.read_item(page, item) != ERASED_ITEM {
                proof {
                    assert forall|l: int| !#[trigger] v.packed(pg, l) by {
                        if v.packed(pg, l) {
                            if l <= item {
                                assert(v.erased(pg, item as int));
                            } else {
                                assert(v.tag(pg, level as int) < RESERVED_TAGS);
                            }
                        }
                    }
                }
                return None;
            }
            item = item + 1;
        }
        Some(level)
    }

    /// The number of tags among the items of `page`.
    fn count_live(&self, page: u32) -> (count: u32)
        requires
            self@.sound(),
            page < self@.page_count,
        ensures
            count == self@.live(page as int, 1),
    {
        let mut count: u32 = 0;
        let mut item: u32 = self.page_items;
        while item > 1
            invariant
                self@.sound(),
                page < self@.page_count,
                1 <= item <= self@.page_items,
                count == self@.live(page as int, item as int),
                count <= self@.page_items - item,
            decreases item,
        {
            item = item - 1;
            let (tag, data) = self.read_item_tuple(page, item);
            if tag != ERASED {
                if self.search_above(page, item + 1, self.page_items, tag).is_none() {
                    count = count + 1;
                }
            }
        }
        count
    }

    /// Whether the store is in order and a write finds a free item.
    pub fn has_room(&self) -> (ok: bool)
        requires
            self@.sound(),
        ensures
            ok == self@.has_room(),
    {
        let ghost v = self@;
        let active: u32 = match self.find_active() {
            Some(page) => page,
            None => {
                assert(!v.has_room());
                return false;
            },
        };
        let ghost a = active as int;
        let mut page: u32 = 0;
        while page < self.page_count
            invariant
                self@ == v,
                v.sound(),
                a == active,
                v.active() == Some(a),
                page <= v.page_count,
                forall|p: int| 0 <= p < page && p != a ==> #[trigger] v.clean(p),
            decreases self.page_count - page,
        {
            if page != active {
                if self.is_page_dirty(page) {
                    proof {
                        assert forall|p: int, l: int| !#[trigger] v.tidy_at(p, l) by {
                            if v.tidy_at(p, l) {
                                assert(v.clean(page as int));
                            }
                        }
                    }
                    return false;
                }
            }
            page = page + 1;
        }
        let level: u32 = match self.level_of(active) {
            Some(level) => level,
            None => {
                proof {
                    assert forall|p: int, l: int| !#[trigger] v.tidy_at(p, l) by {
                        if v.tidy_at(p, l) {
                            assert(v.packed(a, l));
                        }
                    }
                }
                return false;
            },
        };
        assert(v.tidy_at(a, level as int));
        if level < self.page_items {
            return true;
        }
        let live: u32 = self.count_live(active);
        let ok: bool = live < self.page_items - 1;
        proof {
            if !ok {
                assert forall|p: int, l: int|
                    !(#[trigger] v.tidy_at(p, l) && (l < v.page_items || v.live(p, 1)
                        < v.page_items - 1)) by {
                    if v.tidy_at(p, l) && l < v.page_items {
                        assert(v.erased(a, l));
                        assert(v.tag(a, l) < RESERVED_TAGS);
                    }
                }
            }
        }
        ok
    }
}

/// Fewer items hold fewer tags.
pub proof fn lemma_live_monotone(v: EepromView, page: int, lo: int, hi: int)
    requires
        lo <= hi,
    ensures
        v.live(page, hi) <= v.live(page, lo),
        0 <= v.live(page, hi) || hi > v.page_items,
    decreases hi - lo,
{
    if lo < hi {
        lemma_live_monotone(v, page, lo + 1, hi);
        if lo >= v.page_items {
            assert(v.live(page, lo) == 0);
            assert(v.live(page, lo + 1) == 0);
        }
    }
    if hi <= v.page_items && hi >= 0 {
        lemma_live_bound(v, page, hi);
    } else if hi < 0 {
        lemma_live_nonneg(v, page, hi);
    }
}

/// The number of tags is not negative.
pub proof fn lemma_live_nonneg(v: EepromView, page: int, lo: int)
    ensures
        0 <= v.live(page, lo),
    decreases v.page_items - lo,
{
    if lo < v.page_items {
        lemma_live_nonneg(v, page, lo + 1);
    }
}

} // verus!
