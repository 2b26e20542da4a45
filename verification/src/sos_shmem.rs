//! Frames in shared memory.
//!
//! One process captures the screen and writes frames into a shared mapping;
//! the other reads them. Both see the mapping as a run of bytes with this
//! layout:
//!
//! | at  | bytes | content                                  |
//! |-----|-------|------------------------------------------|
//! | 120 | 24    | frame length, width and height           |
//! | 144 | 4     | would-block mark                         |
//! | 148 | 4     | counter of frames written                |
//! | 152 | 4     | counter of the last frame read           |
//! | 192 |       | the frame, four bytes for each pixel     |

use vstd::prelude::*;

use crate::text::{join, to_wide, utf16};
use crate::wire::{get_i32, get_le, put_i32, put_le};
use crate::wire::{i32_bytes, le_bytes, le_i32, le_value};
use crate::wire::{lemma_i32_round_trip, lemma_le_bytes_len, lemma_le_round_trip, lemma_pow256};

verus! {

/// The name of the mapping.
pub const SHMEM_NAME: &'static str = "sos";

pub const SHMEM_ADDR_CAPTURE_FRAME_INFO: usize = 120;

pub const SHMEM_ADDR_CAPTURE_WOULDBLOCK: usize = 144;

pub const SHMEM_ADDR_CAPTURE_FRAME_COUNTER: usize = 148;

pub const SHMEM_ADDR_CAPTURE_FRAME_ECHO: usize = 152;

pub const SHMEM_ADDR_CAPTURE_FRAME: usize = 192;

/// Frames and the mapping are rounded up to this many pixels and bytes.
pub const ALIGN: u64 = 64;

// ---------------------------------------------------------------- the bytes
/// `n` bytes of the mapping, from `at` on.
pub open spec fn field(mem: Seq<u8>, at: int, n: int) -> Seq<u8> {
    mem.subrange(at, at + n)
}

/// The mapping after `data` was written at `at`.
pub open spec fn written(mem: Seq<u8>, at: int, data: Seq<u8>) -> Seq<u8> {
    mem.take(at) + data + mem.skip(at + data.len())
}

/// Writing leaves the length and every other field alone.
pub proof fn lemma_written(mem: Seq<u8>, at: int, data: Seq<u8>)
    requires
        0 <= at,
        at + data.len() <= mem.len(),
    ensures
        written(mem, at, data).len() == mem.len(),
        field(written(mem, at, data), at, data.len() as int) == data,
        forall|a: int, n: int|
            0 <= a && 0 <= n && a + n <= mem.len() && (a + n <= at || at + data.len() <= a)
                ==> #[trigger] field(written(mem, at, data), a, n) == field(mem, a, n),
{
    let w = written(mem, at, data);
    assert(field(w, at, data.len() as int) =~= data);
    assert forall|a: int, n: int|
        0 <= a && 0 <= n && a + n <= mem.len() && (a + n <= at || at + data.len()
            <= a) implies #[trigger] field(w, a, n) == field(mem, a, n) by {
        assert(field(w, a, n) =~= field(mem, a, n));
    }
}

/// A shared mapping: its size. The bytes stay with the system; every
/// operation is given them.
#[derive(Debug, Clone, Copy, PartialEq, Eq, Structural)]
pub struct SosShmem {
    len: usize,
}

impl SosShmem {
    /// The size in bytes.
    pub closed spec fn size(&self) -> usize {
        self.len
    }

    /// The name of the mapping among the kernel's objects, as wide characters
    /// with a terminating zero.
    pub fn os_id(name: &str) -> (r: Vec<u16>)
        ensures
            r@ == utf16("RustDeskSOS_"@ + name@).push(0),
    {
        let full: String = join("RustDeskSOS_", name);
        to_wide(full.as_str())
    }

    /// The two halves of a mapping's size that the system asks for when it
    /// creates the mapping, high half first.
    pub fn size_halves(size: u64) -> (r: (u32, u32))
        ensures
            r.0 * 0x1_0000_0000 + r.1 == size,
    {
        ((size / 0x1_0000_0000) as u32, (size % 0x1_0000_0000) as u32)
    }

    /// A mapping that was created with `size` bytes.
    pub fn create(size: usize) -> (r: Self)
        ensures
            r.size() == size,
    {
        SosShmem { len: size }
    }

    /// A mapping that was opened: its size is that of the region, if the
    /// system could tell (`queried` is not zero), and counts as none if not.
    pub fn open_existing(queried: usize, region_size: usize) -> (r: Self)
        ensures
            r.size() == (if queried > 0 {
                region_size
            } else {
                0
            }),
    {
        SosShmem {
            len: if queried > 0 {
                region_size
            } else {
                0
            },
        }
    }

    /// The size in bytes.
    pub fn len(&self) -> (r: usize)
        ensures
            r == self.size(),
    {
        self.len
    }

    /// Writes `data` at `addr`.
    pub fn write(&self, mem: &mut [u8], addr: usize, data: &[u8])
        requires
            old(mem)@.len() == self.size(),
            addr + data@.len() <= self.size(),
        ensures
            final(mem)@ == written(old(mem)@, addr as int, data@),
    {
        let n: usize = data.len();
        let mut i: usize = 0;
        while i < n
            invariant
                n == data@.len(),
                i <= n,
                mem@.len() == old(mem)@.len(),
                addr + n <= mem@.len(),
                addr + n <= usize::MAX,
                mem@ =~= written(old(mem)@, addr as int, data@.take(i as int)),
            decreases n - i,
        {
            mem[addr + i] = data[i];
            i = i + 1;
        }
        proof {
            assert(data@.take(n as int) =~= data@);
        }
    }
}

// ---------------------------------------------------------------- its size
/// `v` rounded up to a multiple of `ALIGN`.
pub open spec fn round_up(v: nat) -> nat {
    ((v + 63) / 64 * 64) as nat
}

/// The pixels set aside for a display of the given width and height.
pub open spec fn padded_pixels(w: nat, h: nat) -> nat {
    round_up(w) * round_up(h)
}

/// The most pixels that a display needs.
pub open spec fn max_padded_pixels(displays: Seq<(u64, u64)>) -> nat
    decreases displays.len(),
{
    if displays.len() == 0 {
        0
    } else {
        let d = displays.last();
        let here = padded_pixels(d.0 as nat, d.1 as nat);
        let before = max_padded_pixels(displays.drop_last());
        if here > before {
            here
        } else {
            before
        }
    }
}

/// The size of a mapping that can hold a frame of any of the displays.
pub open spec fn shmem_size(displays: Seq<(u64, u64)>) -> nat {
    round_up(SHMEM_ADDR_CAPTURE_FRAME as nat + max_padded_pixels(displays) * 4)
}

/// `v` rounded up to a multiple of `ALIGN`.
fn aligned(v: u64) -> (r: u64)
    requires
        v + 63 <= u64::MAX,
    ensures
        r == round_up(v as nat),
        v <= r <= v + 63,
{
    (v + (ALIGN - 1)) / ALIGN * ALIGN
}

/// No display of a list needs more than the most.
pub proof fn lemma_max_covers(displays: Seq<(u64, u64)>, i: int)
    requires
        0 <= i < displays.len(),
    ensures
        padded_pixels(displays[i].0 as nat, displays[i].1 as nat) <= max_padded_pixels(displays),
    decreases displays.len(),
{
    if i < displays.len() - 1 {
        lemma_max_covers(displays.drop_last(), i);
    }
}

/// The size of the mapping for these displays, or nothing if there are none.
pub fn create_shmem(displays: &Vec<(u64, u64)>) -> (r: Option<u64>)
    requires
        shmem_size(displays@) <= u64::MAX,
        forall|i: int|
            0 <= i < displays@.len() ==> (#[trigger] displays@[i]).0 + 63 <= u64::MAX
                && displays@[i].1 + 63 <= u64::MAX,
    ensures
        r is None <==> displays@.len() == 0,
        r matches Some(size) ==> size == shmem_size(displays@),
{
    if displays.len() == 0 {
        return None;
    }
    let mut max_pixel: u64 = 0;
    let mut i: usize = 0;
    while i < displays.len()
        invariant
            i <= displays@.len(),
            shmem_size(displays@) <= u64::MAX,
            forall|j: int|
                0 <= j < displays@.len() ==> (#[trigger] displays@[j]).0 + 63 <= u64::MAX
                    && displays@[j].1 + 63 <= u64::MAX,
            max_pixel == max_padded_pixels(displays@.take(i as int)),
        decreases displays@.len() - i,
    {
        let w: u64 = aligned(displays[i].0);
        let h: u64 = aligned(displays[i].1);
        proof {
            lemma_max_covers(displays@, i as int);
            assert(displays@.take(i + 1).drop_last() =~= displays@.take(i as int));
            assert(w * h == padded_pixels(displays@[i as int].0 as nat, displays@[i as int].1 as nat));
        }
        let pixel: u64 = w * h;
        if pixel > max_pixel {
            max_pixel = pixel;
        }
        i = i + 1;
    }
    proof {
        assert(displays@.take(displays@.len() as int) =~= displays@);
    }
    Some(aligned(SHMEM_ADDR_CAPTURE_FRAME as u64 + max_pixel * 4))
}

/// The mapping is a whole number of `ALIGN` bytes and has room for a frame of
/// each display, at four bytes for each pixel.
pub proof fn shmem_holds_every_display(displays: Seq<(u64, u64)>, i: int)
    requires
        0 <= i < displays.len(),
    ensures
        shmem_size(displays) % 64 == 0,
        SHMEM_ADDR_CAPTURE_FRAME + displays[i].0 as nat * displays[i].1 as nat * 4 <= shmem_size(
            displays,
        ),
{
    let w = displays[i].0 as nat;
    let h = displays[i].1 as nat;
    lemma_max_covers(displays, i);
    assert(w * h <= round_up(w) * round_up(h)) by (nonlinear_arith)
        requires
            w <= round_up(w),
            h <= round_up(h),
    ;
}

// ---------------------------------------------------------------- writing
/// The counter after one more frame.
pub open spec fn next_counter(c: int) -> int {
    if c == i32::MAX {
        0
    } else {
        c + 1
    }
}

/// The 24 bytes that describe a frame.
pub open spec fn frame_info(len: nat, w: nat, h: nat) -> Seq<u8> {
    le_bytes(len, 8) + le_bytes(w, 8) + le_bytes(h, 8)
}

/// The counter of frames written.
pub open spec fn counter(mem: Seq<u8>) -> int {
    le_i32(field(mem, SHMEM_ADDR_CAPTURE_FRAME_COUNTER as int, 4))
}

/// The counter of the last frame read.
pub open spec fn echo(mem: Seq<u8>) -> int {
    le_i32(field(mem, SHMEM_ADDR_CAPTURE_FRAME_ECHO as int, 4))
}

/// The mapping after a frame was written into it.
pub open spec fn with_frame(mem: Seq<u8>, data: Seq<u8>, w: nat, h: nat) -> Seq<u8> {
    let a = written(mem, SHMEM_ADDR_CAPTURE_FRAME as int, data);
    let b = written(a, SHMEM_ADDR_CAPTURE_WOULDBLOCK as int, i32_bytes(1));
    let c = written(b, SHMEM_ADDR_CAPTURE_FRAME_INFO as int, frame_info(data.len(), w, h));
    written(c, SHMEM_ADDR_CAPTURE_FRAME_COUNTER as int, i32_bytes(next_counter(counter(mem))))
}

/// What is stored.
#[derive(Debug, PartialEq, Eq)]
pub enum StoreBytes<'a> {
    /// The pixels of a frame.
    Pixels(&'a [u8]),
    /// One of the fields before the frame.
    Field(Vec<u8>),
}

impl<'a> View for StoreBytes<'a> {
    type V = Seq<u8>;

    open spec fn view(&self) -> Seq<u8> {
        match *self {
            StoreBytes::Pixels(p) => p@,
            StoreBytes::Field(f) => f@,
        }
    }
}

impl<'a> StoreBytes<'a> {
    /// The bytes themselves.
    pub fn as_slice(&self) -> (r: &[u8])
        ensures
            r@ == self@,
    {
        match self {
            StoreBytes::Pixels(p) => *p,
            StoreBytes::Field(f) => f.as_slice(),
        }
    }
}

/// A store into the mapping: where, and what. The other process can look at
/// the mapping between any two stores.
#[derive(Debug, PartialEq, Eq)]
pub struct Store<'a> {
    pub at: usize,
    pub bytes: StoreBytes<'a>,
}

/// Stores, in the model.
pub open spec fn stores_view(stores: Seq<Store<'_>>) -> Seq<(int, Seq<u8>)> {
    Seq::new(stores.len(), |i: int| (stores[i].at as int, stores[i].bytes@))
}

/// The mapping after some stores, in their order.
pub open spec fn stored(mem: Seq<u8>, stores: Seq<(int, Seq<u8>)>) -> Seq<u8>
    decreases stores.len(),
{
    if stores.len() == 0 {
        mem
    } else {
        written(stored(mem, stores.drop_last()), stores.last().0, stores.last().1)
    }
}

/// The stores that make up a frame, in their order: pixels, mark,
/// description, and the counter last.
pub open spec fn frame_stores_of(mem: Seq<u8>, data: Seq<u8>, w: nat, h: nat) -> Seq<
    (int, Seq<u8>),
> {
    seq![
        (SHMEM_ADDR_CAPTURE_FRAME as int, data),
        (SHMEM_ADDR_CAPTURE_WOULDBLOCK as int, i32_bytes(1)),
        (SHMEM_ADDR_CAPTURE_FRAME_INFO as int, frame_info(data.len(), w, h)),
        (SHMEM_ADDR_CAPTURE_FRAME_COUNTER as int, i32_bytes(next_counter(counter(mem)))),
    ]
}

/// The stores that make up a frame, to be made in this order, if the frame
/// fits.
pub fn frame_stores<'a>(shmem: &SosShmem, mem: &[u8], data: &'a [u8], w: u64, h: u64) -> (r: Option<
    Vec<Store<'a>>,
>)
    requires
        mem@.len() == shmem.size(),
        shmem.size() >= SHMEM_ADDR_CAPTURE_FRAME,
    ensures
        r is Some <==> SHMEM_ADDR_CAPTURE_FRAME + data@.len() <= shmem.size(),
        r matches Some(stores) ==> {
            let list = stores_view(stores@);
            &&& list == frame_stores_of(mem@, data@, w as nat, h as nat)
            &&& stored(mem@, list) == with_frame(mem@, data@, w as nat, h as nat)
            &&& list.last().0 == SHMEM_ADDR_CAPTURE_FRAME_COUNTER
            &&& forall|i: int|
                0 <= i < list.len() ==> (#[trigger] list[i]).0 + list[i].1.len() <= shmem.size()
        },
{
    let len: usize = data.len();
    if len > shmem.len().saturating_sub(SHMEM_ADDR_CAPTURE_FRAME) {
        return None;
    }
    let mut info: Vec<u8> = put_le(len as u64, 8);
    let mut width: Vec<u8> = put_le(w, 8);
    let mut height: Vec<u8> = put_le(h, 8);
    info.append(&mut width);
    info.append(&mut height);
    let old_counter: i32 = read_i32(mem, SHMEM_ADDR_CAPTURE_FRAME_COUNTER);
    let new_counter: i32 = if old_counter == i32::MAX {
        0
    } else {
        old_counter + 1
    };
    let mut stores: Vec<Store<'a>> = Vec::new();
    stores.push(Store { at: SHMEM_ADDR_CAPTURE_FRAME, bytes: StoreBytes::Pixels(data) });
    stores.push(
        Store { at: SHMEM_ADDR_CAPTURE_WOULDBLOCK, bytes: StoreBytes::Field(put_i32(1)) },
    );
    stores.push(Store { at: SHMEM_ADDR_CAPTURE_FRAME_INFO, bytes: StoreBytes::Field(info) });
    stores.push(
        Store {
            at: SHMEM_ADDR_CAPTURE_FRAME_COUNTER,
            bytes: StoreBytes::Field(put_i32(new_counter)),
        },
    );
    proof {
        lemma_frame_stores(mem@, data@, w as nat, h as nat);
        assert(info@ =~= frame_info(len as nat, w as nat, h as nat));
        assert(stores_view(stores@) =~= frame_stores_of(mem@, data@, w as nat, h as nat));
    }
    Some(stores)
}

/// The stores of a frame lie where they belong, and give the frame.
proof fn lemma_frame_stores(mem: Seq<u8>, data: Seq<u8>, w: nat, h: nat)
    ensures
        ({
            let list = frame_stores_of(mem, data, w, h);
            &&& list.len() == 4
            &&& list[1].1.len() == 4
            &&& list[2].1.len() == 24
            &&& list[3].1.len() == 4
            &&& stored(mem, list) == with_frame(mem, data, w, h)
        }),
{
    let list = frame_stores_of(mem, data, w, h);
    lemma_le_bytes_len(data.len(), 8);
    lemma_le_bytes_len(w, 8);
    lemma_le_bytes_len(h, 8);
    lemma_i32_round_trip(1);
    let c = next_counter(counter(mem));
    lemma_le_bytes_len(
        (if c >= 0 {
            c
        } else {
            c + 0x1_0000_0000
        }) as nat,
        4,
    );
    lemma_stored_take(mem, list, 0);
    lemma_stored_take(mem, list, 1);
    lemma_stored_take(mem, list, 2);
    lemma_stored_take(mem, list, 3);
    assert(list.take(4) =~= list);
}

/// Stores are made one after the other.
proof fn lemma_stored_take(mem: Seq<u8>, stores: Seq<(int, Seq<u8>)>, k: int)
    requires
        0 <= k < stores.len(),
    ensures
        stored(mem, stores.take(k + 1)) == written(
            stored(mem, stores.take(k)),
            stores[k].0,
            stores[k].1,
        ),
{
    assert(stores.take(k + 1).drop_last() =~= stores.take(k));
}

/// A frame shows up all at once: until its last store neither counter has
/// changed, and so a reader that is up to date finds nothing new, whenever it
/// looks.
pub proof fn frame_shows_up_at_once(mem: Seq<u8>, data: Seq<u8>, w: u64, h: u64, k: int)
    requires
        SHMEM_ADDR_CAPTURE_FRAME + data.len() <= mem.len(),
        0 <= k < frame_stores_of(mem, data, w as nat, h as nat).len(),
    ensures
        ({
            let list = frame_stores_of(mem, data, w as nat, h as nat);
            let seen = stored(mem, list.take(k));
            &&& seen.len() == mem.len()
            &&& counter(seen) == counter(mem)
            &&& echo(seen) == echo(mem)
            &&& counter(mem) == echo(mem) ==> frame_of(seen, true) == Err::<FrameAt, NoFrame>(
                NoFrame::WouldBlock,
            )
            &&& stored(mem, list) == with_frame(mem, data, w as nat, h as nat)
        }),
    decreases k,
{
    let list = frame_stores_of(mem, data, w as nat, h as nat);
    lemma_frame_stores(mem, data, w as nat, h as nat);
    if k > 0 {
        frame_shows_up_at_once(mem, data, w, h, k - 1);
        let before = stored(mem, list.take(k - 1));
        lemma_stored_take(mem, list, k - 1);
        lemma_written(before, list[k - 1].0, list[k - 1].1);
    }
}

/// The integer in four bytes of the mapping.
fn read_i32(mem: &[u8], at: usize) -> (r: i32)
    requires
        at + 4 <= mem@.len(),
    ensures
        r == le_i32(field(mem@, at as int, 4)),
{
    proof {
        assert(mem.len() == mem@.len());
    }
    get_i32(vstd::slice::slice_subrange(mem, at, at + 4))
}

// ---------------------------------------------------------------- reading
/// Why there is no frame.
#[derive(Debug, Clone, Copy, PartialEq, Eq, Structural)]
pub enum NoFrame {
    /// The capture was switched off.
    FactoryCleared,
    /// There is nothing new yet.
    WouldBlock,
}

/// Where a frame lies in the mapping, and its size in pixels.
#[derive(Debug, Clone, Copy, PartialEq, Eq, Structural)]
pub struct FrameAt {
    pub at: usize,
    pub len: usize,
    pub width: u64,
    pub height: u64,
}

/// Reads frames out of the mapping.
#[derive(Debug, Clone, Copy, PartialEq, Eq, Structural)]
pub struct SosShmemCapturer {
    shmem_len: usize,
    width: usize,
    height: usize,
}

impl SosShmemCapturer {
    /// The size of the mapping that it reads.
    pub closed spec fn size(&self) -> usize {
        self.shmem_len
    }

    /// The width and height of the display that it was made for.
    pub closed spec fn display(&self) -> (usize, usize) {
        (self.width, self.height)
    }

    /// A reader of a mapping of `len` bytes.
    pub fn new(len: usize, width: usize, height: usize) -> (r: Self)
        ensures
            r.size() == len,
            r.display() == (width, height),
    {
        SosShmemCapturer { shmem_len: len, width, height }
    }

    /// The counter of frames written.
    pub fn read_counter(&self, mem: &[u8]) -> (r: i32)
        requires
            mem@.len() >= 156,
        ensures
            r == counter(mem@),
    {
        read_i32(mem, SHMEM_ADDR_CAPTURE_FRAME_COUNTER)
    }

    /// The counter of the last frame read.
    pub fn read_counter_echo(&self, mem: &[u8]) -> (r: i32)
        requires
            mem@.len() >= 156,
        ensures
            r == echo(mem@),
    {
        read_i32(mem, SHMEM_ADDR_CAPTURE_FRAME_ECHO)
    }

    /// Notes that the newest frame has been read.
    pub fn update_counter_echo(&self, mem: &mut [u8])
        requires
            old(mem)@.len() >= 156,
        ensures
            final(mem)@ == written(
                old(mem)@,
                SHMEM_ADDR_CAPTURE_FRAME_ECHO as int,
                field(old(mem)@, SHMEM_ADDR_CAPTURE_FRAME_COUNTER as int, 4),
            ),
    {
        let bytes: Vec<u8> = vstd::slice::slice_to_vec(
            vstd::slice::slice_subrange(mem, SHMEM_ADDR_CAPTURE_FRAME_COUNTER, SHMEM_ADDR_CAPTURE_FRAME_ECHO),
        );
        let all: SosShmem = SosShmem { len: mem.len() };
        all.write(mem, SHMEM_ADDR_CAPTURE_FRAME_ECHO, bytes.as_slice());
    }

    /// Whether the would-block mark is set.
    pub fn is_wouldblock(&self, mem: &[u8]) -> (r: bool)
        requires
            mem@.len() >= 156,
        ensures
            r == (le_i32(field(mem@, SHMEM_ADDR_CAPTURE_WOULDBLOCK as int, 4)) == 1),
    {
        read_i32(mem, SHMEM_ADDR_CAPTURE_WOULDBLOCK) == 1
    }

    /// The length, width and height of the newest frame.
    pub fn read_frame_info(&self, mem: &[u8]) -> (r: (u64, u64, u64))
        requires
            mem@.len() >= 156,
        ensures
            r.0 == le_value(field(mem@, 120, 8)),
            r.1 == le_value(field(mem@, 128, 8)),
            r.2 == le_value(field(mem@, 136, 8)),
    {
        let a: usize = SHMEM_ADDR_CAPTURE_FRAME_INFO;
        (
            get_le(vstd::slice::slice_subrange(mem, a, a + 8)),
            get_le(vstd::slice::slice_subrange(mem, a + 8, a + 16)),
            get_le(vstd::slice::slice_subrange(mem, a + 16, a + 24)),
        )
    }

    /// The pixels of a frame.
    pub fn read_frame_data<'a>(&self, mem: &'a [u8], len: usize) -> (r: &'a [u8])
        requires
            SHMEM_ADDR_CAPTURE_FRAME + len <= mem@.len(),
        ensures
            r@ == field(mem@, SHMEM_ADDR_CAPTURE_FRAME as int, len as int),
    {
        proof {
            assert(mem.len() == mem@.len());
        }
        vstd::slice::slice_subrange(mem, SHMEM_ADDR_CAPTURE_FRAME, SHMEM_ADDR_CAPTURE_FRAME + len)
    }

    /// The next frame, if there is one that fits the mapping: it counts as
    /// read from then on. Without one the mapping stays as it is.
    pub fn frame(&self, mem: &mut [u8], active: bool) -> (r: Result<FrameAt, NoFrame>)
        requires
            old(mem)@.len() == self.size(),
            self.size() >= 156,
        ensures
            r == frame_of(old(mem)@, active),
            r is Ok ==> final(mem)@ == written(
                old(mem)@,
                SHMEM_ADDR_CAPTURE_FRAME_ECHO as int,
                field(old(mem)@, SHMEM_ADDR_CAPTURE_FRAME_COUNTER as int, 4),
            ),
            r is Err ==> final(mem)@ == old(mem)@,
    {
        if !active {
            return Err(NoFrame::FactoryCleared);
        }
        let wcnt: i32 = self.read_counter(mem);
        let ecnt: i32 = self.read_counter_echo(mem);
        if wcnt != ecnt {
            let (len, w, h): (u64, u64, u64) = self.read_frame_info(mem);
            let room: usize = self.shmem_len.saturating_sub(SHMEM_ADDR_CAPTURE_FRAME);
            if len > 0 && len <= room as u64 {
                self.update_counter_echo(mem);
                return Ok(
                    FrameAt {
                        at: SHMEM_ADDR_CAPTURE_FRAME,
                        len: len as usize,
                        width: w,
                        height: h,
                    },
                );
            }
        }
        Err(NoFrame::WouldBlock)
    }

    /// Frames come from a capture of this kind.
    pub fn is_gdi(&self) -> (r: bool)
        ensures
            r,
    {
        true
    }

    /// Asked for a capture of this kind, the reader has it already.
    pub fn set_gdi(&mut self) -> (r: bool)
        ensures
            r,
            *final(self) == *old(self),
    {
        true
    }
}

/// The frame that a reader finds.
pub open spec fn frame_of(mem: Seq<u8>, active: bool) -> Result<FrameAt, NoFrame> {
    let len = le_value(field(mem, 120, 8));
    if !active {
        Err(NoFrame::FactoryCleared)
    } else if counter(mem) != echo(mem) && 0 < len && SHMEM_ADDR_CAPTURE_FRAME + len <= mem.len() {
        Ok(
            FrameAt {
                at: SHMEM_ADDR_CAPTURE_FRAME,
                len: len as usize,
                width: le_value(field(mem, 128, 8)) as u64,
                height: le_value(field(mem, 136, 8)) as u64,
            },
        )
    } else {
        Err(NoFrame::WouldBlock)
    }
}

/// What a reader finds after a frame was written: that frame, with its pixels
/// and its size, however many it has missed, unless the counter has come
/// round to the frame that it read last.
pub proof fn written_frame_is_read(mem: Seq<u8>, data: Seq<u8>, w: u64, h: u64)
    requires
        0 < data.len(),
        SHMEM_ADDR_CAPTURE_FRAME + data.len() <= mem.len() <= usize::MAX,
        next_counter(counter(mem)) != echo(mem),
    ensures
        ({
            let m = with_frame(mem, data, w as nat, h as nat);
            &&& m.len() == mem.len()
            &&& frame_of(m, true) == Ok::<FrameAt, NoFrame>(
                FrameAt {
                    at: SHMEM_ADDR_CAPTURE_FRAME,
                    len: data.len() as usize,
                    width: w,
                    height: h,
                },
            )
            &&& field(m, SHMEM_ADDR_CAPTURE_FRAME as int, data.len() as int) == data
        }),
{
    let n = data.len();
    let info = frame_info(n, w as nat, h as nat);
    lemma_pow256();
    lemma_le_round_trip(n, 8);
    lemma_le_round_trip(w as nat, 8);
    lemma_le_round_trip(h as nat, 8);
    lemma_i32_round_trip(1);
    let a = written(mem, 192, data);
    lemma_written(mem, 192, data);
    let b = written(a, 144, i32_bytes(1));
    lemma_written(a, 144, i32_bytes(1));
    let c = written(b, 120, info);
    lemma_written(b, 120, info);
    let new_counter = next_counter(counter(mem));
    crate::wire::lemma_le_value_bound(field(mem, 148, 4));
    lemma_i32_round_trip(new_counter as i32);
    let d = written(c, 148, i32_bytes(new_counter));
    lemma_written(c, 148, i32_bytes(new_counter));
    assert(d == with_frame(mem, data, w as nat, h as nat));
    assert(field(d, 152, 4) == field(mem, 152, 4));
    assert(field(d, 120, 8) =~= field(field(c, 120, 24), 0, 8));
    assert(field(d, 128, 8) =~= field(field(c, 120, 24), 8, 8));
    assert(field(d, 136, 8) =~= field(field(c, 120, 24), 16, 8));
    assert(field(info, 0, 8) =~= le_bytes(n, 8));
    assert(field(info, 8, 8) =~= le_bytes(w as nat, 8));
    assert(field(info, 16, 8) =~= le_bytes(h as nat, 8));
    assert(field(d, 192, n as int) == data);
}

/// A frame is read once: reading it brings the reader up to date, and then
/// there is nothing new.
pub proof fn frame_is_read_once(mem: Seq<u8>)
    requires
        frame_of(mem, true) is Ok,
    ensures
        ({
            let m = written(
                mem,
                SHMEM_ADDR_CAPTURE_FRAME_ECHO as int,
                field(mem, SHMEM_ADDR_CAPTURE_FRAME_COUNTER as int, 4),
            );
            &&& counter(m) == echo(m)
            &&& frame_of(m, true) == Err::<FrameAt, NoFrame>(NoFrame::WouldBlock)
        }),
{
    lemma_written(mem, 152, field(mem, 148, 4));
}

// ---------------------------------------------------------------- the factory
/// The mapping that readers are made from, and whether they may read.
pub struct ShmemState<S> {
    pub shmem: Option<(S, usize, usize)>,
    pub active: bool,
}

impl<S> ShmemState<S> {
    /// Nothing registered.
    pub fn new() -> (r: Self)
        ensures
            r == (ShmemState::<S> { shmem: None, active: false }),
    {
        ShmemState { shmem: None, active: false }
    }

    /// Makes readers possible. The first mapping stays for good, so that no
    /// reader is left with one that is gone; later ones are dropped.
    pub fn register_shmem_and_factory(&mut self, shmem: S, width: usize, height: usize)
        ensures
            final(self).active,
            final(self).shmem == (match old(self).shmem {
                Some(first) => Some(first),
                None => Some((shmem, width, height)),
            }),
    {
        if self.shmem.is_none() {
            self.shmem = Some((shmem, width, height));
        }
        self.active = true;
    }

    /// Stops readers; the mapping stays.
    pub fn clear_shmem_factory(&mut self)
        ensures
            !final(self).active,
            final(self).shmem == old(self).shmem,
    {
        self.active = false;
    }
}

} // verus!
