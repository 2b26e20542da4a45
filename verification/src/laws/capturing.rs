//! The secure desktop is captured: every frame that is written is read, as it
//! was written, and once.

use vstd::prelude::*;

use crate::sos_capture::{run, CaptureAction, CaptureError, CaptureEvent, CaptureLoop};
use crate::sos_shmem::{
    create_shmem, frame_stores, FrameAt, NoFrame, ShmemState, SosShmem, SosShmemCapturer, Store,
    StoreBytes,
};
use crate::sos_shmem::{
    counter, field, frame_info, frame_stores_of, lemma_max_covers, lemma_written,
    max_padded_pixels, padded_pixels, shmem_holds_every_display, stored, stores_view,
    with_frame, written, written_frame_is_read,
};
use crate::text::utf16;
use crate::wire::{
    i32_bytes, le_bytes, le_i32, le_value, lemma_i32_round_trip, lemma_le_round_trip,
    lemma_le_value_bound, lemma_pow256,
};

verus! {

/// The mapping after some stores, made one after the other by `write`.
pub open spec fn after_stores(before: Seq<u8>, stores: Seq<Store<'_>>, after: Seq<u8>) -> bool {
    after == stored(before, stores_view(stores))
}

/// A store puts its bytes where it says, and leaves all others as they were.
pub proof fn store_puts_its_bytes(
    shmem: &SosShmem,
    mem: &mut [u8],
    addr: usize,
    data: &[u8],
    i: int,
)
    requires
        call_ensures(SosShmem::write, (shmem, mem, addr, data), ()),
        addr + data@.len() <= old(mem)@.len(),
        0 <= i < old(mem)@.len(),
    ensures
        final(mem)@.len() == old(mem)@.len(),
        addr <= i < addr + data@.len() ==> final(mem)@[i] == data@[i - addr],
        i < addr || addr + data@.len() <= i ==> final(mem)@[i] == old(mem)@[i],
{
}

/// A frame is stored if and only if it fits behind the first 192 bytes.
pub proof fn frame_is_stored_if_it_fits<'a>(
    shmem: &SosShmem,
    mem: &[u8],
    data: &'a [u8],
    w: u64,
    h: u64,
    r: Option<Vec<Store<'a>>>,
)
    requires
        call_ensures(frame_stores, (shmem, mem, data, w, h), r),
    ensures
        r is Some <==> 192 + data@.len() <= shmem.size(),
{
}

/// The stores of a frame are four, and the counter is the last one: first
/// the pixels at 192, then the mark at 144, then what the frame is at 120,
/// then the counter at 148.
pub proof fn counter_is_stored_last<'a>(
    shmem: &SosShmem,
    mem: &[u8],
    data: &'a [u8],
    w: u64,
    h: u64,
    r: Vec<Store<'a>>,
)
    requires
        call_ensures(frame_stores, (shmem, mem, data, w, h), Some(r)),
        mem@.len() == shmem.size(),
        shmem.size() >= 192,
    ensures
        r@.len() == 4,
        r@[0].at == 192 && r@[0].bytes@ == data@,
        r@[1].at == 144 && r@[1].bytes@.len() == 4 && le_i32(r@[1].bytes@) == 1,
        r@[2].at == 120 && r@[2].bytes@.len() == 24,
        le_value(r@[2].bytes@.subrange(0, 8)) == data@.len(),
        le_value(r@[2].bytes@.subrange(8, 16)) == w,
        le_value(r@[2].bytes@.subrange(16, 24)) == h,
        r@[3].at == 148 && r@[3].bytes@.len() == 4,
        ({
            let before = le_i32(mem@.subrange(148, 152));
            le_i32(r@[3].bytes@) == (if before == i32::MAX {
                0
            } else {
                before + 1
            })
        }),
{
    let list = stores_view(r@);
    assert(list.len() == r@.len());
    assert(list[0] == (r@[0].at as int, r@[0].bytes@));
    assert(list[1] == (r@[1].at as int, r@[1].bytes@));
    assert(list[2] == (r@[2].at as int, r@[2].bytes@));
    assert(list[3] == (r@[3].at as int, r@[3].bytes@));
    lemma_i32_round_trip(1);
    lemma_lens(mem@, data@, w as nat, h as nat);
    let info = frame_info(data@.len(), w as nat, h as nat);
    lemma_pow256();
    lemma_le_round_trip(w as nat, 8);
    lemma_le_round_trip(h as nat, 8);
    assert(data.len() == data@.len());
    lemma_le_round_trip(data@.len(), 8);
    assert(info.subrange(0, 8) =~= le_bytes(data@.len(), 8));
    assert(info.subrange(8, 16) =~= le_bytes(w as nat, 8));
    assert(info.subrange(16, 24) =~= le_bytes(h as nat, 8));
    lemma_le_value_bound(mem@.subrange(148, 152));
    assert(field(mem@, 148, 4) == mem@.subrange(148, 152));
    lemma_i32_round_trip(crate::sos_shmem::next_counter(counter(mem@)) as i32);
}

proof fn lemma_lens(mem: Seq<u8>, data: Seq<u8>, w: nat, h: nat)
    ensures
        frame_info(data.len(), w, h).len() == 24,
        frame_stores_of(mem, data, w, h)[3].1.len() == 4,
{
    crate::wire::lemma_le_bytes_len(data.len(), 8);
    crate::wire::lemma_le_bytes_len(w, 8);
    crate::wire::lemma_le_bytes_len(h, 8);
    let c = crate::sos_shmem::next_counter(counter(mem));
    crate::wire::lemma_le_bytes_len(
        (if c >= 0 {
            c
        } else {
            c + 0x1_0000_0000
        }) as nat,
        4,
    );
}

/// The counter of a mapping, in its four bytes at 148, and the one of the
/// reader, at 152.
pub proof fn counters_have_their_places(
    reader: &SosShmemCapturer,
    mem: &[u8],
    c: i32,
    e: i32,
)
    requires
        call_ensures(SosShmemCapturer::read_counter, (reader, mem), c),
        call_ensures(SosShmemCapturer::read_counter_echo, (reader, mem), e),
    ensures
        c == le_i32(mem@.subrange(148, 152)),
        e == le_i32(mem@.subrange(152, 156)),
{
}

/// A frame is new: its stores raise the counter by one, or bring it from the
/// largest number to zero, and so it is never what it was; and they leave the
/// counter of the reader alone.
pub proof fn frame_is_new<'a>(
    shmem: &SosShmem,
    mem: &[u8],
    data: &'a [u8],
    w: u64,
    h: u64,
    r: Vec<Store<'a>>,
    after: Seq<u8>,
)
    requires
        call_ensures(frame_stores, (shmem, mem, data, w, h), Some(r)),
        mem@.len() == shmem.size(),
        shmem.size() >= 192,
        after_stores(mem@, r@, after),
    ensures
        ({
            let before = le_i32(mem@.subrange(148, 152));
            let now = le_i32(after.subrange(148, 152));
            &&& now != before
            &&& before < i32::MAX ==> now == before + 1
            &&& before == i32::MAX ==> now == 0
        }),
        after.subrange(152, 156) == mem@.subrange(152, 156),
{
    lemma_frame_written(mem@, data@, w, h);
}

/// A reader that is up to date gets the frame that is written next, always:
/// its pixels, as many as there are, with its width and height.
pub proof fn next_frame_is_read<'a>(
    shmem: &SosShmem,
    mem: &[u8],
    data: &'a [u8],
    w: u64,
    h: u64,
    r: Vec<Store<'a>>,
    reader: &SosShmemCapturer,
    seen: &mut [u8],
    got: Result<FrameAt, NoFrame>,
)
    requires
        call_ensures(frame_stores, (shmem, mem, data, w, h), Some(r)),
        mem@.len() == shmem.size(),
        shmem.size() >= 192,
        0 < data@.len(),
        // the reader is up to date
        mem@.subrange(148, 152) == mem@.subrange(152, 156),
        // and looks at the mapping after the stores
        after_stores(mem@, r@, old(seen)@),
        call_ensures(SosShmemCapturer::frame, (reader, seen, true), got),
    ensures
        got matches Ok(f) && {
            &&& f.len == data@.len()
            &&& f.width == w
            &&& f.height == h
            &&& old(seen)@.subrange(f.at as int, f.at + f.len) == data@
        },
{
    lemma_frame_written(mem@, data@, w, h);
    assert(field(mem@, 148, 4) == field(mem@, 152, 4));
    assert(mem.len() == mem@.len());
    written_frame_is_read(mem@, data@, w, h);
}

proof fn lemma_frame_written(mem: Seq<u8>, data: Seq<u8>, w: u64, h: u64)
    requires
        192 + data.len() <= mem.len(),
    ensures
        ({
            let after = with_frame(mem, data, w as nat, h as nat);
            &&& after.len() == mem.len()
            &&& counter(mem) < i32::MAX ==> counter(after) == counter(mem) + 1
            &&& counter(mem) >= i32::MAX ==> counter(after) == 0 && counter(mem) == i32::MAX
            &&& field(after, 152, 4) == field(mem, 152, 4)
        }),
{
    let info = frame_info(data.len(), w as nat, h as nat);
    lemma_lens(mem, data, w as nat, h as nat);
    lemma_i32_round_trip(1);
    let a = written(mem, 192, data);
    lemma_written(mem, 192, data);
    let b = written(a, 144, i32_bytes(1));
    lemma_written(a, 144, i32_bytes(1));
    let c = written(b, 120, info);
    lemma_written(b, 120, info);
    lemma_pow256();
    lemma_le_value_bound(field(mem, 148, 4));
    assert(field(mem, 148, 4).len() == 4);
    let next = crate::sos_shmem::next_counter(counter(mem));
    lemma_i32_round_trip(next as i32);
    lemma_written(c, 148, i32_bytes(next));
}

/// A reader finds nothing where it is up to date, where the frame is empty or
/// does not fit, and where it may not read; and then it leaves the mapping
/// alone. A frame that it gets is read from then on: the two counters are the
/// same, and everything else is as it was.
pub proof fn frame_counts_as_read(
    reader: &SosShmemCapturer,
    mem: &mut [u8],
    active: bool,
    got: Result<FrameAt, NoFrame>,
    i: int,
)
    requires
        call_ensures(SosShmemCapturer::frame, (reader, mem, active), got),
        old(mem)@.len() >= 156,
    ensures
        !active ==> got == Err::<FrameAt, NoFrame>(NoFrame::FactoryCleared),
        got is Err ==> final(mem)@ == old(mem)@,
        got is Ok ==> {
            &&& active
            &&& le_i32(old(mem)@.subrange(148, 152)) != le_i32(old(mem)@.subrange(152, 156))
            &&& final(mem)@.len() == old(mem)@.len()
            &&& final(mem)@.subrange(152, 156) == old(mem)@.subrange(148, 152)
            &&& (0 <= i < 152 || 156 <= i < old(mem)@.len()) ==> final(mem)@[i] == old(mem)@[i]
        },
        got matches Ok(f) ==> {
            &&& f.at == 192
            &&& 0 < f.len
            &&& 192 + f.len <= old(mem)@.len()
        },
        active && got is Err ==> got == Err::<FrameAt, NoFrame>(NoFrame::WouldBlock),
        got is Ok <==> {
            let len = le_value(old(mem)@.subrange(120, 128));
            &&& active
            &&& le_i32(old(mem)@.subrange(148, 152)) != le_i32(old(mem)@.subrange(152, 156))
            &&& 0 < len
            &&& 192 + len <= old(mem)@.len()
        },
        got matches Ok(f) ==> {
            &&& f.len == le_value(old(mem)@.subrange(120, 128))
            &&& f.width == le_value(old(mem)@.subrange(128, 136))
            &&& f.height == le_value(old(mem)@.subrange(136, 144))
        },
{
    lemma_written(old(mem)@, 152, field(old(mem)@, 148, 4));
    assert(old(mem).len() == old(mem)@.len());
    lemma_pow256();
    lemma_le_value_bound(old(mem)@.subrange(128, 136));
    lemma_le_value_bound(old(mem)@.subrange(136, 144));
}

/// A store holds the bytes that it was given, and a frame that was read is
/// noted by copying the counter; the reader is of the kind that it is asked to
/// be.
pub proof fn stores_and_readers_are_plain(
    pixels: &[u8],
    of_pixels: &[u8],
    bytes: Vec<u8>,
    of_bytes: &[u8],
    reader: &SosShmemCapturer,
    mem: &mut [u8],
    made: SosShmemCapturer,
    len: usize,
    width: usize,
    height: usize,
    kind: bool,
    asked: &mut SosShmemCapturer,
    set: bool,
)
    requires
        call_ensures(StoreBytes::as_slice, (&StoreBytes::Pixels(pixels),), of_pixels),
        call_ensures(StoreBytes::as_slice, (&StoreBytes::Field(bytes),), of_bytes),
        call_ensures(SosShmemCapturer::update_counter_echo, (reader, mem), ()),
        old(mem)@.len() >= 156,
        call_ensures(SosShmemCapturer::new, (len, width, height), made),
        call_ensures(SosShmemCapturer::is_gdi, (reader,), kind),
        call_ensures(SosShmemCapturer::set_gdi, (asked,), set),
    ensures
        of_pixels@ == pixels@,
        of_bytes@ == bytes@,
        final(mem)@.len() == old(mem)@.len(),
        final(mem)@.subrange(152, 156) == old(mem)@.subrange(148, 152),
        final(mem)@.take(152) == old(mem)@.take(152),
        final(mem)@.skip(156) == old(mem)@.skip(156),
        made.size() == len,
        made.display() == (width, height),
        kind && set,
        *final(asked) == *old(asked),
{
    lemma_written(old(mem)@, 152, field(old(mem)@, 148, 4));
    assert(final(mem)@.take(152) =~= old(mem)@.take(152));
    assert(final(mem)@.skip(156) =~= old(mem)@.skip(156));
}

/// What a reader is told of a frame is what stands in the mapping: length,
/// width and height in eight bytes each, from 120 on.
pub proof fn description_has_its_places(
    reader: &SosShmemCapturer,
    mem: &[u8],
    r: (u64, u64, u64),
    blocked: bool,
    len: usize,
    pixels: &[u8],
)
    requires
        call_ensures(SosShmemCapturer::read_frame_info, (reader, mem), r),
        call_ensures(SosShmemCapturer::is_wouldblock, (reader, mem), blocked),
        call_ensures(SosShmemCapturer::read_frame_data, (reader, mem, len), pixels),
    ensures
        r.0 == le_value(mem@.subrange(120, 128)),
        r.1 == le_value(mem@.subrange(128, 136)),
        r.2 == le_value(mem@.subrange(136, 144)),
        blocked <==> le_i32(mem@.subrange(144, 148)) == 1,
        pixels@ == mem@.subrange(192, 192 + len),
{
}

// ---------------------------------------------------------------- the mapping
/// A number rounded up to a multiple of 64.
pub open spec fn up(n: int) -> int {
    (n + 63) / 64 * 64
}

/// The bytes that a mapping for a display takes: four for each pixel of the
/// display with both its sides rounded up, behind the first 192, and all that
/// rounded up.
pub open spec fn bytes_for(size: (u64, u64)) -> int {
    up(192 + 4 * (up(size.0 as int) * up(size.1 as int)))
}

/// The mapping is as large as the display takes that takes most, and no
/// larger.
pub proof fn largest_display_gives_the_size(displays: &Vec<(u64, u64)>, size: u64, i: int)
    requires
        call_ensures(create_shmem, (displays,), Some(size)),
        0 <= i < displays@.len(),
    ensures
        bytes_for(displays@[i]) <= size,
        exists|j: int| 0 <= j < displays@.len() && size == bytes_for(#[trigger] displays@[j]),
{
    lemma_max_covers(displays@, i);
    let j = lemma_max_is_taken(displays@);
    assert(size == bytes_for(displays@[j]));
}

proof fn lemma_max_is_taken(displays: Seq<(u64, u64)>) -> (j: int)
    requires
        displays.len() > 0,
    ensures
        0 <= j < displays.len(),
        max_padded_pixels(displays) == padded_pixels(
            displays[j].0 as nat,
            displays[j].1 as nat,
        ),
    decreases displays.len(),
{
    let n = displays.len() - 1;
    let init = displays.drop_last();
    let last = padded_pixels(displays[n].0 as nat, displays[n].1 as nat);
    if n > 0 && max_padded_pixels(init) >= last {
        let j = lemma_max_is_taken(init);
        assert(init[j] == displays[j]);
        j
    } else {
        reveal_with_fuel(max_padded_pixels, 2);
        n
    }
}

/// There is a mapping if there is a display, and a frame of each display fits
/// into it, at four bytes for a pixel, behind the first 192 bytes.
pub proof fn every_display_fits(displays: &Vec<(u64, u64)>, r: Option<u64>, i: int)
    requires
        call_ensures(create_shmem, (displays,), r),
    ensures
        r is None <==> displays@.len() == 0,
        r matches Some(size) ==> {
            &&& size % 64 == 0
            &&& 0 <= i < displays@.len() ==> 192 + displays@[i].0 as nat * displays@[i].1 as nat
                * 4 <= size
        },
{
    if displays@.len() > 0 {
        shmem_holds_every_display(displays@, 0);
    }
    if 0 <= i < displays@.len() {
        shmem_holds_every_display(displays@, i);
    }
}

/// A mapping has the size that it was made with, and one that was opened the
/// size that the system tells, or none; and its size in two halves is its
/// size.
pub proof fn mapping_has_its_size(
    size: usize,
    made: SosShmem,
    len: usize,
    queried: usize,
    region: usize,
    opened: SosShmem,
    whole: u64,
    halves: (u32, u32),
)
    requires
        call_ensures(SosShmem::create, (size,), made),
        call_ensures(SosShmem::len, (&made,), len),
        call_ensures(SosShmem::open_existing, (queried, region), opened),
        call_ensures(SosShmem::size_halves, (whole,), halves),
    ensures
        len == size,
        queried > 0 ==> opened.size() == region,
        queried == 0 ==> opened.size() == 0,
        halves.0 * 0x1_0000_0000 + halves.1 == whole,
{
}

/// The name of a mapping among the objects of the system.
pub proof fn mapping_has_its_name(name: &str, r: Vec<u16>)
    requires
        call_ensures(SosShmem::os_id, (name,), r),
    ensures
        r@ == utf16("RustDeskSOS_"@ + name@).push(0),
{
}

/// The first mapping that is registered stays, and readers may read from
/// then on, until they are stopped; the mapping is kept even then.
pub proof fn first_mapping_is_kept<S>(
    s: &mut ShmemState<S>,
    shmem: S,
    width: usize,
    height: usize,
    stopped: &mut ShmemState<S>,
    fresh: ShmemState<S>,
)
    requires
        call_ensures(
            ShmemState::<S>::register_shmem_and_factory,
            (s, shmem, width, height),
            (),
        ),
        call_ensures(ShmemState::<S>::clear_shmem_factory, (stopped,), ()),
        call_ensures(ShmemState::<S>::new, (), fresh),
    ensures
        final(s).active,
        old(s).shmem is None ==> final(s).shmem == Some((shmem, width, height)),
        old(s).shmem is Some ==> final(s).shmem == old(s).shmem,
        !final(stopped).active,
        final(stopped).shmem == old(stopped).shmem,
        !fresh.active && fresh.shmem is None,
{
}

// ---------------------------------------------------------------- capture
/// A capture needs a mapping of 192 bytes and a display, of which it takes
/// the first.
pub proof fn capture_takes_the_first_display(
    shmem: &SosShmem,
    displays: &Vec<(u64, u64)>,
    r: Result<CaptureLoop, CaptureError>,
)
    requires
        call_ensures(run, (shmem, displays), r),
    ensures
        shmem.size() < 192 ==> r == Err::<CaptureLoop, CaptureError>(CaptureError::ShmemTooSmall),
        shmem.size() >= 192 && displays@.len() == 0 ==> r == Err::<CaptureLoop, CaptureError>(
            CaptureError::NoDisplay,
        ),
        shmem.size() >= 192 && displays@.len() > 0 ==> {
            &&& r matches Ok(c)
            &&& c.width == displays@[0].0
            &&& c.height == displays@[0].1
            &&& c.first
            &&& c.errors == 0
            &&& c.frames == 0
        },
{
}

/// Pixels that fit are stored as a frame of the size of the display, and the
/// main process hears of the first one; pixels that do not fit end the
/// capture, and nothing of them is stored.
pub proof fn pixels_become_a_frame<'a>(
    c: &mut CaptureLoop,
    shmem: &SosShmem,
    mem: &[u8],
    data: &'a [u8],
    r: (Vec<Store<'a>>, CaptureAction),
    stores: Option<Vec<Store<'a>>>,
)
    requires
        call_ensures(
            CaptureLoop::step,
            (c, shmem, mem, CaptureEvent::Pixels(data)),
            r,
        ),
        call_ensures(
            frame_stores,
            (shmem, mem, data, old(c).width, old(c).height),
            stores,
        ),
        old(c).frames < u64::MAX,
    ensures
        final(c).width == old(c).width,
        final(c).height == old(c).height,
        stores matches Some(list) ==> {
            &&& r.0@.len() == list@.len()
            &&& forall|i: int|
                0 <= i < list@.len() ==> (#[trigger] r.0@[i]).at == list@[i].at && r.0@[i].bytes@
                    == list@[i].bytes@
            &&& r.1 == (if old(c).first {
                CaptureAction::Ready
            } else {
                CaptureAction::Next
            })
            &&& !final(c).first
            &&& final(c).errors == 0
            &&& final(c).frames == old(c).frames + 1
        },
        stores is None ==> {
            &&& r.0@.len() == 0
            &&& r.1 == CaptureAction::Stop
            &&& *final(c) == *old(c)
        },
{
    if stores is Some {
        let list = stores->0;
        assert(stores_view(r.0@).len() == r.0@.len());
        assert(stores_view(list@).len() == list@.len());
        assert forall|i: int| 0 <= i < list@.len() implies (#[trigger] r.0@[i]).at == list@[i].at
            && r.0@[i].bytes@ == list@[i].bytes@ by {
            assert(stores_view(r.0@)[i] == (r.0@[i].at as int, r.0@[i].bytes@));
            assert(stores_view(list@)[i] == (list@[i].at as int, list@[i].bytes@));
        }
    }
}

/// Anything but pixels stores nothing. A change of desktop is followed, and
/// after any other failure the capture waits.
pub proof fn capture_follows_the_desktop<'a>(
    c: &mut CaptureLoop,
    shmem: &SosShmem,
    mem: &[u8],
    event: CaptureEvent<'a>,
    r: (Vec<Store<'a>>, CaptureAction),
)
    requires
        call_ensures(CaptureLoop::step, (c, shmem, mem, event), r),
        !(event is Pixels),
        old(c).errors < u32::MAX,
    ensures
        r.0@.len() == 0,
        final(c).width == old(c).width,
        final(c).height == old(c).height,
        final(c).first == old(c).first,
        final(c).frames == old(c).frames,
        event is OtherFrame ==> r.1 == CaptureAction::Next && final(c).errors == old(c).errors,
        event matches CaptureEvent::Failed(changed) ==> {
            &&& changed ==> r.1 == CaptureAction::SwitchDesktop && final(c).errors == 0
            &&& !changed ==> r.1 == CaptureAction::Wait && final(c).errors == old(c).errors + 1
        },
{
}

} // verus!
