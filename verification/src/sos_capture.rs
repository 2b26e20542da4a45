//! The capture of the secure desktop into shared memory.

use vstd::prelude::*;

use crate::sos_shmem::{frame_stores, SosShmem, Store, SHMEM_ADDR_CAPTURE_FRAME};
use crate::sos_shmem::{frame_stores_of, stored, stores_view, with_frame};

verus! {

/// Why a capture does not start.
#[derive(Debug, Clone, Copy, PartialEq, Eq, Structural)]
pub enum CaptureError {
    /// The mapping has no room for the fields before a frame.
    ShmemTooSmall,
    /// There is no display.
    NoDisplay,
}

/// A capture at work.
#[derive(Debug, Clone, Copy, PartialEq, Eq, Structural)]
pub struct CaptureLoop {
    /// The size of the display.
    pub width: u64,
    pub height: u64,
    /// Whether no frame has come yet.
    pub first: bool,
    /// Failures since the last frame or the last change of desktop.
    pub errors: u32,
    /// Frames so far.
    pub frames: u64,
}

/// What asking for a frame gave.
#[derive(Debug, Clone, Copy, PartialEq, Eq)]
pub enum CaptureEvent<'a> {
    /// Pixels.
    Pixels(&'a [u8]),
    /// A frame that is not made of pixels.
    OtherFrame,
    /// An error, and whether the input desktop has changed meanwhile.
    Failed(bool),
}

/// What to do next.
#[derive(Debug, Clone, Copy, PartialEq, Eq, Structural)]
pub enum CaptureAction {
    /// Ask for the next frame.
    Next,
    /// Say that the first frame is there, and ask for the next one.
    Ready,
    /// End the capture: the frame does not fit.
    Stop,
    /// Switch to the input desktop, set up the screen device again, wait 100
    /// milliseconds, then ask for the next frame.
    SwitchDesktop,
    /// Wait 33 milliseconds, then ask for the next frame.
    Wait,
}

/// Starts a capture of the first display into a mapping.
pub fn run(shmem: &SosShmem, displays: &Vec<(u64, u64)>) -> (r: Result<CaptureLoop, CaptureError>)
    ensures
        r == (if shmem.size() < SHMEM_ADDR_CAPTURE_FRAME {
            Err(CaptureError::ShmemTooSmall)
        } else if displays@.len() == 0 {
            Err(CaptureError::NoDisplay)
        } else {
            Ok(
                CaptureLoop {
                    width: displays@[0].0,
                    height: displays@[0].1,
                    first: true,
                    errors: 0,
                    frames: 0,
                },
            )
        }),
{
    if shmem.len() < SHMEM_ADDR_CAPTURE_FRAME {
        return Err(CaptureError::ShmemTooSmall);
    }
    if displays.len() == 0 {
        return Err(CaptureError::NoDisplay);
    }
    Ok(
        CaptureLoop {
            width: displays[0].0,
            height: displays[0].1,
            first: true,
            errors: 0,
            frames: 0,
        },
    )
}

impl CaptureLoop {
    /// Takes what came of asking for a frame: says what to store into the
    /// mapping, in order, and what to do after that. Pixels that fit are
    /// stored as a frame, and nothing else is.
    pub fn step<'a>(&mut self, shmem: &SosShmem, mem: &[u8], event: CaptureEvent<'a>) -> (r: (
        Vec<Store<'a>>,
        CaptureAction,
    ))
        requires
            mem@.len() == shmem.size(),
            shmem.size() >= SHMEM_ADDR_CAPTURE_FRAME,
            event is Pixels ==> old(self).frames < u64::MAX,
            event is Failed ==> old(self).errors < u32::MAX,
        ensures
            match event {
                CaptureEvent::Pixels(data) => if SHMEM_ADDR_CAPTURE_FRAME + data@.len()
                    <= shmem.size() {
                    let list = stores_view(r.0@);
                    let (w, h) = (old(self).width as nat, old(self).height as nat);
                    &&& list == frame_stores_of(mem@, data@, w, h)
                    &&& stored(mem@, list) == with_frame(mem@, data@, w, h)
                    &&& forall|i: int|
                        0 <= i < list.len() ==> (#[trigger] list[i]).0 + list[i].1.len()
                            <= shmem.size()
                    &&& r.1 == (if old(self).first {
                        CaptureAction::Ready
                    } else {
                        CaptureAction::Next
                    })
                    &&& *final(self) == (CaptureLoop {
                        first: false,
                        errors: 0,
                        frames: (old(self).frames + 1) as u64,
                        ..*old(self)
                    })
                } else {
                    &&& r.0@.len() == 0
                    &&& r.1 == CaptureAction::Stop
                    &&& *final(self) == *old(self)
                },
                CaptureEvent::OtherFrame => {
                    &&& r.0@.len() == 0
                    &&& r.1 == CaptureAction::Next
                    &&& *final(self) == *old(self)
                },
                CaptureEvent::Failed(desktop_changed) => {
                    &&& r.0@.len() == 0
                    &&& r.1 == (if desktop_changed {
                        CaptureAction::SwitchDesktop
                    } else {
                        CaptureAction::Wait
                    })
                    &&& *final(self) == (CaptureLoop {
                        errors: if desktop_changed {
                            0
                        } else {
                            (old(self).errors + 1) as u32
                        },
                        ..*old(self)
                    })
                },
            },
    {
        match event {
            CaptureEvent::Pixels(data) => {
                let stores: Vec<Store<'a>> = match frame_stores(
                    shmem,
                    mem,
                    data,
                    self.width,
                    self.height,
                ) {
                    Some(s) => s,
                    None => return (Vec::new(), CaptureAction::Stop),
                };
                let first: bool = self.first;
                self.first = false;
                self.frames = self.frames + 1;
                self.errors = 0;
                if first {
                    (stores, CaptureAction::Ready)
                } else {
                    (stores, CaptureAction::Next)
                }
            },
            CaptureEvent::OtherFrame => (Vec::new(), CaptureAction::Next),
            CaptureEvent::Failed(desktop_changed) => {
                self.errors = self.errors + 1;
                if desktop_changed {
                    self.errors = 0;
                    (Vec::new(), CaptureAction::SwitchDesktop)
                } else {
                    (Vec::new(), CaptureAction::Wait)
                }
            },
        }
    }
}

} // verus!
