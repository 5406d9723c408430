//! Frame-pointer stack unwinding. A walk starts from a stopped process's
//! instruction and frame pointers; at each step the caller reads the two
//! saved words above the current frame pointer from the process's memory and
//! hands them in, and the walk records one frame and moves to the caller.
use vstd::prelude::*;
use crate::controller::Registers;
use crate::symbols::{function_name_at, location_at, name_view, DebugData, LocationModel, SourceLocation};

verus! {

/// The most frames that one walk records; it guards against a cyclic or
/// corrupted frame-pointer chain.
pub const MAX_FRAMES: usize = 1024;

/// One unwound frame.
#[derive(Debug)]
pub struct StackFrame {
    /// The instruction address.
    pub addr: u64,
    /// The raw name of the enclosing function, where it is known.
    pub function: Option<String>,
    /// The source position of the instruction.
    pub location: SourceLocation,
}

/// The value of a frame.
pub ghost struct FrameModel {
    pub addr: u64,
    pub function: Option<Seq<char>>,
    pub location: LocationModel,
}

impl View for StackFrame {
    type V = FrameModel;

    open spec fn view(&self) -> FrameModel {
        FrameModel { addr: self.addr, function: name_view(self.function), location: self.location@ }
    }
}

/// The frame that the debug information gives for an address.
pub open spec fn frame_at(data: DebugData, addr: u64) -> FrameModel {
    FrameModel { addr, function: function_name_at(data, addr), location: location_at(data, addr) }
}

/// The name of the program's entry function, where a walk ends.
pub open spec fn entry_name() -> Seq<char> {
    "main"@
}

/// Whether a walk ends after recording the frame of a function with this
/// name: at the entry function.
pub open spec fn ends_walk(name: Option<Seq<char>>) -> bool {
    name == Some(entry_name())
}

/// A stack walk in progress.
pub struct Walk {
    ip: u64,
    fp: u64,
    frames: Vec<StackFrame>,
    done: bool,
}

impl Walk {
    /// The instruction pointer of the next frame to record.
    pub closed spec fn next_ip(&self) -> u64 {
        self.ip
    }

    /// The frame pointer of the next frame to record.
    pub closed spec fn next_fp(&self) -> u64 {
        self.fp
    }

    /// The frames recorded so far, innermost first.
    pub closed spec fn frames_view(&self) -> Seq<FrameModel> {
        self.frames@.map_values(|f: StackFrame| f@)
    }

    /// Whether the walk has ended.
    pub closed spec fn finished(&self) -> bool {
        self.done
    }

    /// A walk never holds more than `MAX_FRAMES` frames, and ends when it
    /// holds that many.
    pub open spec fn wf(&self) -> bool {
        &&& self.frames_view().len() <= MAX_FRAMES
        &&& (self.frames_view().len() == MAX_FRAMES ==> self.finished())
    }

    /// A walk from the registers of a stopped process, with no frame yet.
    pub fn new(regs: Registers) -> (r: Walk)
        ensures
            r.wf(),
            !r.finished(),
            r.frames_view().len() == 0,
            r.next_ip() == regs.ip,
            r.next_fp() == regs.fp,
    {
        Walk { ip: regs.ip, fp: regs.fp, frames: Vec::new(), done: false }
    }

    /// Whether the walk has ended.
    pub fn is_done(&self) -> (r: bool)
        ensures
            r == self.finished(),
    {
        self.done
    }

    /// The address of the saved return address, one word above the frame
    /// pointer; `None` where it lies past the address space.
    pub fn return_slot(&self) -> (r: Option<u64>)
        ensures
            r == (if self.next_fp() <= u64::MAX - 8 {
                Some((self.next_fp() + 8) as u64)
            } else {
                None::<u64>
            }),
    {
        if self.fp <= u64::MAX - 8 {
            Some(self.fp + 8)
        } else {
            None
        }
    }

    /// The address of the caller's saved frame pointer: the frame pointer.
    pub fn frame_slot(&self) -> (r: u64)
        ensures
            r == self.next_fp(),
    {
        self.fp
    }

    /// Records the frame at the current instruction pointer and moves to the
    /// caller. The walk ends after the entry function's frame, where either
    /// saved word could not be read, or when it holds `MAX_FRAMES` frames.
    /// `saved_ip` and `saved_fp` are the words read at `return_slot` and
    /// `frame_slot`.
    pub fn step(&mut self, data: &DebugData, saved_ip: Option<u64>, saved_fp: Option<u64>)
        requires
            old(self).wf(),
            !old(self).finished(),
        ensures
            final(self).wf(),
            final(self).frames_view() == old(self).frames_view().push(frame_at(*data, old(self).next_ip())),
            final(self).finished() == (ends_walk(function_name_at(*data, old(self).next_ip()))
                || saved_ip is None || saved_fp is None
                || final(self).frames_view().len() == MAX_FRAMES),
            !final(self).finished() ==> final(self).next_ip() == saved_ip->0 && final(self).next_fp() == saved_fp->0,
    {
        let ip = self.ip;
        let function = data.find_function_name(ip);
        let location = data.find_location(ip);
        let at_entry = match &function {
            Some(name) => {
                let entry = "main".to_owned();
                proof {
                    reveal_strlit("main");
                }
                *name == entry
            },
            None => false,
        };
        let ghost before = self.frames_view();
        self.frames.push(StackFrame { addr: ip, function, location });
        assert(self.frames_view() =~= before.push(frame_at(*data, ip)));
        if at_entry || self.frames.len() == MAX_FRAMES {
            self.done = true;
        } else {
            match (saved_ip, saved_fp) {
                (Some(next_ip), Some(next_fp)) => {
                    self.ip = next_ip;
                    self.fp = next_fp;
                },
                _ => {
                    self.done = true;
                },
            }
        }
    }

    /// The recorded frames, innermost first.
    pub fn into_frames(self) -> (r: Vec<StackFrame>)
        ensures
            r@.map_values(|f: StackFrame| f@) == self.frames_view(),
    {
        self.frames
    }
}

/// A walk that has not ended holds fewer than `MAX_FRAMES` frames, and each
/// step records one more: so every walk ends after at most `MAX_FRAMES`
/// steps, whatever the memory it reads holds.
pub proof fn lemma_walk_bounded(w: Walk)
    requires
        w.wf(),
        !w.finished(),
    ensures
        w.frames_view().len() < MAX_FRAMES,
{
}

} // verus!
