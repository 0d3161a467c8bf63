//! Frames: what the engine delivers and what a session hands out.
//!
//! A frame never owns pixel memory. It records the size of one snapshot and a
//! reference to memory that the engine keeps. The reference is good only in
//! the epoch in which the frame was grabbed: the session moves to a new epoch
//! with every further grab and when it stops.

use vstd::prelude::*;
use std::marker::PhantomData;
use std::rc::Rc;

verus! {

/// One frame as the capture engine delivers it.
///
/// Both references are carried, the one to the mapped buffer and the one to
/// the texture; which of them a session hands out depends on its options.
/// A value of this type always has a width and a height above zero.
#[derive(Debug, Clone, Copy, PartialEq, Eq)]
pub struct EngineFrame {
    width: u32,
    height: u32,
    row_pitch: u32,
    mapped: usize,
    texture: usize,
}

/// Mathematical model of an [`EngineFrame`].
pub struct EngineFrameView {
    pub width: nat,
    pub height: nat,
    pub row_pitch: nat,
    pub mapped: nat,
    pub texture: nat,
}

impl View for EngineFrame {
    type V = EngineFrameView;

    closed spec fn view(&self) -> EngineFrameView {
        EngineFrameView {
            width: self.width as nat,
            height: self.height as nat,
            row_pitch: self.row_pitch as nat,
            mapped: self.mapped as nat,
            texture: self.texture as nat,
        }
    }
}

impl EngineFrameView {
    /// Whether the frame shows at least one pixel.
    pub open spec fn has_pixels(self) -> bool {
        self.width > 0 && self.height > 0
    }
}

impl EngineFrame {
    #[verifier::type_invariant]
    spec fn shows_pixels(self) -> bool {
        self.width > 0 && self.height > 0
    }

    /// Records a delivered frame. `row_pitch` is the stride in bytes between
    /// rows of the mapped buffer, `mapped` the address of that buffer, and
    /// `texture` the reference to the texture on the graphics device.
    /// Gives nothing exactly when the width or the height is zero.
    pub fn new(
        width: u32,
        height: u32,
        row_pitch: u32,
        mapped: usize,
        texture: usize,
    ) -> (frame: Option<EngineFrame>)
        ensures
            frame is Some <==> width > 0 && height > 0,
            frame is Some ==> frame.unwrap()@ == (EngineFrameView {
                width: width as nat,
                height: height as nat,
                row_pitch: row_pitch as nat,
                mapped: mapped as nat,
                texture: texture as nat,
            }),
    {
        if width > 0 && height > 0 {
            Some(EngineFrame { width, height, row_pitch, mapped, texture })
        } else {
            None
        }
    }

    /// The frame's width in pixels, never zero.
    pub fn width(&self) -> (width: u32)
        ensures
            width == self@.width,
            width > 0,
    {
        proof {
            use_type_invariant(self);
        }
        self.width
    }

    /// The frame's height in pixels, never zero.
    pub fn height(&self) -> (height: u32)
        ensures
            height == self@.height,
            height > 0,
    {
        proof {
            use_type_invariant(self);
        }
        self.height
    }
}

/// What the engine answered when it was asked for the next frame.
#[derive(Debug, Clone, Copy, PartialEq, Eq)]
pub enum Delivery {
    /// A frame arrived.
    Frame(EngineFrame),
    /// The stream ended cleanly, as when the captured window was closed.
    EndOfStream,
    /// The channel that carries frames broke.
    ChannelBroken,
}

/// Mathematical model of a [`Delivery`].
pub enum DeliveryView {
    Frame(EngineFrameView),
    EndOfStream,
    ChannelBroken,
}

impl View for Delivery {
    type V = DeliveryView;

    open spec fn view(&self) -> DeliveryView {
        match *self {
            Delivery::Frame(frame) => DeliveryView::Frame(frame@),
            Delivery::EndOfStream => DeliveryView::EndOfStream,
            Delivery::ChannelBroken => DeliveryView::ChannelBroken,
        }
    }
}

impl DeliveryView {
    /// Whether this models a delivery that can exist: a frame in it shows pixels.
    pub open spec fn valid(self) -> bool {
        self matches DeliveryView::Frame(frame) ==> frame.has_pixels()
    }

    /// The delivery that a frame with these measures amounts to: the frame
    /// itself if it shows pixels; otherwise a broken channel, since a frame
    /// without pixels cannot be handed out.
    pub open spec fn of_frame(frame: EngineFrameView) -> DeliveryView {
        if frame.has_pixels() {
            DeliveryView::Frame(frame)
        } else {
            DeliveryView::ChannelBroken
        }
    }
}

impl Delivery {
    /// Classifies a frame that arrived from the engine, given by its
    /// measures and its two memory references. A frame without pixels counts
    /// as a broken channel.
    pub fn of_frame(
        width: u32,
        height: u32,
        row_pitch: u32,
        mapped: usize,
        texture: usize,
    ) -> (delivery: Delivery)
        ensures
            delivery@ == DeliveryView::of_frame(
                EngineFrameView {
                    width: width as nat,
                    height: height as nat,
                    row_pitch: row_pitch as nat,
                    mapped: mapped as nat,
                    texture: texture as nat,
                },
            ),
            delivery@.valid(),
    {
        match EngineFrame::new(width, height, row_pitch, mapped, texture) {
            Some(frame) => Delivery::Frame(frame),
            None => Delivery::ChannelBroken,
        }
    }
}

/// One captured frame as a session hands it out: its size and a reference to
/// memory that the session's engine keeps.
///
/// The frame is bound to the thread of its session and cannot be sent to another.
#[derive(Debug, Clone, Copy, PartialEq, Eq)]
pub struct Frame {
    width: u32,
    height: u32,
    row_pitch: u32,
    ptr: usize,
    cpu_mapped: bool,
    epoch: u64,
    thread_bound: PhantomData<Rc<()>>,
}

/// Mathematical model of a [`Frame`].
pub struct FrameView {
    /// Width in pixels.
    pub width: nat,
    /// Height in pixels.
    pub height: nat,
    /// Stride in bytes between rows of the mapped buffer. Means nothing
    /// unless `cpu_mapped` holds.
    pub row_pitch: nat,
    /// Address of the mapped buffer if `cpu_mapped` holds, else the
    /// reference to a texture on the graphics device.
    pub memory_reference: nat,
    /// Whether the memory reference is an address the processor can read.
    pub cpu_mapped: bool,
    /// The epoch of the session in which the frame was grabbed.
    pub epoch: nat,
}

impl FrameView {
    /// The frame a session hands out for a delivered frame: the delivered
    /// size and stride; as memory reference the mapped address if the session
    /// asked for processor access, else the texture reference.
    pub open spec fn expose(delivered: EngineFrameView, cpu_access: bool, epoch: nat) -> FrameView {
        FrameView {
            width: delivered.width,
            height: delivered.height,
            row_pitch: delivered.row_pitch,
            memory_reference: if cpu_access {
                delivered.mapped
            } else {
                delivered.texture
            },
            cpu_mapped: cpu_access,
            epoch,
        }
    }

    /// Number of bytes that can be read from the memory reference of a
    /// frame mapped for the processor: one stride for each row.
    pub open spec fn mapped_len(self) -> nat {
        self.height * self.row_pitch
    }
}

impl View for Frame {
    type V = FrameView;

    closed spec fn view(&self) -> FrameView {
        FrameView {
            width: self.width as nat,
            height: self.height as nat,
            row_pitch: self.row_pitch as nat,
            memory_reference: self.ptr as nat,
            cpu_mapped: self.cpu_mapped,
            epoch: self.epoch as nat,
        }
    }
}

impl Frame {
    #[verifier::type_invariant]
    spec fn shows_pixels(self) -> bool {
        self.width > 0 && self.height > 0
    }

    /// Builds the frame that a session in epoch `epoch` hands out for `delivered`.
    pub(crate) fn expose(delivered: EngineFrame, cpu_access: bool, epoch: u64) -> (frame: Frame)
        ensures
            frame@ == FrameView::expose(delivered@, cpu_access, epoch as nat),
            frame@.width > 0,
            frame@.height > 0,
    {
        proof {
            use_type_invariant(&delivered);
        }
        Frame {
            width: delivered.width,
            height: delivered.height,
            row_pitch: delivered.row_pitch,
            ptr: if cpu_access {
                delivered.mapped
            } else {
                delivered.texture
            },
            cpu_mapped: cpu_access,
            epoch,
            thread_bound: PhantomData,
        }
    }

    /// Width in pixels, never zero.
    pub fn width(&self) -> (width: usize)
        ensures
            width == self@.width,
            width > 0,
    {
        proof {
            use_type_invariant(self);
        }
        self.width as usize
    }

    /// Height in pixels, never zero.
    pub fn height(&self) -> (height: usize)
        ensures
            height == self@.height,
            height > 0,
    {
        proof {
            use_type_invariant(self);
        }
        self.height as usize
    }

    /// Stride in bytes between rows of the mapped buffer. To be used only
    /// for a frame that is mapped for the processor.
    pub fn row_pitch(&self) -> (row_pitch: usize)
        ensures
            row_pitch == self@.row_pitch,
    {
        self.row_pitch as usize
    }

    /// The bare memory reference. What it refers to depends on
    /// [`Frame::is_cpu_mapped`], and it is good only while the frame is
    /// current in its session.
    pub fn ptr(&self) -> (reference: usize)
        ensures
            reference == self@.memory_reference,
    {
        self.ptr
    }

    /// Whether the memory reference is an address the processor can read.
    pub fn is_cpu_mapped(&self) -> (mapped: bool)
        ensures
            mapped == self@.cpu_mapped,
    {
        self.cpu_mapped
    }

    /// The epoch of the session in which the frame was grabbed.
    pub fn epoch(&self) -> (epoch: u64)
        ensures
            epoch == self@.epoch,
    {
        self.epoch
    }

    /// Number of bytes behind the memory reference of a frame mapped for the
    /// processor: one stride for each row.
    pub fn mapped_len(&self) -> (len: u64)
        ensures
            len == self@.mapped_len(),
    {
        let rows: u64 = self.height as u64;
        let stride: u64 = self.row_pitch as u64;
        assert(rows * stride <= u64::MAX) by (nonlinear_arith)
            requires
                rows <= u32::MAX,
                stride <= u32::MAX,
        ;
        rows * stride
    }
}

/// What the memory reference of a frame refers to.
#[derive(Debug, Clone, Copy, PartialEq, Eq, Structural)]
pub enum FrameMemory {
    /// Memory that the processor may read: `len` bytes from `address`.
    Mapped { address: usize, len: u64 },
    /// A texture on the graphics device, known by its raw reference.
    /// Nothing can be read through it.
    Texture { reference: usize },
}

} // verus!
