//! Zoom feedback over two offscreen buffers.
//!
//! Every frame is drawn into one of two offscreen buffers. Before the frame's
//! own content is drawn, the other buffer, which holds the previous frame, is
//! laid underneath it, slightly enlarged and slightly faded. The two buffers
//! swap roles at the end of every frame, so old content recedes into a tunnel
//! of ever larger, ever fainter copies.
//!
//! The compositor does not own pixels. It keeps the bookkeeping, and each
//! transition hands back the precise operations that the owner of the buffers
//! has to carry out.

use vstd::prelude::*;
use crate::arith::lemma_product_bound;
use crate::draw::DrawCommand;
use super::GenericVisualEffect;

verus! {

/// Width of both offscreen buffers, in pixels.
pub const BUFFER_WIDTH: i32 = 800;

/// Height of both offscreen buffers, in pixels.
pub const BUFFER_HEIGHT: i32 = 600;

/// The value of an opacity or a scale that stands for one: fractions are in thousandths.
pub const UNIT: u32 = 1000;

/// One of the two offscreen buffers.
#[derive(Clone, Copy, Debug, PartialEq, Eq, Structural)]
pub enum Buffer {
    A,
    B,
}

/// Why a transition of the compositor was refused.
#[derive(Clone, Copy, Debug, PartialEq, Eq, Structural)]
pub enum FrameError {
    /// A frame was begun while another one was still open.
    FrameInProgress,
    /// A frame was ended although none was open.
    NoFrameInProgress,
}

/// What has to happen on the drawing surface when a frame begins, in this order:
/// create the buffers if asked to, redirect drawing to `destination`, clear it
/// to black with alpha `clear_alpha`, then draw `source` into it at
/// `(offset_x, offset_y)` with size `width` by `height` and alpha `source_alpha`.
#[derive(Clone, Copy, Debug, PartialEq, Eq, Structural)]
pub struct BeginFrame {
    /// Whether the two buffers do not exist yet and must be created first.
    pub create_buffers: bool,
    /// The buffer that receives this frame.
    pub destination: Buffer,
    /// The buffer that holds the previous frame.
    pub source: Buffer,
    /// Alpha of the clear colour, in thousandths: one minus the opacity.
    pub clear_alpha: u32,
    /// Alpha with which the previous frame is drawn, in thousandths: the opacity.
    pub source_alpha: u32,
    /// Enlargement of the previous frame, in thousandths: one plus the zoom factor.
    pub scale: i64,
    /// Left edge of the enlarged previous frame, in thousandths of a pixel.
    pub offset_x: i128,
    /// Top edge of the enlarged previous frame, in thousandths of a pixel.
    pub offset_y: i128,
    /// Width of the enlarged previous frame, in thousandths of a pixel.
    pub width: i128,
    /// Height of the enlarged previous frame, in thousandths of a pixel.
    pub height: i128,
}

/// What has to happen on the drawing surface when a frame ends: restore drawing
/// to the visible surface and draw `present` onto it, scaled to fill it.
#[derive(Clone, Copy, Debug, PartialEq, Eq, Structural)]
pub struct EndFrame {
    /// The buffer that was just completed.
    pub present: Buffer,
}

/// The compositor's bookkeeping as a plain value.
pub struct FeedbackState {
    /// Whether buffer A holds the previous frame; if not, buffer B does.
    pub use_a_as_source: bool,
    /// Whether a frame is open.
    pub compositing: bool,
    /// Whether the two buffers exist.
    pub buffers_ready: bool,
    /// Share of the previous frame that persists, in thousandths.
    pub opacity: u32,
    /// Growth of the previous frame per frame, in thousandths.
    pub zoom_factor: i32,
}

impl FeedbackState {
    /// The bookkeeping is consistent: the opacity is at most one, and a frame
    /// is only ever open once both buffers exist.
    pub open spec fn wf(self) -> bool {
        &&& self.opacity <= UNIT
        &&& self.compositing ==> self.buffers_ready
    }

    /// The buffer that holds the previous frame.
    pub open spec fn source(self) -> Buffer {
        if self.use_a_as_source {
            Buffer::A
        } else {
            Buffer::B
        }
    }

    /// The buffer that the current frame goes to: always the one that is not the source.
    pub open spec fn destination(self) -> Buffer {
        if self.use_a_as_source {
            Buffer::B
        } else {
            Buffer::A
        }
    }

    /// The operations that beginning a frame asks for.
    pub open spec fn begin_plan(self) -> BeginFrame {
        BeginFrame {
            create_buffers: !self.buffers_ready,
            destination: self.destination(),
            source: self.source(),
            clear_alpha: (UNIT - self.opacity) as u32,
            source_alpha: self.opacity,
            scale: (UNIT + self.zoom_factor) as i64,
            offset_x: (-(BUFFER_WIDTH / 2) * self.zoom_factor) as i128,
            offset_y: (-(BUFFER_HEIGHT / 2) * self.zoom_factor) as i128,
            width: (BUFFER_WIDTH * (UNIT + self.zoom_factor)) as i128,
            height: (BUFFER_HEIGHT * (UNIT + self.zoom_factor)) as i128,
        }
    }

    /// The bookkeeping once a frame has begun.
    pub open spec fn after_begin(self) -> FeedbackState {
        FeedbackState { compositing: true, buffers_ready: true, ..self }
    }

    /// The operations that ending a frame asks for.
    pub open spec fn end_plan(self) -> EndFrame {
        EndFrame { present: self.destination() }
    }

    /// The bookkeeping once a frame has ended: the buffers have swapped roles.
    pub open spec fn after_end(self) -> FeedbackState {
        FeedbackState { use_a_as_source: !self.use_a_as_source, compositing: false, ..self }
    }

    /// The bookkeeping after `n` whole frames, each begun and ended.
    pub open spec fn after_frames(self, n: nat) -> FeedbackState
        decreases n,
    {
        if n == 0 {
            self
        } else {
            self.after_frames((n - 1) as nat).after_begin().after_end()
        }
    }
}

/// The zoom-feedback compositor.
pub struct ZoomFeedback {
    buffers_ready: bool,
    use_a_as_source: bool,
    compositing: bool,
    opacity: u32,
    zoom_factor: i32,
}

impl View for ZoomFeedback {
    type V = FeedbackState;

    closed spec fn view(&self) -> FeedbackState {
        FeedbackState {
            use_a_as_source: self.use_a_as_source,
            compositing: self.compositing,
            buffers_ready: self.buffers_ready,
            opacity: self.opacity,
            zoom_factor: self.zoom_factor,
        }
    }
}

impl ZoomFeedback {
    #[verifier::type_invariant]
    spec fn consistent(self) -> bool {
        self@.wf()
    }

    /// A compositor that keeps `opacity` thousandths of each previous frame and
    /// enlarges it by `zoom_factor` thousandths per frame. No frame is open,
    /// no buffer exists yet, and buffer A is the first source.
    pub fn new(opacity: u32, zoom_factor: i32) -> (feedback: Self)
        requires
            opacity <= UNIT,
        ensures
            feedback@ == (FeedbackState {
                use_a_as_source: true,
                compositing: false,
                buffers_ready: false,
                opacity,
                zoom_factor,
            }),
            feedback@.wf(),
    {
        ZoomFeedback {
            buffers_ready: false,
            use_a_as_source: true,
            compositing: false,
            opacity,
            zoom_factor,
        }
    }

    /// The buffer that holds the previous frame.
    pub fn source(&self) -> (buffer: Buffer)
        ensures
            buffer == self@.source(),
    {
        if self.use_a_as_source {
            Buffer::A
        } else {
            Buffer::B
        }
    }

    /// The buffer that the current frame goes to.
    pub fn destination(&self) -> (buffer: Buffer)
        ensures
            buffer == self@.destination(),
    {
        if self.use_a_as_source {
            Buffer::B
        } else {
            Buffer::A
        }
    }

    /// Whether a frame is open.
    pub fn is_compositing(&self) -> (open: bool)
        ensures
            open == self@.compositing,
    {
        self.compositing
    }

    /// Notes that both buffers exist from now on, and says whether they have
    /// to be created for that.
    fn ensure_render_targets(&mut self) -> (create: bool)
        requires
            !old(self)@.compositing,
        ensures
            create == !old(self)@.buffers_ready,
            final(self)@ == (FeedbackState { buffers_ready: true, ..old(self)@ }),
    {
        proof {
            use_type_invariant(&*self);
        }
        let create = !self.buffers_ready;
        self.buffers_ready = true;
        create
    }

    /// Opens a frame. Refused, with nothing changed, while a frame is open.
    pub fn begin_frame(&mut self) -> (plan: Result<BeginFrame, FrameError>)
        ensures
            final(self)@.wf(),
            old(self)@.compositing ==> plan == Err::<BeginFrame, FrameError>(
                FrameError::FrameInProgress,
            ) && final(self)@ == old(self)@,
            !old(self)@.compositing ==> plan == Ok::<BeginFrame, FrameError>(
                old(self)@.begin_plan(),
            ) && final(self)@ == old(self)@.after_begin(),
    {
        proof {
            use_type_invariant(&*self);
        }
        if self.compositing {
            return Err(FrameError::FrameInProgress);
        }
        let create_buffers = self.ensure_render_targets();
        let (source, destination) = if self.use_a_as_source {
            (Buffer::A, Buffer::B)
        } else {
            (Buffer::B, Buffer::A)
        };
        let zoom: i128 = self.zoom_factor as i128;
        let scale: i64 = (UNIT as i64) + (self.zoom_factor as i64);
        proof {
            lemma_product_bound(BUFFER_WIDTH as int, scale as int, 800, 0x8000_1000);
            lemma_product_bound(BUFFER_HEIGHT as int, scale as int, 600, 0x8000_1000);
            lemma_product_bound(-(BUFFER_WIDTH as int / 2), zoom as int, 400, 0x8000_0000);
            lemma_product_bound(-(BUFFER_HEIGHT as int / 2), zoom as int, 300, 0x8000_0000);
        }
        let plan = BeginFrame {
            create_buffers,
            destination,
            source,
            clear_alpha: UNIT - self.opacity,
            source_alpha: self.opacity,
            scale,
            offset_x: -((BUFFER_WIDTH / 2) as i128) * zoom,
            offset_y: -((BUFFER_HEIGHT / 2) as i128) * zoom,
            width: (BUFFER_WIDTH as i128) * (scale as i128),
            height: (BUFFER_HEIGHT as i128) * (scale as i128),
        };
        self.compositing = true;
        Ok(plan)
    }

    /// Closes the open frame and swaps the buffers' roles. Refused, with
    /// nothing changed, while no frame is open.
    pub fn end_frame(&mut self) -> (plan: Result<EndFrame, FrameError>)
        ensures
            final(self)@.wf(),
            !old(self)@.compositing ==> plan == Err::<EndFrame, FrameError>(
                FrameError::NoFrameInProgress,
            ) && final(self)@ == old(self)@,
            old(self)@.compositing ==> plan == Ok::<EndFrame, FrameError>(old(self)@.end_plan())
                && final(self)@ == old(self)@.after_end(),
    {
        proof {
            use_type_invariant(&*self);
        }
        if !self.compositing {
            return Err(FrameError::NoFrameInProgress);
        }
        self.compositing = false;
        self.use_a_as_source = !self.use_a_as_source;
        let present = if self.use_a_as_source {
            Buffer::A
        } else {
            Buffer::B
        };
        Ok(EndFrame { present })
    }
}

impl GenericVisualEffect for ZoomFeedback {
    /// The compositor works around the other effects, through its two
    /// transitions; as an effect of its own it draws nothing.
    open spec fn commands(&self, phase: u64) -> Seq<DrawCommand> {
        Seq::empty()
    }

    open spec fn label(&self) -> Seq<char> {
        "Zoom Feedback"@
    }

    fn draw(&self, phase: u64) -> (out: Vec<DrawCommand>) {
        Vec::new()
    }

    fn name(&self) -> (n: &str) {
        "Zoom Feedback"
    }
}

/// One whole frame swaps the roles of the two buffers exactly once and leaves
/// the compositor idle, with everything else as it was.
pub proof fn lemma_frame_flips_once(state: FeedbackState)
    requires
        state.wf(),
        !state.compositing,
    ensures
        state.after_frames(1).use_a_as_source == !state.use_a_as_source,
        state.after_frames(1).source() == state.destination(),
        state.after_frames(1).destination() == state.source(),
        !state.after_frames(1).compositing,
        state.after_frames(1).opacity == state.opacity,
        state.after_frames(1).zoom_factor == state.zoom_factor,
        state.after_frames(1).wf(),
{
    reveal_with_fuel(FeedbackState::after_frames, 2);
}

/// After `n` whole frames the roles have been swapped `n` times: they are the
/// initial ones if `n` is even and the opposite ones if `n` is odd.
pub proof fn lemma_frames_flip(state: FeedbackState, n: nat)
    requires
        state.wf(),
        !state.compositing,
    ensures
        state.after_frames(n).use_a_as_source == if n % 2 == 0 {
            state.use_a_as_source
        } else {
            !state.use_a_as_source
        },
        !state.after_frames(n).compositing,
        state.after_frames(n).opacity == state.opacity,
        state.after_frames(n).zoom_factor == state.zoom_factor,
        state.after_frames(n).buffers_ready == (state.buffers_ready || n > 0),
        state.after_frames(n).wf(),
    decreases n,
{
    if n > 0 {
        lemma_frames_flip(state, (n - 1) as nat);
    }
}

/// Source and destination are always two different buffers, and every frame
/// is drawn into the buffer that the frame before it was not drawn into.
pub proof fn lemma_buffers_disjoint(state: FeedbackState)
    ensures
        state.source() != state.destination(),
        state.begin_plan().source != state.begin_plan().destination,
        state.after_begin().end_plan().present == state.begin_plan().destination,
        state.after_begin().after_end().source() == state.begin_plan().destination,
{
}

/// The fade and the persistence share one whole: the alpha of the clear and
/// the alpha of the previous frame add up to one, and the previous frame is
/// enlarged about the centre of the buffer.
pub proof fn lemma_begin_plan_balanced(state: FeedbackState)
    requires
        state.wf(),
    ensures
        state.begin_plan().clear_alpha + state.begin_plan().source_alpha == UNIT,
        state.begin_plan().scale == UNIT + state.zoom_factor,
        state.begin_plan().width + 2 * state.begin_plan().offset_x == BUFFER_WIDTH * UNIT,
        state.begin_plan().height + 2 * state.begin_plan().offset_y == BUFFER_HEIGHT * UNIT,
{
    let z = state.zoom_factor as int;
    assert(800 * (1000 + z) + 2 * (-400 * z) == 800 * 1000) by (nonlinear_arith);
    assert(600 * (1000 + z) + 2 * (-300 * z) == 600 * 1000) by (nonlinear_arith);
    lemma_product_bound(800, 1000 + z, 800, 0x8000_1000);
    lemma_product_bound(600, 1000 + z, 600, 0x8000_1000);
    lemma_product_bound(-400, z, 400, 0x8000_0000);
    lemma_product_bound(-300, z, 300, 0x8000_0000);
}

} // verus!
