use vstd::prelude::*;

verus! {

/// The transient resources of one frame: the acquired presentable image, a
/// view over it and the open command buffer.
pub struct InFlight<I, V, E> {
    pub image: I,
    pub view: V,
    pub encoder: E,
}

/// The abstract value of a [`Renderer`]: the frame in flight, if any, and how
/// many frames have been begun and ended so far.
pub struct RendererView<I, V, E> {
    pub frame: Option<InFlight<I, V, E>>,
    pub begun: nat,
    pub ended: nat,
}

/// Holds at most one frame in flight. The three resources of a frame are
/// stored together, so they are all present between `begin_frame` and
/// `end_frame` and all absent outside that window.
pub struct Renderer<I, V, E> {
    frame: Option<InFlight<I, V, E>>,
    begun: Ghost<nat>,
    ended: Ghost<nat>,
}

impl<I, V, E> View for Renderer<I, V, E> {
    type V = RendererView<I, V, E>;

    closed spec fn view(&self) -> RendererView<I, V, E> {
        RendererView { frame: self.frame, begun: self.begun@, ended: self.ended@ }
    }
}

impl<I, V, E> Renderer<I, V, E> {
    /// Every frame begun has been ended, except the one in flight.
    pub open spec fn wf(&self) -> bool {
        self@.begun == self@.ended + if self@.frame is Some {
            1nat
        } else {
            0nat
        }
    }

    pub open spec fn recording(&self) -> bool {
        self@.frame is Some
    }

    pub fn new() -> (r: Self)
        ensures
            r.wf(),
            r@.frame is None,
            r@.begun == 0,
            r@.ended == 0,
    {
        Renderer { frame: None, begun: Ghost(0), ended: Ghost(0) }
    }

    /// Stores the resources of a newly acquired frame.
    pub fn begin_frame(&mut self, image: I, view: V, encoder: E)
        requires
            old(self).wf(),
            !old(self).recording(),
        ensures
            final(self).wf(),
            final(self)@ == (RendererView {
                frame: Some(InFlight { image, view, encoder }),
                begun: old(self)@.begun + 1,
                ended: old(self)@.ended,
            }),
    {
        self.frame = Some(InFlight { image, view, encoder });
        self.begun = Ghost(self.begun@ + 1);
    }

    /// Takes the frame in flight out, to be finished, submitted and presented.
    pub fn end_frame(&mut self) -> (r: InFlight<I, V, E>)
        requires
            old(self).wf(),
            old(self).recording(),
        ensures
            final(self).wf(),
            old(self)@.frame == Some(r),
            final(self)@ == (RendererView::<I, V, E> {
                frame: None,
                begun: old(self)@.begun,
                ended: old(self)@.ended + 1,
            }),
    {
        let frame = self.frame.take().unwrap();
        self.ended = Ghost(self.ended@ + 1);
        frame
    }

    pub fn is_recording(&self) -> (r: bool)
        ensures
            r == self.recording(),
    {
        self.frame.is_some()
    }

    /// The view over the acquired image, while a frame is in flight.
    pub fn texture_view(&self) -> (r: Option<&V>)
        ensures
            r is Some <==> self.recording(),
            r matches Some(v) ==> *v == self@.frame->Some_0.view,
    {
        match &self.frame {
            Some(f) => Some(&f.view),
            None => None,
        }
    }

    /// The view and the open command buffer, while a frame is in flight.
    pub fn frame_mut(&mut self) -> (r: Option<&mut InFlight<I, V, E>>)
        ensures
            r is Some <==> old(self).recording(),
            r matches Some(f) ==> *f == old(self)@.frame->Some_0 && final(self)@ == (
            RendererView { frame: Some(*final(f)), ..old(self)@ }),
            r is None ==> final(self)@ == old(self)@,
    {
        self.frame.as_mut()
    }
}

/// Across any sequence of calls on a well-formed holder, `begin_frame` and
/// `end_frame` alternate: at most one frame is outstanding, and when none is
/// in flight the two have been called equally often.
pub proof fn lemma_frames_balanced<I, V, E>(r: &Renderer<I, V, E>)
    requires
        r.wf(),
    ensures
        r@.ended <= r@.begun <= r@.ended + 1,
        !r.recording() ==> r@.begun == r@.ended,
        r.recording() ==> r@.begun == r@.ended + 1,
{
}

} // verus!
