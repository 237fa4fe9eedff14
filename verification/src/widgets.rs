//! The render capabilities, and the adapters that compose them.
//!
//! A drawable is any value implementing one or more of the capabilities here:
//! consuming ([`Widget`], [`StatefulWidget`]), by shared borrow ([`Render`],
//! [`RenderWithState`]), or by exclusive borrow ([`RenderMut`]). Each
//! capability pairs its render method with a specification function that gives
//! the surface the call leaves behind, so that callers know exactly which
//! cells a render call writes.

use vstd::prelude::*;

use crate::buffer::Buffer;
use crate::buffer::BufferModel;
use crate::buffer::lemma_with_text_from_shape;
use crate::layout::Rect;
use crate::style::Style;

verus! {

/// The transient aggregate bundling the mutable surface borrow for one
/// reference render call.
///
/// A context is constructed immediately before the call and discarded
/// immediately after; it is never stored by a drawable.
pub struct Context<'a> {
    pub buffer: &'a mut Buffer,
}

impl<'a> Context<'a> {
    #[must_use]
    pub fn from_buffer(buffer: &'a mut Buffer) -> (ctx: Context<'a>)
        ensures
            *ctx.buffer == *old(buffer),
            *final(ctx.buffer) == *final(buffer),
    {
        Context { buffer }
    }
}

/// The consuming render capability: the caller gives up the drawable to
/// produce output.
///
/// Rendering writes cells of `buf` and nothing else; it never fails, and
/// coordinates outside the surface are silently dropped by the surface itself.
pub trait Widget {
    /// The surface that rendering this drawable into `area` leaves behind.
    spec fn spec_render(&self, area: Rect, buf: BufferModel) -> BufferModel;

    /// Rendering never changes the surface's rectangle or its cell count.
    proof fn spec_render_preserves_shape(&self, area: Rect, buf: BufferModel)
        requires
            buf.well_formed(),
        ensures
            self.spec_render(area, buf).area == buf.area,
            self.spec_render(area, buf).well_formed(),
    ;

    /// Draws the drawable into `buf`, consuming it.
    fn render(self, area: Rect, buf: &mut Buffer) where Self: Sized
        requires
            old(buf).well_formed(),
        ensures
            final(buf)@ == self.spec_render(area, old(buf)@),
    ;
}

/// The consuming stateful render capability: like [`Widget`], plus a mutable
/// reference to externally owned state that persists across frames.
///
/// The state is the only channel by which a rendering outcome persists to the
/// next frame; the drawable itself is consumed by the call.
pub trait StatefulWidget {
    /// State associated with the stateful drawable, owned by the application.
    type State;

    /// The surface and the state that rendering this drawable into `area`
    /// leaves behind.
    spec fn spec_render(&self, area: Rect, buf: BufferModel, state: Self::State) -> (
        BufferModel,
        Self::State,
    );

    /// Rendering never changes the surface's rectangle or its cell count.
    proof fn spec_render_preserves_shape(&self, area: Rect, buf: BufferModel, state: Self::State)
        requires
            buf.well_formed(),
        ensures
            self.spec_render(area, buf, state).0.area == buf.area,
            self.spec_render(area, buf, state).0.well_formed(),
    ;

    /// Draws the drawable into `buf`, consuming it and updating `state`.
    fn render(self, area: Rect, buf: &mut Buffer, state: &mut Self::State)
        requires
            old(buf).well_formed(),
        ensures
            final(buf)@ == self.spec_render(area, old(buf)@, *old(state)).0,
            *final(state) == self.spec_render(area, old(buf)@, *old(state)).1,
    ;
}

/// The reference render capability: rendering through a shared borrow, so the
/// drawable is unaffected and may be stored, composed, and rendered again.
pub trait Render {
    /// The surface that rendering this drawable into `area` leaves behind.
    spec fn spec_render_ref(&self, area: Rect, buf: BufferModel) -> BufferModel;

    /// Rendering never changes the surface's rectangle or its cell count.
    proof fn spec_render_ref_preserves_shape(&self, area: Rect, buf: BufferModel)
        requires
            buf.well_formed(),
        ensures
            self.spec_render_ref(area, buf).area == buf.area,
            self.spec_render_ref(area, buf).well_formed(),
    ;

    /// Draws the drawable into the surface borrowed by `ctx`. The drawable is
    /// borrowed immutably, so the call cannot change it.
    fn render(&self, area: Rect, ctx: &mut Context)
        requires
            old(ctx).buffer.well_formed(),
        ensures
            final(ctx).buffer@ == self.spec_render_ref(area, old(ctx).buffer@),
            *final(final(ctx).buffer) == *final(old(ctx).buffer),
    ;
}

/// The reference stateful render capability: the stateful analogue of
/// [`Render`], threading a mutable reference to externally owned state.
pub trait RenderWithState {
    /// State associated with the stateful drawable, owned by the application.
    type State;

    /// The surface and the state that rendering this drawable into `area`
    /// leaves behind.
    spec fn spec_render_ref(&self, area: Rect, buf: BufferModel, state: Self::State) -> (
        BufferModel,
        Self::State,
    );

    /// Rendering never changes the surface's rectangle or its cell count.
    proof fn spec_render_ref_preserves_shape(
        &self,
        area: Rect,
        buf: BufferModel,
        state: Self::State,
    )
        requires
            buf.well_formed(),
        ensures
            self.spec_render_ref(area, buf, state).0.area == buf.area,
            self.spec_render_ref(area, buf, state).0.well_formed(),
    ;

    /// Draws the drawable into the surface borrowed by `ctx`, updating
    /// `state`; the drawable itself is unaffected.
    fn render(&self, area: Rect, ctx: &mut Context, state: &mut Self::State)
        requires
            old(ctx).buffer.well_formed(),
        ensures
            final(ctx).buffer@ == self.spec_render_ref(area, old(ctx).buffer@, *old(state)).0,
            *final(state) == self.spec_render_ref(area, old(ctx).buffer@, *old(state)).1,
            *final(final(ctx).buffer) == *final(old(ctx).buffer),
    ;
}

/// The exclusive-borrow render capability, for drawables whose own fields are
/// updated as a side effect of rendering, such as an internally cached layout.
///
/// This is distinct from [`RenderWithState`], whose state is owned by the
/// application rather than by the drawable.
pub trait RenderMut: Sized {
    /// The drawable and the surface that rendering into `area` leaves behind.
    spec fn spec_render_mut(&self, area: Rect, buf: BufferModel) -> (Self, BufferModel);

    /// Rendering never changes the surface's rectangle or its cell count.
    proof fn spec_render_mut_preserves_shape(&self, area: Rect, buf: BufferModel)
        requires
            buf.well_formed(),
        ensures
            self.spec_render_mut(area, buf).1.area == buf.area,
            self.spec_render_mut(area, buf).1.well_formed(),
    ;

    /// Draws the drawable into the surface borrowed by `ctx`, possibly
    /// updating the drawable's own fields.
    fn render_mut(&mut self, area: Rect, ctx: &mut Context)
        requires
            old(ctx).buffer.well_formed(),
        ensures
            *final(self) == old(self).spec_render_mut(area, old(ctx).buffer@).0,
            final(ctx).buffer@ == old(self).spec_render_mut(area, old(ctx).buffer@).1,
            *final(final(ctx).buffer) == *final(old(ctx).buffer),
    ;
}

/// The bridge from the reference capability to the consuming one: any drawable
/// renderable by reference is renderable by value through its borrow.
impl<R: Render> Widget for &R {
    open spec fn spec_render(&self, area: Rect, buf: BufferModel) -> BufferModel {
        (**self).spec_render_ref(area, buf)
    }

    proof fn spec_render_preserves_shape(&self, area: Rect, buf: BufferModel) {
        (**self).spec_render_ref_preserves_shape(area, buf);
    }

    fn render(self, area: Rect, buf: &mut Buffer) {
        let mut ctx = Context::from_buffer(buf);
        Render::render(self, area, &mut ctx);
    }
}

/// The optional composition: a possibly absent drawable renders by delegating
/// to the contained drawable when present, and changes nothing when absent.
/// Parents use this to render an optional child slot without branching at the
/// call site.
impl<R: Render> Render for Option<R> {
    open spec fn spec_render_ref(&self, area: Rect, buf: BufferModel) -> BufferModel {
        match self {
            Some(widget) => widget.spec_render_ref(area, buf),
            None => buf,
        }
    }

    proof fn spec_render_ref_preserves_shape(&self, area: Rect, buf: BufferModel) {
        match self {
            Some(widget) => widget.spec_render_ref_preserves_shape(area, buf),
            None => (),
        }
    }

    fn render(&self, area: Rect, ctx: &mut Context) {
        if let Some(widget) = self {
            widget.render(area, ctx);
        }
    }
}

/// A borrowed string renders by reference: its characters are written at the
/// region's top-left corner in the default style, clipped by the surface.
impl Render for &str {
    open spec fn spec_render_ref(&self, area: Rect, buf: BufferModel) -> BufferModel {
        buf.with_text(area.x as int, area.y as int, self@, Style::spec_default())
    }

    proof fn spec_render_ref_preserves_shape(&self, area: Rect, buf: BufferModel) {
        lemma_with_text_from_shape(buf, area.x as int, area.y as int, self@, 0, Style::spec_default());
    }

    fn render(&self, area: Rect, ctx: &mut Context) {
        ctx.buffer.set_string(area.x, area.y, self, Style::default());
    }
}

/// A borrowed string also renders as a consuming drawable; consuming the
/// borrow writes the same cells as rendering it by reference.
impl Widget for &str {
    open spec fn spec_render(&self, area: Rect, buf: BufferModel) -> BufferModel {
        buf.with_text(area.x as int, area.y as int, self@, Style::spec_default())
    }

    proof fn spec_render_preserves_shape(&self, area: Rect, buf: BufferModel) {
        lemma_with_text_from_shape(buf, area.x as int, area.y as int, self@, 0, Style::spec_default());
    }

    fn render(self, area: Rect, buf: &mut Buffer) {
        let mut ctx = Context::from_buffer(buf);
        Render::render(&self, area, &mut ctx);
    }
}

/// An owned string renders by reference, exactly as the borrowed form does:
/// its characters are written at the region's top-left corner in the default
/// style, clipped by the surface.
impl Render for String {
    open spec fn spec_render_ref(&self, area: Rect, buf: BufferModel) -> BufferModel {
        buf.with_text(area.x as int, area.y as int, self@, Style::spec_default())
    }

    proof fn spec_render_ref_preserves_shape(&self, area: Rect, buf: BufferModel) {
        lemma_with_text_from_shape(buf, area.x as int, area.y as int, self@, 0, Style::spec_default());
    }

    fn render(&self, area: Rect, ctx: &mut Context) {
        ctx.buffer.set_string(area.x, area.y, self.as_str(), Style::default());
    }
}

/// An owned string consumed as a drawable writes the same cells as rendering
/// it by reference.
impl Widget for String {
    open spec fn spec_render(&self, area: Rect, buf: BufferModel) -> BufferModel {
        buf.with_text(area.x as int, area.y as int, self@, Style::spec_default())
    }

    proof fn spec_render_preserves_shape(&self, area: Rect, buf: BufferModel) {
        lemma_with_text_from_shape(buf, area.x as int, area.y as int, self@, 0, Style::spec_default());
    }

    fn render(self, area: Rect, buf: &mut Buffer) {
        let mut ctx = Context::from_buffer(buf);
        Render::render(&self, area, &mut ctx);
    }
}

/// Law: rendering a drawable by value through the bridge leaves the surface
/// exactly as rendering the same drawable by reference does.
pub proof fn lemma_bridge_renders_as_reference<R: Render>(widget: &R, area: Rect, buf: BufferModel)
    ensures
        widget.spec_render(area, buf) == widget.spec_render_ref(area, buf),
{
}

/// Law: rendering an absent optional drawable leaves the surface completely
/// unmodified.
pub proof fn lemma_absent_renders_nothing<R: Render>(area: Rect, buf: BufferModel)
    ensures
        (None::<R>).spec_render_ref(area, buf) == buf,
{
}

/// Law: rendering a present optional drawable leaves the surface exactly as
/// rendering the contained drawable directly does.
pub proof fn lemma_present_renders_as_inner<R: Render>(widget: R, area: Rect, buf: BufferModel)
    ensures
        (Some(widget)).spec_render_ref(area, buf) == widget.spec_render_ref(area, buf),
{
}

/// Law: a reference render is repeatable. Two render calls given the same
/// region and the same surface state leave the same surface behind; the
/// borrowed drawable cannot have changed between them.
pub proof fn lemma_reference_render_repeatable<R: Render>(
    widget: &R,
    area: Rect,
    first: BufferModel,
    second: BufferModel,
)
    requires
        first == second,
    ensures
        widget.spec_render_ref(area, first) == widget.spec_render_ref(area, second),
{
}

/// Law: an exclusive-borrow render is deterministic. From equal drawable
/// states and equal surface states, a second call produces equal drawable
/// states and equal surfaces, so its output is a function of what the first
/// call left behind.
pub proof fn lemma_mut_render_deterministic<W: RenderMut>(
    first: &W,
    second: &W,
    area: Rect,
    buf1: BufferModel,
    buf2: BufferModel,
)
    requires
        first == second,
        buf1 == buf2,
    ensures
        first.spec_render_mut(area, buf1) == second.spec_render_mut(area, buf2),
{
}

} // verus!

