//! The state of a draw sink: the batch of vertices and the uniform values.
//!
//! A rectangle is drawn as two triangles. Every rectangle is submitted on
//! its own, so the batch is empty between calls. The uniform values are
//! those that the next submission is drawn with. Coordinates and colours
//! are of any copyable type: the sink only arranges them.

use vstd::prelude::*;

verus! {

/// A corner of a triangle: its position and its texture coordinate.
#[derive(Debug, Clone, Copy)]
pub struct Vertex<T> {
    pub pos: [T; 2],
    pub uv: [T; 2],
}

/// The uniform values of the fill shader. The colour, the time and the
/// progress are unset until they are given.
#[derive(Debug, Clone, Copy)]
pub struct Uniforms<T, C> {
    pub viewport: [T; 2],
    pub color: Option<C>,
    pub time: Option<T>,
    pub effect_mode: i32,
    pub progress: Option<T>,
}

/// One submission: the vertices to draw as triangles, and the uniform
/// values to draw them with.
#[derive(Debug)]
pub struct DrawCall<T, C> {
    pub uniforms: Uniforms<T, C>,
    pub vertices: Vec<Vertex<T>>,
}

/// The six vertices of the rectangle from `(x, y)` to `(x2, y2)`: the
/// triangle top left, top right, bottom right, then the triangle top
/// left, bottom right, bottom left. The texture coordinates run from
/// `zero` at the top left corner to `one` at the bottom right corner.
pub open spec fn quad<T>(x: T, y: T, x2: T, y2: T, zero: T, one: T) -> Seq<Vertex<T>> {
    seq![
        Vertex { pos: [x, y], uv: [zero, zero] },
        Vertex { pos: [x2, y], uv: [one, zero] },
        Vertex { pos: [x2, y2], uv: [one, one] },
        Vertex { pos: [x, y], uv: [zero, zero] },
        Vertex { pos: [x2, y2], uv: [one, one] },
        Vertex { pos: [x, y2], uv: [zero, one] },
    ]
}

/// The state of a draw sink: the vertices that wait to be submitted, the
/// uniform values, and the two ends of the texture coordinates.
#[derive(Debug)]
pub struct DrawContext<T, C> {
    vertices: Vec<Vertex<T>>,
    uniforms: Uniforms<T, C>,
    zero: T,
    one: T,
}

impl<T: Copy, C: Copy> DrawContext<T, C> {
    /// The vertices that wait to be submitted.
    pub closed spec fn pending(&self) -> Seq<Vertex<T>> {
        self.vertices@
    }

    /// The uniform values that the next submission is drawn with.
    pub closed spec fn spec_uniforms(&self) -> Uniforms<T, C> {
        self.uniforms
    }

    /// The two ends of the texture coordinates.
    pub closed spec fn unit(&self) -> (T, T) {
        (self.zero, self.one)
    }

    /// A sink with an empty batch, for a viewport, with the ends of the
    /// texture coordinates. The effect mode is 0; colour, time and
    /// progress are unset.
    pub fn new(viewport: [T; 2], zero: T, one: T) -> (draw: Self)
        ensures
            draw.pending() == Seq::<Vertex<T>>::empty(),
            draw.spec_uniforms() == (Uniforms::<T, C> {
                viewport,
                color: None,
                time: None,
                effect_mode: 0,
                progress: None,
            }),
            draw.unit() == (zero, one),
    {
        DrawContext {
            vertices: Vec::with_capacity(1024),
            uniforms: Uniforms { viewport, color: None, time: None, effect_mode: 0, progress: None },
            zero,
            one,
        }
    }

    /// The uniform values that the next submission is drawn with.
    #[verifier::when_used_as_spec(spec_uniforms)]
    pub fn uniforms(&self) -> (uniforms: Uniforms<T, C>)
        ensures
            uniforms == self.spec_uniforms(),
    {
        self.uniforms
    }

    /// Begins a frame: the viewport is set and what waited is dropped. The
    /// other uniform values stay.
    pub fn begin(&mut self, viewport_px: [T; 2])
        ensures
            final(self).pending() == Seq::<Vertex<T>>::empty(),
            final(self).spec_uniforms() == (Uniforms {
                viewport: viewport_px,
                ..old(self).spec_uniforms()
            }),
            final(self).unit() == old(self).unit(),
    {
        self.uniforms.viewport = viewport_px;
        self.vertices.clear();
    }

    /// Fills the rectangle from `(x, y)` to `(x2, y2)` with a colour.
    ///
    /// The colour becomes the fill colour. Returns the submission to make
    /// at once: what waited, then the two triangles of the rectangle, with
    /// the uniform values as they now are. Nothing waits afterwards.
    pub fn rect(&mut self, x: T, y: T, x2: T, y2: T, color: C) -> (call: DrawCall<T, C>)
        ensures
            call.vertices@ == old(self).pending() + quad(
                x,
                y,
                x2,
                y2,
                old(self).unit().0,
                old(self).unit().1,
            ),
            call.uniforms == final(self).spec_uniforms(),
            final(self).spec_uniforms() == (Uniforms {
                color: Some(color),
                ..old(self).spec_uniforms()
            }),
            final(self).pending() == Seq::<Vertex<T>>::empty(),
            final(self).unit() == old(self).unit(),
    {
        let zero: T = self.zero;
        let one: T = self.one;
        self.vertices.push(Vertex { pos: [x, y], uv: [zero, zero] });
        self.vertices.push(Vertex { pos: [x2, y], uv: [one, zero] });
        self.vertices.push(Vertex { pos: [x2, y2], uv: [one, one] });
        self.vertices.push(Vertex { pos: [x, y], uv: [zero, zero] });
        self.vertices.push(Vertex { pos: [x2, y2], uv: [one, one] });
        self.vertices.push(Vertex { pos: [x, y2], uv: [zero, one] });
        assert(self.vertices@ =~= old(self).pending() + quad(x, y, x2, y2, zero, one));
        self.uniforms.color = Some(color);
        let mut vertices: Vec<Vertex<T>> = Vec::new();
        std::mem::swap(&mut vertices, &mut self.vertices);
        DrawCall { uniforms: self.uniforms, vertices }
    }

    /// Fills a rectangle with rounded corners as a plain rectangle.
    pub fn round_rect(&mut self, x: T, y: T, x2: T, y2: T, _radius: T, color: C) -> (call:
        DrawCall<T, C>)
        ensures
            call.vertices@ == old(self).pending() + quad(
                x,
                y,
                x2,
                y2,
                old(self).unit().0,
                old(self).unit().1,
            ),
            call.uniforms == final(self).spec_uniforms(),
            final(self).spec_uniforms() == (Uniforms {
                color: Some(color),
                ..old(self).spec_uniforms()
            }),
            final(self).pending() == Seq::<Vertex<T>>::empty(),
            final(self).unit() == old(self).unit(),
    {
        self.rect(x, y, x2, y2, color)
    }

    /// Sets the time that the next submission is drawn with.
    pub fn set_time(&mut self, time: T)
        ensures
            final(self).spec_uniforms() == (Uniforms {
                time: Some(time),
                ..old(self).spec_uniforms()
            }),
            final(self).pending() == old(self).pending(),
            final(self).unit() == old(self).unit(),
    {
        self.uniforms.time = Some(time);
    }

    /// Sets the effect mode that the next submission is drawn with.
    pub fn set_effect_mode(&mut self, mode: i32)
        ensures
            final(self).spec_uniforms() == (Uniforms {
                effect_mode: mode,
                ..old(self).spec_uniforms()
            }),
            final(self).pending() == old(self).pending(),
            final(self).unit() == old(self).unit(),
    {
        self.uniforms.effect_mode = mode;
    }

    /// Sets the progress that the next submission is drawn with.
    pub fn set_progress(&mut self, progress: T)
        ensures
            final(self).spec_uniforms() == (Uniforms {
                progress: Some(progress),
                ..old(self).spec_uniforms()
            }),
            final(self).pending() == old(self).pending(),
            final(self).unit() == old(self).unit(),
    {
        self.uniforms.progress = Some(progress);
    }

    /// Hands out what waits, if anything does, as a submission to make.
    /// Nothing waits afterwards. With an empty batch nothing happens.
    pub fn flush(&mut self) -> (call: Option<DrawCall<T, C>>)
        ensures
            old(self).pending().len() == 0 ==> call.is_none(),
            old(self).pending().len() > 0 ==> {
                &&& call.is_some()
                &&& call.unwrap().vertices@ == old(self).pending()
                &&& call.unwrap().uniforms == old(self).spec_uniforms()
            },
            final(self).pending() == Seq::<Vertex<T>>::empty(),
            final(self).spec_uniforms() == old(self).spec_uniforms(),
            final(self).unit() == old(self).unit(),
    {
        if self.vertices.len() == 0 {
            return None;
        }
        let mut vertices: Vec<Vertex<T>> = Vec::new();
        std::mem::swap(&mut vertices, &mut self.vertices);
        Some(DrawCall { uniforms: self.uniforms, vertices })
    }
}

} // verus!
