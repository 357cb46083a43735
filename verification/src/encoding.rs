//! Vector-path encoding buffer: style tags, a path tag stream and a coordinate
//! stream, together with the cursor that writes one path into it.
//!
//! Coordinates and widths are held as IEEE-754 single-precision bit patterns,
//! which is the form in which the coordinate stream stores them.

use vstd::prelude::*;

verus! {

/// Winding rule of a filled shape.
#[derive(Clone, Copy, Debug, PartialEq, Eq, Structural)]
pub enum Fill {
    NonZero,
    EvenOdd,
}

/// Stroke parameters; `width` is a single-precision bit pattern.
#[derive(Clone, Copy, Debug, PartialEq, Eq, Structural)]
pub struct Stroke {
    pub width: u32,
}

/// How a shape is drawn.
#[derive(Clone, Copy, Debug, PartialEq, Eq, Structural)]
pub enum Style {
    Fill(Fill),
    Stroke(Stroke),
}

/// A style as recorded in an encoding.
#[derive(Clone, Copy, Debug, PartialEq, Eq, Structural)]
pub enum StyleTag {
    Fill(Fill),
    Stroke(u32),
}

/// One element of the path tag stream.
#[derive(Clone, Copy, Debug, PartialEq, Eq, Structural)]
pub enum PathTag {
    /// A style was recorded at this position.
    Style,
    /// A line segment to the next point of the coordinate stream.
    LineTo,
    /// A line segment that ends its subpath.
    LineToEnd,
    /// End of a path.
    Path,
}

/// Number of elements written to each stream of an encoding.
#[derive(Clone, Copy, Debug, PartialEq, Eq, Structural)]
pub struct StreamOffsets {
    pub path_tags: usize,
    pub path_data: usize,
    pub styles: usize,
}

/// Mathematical content of an [`Encoding`].
pub struct EncodingView {
    pub path_tags: Seq<PathTag>,
    pub path_data: Seq<u32>,
    pub styles: Seq<StyleTag>,
    pub n_paths: nat,
    pub n_path_segments: nat,
}

/// Mutable vector-path buffer.
#[derive(Debug)]
pub struct Encoding {
    pub path_tags: Vec<PathTag>,
    pub path_data: Vec<u32>,
    pub styles: Vec<StyleTag>,
    pub n_paths: usize,
    pub n_path_segments: usize,
}

/// Where a path cursor stands within its current subpath.
#[derive(Clone, Copy, Debug, PartialEq, Eq, Structural)]
pub enum PathState {
    /// No subpath is open.
    Start,
    /// A start point is pending as the last two words of the coordinate stream.
    MoveTo,
    /// The open subpath holds at least one segment.
    NonemptySubpath,
}

/// Cursor that writes one path into an [`Encoding`].
#[derive(Clone, Copy, Debug)]
pub struct PathEncoder {
    pub state: PathState,
    pub is_fill: bool,
    pub n_encoded_segments: usize,
}

/// A bit pattern that denotes positive or negative zero.
pub open spec fn is_zero_bits(bits: u32) -> bool {
    bits == 0 || bits == 0x8000_0000
}

/// Two bit patterns that denote the same coordinate: identical, or both zero.
pub open spec fn same_coord(a: u32, b: u32) -> bool {
    a == b || (is_zero_bits(a) && is_zero_bits(b))
}

pub fn zero_bits(bits: u32) -> (z: bool)
    ensures
        z == is_zero_bits(bits),
{
    bits == 0 || bits == 0x8000_0000
}

pub fn coords_match(a: u32, b: u32) -> (m: bool)
    ensures
        m == same_coord(a, b),
{
    a == b || (zero_bits(a) && zero_bits(b))
}

impl EncodingView {
    /// The encoding that holds nothing.
    pub open spec fn empty() -> EncodingView {
        EncodingView {
            path_tags: Seq::empty(),
            path_data: Seq::empty(),
            styles: Seq::empty(),
            n_paths: 0,
            n_path_segments: 0,
        }
    }

    /// This encoding with one more style recorded.
    pub open spec fn with_style(self, tag: StyleTag) -> EncodingView {
        EncodingView {
            path_tags: self.path_tags.push(PathTag::Style),
            styles: self.styles.push(tag),
            ..self
        }
    }

    /// This encoding with a point appended to the coordinate stream.
    pub open spec fn with_point(self, x: u32, y: u32) -> EncodingView {
        EncodingView { path_data: self.path_data.push(x).push(y), ..self }
    }

    /// This encoding without the last point of the coordinate stream.
    pub open spec fn without_point(self) -> EncodingView {
        EncodingView { path_data: self.path_data.drop_last().drop_last(), ..self }
    }

    /// This encoding with a line segment to `(x, y)`.
    pub open spec fn with_line(self, x: u32, y: u32) -> EncodingView {
        EncodingView {
            path_tags: self.path_tags.push(PathTag::LineTo),
            path_data: self.path_data.push(x).push(y),
            n_path_segments: self.n_path_segments + 1,
            ..self
        }
    }

    /// This encoding with its last tag turned into the end of a subpath.
    pub open spec fn with_subpath_end(self) -> EncodingView {
        EncodingView { path_tags: self.path_tags.drop_last().push(PathTag::LineToEnd), ..self }
    }

    /// This encoding with a path marker.
    pub open spec fn with_path_marker(self) -> EncodingView {
        EncodingView {
            path_tags: self.path_tags.push(PathTag::Path),
            n_paths: self.n_paths + 1,
            ..self
        }
    }

    /// The tag stream accounts for every recorded item: one tag for each
    /// style, each segment and each path.
    pub open spec fn wf(self) -> bool {
        self.path_tags.len() == self.styles.len() + self.n_paths + self.n_path_segments
    }

    /// The stream lengths of this encoding.
    pub open spec fn offsets(self) -> (nat, nat, nat) {
        (self.path_tags.len(), self.path_data.len(), self.styles.len())
    }
}

impl StreamOffsets {
    /// The three counts as numbers.
    pub open spec fn view(&self) -> (nat, nat, nat) {
        (self.path_tags as nat, self.path_data as nat, self.styles as nat)
    }
}

impl View for Encoding {
    type V = EncodingView;

    open spec fn view(&self) -> EncodingView {
        EncodingView {
            path_tags: self.path_tags@,
            path_data: self.path_data@,
            styles: self.styles@,
            n_paths: self.n_paths as nat,
            n_path_segments: self.n_path_segments as nat,
        }
    }
}

/// The style tag that an emission records for `style`: a stroke of zero width
/// cannot be recorded and degrades to a non-zero fill.
pub open spec fn recorded_style(style: Style) -> StyleTag {
    match style {
        Style::Fill(fill) => StyleTag::Fill(fill),
        Style::Stroke(stroke) => if is_zero_bits(stroke.width) {
            StyleTag::Fill(Fill::NonZero)
        } else {
            StyleTag::Stroke(stroke.width)
        },
    }
}

/// What emitting the box outline `(0,0)`-`(width,height)` under `style` leaves
/// in a cleared encoding.
///
/// A segment that would start a subpath without leaving its start point is not
/// recorded, so a box of zero width has two segments, and a box of zero width
/// and height has none and leaves the encoding empty.
pub open spec fn box_outline(style: Style, width: u32, height: u32) -> EncodingView {
    if !is_zero_bits(width) {
        EncodingView {
            path_tags: seq![
                PathTag::Style,
                PathTag::LineTo,
                PathTag::LineTo,
                PathTag::LineToEnd,
                PathTag::Path,
            ],
            path_data: seq![0u32, 0u32, width, 0u32, width, height, 0u32, height],
            styles: seq![recorded_style(style)],
            n_paths: 1,
            n_path_segments: 3,
        }
    } else if !is_zero_bits(height) {
        EncodingView {
            path_tags: seq![PathTag::Style, PathTag::LineTo, PathTag::LineToEnd, PathTag::Path],
            path_data: seq![0u32, 0u32, width, height, 0u32, height],
            styles: seq![recorded_style(style)],
            n_paths: 1,
            n_path_segments: 2,
        }
    } else {
        EncodingView::empty()
    }
}

impl Encoding {
    /// The tag stream accounts for every recorded item.
    pub open spec fn wf(&self) -> bool {
        self@.wf()
    }

    pub fn new() -> (e: Encoding)
        ensures
            e@ == EncodingView::empty(),
            e.wf(),
    {
        Encoding {
            path_tags: Vec::new(),
            path_data: Vec::new(),
            styles: Vec::new(),
            n_paths: 0,
            n_path_segments: 0,
        }
    }

    /// Clears every stream.
    pub fn reset(&mut self)
        ensures
            final(self)@ == EncodingView::empty(),
            final(self).wf(),
    {
        self.path_tags.clear();
        self.path_data.clear();
        self.styles.clear();
        self.n_paths = 0;
        self.n_path_segments = 0;
    }

    pub fn is_empty(&self) -> (e: bool)
        ensures
            e == (self@.path_tags.len() == 0),
    {
        self.path_tags.len() == 0
    }

    /// A second buffer with the same content.
    pub fn duplicate(&self) -> (copy: Encoding)
        ensures
            copy@ == self@,
            self.wf() ==> copy.wf(),
    {
        let mut copy = Encoding::new();
        let mut i: usize = 0;
        while i < self.path_tags.len()
            invariant
                i <= self.path_tags@.len(),
                copy.path_tags@ == self.path_tags@.take(i as int),
                copy.path_data@.len() == 0,
                copy.styles@.len() == 0,
            decreases self.path_tags@.len() - i,
        {
            copy.path_tags.push(self.path_tags[i]);
            i = i + 1;
        }
        i = 0;
        while i < self.path_data.len()
            invariant
                i <= self.path_data@.len(),
                copy.path_tags@ == self.path_tags@.take(self.path_tags@.len() as int),
                copy.path_data@ == self.path_data@.take(i as int),
                copy.styles@.len() == 0,
            decreases self.path_data@.len() - i,
        {
            copy.path_data.push(self.path_data[i]);
            i = i + 1;
        }
        i = 0;
        while i < self.styles.len()
            invariant
                i <= self.styles@.len(),
                copy.path_tags@ == self.path_tags@.take(self.path_tags@.len() as int),
                copy.path_data@ == self.path_data@.take(self.path_data@.len() as int),
                copy.styles@ == self.styles@.take(i as int),
            decreases self.styles@.len() - i,
        {
            copy.styles.push(self.styles[i]);
            i = i + 1;
        }
        copy.n_paths = self.n_paths;
        copy.n_path_segments = self.n_path_segments;
        assert(copy.path_tags@ =~= self.path_tags@);
        assert(copy.path_data@ =~= self.path_data@);
        assert(copy.styles@ =~= self.styles@);
        copy
    }

    /// Records a fill style.
    pub fn encode_fill_style(&mut self, fill: Fill)
        ensures
            final(self)@ == old(self)@.with_style(StyleTag::Fill(fill)),
            old(self).wf() ==> final(self).wf(),
    {
        self.path_tags.push(PathTag::Style);
        self.styles.push(StyleTag::Fill(fill));
    }

    /// Records a stroke style, unless its width is zero: such a stroke cannot
    /// be recorded, and the encoding is left as it was.
    pub fn encode_stroke_style(&mut self, stroke: &Stroke) -> (recorded: bool)
        ensures
            recorded == !is_zero_bits(stroke.width),
            recorded ==> final(self)@ == old(self)@.with_style(StyleTag::Stroke(stroke.width)),
            !recorded ==> final(self)@ == old(self)@,
            old(self).wf() ==> final(self).wf(),
    {
        if zero_bits(stroke.width) {
            return false;
        }
        self.path_tags.push(PathTag::Style);
        self.styles.push(StyleTag::Stroke(stroke.width));
        true
    }

    /// The number of elements in each stream.
    pub fn stream_offsets(&self) -> (offsets: StreamOffsets)
        ensures
            offsets@ == self@.offsets(),
    {
        StreamOffsets {
            path_tags: self.path_tags.len(),
            path_data: self.path_data.len(),
            styles: self.styles.len(),
        }
    }

    /// Opens a cursor for one path.
    pub fn encode_path(&self, is_fill: bool) -> (cursor: PathEncoder)
        requires
            self.wf(),
        ensures
            cursor.state == PathState::Start,
            cursor.is_fill == is_fill,
            cursor.n_encoded_segments == 0,
            cursor.wf(self),
    {
        PathEncoder { state: PathState::Start, is_fill, n_encoded_segments: 0 }
    }

    /// Clears this encoding and writes the outline of the box from the origin
    /// to `(width, height)` under `style`; returns the stream lengths.
    pub fn emit_box(&mut self, style: &Style, width: u32, height: u32) -> (offsets: StreamOffsets)
        ensures
            final(self)@ == box_outline(*style, width, height),
            offsets@ == final(self)@.offsets(),
            final(self).wf(),
    {
        self.reset();
        let is_fill = match style {
            Style::Fill(fill) => {
                self.encode_fill_style(*fill);
                true
            },
            Style::Stroke(stroke) => {
                if self.encode_stroke_style(stroke) {
                    false
                } else {
                    self.encode_fill_style(Fill::NonZero);
                    true
                }
            },
        };
        let mut path = self.encode_path(is_fill);
        path.move_to(self, 0, 0);
        path.line_to(self, width, 0);
        path.line_to(self, width, height);
        path.line_to(self, 0, height);
        path.close(self);
        let path_segments = path.finish(self, true);
        if path_segments == 0 {
            self.reset();
        }
        proof {
            assert(self@.path_tags =~= box_outline(*style, width, height).path_tags);
            assert(self@.path_data =~= box_outline(*style, width, height).path_data);
            assert(self@.styles =~= box_outline(*style, width, height).styles);
        }
        self.stream_offsets()
    }
}

impl PathEncoder {
    /// The cursor's state agrees with the encoding it writes to.
    pub open spec fn wf(&self, enc: &Encoding) -> bool {
        &&& enc.wf()
        &&& self.n_encoded_segments <= enc.n_path_segments
        &&& self.state == PathState::MoveTo ==> enc.path_data@.len() >= 2
        &&& self.state == PathState::NonemptySubpath ==> {
            &&& self.n_encoded_segments > 0
            &&& enc.path_tags@.len() > 0
            &&& enc.path_tags@.last() == PathTag::LineTo
        }
    }

    /// Starts a subpath at `(x, y)`. A pending start point is replaced; an open
    /// subpath is ended.
    pub fn move_to(&mut self, enc: &mut Encoding, x: u32, y: u32)
        requires
            old(self).wf(old(enc)),
        ensures
            final(self).wf(final(enc)),
            final(self).state == PathState::MoveTo,
            final(self).is_fill == old(self).is_fill,
            final(self).n_encoded_segments == old(self).n_encoded_segments,
            final(enc)@ == (match old(self).state {
                PathState::Start => old(enc)@.with_point(x, y),
                PathState::MoveTo => old(enc)@.without_point().with_point(x, y),
                PathState::NonemptySubpath => old(enc)@.with_subpath_end().with_point(x, y),
            }),
    {
        match self.state {
            PathState::Start => {},
            PathState::MoveTo => {
                let _ = enc.path_data.pop();
                let _ = enc.path_data.pop();
            },
            PathState::NonemptySubpath => {
                let _ = enc.path_tags.pop();
                enc.path_tags.push(PathTag::LineToEnd);
            },
        }
        enc.path_data.push(x);
        enc.path_data.push(y);
        self.state = PathState::MoveTo;
    }

    /// The segment to `(x, y)` is dropped: it would start a subpath without
    /// leaving the pending start point.
    pub open spec fn drops_line(&self, enc: &Encoding, x: u32, y: u32) -> bool {
        &&& self.state == PathState::MoveTo
        &&& same_coord(enc.path_data@[enc.path_data@.len() - 2], x)
        &&& same_coord(enc.path_data@[enc.path_data@.len() - 1], y)
    }

    /// Adds a line segment to `(x, y)`. With no subpath open this starts one
    /// at `(x, y)`.
    pub fn line_to(&mut self, enc: &mut Encoding, x: u32, y: u32)
        requires
            old(self).wf(old(enc)),
        ensures
            final(self).wf(final(enc)),
            final(self).is_fill == old(self).is_fill,
            old(self).state == PathState::Start ==> {
                &&& final(enc)@ == old(enc)@.with_point(x, y)
                &&& final(self).state == PathState::MoveTo
                &&& final(self).n_encoded_segments == old(self).n_encoded_segments
            },
            old(self).drops_line(old(enc), x, y) ==> {
                &&& final(enc)@ == old(enc)@
                &&& *final(self) == *old(self)
            },
            old(self).state != PathState::Start && !old(self).drops_line(old(enc), x, y) ==> {
                &&& final(enc)@ == old(enc)@.with_line(x, y)
                &&& final(self).state == PathState::NonemptySubpath
                &&& final(self).n_encoded_segments == old(self).n_encoded_segments + 1
            },
    {
        match self.state {
            PathState::Start => {
                self.move_to(enc, x, y);
                return;
            },
            PathState::MoveTo => {
                let n = enc.path_data.len();
                if coords_match(enc.path_data[n - 2], x) && coords_match(enc.path_data[n - 1], y) {
                    return;
                }
            },
            PathState::NonemptySubpath => {},
        }
        enc.path_data.push(x);
        enc.path_data.push(y);
        enc.path_tags.push(PathTag::LineTo);
        let tags: usize = enc.path_tags.len();
        assert(enc.n_path_segments < tags);
        enc.n_path_segments = enc.n_path_segments + 1;
        self.n_encoded_segments = self.n_encoded_segments + 1;
        self.state = PathState::NonemptySubpath;
    }

    /// Ends the open subpath. A pending start point with no segment is taken
    /// back.
    pub fn close(&mut self, enc: &mut Encoding)
        requires
            old(self).wf(old(enc)),
        ensures
            final(self).wf(final(enc)),
            final(self).state == PathState::Start,
            final(self).is_fill == old(self).is_fill,
            final(self).n_encoded_segments == old(self).n_encoded_segments,
            final(enc)@ == (match old(self).state {
                PathState::Start => old(enc)@,
                PathState::MoveTo => old(enc)@.without_point(),
                PathState::NonemptySubpath => old(enc)@.with_subpath_end(),
            }),
    {
        match self.state {
            PathState::Start => {},
            PathState::MoveTo => {
                let _ = enc.path_data.pop();
                let _ = enc.path_data.pop();
            },
            PathState::NonemptySubpath => {
                let _ = enc.path_tags.pop();
                enc.path_tags.push(PathTag::LineToEnd);
            },
        }
        self.state = PathState::Start;
    }

    /// Ends the path and returns the number of segments written through this
    /// cursor. The open subpath is ended as by `close`; where at least one
    /// segment was written and `insert_path_marker` is set, a path marker
    /// follows.
    pub fn finish(self, enc: &mut Encoding, insert_path_marker: bool) -> (segments: usize)
        requires
            self.wf(old(enc)),
        ensures
            segments == self.n_encoded_segments,
            final(enc).wf(),
            final(enc)@ == ({
                let closed = match self.state {
                    PathState::Start => old(enc)@,
                    PathState::MoveTo => old(enc)@.without_point(),
                    PathState::NonemptySubpath => old(enc)@.with_subpath_end(),
                };
                if segments != 0 && insert_path_marker {
                    closed.with_path_marker()
                } else {
                    closed
                }
            }),
    {
        let mut cursor = self;
        cursor.close(enc);
        if cursor.n_encoded_segments != 0 && insert_path_marker {
            enc.path_tags.push(PathTag::Path);
            let tags: usize = enc.path_tags.len();
            assert(enc.n_paths < tags);
            enc.n_paths = enc.n_paths + 1;
        }
        cursor.n_encoded_segments
    }
}

} // verus!
