//! A single line of text, centered in its rectangle.

use vstd::prelude::*;
use crate::registry::StateProto;
use crate::paint::emit;
use crate::paint::DrawCommand;
use crate::component::Event;
use crate::span::Payload;
use crate::span::SpanTrait;
use crate::units::sat_add;
use crate::span::SpanKind;
use crate::span::SpanView;
use crate::units::portion;
use crate::units::sat_sub;
use crate::units::FULL;

verus! {

/// The smallest font size, in pixels, that a text span draws with.
pub const FONT_MIN: u32 = 10;

/// The largest font size, in pixels, that a text span draws with.
pub const FONT_MAX: u32 = 20;

/// The widest a text is asked to be, in pixels, when its font is fitted.
pub const FIT_LIMIT: i64 = 100;

/// `size` brought into the range of font sizes.
pub open spec fn spec_font_size(size: u32) -> u32 {
    if size > FONT_MAX {
        FONT_MAX
    } else if size < FONT_MIN {
        FONT_MIN
    } else {
        size
    }
}

/// The width that the text of a span `w` pixels wide is fitted to: four fifths
/// of the span, and at most [`FIT_LIMIT`].
pub open spec fn spec_fit_width(w: int) -> int {
    let part = crate::units::clip(crate::units::spec_portion(800, w));
    if part > FIT_LIMIT as int { FIT_LIMIT as int } else { part }
}

/// `size` brought into the range of font sizes.
pub fn clamp_font(size: u32) -> (font: u32)
    ensures
        font == spec_font_size(size),
{
    if size > FONT_MAX {
        FONT_MAX
    } else if size < FONT_MIN {
        FONT_MIN
    } else {
        size
    }
}

pub struct TextSpan {
    name: String,
    id: u64,
    text: String,
    x: i64,
    y: i64,
    w: i64,
    h: i64,
    width: u32,
    height: u32,
    font_cache: Option<u32>,
}

impl View for TextSpan {
    type V = SpanView;

    closed spec fn view(&self) -> SpanView {
        SpanView {
            kind: SpanKind::Text,
            name: self.name@,
            id: self.id,
            text: self.text@,
            x: self.x as int,
            y: self.y as int,
            w: self.w as int,
            h: self.h as int,
            width: self.width,
            height: self.height,
            font: self.font_cache,
        }
    }
}

impl TextSpan {
    /// A text span that is not laid out yet. It gets the next identifier of
    /// `state`; fractions above the whole count as the whole.
    pub fn new(state: &mut StateProto, name: &str, text: &str, width: u32, height: u32) -> (span: TextSpan)
        requires
            old(state).can_issue(),
        ensures
            final(state).issued_from(old(state)),
            span@ == (SpanView {
                kind: SpanKind::Text,
                name: name@,
                id: old(state).next_id(),
                text: text@,
                x: 0,
                y: 0,
                w: 0,
                h: 0,
                width: if width > FULL { FULL } else { width },
                height: if height > FULL { FULL } else { height },
                font: None,
            }),
    {
        let id = state.issue();
        TextSpan {
            name: name.to_owned(),
            id,
            text: text.to_owned(),
            x: 0,
            y: 0,
            w: 0,
            h: 0,
            width: if width > FULL { FULL } else { width },
            height: if height > FULL { FULL } else { height },
            font_cache: None,
        }
    }

    pub fn get_id(&self) -> (id: u64)
        ensures
            id == self@.id,
    {
        self.id
    }

    /// The span's rectangle `(x, y, w, h)`.
    pub fn rect(&self) -> (r: (i64, i64, i64, i64))
        ensures
            r.0 == self@.x,
            r.1 == self@.y,
            r.2 == self@.w,
            r.3 == self@.h,
    {
        (self.x, self.y, self.w, self.h)
    }

    /// The text.
    pub fn get_text(&self) -> (text: &str)
        ensures
            text@ == self@.text,
    {
        self.text.as_str()
    }

    /// The cached font size in pixels, if there is one.
    pub fn font_size(&self) -> (font: Option<u32>)
        ensures
            font == self@.font,
    {
        self.font_cache
    }

    /// Replaces the text. The cached font stays as it is.
    pub fn set_text(&mut self, text: &str)
        ensures
            final(self)@ == (SpanView { text: text@, ..old(self)@ }),
    {
        self.text = text.to_owned();
    }

    /// The width in pixels that the text is fitted to while no font is cached.
    pub fn fit_width(&self) -> (target: i64)
        ensures
            target as int == spec_fit_width(self@.w),
    {
        let part: i64 = portion(800, self.w);
        if part > FIT_LIMIT { FIT_LIMIT } else { part }
    }

    /// Caches the font size for a best fit of `best` pixels, unless a size is
    /// cached already. The cached size lies between [`FONT_MIN`] and
    /// [`FONT_MAX`].
    pub fn fit_font(&mut self, best: u32) -> (size: u32)
        ensures
            old(self)@.font is Some ==> final(self)@ == old(self)@ && size == old(self)@.font->0,
            old(self)@.font is None ==> size == spec_font_size(best) && final(self)@ == (SpanView {
                font: Some(size),
                ..old(self)@
            }),
    {
        match self.font_cache {
            Some(size) => size,
            None => {
                let size: u32 = clamp_font(best);
                self.font_cache = Some(size);
                size
            },
        }
    }
}

impl SpanTrait for TextSpan {
    open spec fn model(&self) -> SpanView {
        self@
    }

    fn get_name(&self) -> (name: &str) {
        self.name.as_str()
    }

    fn dispatch_event(&self, ev: &mut Event) {
    }

    fn dispatch(&mut self, data: &Payload) {
        match data {
            Payload::Text(s) => {
                self.text = s.clone();
                self.font_cache = None;
            },
            Payload::Fit(best) => {
                self.fit_font(*best);
            },
            Payload::Viewport(_, _, _, _) => {},
        }
    }

    fn tick(&mut self, due: &mut Vec<u64>) {
        assert(due@ =~= old(due)@ + old(self)@.due());
    }

    fn draw(&self, out: &mut Vec<DrawCommand>) {
        self.render_tick(out);
    }

    /// The text, centered in the span.
    fn render_tick(&self, out: &mut Vec<DrawCommand>) {
        let step = DrawCommand::Text {
            id: self.id,
            text: self.text.clone(),
            font: self.font_cache,
            fit: self.fit_width(),
            x: sat_add(self.x, portion(500, self.w)),
            y: sat_add(self.y, portion(500, self.h)),
        };
        emit(out, step);
        assert(crate::paint::steps(out@) =~= crate::paint::steps(old(out)@) + self@.paint());
    }

    fn on_resize(&mut self, left: i64, top: i64, right: i64, bottom: i64) -> (reply: (i64, i64, bool)) {
        self.x = left;
        self.y = top;
        self.w = portion(self.width, sat_sub(right, left));
        self.h = portion(self.height, sat_sub(bottom, top));
        self.font_cache = None;
        (0, 0, true)
    }

    fn get_order(&self) -> (order: u8) {
        0
    }
}

} // verus!
