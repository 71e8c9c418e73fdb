//! The host clock and the search for a font size that fits.

use vstd::prelude::*;

verus! {

/// The first font size that is tried, in pixels.
pub const FIT_START: u32 = 5;

/// The step between two font sizes that are tried, in pixels.
pub const FIT_STEP: u32 = 2;

/// How many font sizes are tried at most.
pub const FIT_TRIES: u32 = 1000;

/// Whether `c` is white space.
pub open spec fn spec_is_space(c: char) -> bool {
    let code = c as u32;
    ||| 0x09 <= code <= 0x0d
    ||| code == 0x20
    ||| code == 0x85
    ||| code == 0xa0
    ||| code == 0x1680
    ||| 0x2000 <= code <= 0x200a
    ||| code == 0x2028
    ||| code == 0x2029
    ||| code == 0x202f
    ||| code == 0x205f
    ||| code == 0x3000
}

/// Whether a text is empty once white space is trimmed from it.
pub open spec fn spec_is_blank(text: Seq<char>) -> bool {
    forall|i: int| 0 <= i < text.len() ==> spec_is_space(#[trigger] text[i])
}

/// Whether `c` is white space.
pub fn is_space(c: char) -> (space: bool)
    ensures
        space == spec_is_space(c),
{
    let code: u32 = c as u32;
    (0x09 <= code && code <= 0x0d) || code == 0x20 || code == 0x85 || code == 0xa0 || code == 0x1680 || (0x2000
        <= code && code <= 0x200a) || code == 0x2028 || code == 0x2029 || code == 0x202f || code == 0x205f
        || code == 0x3000
}

/// Whether a text is empty once white space is trimmed from it.
pub fn is_blank(text: &str) -> (blank: bool)
    ensures
        blank == spec_is_blank(text@),
{
    let n = text.unicode_len();
    let mut i: usize = 0;
    while i < n
        invariant
            i <= n,
            n == text@.len(),
            forall|j: int| 0 <= j < i ==> spec_is_space(#[trigger] text@[j]),
        decreases n - i,
    {
        if !is_space(text.get_char(i)) {
            return false;
        }
        i += 1;
    }
    true
}

/// The font size that is tried at step `k`.
pub open spec fn spec_try(k: nat) -> int {
    FIT_START + FIT_STEP * k
}

/// Whether `measure` may answer a width below `size` at `px` pixels.
pub open spec fn falls_short<F: Fn(u32) -> i64>(measure: F, px: u32, size: i64) -> bool {
    exists|w: i64| measure.ensures((px,), w) && w < size
}

/// Whether `measure` may answer a width of at least `size` at `px` pixels.
pub open spec fn reaches<F: Fn(u32) -> i64>(measure: F, px: u32, size: i64) -> bool {
    exists|w: i64| measure.ensures((px,), w) && w >= size
}

/// Whether `px` is where the search over `measure` ends: it is the size tried
/// at some step `k`, every earlier size fell short of `size`, and either the
/// size at step `k` reached `size` or the steps ran out.
pub open spec fn spec_fitted<F: Fn(u32) -> i64>(measure: F, size: i64, px: u32) -> bool {
    exists|k: nat|
        k <= FIT_TRIES && px as int == #[trigger] spec_try(k) && (forall|j: nat|
            j < k ==> falls_short(measure, #[trigger] spec_try(j) as u32, size)) && (k < FIT_TRIES ==> reaches(
            measure,
            px,
            size,
        ))
}

/// The smallest font size, in steps of [`FIT_STEP`] from [`FIT_START`], at
/// which `measure` answers a width of at least `size` for the text. `measure`
/// is given a font size in pixels and answers the width of the text in that
/// size. A blank text is not measured: its size is [`FIT_START`].
pub fn get_font_with_limit<F: Fn(u32) -> i64>(measure: F, text: &str, size: i64) -> (px: u32)
    requires
        forall|p: u32| measure.requires((p,)),
    ensures
        spec_is_blank(text@) ==> px == FIT_START,
        !spec_is_blank(text@) ==> spec_fitted(measure, size, px),
{
    let mut px: u32 = FIT_START;
    if is_blank(text) {
        return px;
    }
    let mut k: u32 = 0;
    while k < FIT_TRIES
        invariant
            k <= FIT_TRIES,
            !spec_is_blank(text@),
            px as int == spec_try(k as nat),
            forall|p: u32| measure.requires((p,)),
            forall|j: nat| j < k ==> falls_short(measure, #[trigger] spec_try(j) as u32, size),
        decreases FIT_TRIES - k,
    {
        let width: i64 = measure(px);
        if width >= size {
            assert(reaches(measure, px, size));
            assert(spec_fitted(measure, size, px)) by {
                assert(px as int == spec_try(k as nat));
            }
            return px;
        }
        assert(falls_short(measure, px, size));
        px += FIT_STEP;
        k += 1;
    }
    assert(spec_fitted(measure, size, px)) by {
        assert(px as int == spec_try(k as nat));
    }
    px
}

/// The host's window type.
#[verifier::external_type_specification]
#[verifier::external_body]
pub struct ExWindow(web_sys::Window);

/// The host's type of the object that keeps its high-resolution time.
#[verifier::external_type_specification]
#[verifier::external_body]
pub struct ExPerformance(web_sys::Performance);

/// Calls `web_sys::window`: the host's global object as a window, or `None`
/// where it is none. Nothing is claimed of the answer.
#[verifier::external_body]
fn host_window() -> (window: Option<web_sys::Window>)
{
    web_sys::window()
}

/// Calls `Window::performance` of `web_sys`: the getter of the window's
/// `performance` field, or `None` where the field is absent. Nothing is
/// claimed of the answer.
#[verifier::external_body]
fn window_performance(window: &web_sys::Window) -> (performance: Option<web_sys::Performance>)
{
    window.performance()
}

/// Calls `Performance::now` of `web_sys` and keeps the whole milliseconds of
/// its answer. Nothing is claimed of the number: it is the host's time.
#[verifier::external_body]
fn performance_now(performance: &web_sys::Performance) -> (now: u128)
{
    performance.now() as u128
}

/// The current time in milliseconds since an epoch of the host's choosing,
/// and `0` where the host has no window or no clock.
pub fn now_ms() -> (now: u128)
{
    match host_window() {
        Some(window) => match window_performance(&window) {
            Some(performance) => performance_now(&performance),
            None => 0,
        },
        None => 0,
    }
}

} // verus!
