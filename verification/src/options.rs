//! The resize-options value object handed to the chart renderer's `resize`
//! operation: optional width, height, animation and silence settings.
//! Width and height are a variant type, either a pixel count or the
//! literal string "auto"; which variant was chosen must be preserved.

use vstd::prelude::*;

verus! {

/// Fixed height, in pixels, that the resize policy always requests.
pub const RESIZE_HEIGHT: i32 = 800;

/// A dimension handed to the renderer: a string (in practice the literal
/// "auto") or a pixel count.
#[derive(Debug, Clone)]
pub enum Value {
    String(String),
    Number(i32),
}

/// Easing modes the renderer accepts for a resize animation.
#[derive(Debug, Clone, Copy, PartialEq, Eq, Structural)]
pub enum AnimationEasing {
    Linear,
    QuadraticIn,
    QuadraticOut,
    QuadraticInOut,
    CubicIn,
    CubicOut,
    CubicInOut,
    QuarticIn,
    QuarticOut,
    QuarticInOut,
    QuinticIn,
    QuinticOut,
    QuinticInOut,
    SinusoidalIn,
    SinusoidalOut,
    SinusoidalInOut,
    ExponentialIn,
    ExponentialOut,
    ExponentialInOut,
    CircularIn,
    CircularOut,
    CircularInOut,
    ElasticIn,
    ElasticOut,
    ElasticInOut,
    BackIn,
    BackOut,
    BackInOut,
    BounceIn,
    BounceOut,
    BounceInOut,
}

/// Animation settings for a resize; every field is optional.
#[derive(Debug, Clone, Copy)]
pub struct AnimationOption {
    pub duration: Option<i32>,
    pub easing: Option<AnimationEasing>,
    pub delay: Option<i32>,
}

/// The options of one `resize` request. A field left `None` must be left
/// out of the encoded form entirely (see `codec`): the renderer reads an
/// absent field differently from an explicit null.
#[derive(Debug, Clone)]
pub struct ResizeOpts {
    pub width: Option<Value>,
    pub height: Option<Value>,
    pub animation: Option<AnimationOption>,
    pub silent: Option<bool>,
}

impl ResizeOpts {
    /// Options with the given width and height and nothing else set.
    pub fn new(width: Option<Value>, height: Option<Value>) -> (r: ResizeOpts)
        ensures
            r.width == width,
            r.height == height,
            r.animation is None,
            r.silent is None,
    {
        ResizeOpts { width, height, animation: None, silent: None }
    }

    /// Options with both dimensions given as pixel counts.
    pub fn from(width: i32, height: i32) -> (r: ResizeOpts)
        ensures
            r.width == Some(Value::Number(width)),
            r.height == Some(Value::Number(height)),
            r.animation is None,
            r.silent is None,
    {
        ResizeOpts {
            width: Some(Value::Number(width)),
            height: Some(Value::Number(height)),
            animation: None,
            silent: None,
        }
    }

    /// Sets the width to a pixel count, leaving the rest as it was.
    pub fn width(self, width: i32) -> (r: ResizeOpts)
        ensures
            r.width == Some(Value::Number(width)),
            r.height == self.height,
            r.animation == self.animation,
            r.silent == self.silent,
    {
        ResizeOpts { width: Some(Value::Number(width)), ..self }
    }

    /// Sets the height to a pixel count, leaving the rest as it was.
    pub fn height(self, height: i32) -> (r: ResizeOpts)
        ensures
            r.width == self.width,
            r.height == Some(Value::Number(height)),
            r.animation == self.animation,
            r.silent == self.silent,
    {
        ResizeOpts { height: Some(Value::Number(height)), ..self }
    }

    /// Sets the animation settings, leaving the rest as it was.
    pub fn animation(self, animation: AnimationOption) -> (r: ResizeOpts)
        ensures
            r.width == self.width,
            r.height == self.height,
            r.animation == Some(animation),
            r.silent == self.silent,
    {
        ResizeOpts { animation: Some(animation), ..self }
    }

    /// Sets the silence flag, leaving the rest as it was.
    pub fn silent(self, silent: bool) -> (r: ResizeOpts)
        ensures
            r.width == self.width,
            r.height == self.height,
            r.animation == self.animation,
            r.silent == Some(silent),
    {
        ResizeOpts { silent: Some(silent), ..self }
    }
}

/// The options the resize policy always issues: width "auto", the fixed
/// pixel height, nothing else set.
pub open spec fn is_auto_resize_opts(r: ResizeOpts) -> bool {
    &&& r.width matches Some(Value::String(s)) && s@ == "auto"@
    &&& r.height == Some(Value::Number(RESIZE_HEIGHT))
    &&& r.animation is None
    &&& r.silent is None
}

/// Builds the fixed-policy resize options.
pub fn auto_resize_opts() -> (r: ResizeOpts)
    ensures
        is_auto_resize_opts(r),
{
    ResizeOpts::new(
        Some(Value::String(String::from_str("auto"))),
        Some(Value::Number(RESIZE_HEIGHT)),
    )
}

} // verus!
