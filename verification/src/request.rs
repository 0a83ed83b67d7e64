use vstd::prelude::*;
use vstd::string::StringExecFns;

use crate::text::{lowered_text, to_lowercase};
use crate::types::{ResizeImage, Skin};

verus! {

/// Smallest accepted output side, in pixels.
pub const MIN_SIDE: u32 = 10;

/// Largest accepted output side, in pixels.
pub const MAX_SIDE: u32 = 1000;

/// Output side used when a request gives none.
pub const DEFAULT_SIDE: u32 = 100;

/// Resize side used when a request gives none.
pub const DEFAULT_RESIZE_SIDE: u32 = 500;

/// Why a render request is turned down.
#[derive(Clone, Copy, Debug, PartialEq, Eq, Structural)]
pub enum RenderRequestError {
    /// The uploaded texture is not declared as `image/png`.
    UnsupportedContentType,
    /// The texture is neither square nor twice as wide as high.
    UnsupportedAspectRatio,
}

impl RenderRequestError {
    /// The text sent back with the refusal.
    pub fn message(&self) -> (s: &'static str)
        ensures
            s@ == (match self {
                RenderRequestError::UnsupportedContentType => "Only png images are supported"@,
                RenderRequestError::UnsupportedAspectRatio =>
                    "Texture aspect ratio needs to be 1/1 or 2/1 (64x64, 256x256, 64x32 etc...)"@,
            }),
    {
        match self {
            RenderRequestError::UnsupportedContentType => "Only png images are supported",
            RenderRequestError::UnsupportedAspectRatio =>
                "Texture aspect ratio needs to be 1/1 or 2/1 (64x64, 256x256, 64x32 etc...)",
        }
    }
}

/// The optional settings of a render request, as sent.
pub struct RenderRequest {
    pub width: Option<u32>,
    pub height: Option<u32>,
    pub resize: Option<bool>,
    pub resize_width: Option<u32>,
    pub resize_height: Option<u32>,
    pub skin_type: Option<String>,
}

/// The image settings a render request resolves to.
#[derive(Clone, Copy, Debug, PartialEq, Eq, Structural)]
pub struct ImageSettings {
    pub width: u32,
    pub height: u32,
    pub resize: bool,
    pub resize_to: ResizeImage,
    pub skin: Skin,
}

/// `value` brought into `min..=max`: `min` unless it is above `min`,
/// `max` unless it is below `max`.
pub open spec fn clamp_spec(min: int, max: int, value: int) -> int {
    if value > min {
        if value < max {
            value
        } else {
            max
        }
    } else {
        min
    }
}

/// The clamped value of an optional setting, or its default when absent
/// (the default is not clamped).
pub open spec fn clamped_or_spec(min: int, max: int, value: Option<u32>, default: int) -> int {
    match value {
        Some(v) => clamp_spec(min, max, v as int),
        None => default,
    }
}

/// Brings `value` into `min..=max` the way request settings are bounded.
pub fn clamp(min: u32, max: u32, value: u32) -> (r: u32)
    ensures
        r == clamp_spec(min as int, max as int, value as int),
{
    if value > min {
        if value < max {
            value
        } else {
            max
        }
    } else {
        min
    }
}

/// A bounded optional setting: clamped when given, `default` when not.
pub fn clamped_or(min: u32, max: u32, value: Option<u32>, default: u32) -> (r: u32)
    ensures
        r == clamped_or_spec(min as int, max as int, value, default as int),
{
    match value {
        Some(v) => clamp(min, max, v),
        None => default,
    }
}

/// Law of clamping: with `min <= max` the result lies in `min..=max`, a
/// value already there is returned unchanged, and clamping twice is
/// clamping once.
pub proof fn lemma_clamp_bounds(min: int, max: int, value: int)
    requires
        min <= max,
    ensures
        min <= clamp_spec(min, max, value) <= max,
        min <= value <= max ==> clamp_spec(min, max, value) == value,
        clamp_spec(min, max, clamp_spec(min, max, value)) == clamp_spec(min, max, value),
{
}

/// Law of clamping: clamping keeps the order of values.
pub proof fn lemma_clamp_monotone(min: int, max: int, v1: int, v2: int)
    requires
        min <= max,
        v1 <= v2,
    ensures
        clamp_spec(min, max, v1) <= clamp_spec(min, max, v2),
{
}

/// Refuses a texture whose declared content type is missing or is not
/// `image/png`; `png_match` is `None` when no content type was sent, else
/// whether it is `image/png`.
pub fn check_content_type(png_match: Option<bool>) -> (r: Result<(), RenderRequestError>)
    ensures
        r is Ok <==> png_match == Some(true),
        r is Err ==> r == Err::<(), RenderRequestError>(RenderRequestError::UnsupportedContentType),
{
    match png_match {
        Some(true) => Ok(()),
        _ => Err(RenderRequestError::UnsupportedContentType),
    }
}

/// The texture's aspect ratio: its width divided by its height, rounded
/// down.
pub fn texture_aspect_ratio(width: u32, height: u32) -> (r: u32)
    requires
        height > 0,
    ensures
        r == width / height,
{
    width / height
}

/// The skin for a texture: a texture twice as wide as high is always the
/// old Steve layout; otherwise Steve when the lower-cased skin type is
/// exactly `steve`, else Alex.
pub open spec fn skin_for(aspect_ratio: u32, lowered_skin_type: Seq<char>) -> Skin {
    if aspect_ratio == 2 {
        Skin::SteveOld
    } else if lowered_skin_type == "steve"@ {
        Skin::Steve
    } else {
        Skin::Alex
    }
}

/// The skin type a request asks for, `alex` when it asks for none.
pub open spec fn requested_skin_type(skin_type: Option<String>) -> Seq<char> {
    match skin_type {
        Some(s) => s@,
        None => "alex"@,
    }
}

/// Picks the skin from the aspect ratio and an already lower-cased skin
/// type.
pub fn choose_skin_lowered(aspect_ratio: u32, lowered_skin_type: &String) -> (skin: Skin)
    ensures
        skin == skin_for(aspect_ratio, lowered_skin_type@),
{
    if aspect_ratio == 2 {
        Skin::SteveOld
    } else if *lowered_skin_type == String::from_str("steve") {
        Skin::Steve
    } else {
        Skin::Alex
    }
}

/// Picks the skin for a texture of the given aspect ratio and the skin
/// type a request names (`alex` when none), compared in lower case.
pub fn choose_skin(aspect_ratio: u32, skin_type: &Option<String>) -> (skin: Skin)
    ensures
        aspect_ratio == 2 ==> skin == Skin::SteveOld,
        aspect_ratio != 2 ==> skin == skin_for(
            aspect_ratio,
            lowered_text(requested_skin_type(*skin_type)),
        ),
{
    if aspect_ratio == 2 {
        return Skin::SteveOld;
    }
    let lowered = match skin_type {
        Some(s) => to_lowercase(s.as_str()),
        None => to_lowercase("alex"),
    };
    choose_skin_lowered(aspect_ratio, &lowered)
}

/// The settings a request resolves to for a texture whose aspect ratio is
/// accepted, with `lowered_skin_type` the lower-cased skin type.
pub open spec fn settings_for(
    aspect_ratio: u32,
    request: RenderRequest,
    lowered_skin_type: Seq<char>,
) -> ImageSettings {
    ImageSettings {
        width: clamped_or_spec(MIN_SIDE as int, MAX_SIDE as int, request.width, DEFAULT_SIDE as int) as u32,
        height: clamped_or_spec(MIN_SIDE as int, MAX_SIDE as int, request.height, DEFAULT_SIDE as int) as u32,
        resize: match request.resize {
            Some(b) => b,
            None => false,
        },
        resize_to: ResizeImage {
            width: clamped_or_spec(
                MIN_SIDE as int,
                MAX_SIDE as int,
                request.resize_width,
                DEFAULT_RESIZE_SIDE as int,
            ) as u32,
            height: clamped_or_spec(
                MIN_SIDE as int,
                MAX_SIDE as int,
                request.resize_height,
                DEFAULT_RESIZE_SIDE as int,
            ) as u32,
        },
        skin: skin_for(aspect_ratio, lowered_skin_type),
    }
}

/// Resolves a render request for a texture of the given size: refused
/// unless the texture is square or twice as wide as high (ratio of width
/// to height, rounded down, 1 or 2); otherwise every side is clamped to
/// `10..=1000` (100 by default, 500 for the resize sides), resizing is off
/// by default, and the skin follows `choose_skin`.
pub fn resolve_image_settings(texture_width: u32, texture_height: u32, request: &RenderRequest) -> (r:
    Result<ImageSettings, RenderRequestError>)
    requires
        texture_height > 0,
    ensures
        ({
            let ratio = (texture_width / texture_height) as u32;
            &&& r is Err <==> (ratio != 1 && ratio != 2)
            &&& r matches Ok(s) ==> (s.resize <==> request.resize == Some(true))
            &&& r is Err ==> r == Err::<ImageSettings, RenderRequestError>(
                RenderRequestError::UnsupportedAspectRatio,
            )
            &&& ratio == 2 ==> r == Ok::<ImageSettings, RenderRequestError>(
                settings_for(ratio, *request, Seq::empty()),
            )
            &&& ratio == 1 ==> r == Ok::<ImageSettings, RenderRequestError>(
                settings_for(
                    ratio,
                    *request,
                    lowered_text(requested_skin_type(request.skin_type)),
                ),
            )
        }),
{
    let ratio = texture_aspect_ratio(texture_width, texture_height);
    if ratio != 1 && ratio != 2 {
        return Err(RenderRequestError::UnsupportedAspectRatio);
    }
    let width = clamped_or(MIN_SIDE, MAX_SIDE, request.width, DEFAULT_SIDE);
    let height = clamped_or(MIN_SIDE, MAX_SIDE, request.height, DEFAULT_SIDE);
    let resize = match request.resize {
        Some(b) => b,
        None => false,
    };
    let resize_width = clamped_or(MIN_SIDE, MAX_SIDE, request.resize_width, DEFAULT_RESIZE_SIDE);
    let resize_height = clamped_or(MIN_SIDE, MAX_SIDE, request.resize_height, DEFAULT_RESIZE_SIDE);
    let skin = choose_skin(ratio, &request.skin_type);
    Ok(
        ImageSettings {
            width,
            height,
            resize,
            resize_to: ResizeImage { width: resize_width, height: resize_height },
            skin,
        },
    )
}

/// Law of skin choice: a texture twice as wide as high is drawn on the old
/// Steve model whatever skin type the request names.
pub proof fn lemma_wide_texture_is_old_steve(lowered_skin_type: Seq<char>)
    ensures
        skin_for(2, lowered_skin_type) == Skin::SteveOld,
{
}

/// Law of the resolved settings: every side of an accepted request lies in
/// `10..=1000`.
pub proof fn lemma_settings_sides_bounded(aspect_ratio: u32, request: RenderRequest, lowered: Seq<char>)
    ensures
        ({
            let s = settings_for(aspect_ratio, request, lowered);
            &&& MIN_SIDE <= s.width <= MAX_SIDE
            &&& MIN_SIDE <= s.height <= MAX_SIDE
            &&& MIN_SIDE <= s.resize_to.width <= MAX_SIDE
            &&& MIN_SIDE <= s.resize_to.height <= MAX_SIDE
        }),
{
}

/// Law of the resolved settings: resizing is on exactly when the request
/// asks for it; an absent side takes its default, and a given side inside
/// `10..=1000` is kept as it is.
pub proof fn lemma_settings_follow_request(aspect_ratio: u32, request: RenderRequest, lowered: Seq<char>)
    ensures
        ({
            let s = settings_for(aspect_ratio, request, lowered);
            &&& s.resize <==> request.resize == Some(true)
            &&& request.width is None ==> s.width == DEFAULT_SIDE
            &&& request.height is None ==> s.height == DEFAULT_SIDE
            &&& request.resize_width is None ==> s.resize_to.width == DEFAULT_RESIZE_SIDE
            &&& request.resize_height is None ==> s.resize_to.height == DEFAULT_RESIZE_SIDE
            &&& request.width matches Some(w) ==> (MIN_SIDE <= w <= MAX_SIDE ==> s.width == w)
            &&& request.height matches Some(h) ==> (MIN_SIDE <= h <= MAX_SIDE ==> s.height == h)
            &&& request.resize_width matches Some(w) ==> (MIN_SIDE <= w <= MAX_SIDE
                ==> s.resize_to.width == w)
            &&& request.resize_height matches Some(h) ==> (MIN_SIDE <= h <= MAX_SIDE
                ==> s.resize_to.height == h)
        }),
{
}

} // verus!
