use renderenko::request::{
    check_content_type, choose_skin, choose_skin_lowered, clamp, clamped_or,
    resolve_image_settings, texture_aspect_ratio, ImageSettings, RenderRequest,
    RenderRequestError,
};
use renderenko::types::{LoadError, ResizeImage, Skin};

fn empty_request() -> RenderRequest {
    RenderRequest {
        width: None,
        height: None,
        resize: None,
        resize_width: None,
        resize_height: None,
        skin_type: None,
    }
}

#[test]
fn clamp_keeps_values_inside() {
    assert_eq!(clamp(10, 1000, 500), 500);
    assert_eq!(clamp(10, 1000, 10), 10);
    assert_eq!(clamp(10, 1000, 1000), 1000);
}

#[test]
fn clamp_bounds_values_outside() {
    assert_eq!(clamp(10, 1000, 0), 10);
    assert_eq!(clamp(10, 1000, 9), 10);
    assert_eq!(clamp(10, 1000, 1001), 1000);
    assert_eq!(clamp(10, 1000, u32::MAX), 1000);
}

#[test]
fn clamp_is_idempotent_and_monotone() {
    for v in [0u32, 5, 10, 11, 999, 1000, 5000] {
        let once = clamp(10, 1000, v);
        assert_eq!(clamp(10, 1000, once), once);
        assert!(clamp(10, 1000, v) <= clamp(10, 1000, v.saturating_add(7)));
    }
}

#[test]
fn clamped_or_uses_default_only_when_absent() {
    assert_eq!(clamped_or(10, 1000, None, 100), 100);
    assert_eq!(clamped_or(10, 1000, Some(3), 100), 10);
    assert_eq!(clamped_or(10, 1000, Some(250), 100), 250);
    // the default itself is not clamped
    assert_eq!(clamped_or(10, 1000, None, 5), 5);
}

#[test]
fn content_type_must_be_png() {
    assert_eq!(check_content_type(Some(true)), Ok(()));
    assert_eq!(check_content_type(Some(false)), Err(RenderRequestError::UnsupportedContentType));
    assert_eq!(check_content_type(None), Err(RenderRequestError::UnsupportedContentType));
}

#[test]
fn error_messages() {
    assert_eq!(RenderRequestError::UnsupportedContentType.message(), "Only png images are supported");
    assert_eq!(
        RenderRequestError::UnsupportedAspectRatio.message(),
        "Texture aspect ratio needs to be 1/1 or 2/1 (64x64, 256x256, 64x32 etc...)"
    );
    assert_eq!(LoadError.message(), "load failed");
}

#[test]
fn aspect_ratio_rounds_down() {
    assert_eq!(texture_aspect_ratio(64, 64), 1);
    assert_eq!(texture_aspect_ratio(64, 32), 2);
    assert_eq!(texture_aspect_ratio(100, 64), 1);
    assert_eq!(texture_aspect_ratio(32, 64), 0);
    assert_eq!(texture_aspect_ratio(192, 64), 3);
}

#[test]
fn skin_choice_compares_in_lower_case() {
    assert_eq!(choose_skin(1, &Some("STEVE".to_string())), Skin::Steve);
    assert_eq!(choose_skin(1, &Some("steve".to_string())), Skin::Steve);
    assert_eq!(choose_skin(1, &Some("Steve ".to_string())), Skin::Alex);
    assert_eq!(choose_skin(1, &Some("alex".to_string())), Skin::Alex);
    assert_eq!(choose_skin(1, &None), Skin::Alex);
}

#[test]
fn wide_texture_is_always_old_steve() {
    assert_eq!(choose_skin(2, &Some("steve".to_string())), Skin::SteveOld);
    assert_eq!(choose_skin(2, &Some("alex".to_string())), Skin::SteveOld);
    assert_eq!(choose_skin(2, &None), Skin::SteveOld);
    assert_eq!(choose_skin_lowered(2, &"steve".to_string()), Skin::SteveOld);
    assert_eq!(choose_skin_lowered(1, &"STEVE".to_string()), Skin::Alex);
}

#[test]
fn resolve_defaults_for_square_texture() {
    let settings = resolve_image_settings(64, 64, &empty_request()).unwrap();
    assert_eq!(
        settings,
        ImageSettings {
            width: 100,
            height: 100,
            resize: false,
            resize_to: ResizeImage { width: 500, height: 500 },
            skin: Skin::Alex,
        }
    );
}

#[test]
fn resolve_clamps_every_side() {
    let request = RenderRequest {
        width: Some(5),
        height: Some(4000),
        resize: Some(true),
        resize_width: Some(0),
        resize_height: Some(640),
        skin_type: Some("Steve".to_string()),
    };
    let settings = resolve_image_settings(256, 256, &request).unwrap();
    assert_eq!(
        settings,
        ImageSettings {
            width: 10,
            height: 1000,
            resize: true,
            resize_to: ResizeImage { width: 10, height: 640 },
            skin: Skin::Steve,
        }
    );
}

#[test]
fn resolve_wide_texture_ignores_skin_type() {
    let mut request = empty_request();
    request.skin_type = Some("steve".to_string());
    let settings = resolve_image_settings(64, 32, &request).unwrap();
    assert_eq!(settings.skin, Skin::SteveOld);
}

#[test]
fn resolve_refuses_other_aspect_ratios() {
    assert_eq!(
        resolve_image_settings(32, 64, &empty_request()),
        Err(RenderRequestError::UnsupportedAspectRatio)
    );
    assert_eq!(
        resolve_image_settings(192, 64, &empty_request()),
        Err(RenderRequestError::UnsupportedAspectRatio)
    );
}
