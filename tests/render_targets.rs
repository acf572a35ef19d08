use text_edit_core::render_target::{
    new_image_from_default, ImageAssets, ImageHandle, ImageNode, RenderTargetError, Size,
    SourceType, Sprite, TextEdit, TextEdit2d, Widget, DEFAULT_IMAGE_ID,
};

fn ui_widget(images: &mut ImageAssets) -> Widget {
    Widget::new_text_edit(images, Size { width: 300, height: 40 })
}

#[test]
fn fresh_outputs_never_alias() {
    let mut images = ImageAssets::new();
    let a = new_image_from_default(&mut images);
    let b = new_image_from_default(&mut images);
    assert_ne!(a, b);
    assert_ne!(a.0.id, DEFAULT_IMAGE_ID);
    let w1 = ui_widget(&mut images);
    let w2 = Widget::new_text_edit_2d(&mut images, None);
    assert_ne!(w1.output, w2.output);
}

#[test]
fn spawned_widgets_have_one_backend() {
    let mut images = ImageAssets::new();
    let ui = ui_widget(&mut images);
    assert!(ui.text_edit.is_some() && ui.text_edit_2d.is_none());
    assert!(matches!(ui.scan(), Ok(SourceType::Ui)));
    let sprite = Widget::new_text_edit_2d(&mut images, Some(Size { width: 10, height: 10 }));
    assert!(sprite.text_edit_2d.is_some() && sprite.text_edit.is_none());
    assert!(matches!(sprite.scan(), Ok(SourceType::Sprite)));
}

#[test]
fn scan_without_markers_fails() {
    let mut images = ImageAssets::new();
    let mut w = ui_widget(&mut images);
    w.text_edit = None;
    assert!(matches!(w.scan(), Err(RenderTargetError::NoTargetsAvailable)));
}

#[test]
fn both_markers_never_routed() {
    let mut images = ImageAssets::new();
    let mut w = ui_widget(&mut images);
    w.text_edit_2d = Some(TextEdit2d);
    w.sprite = Some(Sprite { image: ImageHandle { id: DEFAULT_IMAGE_ID }, custom_size: None });
    assert!(matches!(w.scan(), Err(RenderTargetError::MoreThanOneTargetAvailable)));
    let r = w.write_image_data(&ImageHandle { id: 42 });
    assert!(matches!(r, Err(RenderTargetError::MoreThanOneTargetAvailable)));
    assert_eq!(w.image_node.unwrap().image.id, DEFAULT_IMAGE_ID);
    assert_eq!(w.sprite.unwrap().image.id, DEFAULT_IMAGE_ID);
}

#[test]
fn route_to_ui_image_node() {
    let mut images = ImageAssets::new();
    let mut w = ui_widget(&mut images);
    // a freshly rasterized 64x64 image
    let image = images.add_default();
    assert!(w.write_image_data(&image).is_ok());
    assert_eq!(w.image_node, Some(ImageNode { image }));
    assert!(w.sprite.is_none());
}

#[test]
fn route_to_sprite_leaves_stray_image_node() {
    let mut images = ImageAssets::new();
    let mut w = Widget::new_text_edit_2d(&mut images, Some(Size { width: 200, height: 100 }));
    let stray = ImageNode { image: ImageHandle { id: 7 } };
    w.image_node = Some(stray);
    let image = images.add_default();
    assert!(w.write_image_data(&image).is_ok());
    assert_eq!(w.sprite.unwrap().image, image);
    assert_eq!(w.sprite.unwrap().custom_size, Some(Size { width: 200, height: 100 }));
    assert_eq!(w.image_node, Some(stray));
}

#[test]
fn route_without_role_component_fails() {
    let mut images = ImageAssets::new();
    let mut w = Widget::new_text_edit_2d(&mut images, None);
    w.sprite = None;
    match w.write_image_data(&ImageHandle { id: 9 }) {
        Err(RenderTargetError::RequiredComponentNotAvailable { debug_name }) => {
            assert_eq!(debug_name, "Sprite")
        }
        other => panic!("unexpected {:?}", other),
    }
    let mut u = ui_widget(&mut images);
    u.image_node = None;
    match u.write_image_data(&ImageHandle { id: 9 }) {
        Err(RenderTargetError::RequiredComponentNotAvailable { debug_name }) => {
            assert_eq!(debug_name, "ImageNode")
        }
        other => panic!("unexpected {:?}", other),
    }
}

#[test]
fn publish_output_routes_own_image() {
    let mut images = ImageAssets::new();
    let mut w = ui_widget(&mut images);
    assert!(w.publish_output().is_ok());
    assert_eq!(w.image_node.unwrap().image, w.output.0);
    w.text_edit = Some(TextEdit);
    w.text_edit_2d = Some(TextEdit2d);
    assert!(w.publish_output().is_err());
}

#[test]
fn error_messages() {
    assert_eq!(
        RenderTargetError::NoTargetsAvailable.message(),
        "No render targets available"
    );
    assert_eq!(
        RenderTargetError::MoreThanOneTargetAvailable.message(),
        "More than one render target available"
    );
    assert_eq!(
        RenderTargetError::required_component_missing("Sprite").message(),
        "Required component not available: Sprite"
    );
    assert_eq!(
        RenderTargetError::SpriteCustomSizeNotSet.message(),
        "Sprite custom size not set"
    );
    assert_eq!(
        RenderTargetError::SpriteUnexpectedNormal.message(),
        "Sprite has unexpected normal"
    );
    assert_eq!(
        RenderTargetError::SpriteExpectedHitdataPosition.message(),
        "Sprite expected hit data position"
    );
    assert_eq!(
        RenderTargetError::UiExpectedCursorPosition.message(),
        "UI expected cursor position"
    );
}
