use text_edit_core::geometry::{
    cursor_to_local, scale_coord, widget_size, HitData, HitPoint, PhysicalSize, ScaleFactor,
};
use text_edit_core::render_target::{ImageAssets, Point, RenderTargetError, Size, Widget};

fn facing() -> Option<HitPoint> {
    Some(HitPoint { x: 0, y: 0, z: 1 })
}

fn sprite_200x100() -> Widget {
    let mut images = ImageAssets::new();
    Widget::new_text_edit_2d(&mut images, Some(Size { width: 200, height: 100 }))
}

#[test]
fn sprite_center_maps_to_middle() {
    let w = sprite_200x100();
    let hit = HitData { position: Some(HitPoint { x: 0, y: 0, z: 0 }), normal: facing() };
    let p = cursor_to_local(&w, &hit, ScaleFactor::identity()).unwrap();
    assert_eq!(p, Point { x: 100, y: 50 });
}

#[test]
fn sprite_top_left_and_scale() {
    let w = sprite_200x100();
    let hit = HitData { position: Some(HitPoint { x: -100, y: 50, z: 0 }), normal: facing() };
    assert_eq!(
        cursor_to_local(&w, &hit, ScaleFactor::identity()).unwrap(),
        Point { x: 0, y: 0 }
    );
    let hit = HitData { position: Some(HitPoint { x: 10, y: -20, z: 0 }), normal: facing() };
    assert_eq!(
        cursor_to_local(&w, &hit, ScaleFactor { num: 3, den: 2 }).unwrap(),
        Point { x: 165, y: 105 }
    );
}

#[test]
fn sprite_hit_errors() {
    let w = sprite_200x100();
    let no_pos = HitData { position: None, normal: facing() };
    assert!(matches!(
        cursor_to_local(&w, &no_pos, ScaleFactor::identity()),
        Err(RenderTargetError::SpriteExpectedHitdataPosition)
    ));
    let tilted = HitData {
        position: Some(HitPoint { x: 0, y: 0, z: 0 }),
        normal: Some(HitPoint { x: 1, y: 0, z: 1 }),
    };
    assert!(matches!(
        cursor_to_local(&w, &tilted, ScaleFactor::identity()),
        Err(RenderTargetError::SpriteUnexpectedNormal)
    ));
    let mut images = ImageAssets::new();
    let no_size = Widget::new_text_edit_2d(&mut images, None);
    let hit = HitData { position: Some(HitPoint { x: 0, y: 0, z: 0 }), normal: facing() };
    assert!(matches!(
        cursor_to_local(&no_size, &hit, ScaleFactor::identity()),
        Err(RenderTargetError::SpriteCustomSizeNotSet)
    ));
}

#[test]
fn ui_cursor_position() {
    let mut images = ImageAssets::new();
    let mut w = Widget::new_text_edit(&mut images, Size { width: 300, height: 40 });
    let hit = HitData { position: None, normal: None };
    assert!(matches!(
        cursor_to_local(&w, &hit, ScaleFactor::identity()),
        Err(RenderTargetError::UiExpectedCursorPosition)
    ));
    w.relative_cursor_position = Some(Point { x: 12, y: 7 });
    assert_eq!(
        cursor_to_local(&w, &hit, ScaleFactor { num: 2, den: 1 }).unwrap(),
        Point { x: 24, y: 14 }
    );
}

#[test]
fn scale_rounds_down() {
    let half = ScaleFactor { num: 1, den: 2 };
    assert_eq!(scale_coord(5, half), 2);
    assert_eq!(scale_coord(-5, half), -3);
    assert_eq!(scale_coord(-4, half), -2);
    assert_eq!(scale_coord(0, half), 0);
}

#[test]
fn widget_sizes() {
    let w = sprite_200x100();
    assert_eq!(
        widget_size(&w, ScaleFactor { num: 3, den: 2 }).unwrap(),
        PhysicalSize { width: 300, height: 150 }
    );
    let mut images = ImageAssets::new();
    let no_size = Widget::new_text_edit_2d(&mut images, None);
    assert!(matches!(
        widget_size(&no_size, ScaleFactor::identity()),
        Err(RenderTargetError::SpriteCustomSizeNotSet)
    ));
    let ui = Widget::new_text_edit(&mut images, Size { width: 300, height: 40 });
    assert_eq!(
        widget_size(&ui, ScaleFactor { num: 2, den: 1 }).unwrap(),
        PhysicalSize { width: 300, height: 40 }
    );
    let mut none = ui.clone();
    none.text_edit = None;
    assert!(matches!(
        widget_size(&none, ScaleFactor::identity()),
        Err(RenderTargetError::NoTargetsAvailable)
    ));
}
