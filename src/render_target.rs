//! Which display backend a widget uses, and publishing images to it.
//!
//! A widget shows its rasterized text either on a 2D sprite ([`TextEdit2d`])
//! or on a UI image node ([`TextEdit`]). Exactly one of the two markers must
//! be present; anything else is reported, never resolved by priority.
use vstd::prelude::*;
use crate::hover::InputState;

verus! {

/// A handle into the image asset table.
#[derive(Clone, Copy, Debug, PartialEq, Eq, Structural)]
pub struct ImageHandle {
    pub id: u64,
}

/// The placeholder image that display slots hold before anything is routed.
pub const DEFAULT_IMAGE_ID: u64 = 0;

/// A size in logical pixels.
#[derive(Clone, Copy, Debug, PartialEq, Eq, Structural)]
pub struct Size {
    pub width: u32,
    pub height: u32,
}

/// The sprite display role: a quad showing `image`, sized by `custom_size`.
#[derive(Clone, Copy, Debug, PartialEq, Eq, Structural)]
pub struct Sprite {
    pub image: ImageHandle,
    pub custom_size: Option<Size>,
}

/// The UI image-display role.
#[derive(Clone, Copy, Debug, PartialEq, Eq, Structural)]
pub struct ImageNode {
    pub image: ImageHandle,
}

/// The top level UI text edit marker: the widget renders onto an [`ImageNode`].
#[derive(Clone, Copy, Debug, PartialEq, Eq, Structural)]
pub struct TextEdit;

/// The top-level 2D text edit marker: the widget renders onto a [`Sprite`]
/// whose `custom_size` is set.
#[derive(Clone, Copy, Debug, PartialEq, Eq, Structural)]
pub struct TextEdit2d;

/// The per-widget image that rasterization writes and routing publishes.
#[derive(Clone, Copy, Debug, PartialEq, Eq, Structural)]
pub struct CosmicRenderOutput(pub ImageHandle);

/// A point in whole pixels.
#[derive(Clone, Copy, Debug, PartialEq, Eq, Structural)]
pub struct Point {
    pub x: i64,
    pub y: i64,
}

/// The backend in effect for a widget.
#[derive(Clone, Copy, Debug, PartialEq, Eq, Structural)]
pub enum SourceType {
    Sprite,
    Ui,
}

#[derive(Clone, Debug)]
pub enum RenderTargetError {
    /// When no recognized [`SourceType`] could be found
    NoTargetsAvailable,
    /// When more than one [`SourceType`] was detected: a logic error in the
    /// widget's setup, never resolved by priority.
    MoreThanOneTargetAvailable,
    /// When a scan succeeded yet the backend's display role was not found
    RequiredComponentNotAvailable { debug_name: String },
    /// When using [`SourceType::Sprite`], the sprite's custom size must be set
    SpriteCustomSizeNotSet,
    SpriteUnexpectedNormal,
    SpriteExpectedHitdataPosition,
    UiExpectedCursorPosition,
}

/// The components of one widget entity that the render-target logic reads.
#[derive(Clone, Debug)]
pub struct Widget {
    /// UI backend marker.
    pub text_edit: Option<TextEdit>,
    /// Sprite backend marker.
    pub text_edit_2d: Option<TextEdit2d>,
    pub sprite: Option<Sprite>,
    pub image_node: Option<ImageNode>,
    /// The UI framework's node-local pointer position, once laid out.
    pub relative_cursor_position: Option<Point>,
    /// The UI node's computed layout size.
    pub node_size: Size,
    pub input_state: InputState,
    pub output: CosmicRenderOutput,
}

/// The image asset table, reduced to what widget creation needs: every
/// added image gets a handle that no earlier image has.
#[derive(Clone, Copy, Debug, PartialEq, Eq, Structural)]
pub struct ImageAssets {
    pub next_id: u64,
}

/// The display name of the sprite role, used in errors.
pub const SPRITE_NAME: &'static str = "Sprite";

/// The display name of the UI image role, used in errors.
pub const IMAGE_NODE_NAME: &'static str = "ImageNode";

/// What a scan of `w` yields.
pub open spec fn scan_spec(w: Widget) -> Result<SourceType, RenderTargetError> {
    match (w.text_edit_2d, w.text_edit) {
        (Some(_), None) => Ok(SourceType::Sprite),
        (None, Some(_)) => Ok(SourceType::Ui),
        (None, None) => Err(RenderTargetError::NoTargetsAvailable),
        (Some(_), Some(_)) => Err(RenderTargetError::MoreThanOneTargetAvailable),
    }
}

/// `e` reports the missing component `name`.
pub open spec fn is_missing_component(e: RenderTargetError, name: Seq<char>) -> bool {
    match e {
        RenderTargetError::RequiredComponentNotAvailable { debug_name } => debug_name@ == name,
        _ => false,
    }
}

/// The human-readable description of `e`.
pub open spec fn message_spec(e: RenderTargetError) -> Seq<char> {
    match e {
        RenderTargetError::NoTargetsAvailable => "No render targets available"@,
        RenderTargetError::MoreThanOneTargetAvailable => "More than one render target available"@,
        RenderTargetError::RequiredComponentNotAvailable { debug_name } =>
            "Required component not available: "@ + debug_name@,
        RenderTargetError::SpriteCustomSizeNotSet => "Sprite custom size not set"@,
        RenderTargetError::SpriteUnexpectedNormal => "Sprite has unexpected normal"@,
        RenderTargetError::SpriteExpectedHitdataPosition => "Sprite expected hit data position"@,
        RenderTargetError::UiExpectedCursorPosition => "UI expected cursor position"@,
    }
}

/// A widget has a backend exactly when it carries exactly one marker;
/// with none or both, the scan names which of the two setup faults it is.
pub proof fn lemma_scan_needs_exactly_one_marker(w: Widget)
    ensures
        scan_spec(w) is Ok <==> (w.text_edit.is_some() != w.text_edit_2d.is_some()),
        w.text_edit.is_none() && w.text_edit_2d.is_none() ==> scan_spec(w) == Err::<
            SourceType,
            RenderTargetError,
        >(RenderTargetError::NoTargetsAvailable),
        w.text_edit.is_some() && w.text_edit_2d.is_some() ==> scan_spec(w) == Err::<
            SourceType,
            RenderTargetError,
        >(RenderTargetError::MoreThanOneTargetAvailable),
{
}

impl RenderTargetError {
    /// The error for a display role `debug_name` that a successful scan
    /// promised but the widget lacks.
    pub fn required_component_missing(debug_name: &str) -> (r: Self)
        ensures
            is_missing_component(r, debug_name@),
    {
        RenderTargetError::RequiredComponentNotAvailable { debug_name: String::from_str(debug_name) }
    }

    /// A human-readable description of the error.
    pub fn message(&self) -> (r: String)
        ensures
            r@ == message_spec(*self),
    {
        match self {
            RenderTargetError::NoTargetsAvailable => String::from_str("No render targets available"),
            RenderTargetError::MoreThanOneTargetAvailable => String::from_str(
                "More than one render target available",
            ),
            RenderTargetError::RequiredComponentNotAvailable { debug_name } => {
                let prefix = String::from_str("Required component not available: ");
                prefix.concat(debug_name.as_str())
            },
            RenderTargetError::SpriteCustomSizeNotSet => String::from_str("Sprite custom size not set"),
            RenderTargetError::SpriteUnexpectedNormal => String::from_str(
                "Sprite has unexpected normal",
            ),
            RenderTargetError::SpriteExpectedHitdataPosition => String::from_str(
                "Sprite expected hit data position",
            ),
            RenderTargetError::UiExpectedCursorPosition => String::from_str(
                "UI expected cursor position",
            ),
        }
    }
}

impl ImageAssets {
    /// An empty table; the placeholder image is the only handle taken.
    pub fn new() -> (r: Self)
        ensures
            r.next_id == DEFAULT_IMAGE_ID + 1,
    {
        ImageAssets { next_id: DEFAULT_IMAGE_ID + 1 }
    }

    /// Adds a blank image and returns its handle.
    pub fn add_default(&mut self) -> (r: ImageHandle)
        requires
            old(self).next_id < u64::MAX,
        ensures
            r.id == old(self).next_id,
            final(self).next_id == old(self).next_id + 1,
    {
        let r = ImageHandle { id: self.next_id };
        self.next_id = self.next_id + 1;
        r
    }
}

/// A fresh render output for a new widget. Each widget gets its own blank
/// image, so that no two widgets show the same one.
pub fn new_image_from_default(images: &mut ImageAssets) -> (r: CosmicRenderOutput)
    requires
        old(images).next_id < u64::MAX,
    ensures
        r.0.id == old(images).next_id,
        final(images).next_id == old(images).next_id + 1,
{
    CosmicRenderOutput(images.add_default())
}

impl Widget {
    /// Builds a UI text edit widget: the [`TextEdit`] marker with its image
    /// node, laid out at `node_size`, with a fresh render output.
    pub fn new_text_edit(images: &mut ImageAssets, node_size: Size) -> (r: Self)
        requires
            old(images).next_id < u64::MAX,
        ensures
            r.text_edit.is_some() && r.text_edit_2d.is_none(),
            r.image_node == Some(ImageNode { image: ImageHandle { id: DEFAULT_IMAGE_ID } }),
            r.sprite.is_none(),
            r.relative_cursor_position.is_none(),
            r.node_size == node_size,
            r.input_state == InputState::Idle,
            r.output.0.id == old(images).next_id,
            final(images).next_id == old(images).next_id + 1,
            scan_spec(r) == Ok::<SourceType, RenderTargetError>(SourceType::Ui),
    {
        let output = new_image_from_default(images);
        Widget {
            text_edit: Some(TextEdit),
            text_edit_2d: None,
            sprite: None,
            image_node: Some(ImageNode { image: ImageHandle { id: DEFAULT_IMAGE_ID } }),
            relative_cursor_position: None,
            node_size,
            input_state: InputState::Idle,
            output,
        }
    }

    /// Builds a 2D text edit widget: the [`TextEdit2d`] marker with its
    /// sprite of size `custom_size`, with a fresh render output.
    pub fn new_text_edit_2d(images: &mut ImageAssets, custom_size: Option<Size>) -> (r: Self)
        requires
            old(images).next_id < u64::MAX,
        ensures
            r.text_edit_2d.is_some() && r.text_edit.is_none(),
            r.sprite == Some(
                Sprite { image: ImageHandle { id: DEFAULT_IMAGE_ID }, custom_size },
            ),
            r.image_node.is_none(),
            r.relative_cursor_position.is_none(),
            r.node_size == (Size { width: 0, height: 0 }),
            r.input_state == InputState::Idle,
            r.output.0.id == old(images).next_id,
            final(images).next_id == old(images).next_id + 1,
            scan_spec(r) == Ok::<SourceType, RenderTargetError>(SourceType::Sprite),
    {
        let output = new_image_from_default(images);
        Widget {
            text_edit: None,
            text_edit_2d: Some(TextEdit2d),
            sprite: Some(Sprite { image: ImageHandle { id: DEFAULT_IMAGE_ID }, custom_size }),
            image_node: None,
            relative_cursor_position: None,
            node_size: Size { width: 0, height: 0 },
            input_state: InputState::Idle,
            output,
        }
    }

    /// Classifies the widget's backend from its markers; recomputed on
    /// every call.
    pub fn scan(&self) -> (r: Result<SourceType, RenderTargetError>)
        ensures
            r == scan_spec(*self),
    {
        match (&self.text_edit_2d, &self.text_edit) {
            (Some(_), None) => Ok(SourceType::Sprite),
            (None, Some(_)) => Ok(SourceType::Ui),
            (None, None) => Err(RenderTargetError::NoTargetsAvailable),
            (Some(_), Some(_)) => Err(RenderTargetError::MoreThanOneTargetAvailable),
        }
    }

    /// Publishes `image` to the display slot of the widget's backend, and to
    /// no other slot.
    pub fn write_image_data(&mut self, image: &ImageHandle) -> (r: Result<(), RenderTargetError>)
        ensures
            scan_spec(*old(self)) is Err ==> *final(self) == *old(self) && r == Err::<
                (),
                RenderTargetError,
            >(scan_spec(*old(self))->Err_0),
            scan_spec(*old(self)) == Ok::<SourceType, RenderTargetError>(SourceType::Sprite) ==> {
                &&& old(self).sprite.is_none() ==> *final(self) == *old(self) && r is Err
                    && is_missing_component(r->Err_0, SPRITE_NAME@)
                &&& old(self).sprite.is_some() ==> r is Ok && *final(self) == (Widget {
                    sprite: Some(Sprite { image: *image, ..old(self).sprite.unwrap() }),
                    ..*old(self)
                })
            },
            scan_spec(*old(self)) == Ok::<SourceType, RenderTargetError>(SourceType::Ui) ==> {
                &&& old(self).image_node.is_none() ==> *final(self) == *old(self) && r is Err
                    && is_missing_component(r->Err_0, IMAGE_NODE_NAME@)
                &&& old(self).image_node.is_some() ==> r is Ok && *final(self) == (Widget {
                    image_node: Some(ImageNode { image: *image }),
                    ..*old(self)
                })
            },
            scan_spec(*old(self)) == Ok::<SourceType, RenderTargetError>(SourceType::Sprite)
                ==> final(self).image_node == old(self).image_node,
            scan_spec(*old(self)) == Ok::<SourceType, RenderTargetError>(SourceType::Ui)
                ==> final(self).sprite == old(self).sprite,
    {
        match self.scan() {
            Err(e) => Err(e),
            Ok(SourceType::Sprite) => match &mut self.sprite {
                None => Err(RenderTargetError::required_component_missing(SPRITE_NAME)),
                Some(sprite) => {
                    sprite.image = *image;
                    Ok(())
                },
            },
            Ok(SourceType::Ui) => match &mut self.image_node {
                None => Err(RenderTargetError::required_component_missing(IMAGE_NODE_NAME)),
                Some(node) => {
                    node.image = *image;
                    Ok(())
                },
            },
        }
    }

    /// Routes the widget's own render output to its backend.
    pub fn publish_output(&mut self) -> (r: Result<(), RenderTargetError>)
        ensures
            r is Ok <==> match scan_spec(*old(self)) {
                Ok(SourceType::Sprite) => old(self).sprite.is_some(),
                Ok(SourceType::Ui) => old(self).image_node.is_some(),
                Err(_) => false,
            },
            scan_spec(*old(self)) == Ok::<SourceType, RenderTargetError>(SourceType::Sprite) && r is Ok
                ==> final(self).sprite->0.image == old(self).output.0
                && final(self).image_node == old(self).image_node,
            scan_spec(*old(self)) == Ok::<SourceType, RenderTargetError>(SourceType::Ui) && r is Ok
                ==> final(self).image_node->0.image == old(self).output.0
                && final(self).sprite == old(self).sprite,
            r is Err ==> *final(self) == *old(self),
    {
        let image = self.output.0;
        self.write_image_data(&image)
    }
}

} // verus!
