//! The natives of `flash.display.Stage`: the stage refuses most of the
//! display-object setters, and reports and changes its alignment, display
//! state, scale mode, quality, color, size, focus and context menu.
use vstd::prelude::*;
use crate::filters::Color;
use crate::value::{str_units, units_of, AvmError, ObjectId, Value};

verus! {

/// Which edges of the window the stage is aligned to.
#[derive(Clone, Copy, Debug, PartialEq, Eq, Structural)]
pub struct StageAlign {
    pub top: bool,
    pub bottom: bool,
    pub left: bool,
    pub right: bool,
}

impl StageAlign {
    /// No edge: the stage is centered.
    pub fn default_align() -> (a: StageAlign)
        ensures
            !a.top && !a.bottom && !a.left && !a.right,
    {
        StageAlign { top: false, bottom: false, left: false, right: false }
    }
}

/// The display state of the stage.
#[derive(Clone, Copy, Debug, PartialEq, Eq, Structural)]
pub enum StageDisplayState {
    FullScreen,
    FullScreenInteractive,
    Normal,
}

/// How the movie is scaled into the window.
#[derive(Clone, Copy, Debug, PartialEq, Eq, Structural)]
pub enum StageScaleMode {
    ExactFit,
    NoBorder,
    NoScale,
    ShowAll,
}

/// The rendering quality of the stage.
#[derive(Clone, Copy, Debug, PartialEq, Eq, Structural)]
pub enum StageQuality {
    Low,
    Medium,
    High,
    Best,
    High8x8,
    High8x8Linear,
    High16x16,
    High16x16Linear,
}

/// The state of the stage that its natives read and write.
#[derive(Clone, Copy, Debug, PartialEq, Eq, Structural)]
pub struct Stage {
    pub align: StageAlign,
    pub display_state: StageDisplayState,
    pub scale_mode: StageScaleMode,
    pub quality: StageQuality,
    pub show_menu: bool,
    pub background_color: Option<Color>,
    pub stage_width: u32,
    pub stage_height: u32,
    pub focus: Option<ObjectId>,
}

/// A stage's letters for its alignment, as AVM2 reports them: T, B, L and R
/// (code units 0x54, 0x42, 0x4c and 0x52) in this order for the edges that
/// are set.
pub open spec fn align_letters(a: StageAlign) -> Seq<u16> {
    (if a.top { seq![0x54u16] } else { Seq::empty() }) + (if a.bottom {
        seq![0x42u16]
    } else {
        Seq::empty()
    }) + (if a.left { seq![0x4cu16] } else { Seq::empty() }) + (if a.right {
        seq![0x52u16]
    } else {
        Seq::empty()
    })
}

/// Implements `align`'s getter.
pub fn align(stage: &Stage) -> (v: Value)
    ensures
        v matches Value::String(s) && s@ == align_letters(stage.align),
{
    let a = stage.align;
    let mut s: Vec<u16> = Vec::new();
    if a.top {
        s.push(0x54);
    }
    let ghost s1 = s@;
    if a.bottom {
        s.push(0x42);
    }
    let ghost s2 = s@;
    if a.left {
        s.push(0x4c);
    }
    let ghost s3 = s@;
    if a.right {
        s.push(0x52);
    }
    assert(align_letters(a) =~= s@);
    Value::String(s)
}

/// Implements `align`'s setter, given the argument parsed as an alignment
/// (`None` when it does not parse, which sets no edge).
pub fn set_align(stage: &mut Stage, parsed: Option<StageAlign>) -> (v: Value)
    ensures
        v == Value::Undefined,
        *final(stage) == (Stage {
            align: match parsed {
                Some(a) => a,
                None => (StageAlign { top: false, bottom: false, left: false, right: false }),
            },
            ..*old(stage)
        }),
{
    stage.align = match parsed {
        Some(a) => a,
        None => StageAlign::default_align(),
    };
    Value::Undefined
}

/// The name of a display state.
pub open spec fn display_state_name(d: StageDisplayState) -> Seq<char> {
    match d {
        StageDisplayState::FullScreen => "fullScreen"@,
        StageDisplayState::FullScreenInteractive => "fullScreenInteractive"@,
        StageDisplayState::Normal => "normal"@,
    }
}

/// Implements `displayState`'s getter.
pub fn display_state(stage: &Stage) -> (v: Value)
    ensures
        v matches Value::String(s) && s@ == units_of(display_state_name(stage.display_state)),
{
    let units = match stage.display_state {
        StageDisplayState::FullScreen => str_units("fullScreen"),
        StageDisplayState::FullScreenInteractive => str_units("fullScreenInteractive"),
        StageDisplayState::Normal => str_units("normal"),
    };
    Value::String(units)
}

/// The message of an argument that is not one of the accepted values.
pub open spec fn not_accepted_message(parameter: Seq<char>) -> Seq<char> {
    "ArgumentError: Error #2008: Parameter "@ + parameter + " must be one of the accepted values."@
}

fn not_accepted(parameter: &str) -> (e: AvmError)
    ensures
        e.message@ == not_accepted_message(parameter@),
{
    let mut m = String::from_str("ArgumentError: Error #2008: Parameter ");
    m.append(parameter);
    m.append(" must be one of the accepted values.");
    AvmError { message: m }
}

/// Implements `displayState`'s setter, given the argument parsed as a
/// display state (`None` when it is not one). Full screen is entered as
/// interactive full screen, as the desktop player does.
pub fn set_display_state(stage: &mut Stage, parsed: Option<StageDisplayState>) -> (r: Result<
    Value,
    AvmError,
>)
    ensures
        parsed is None ==> (r matches Err(e) && e.message@ == not_accepted_message(
            "displayState"@,
        )) && *final(stage) == *old(stage),
        parsed matches Some(d) ==> r == Ok::<Value, AvmError>(Value::Undefined) && final(stage).display_state
            == (if d == StageDisplayState::FullScreen {
            StageDisplayState::FullScreenInteractive
        } else {
            d
        }) && *final(stage) == (Stage { display_state: final(stage).display_state, ..*old(stage) }),
{
    match parsed {
        Some(d) => {
            let d = match d {
                StageDisplayState::FullScreen => StageDisplayState::FullScreenInteractive,
                other => other,
            };
            stage.display_state = d;
            Ok(Value::Undefined)
        },
        None => Err(not_accepted("displayState")),
    }
}

/// The name of a scale mode.
pub open spec fn scale_mode_name(m: StageScaleMode) -> Seq<char> {
    match m {
        StageScaleMode::ExactFit => "exactFit"@,
        StageScaleMode::NoBorder => "noBorder"@,
        StageScaleMode::NoScale => "noScale"@,
        StageScaleMode::ShowAll => "showAll"@,
    }
}

/// Implements `scaleMode`'s getter.
pub fn scale_mode(stage: &Stage) -> (v: Value)
    ensures
        v matches Value::String(s) && s@ == units_of(scale_mode_name(stage.scale_mode)),
{
    let units = match stage.scale_mode {
        StageScaleMode::ExactFit => str_units("exactFit"),
        StageScaleMode::NoBorder => str_units("noBorder"),
        StageScaleMode::NoScale => str_units("noScale"),
        StageScaleMode::ShowAll => str_units("showAll"),
    };
    Value::String(units)
}

/// Implements `scaleMode`'s setter, given the argument parsed as a scale
/// mode (`None` when it is not one).
pub fn set_scale_mode(stage: &mut Stage, parsed: Option<StageScaleMode>) -> (r: Result<
    Value,
    AvmError,
>)
    ensures
        parsed is None ==> (r matches Err(e) && e.message@ == not_accepted_message("scaleMode"@))
            && *final(stage) == *old(stage),
        parsed matches Some(m) ==> r == Ok::<Value, AvmError>(Value::Undefined) && *final(stage)
            == (Stage { scale_mode: m, ..*old(stage) }),
{
    match parsed {
        Some(m) => {
            stage.scale_mode = m;
            Ok(Value::Undefined)
        },
        None => Err(not_accepted("scaleMode")),
    }
}

/// The name of a quality level.
pub open spec fn quality_name(q: StageQuality) -> Seq<char> {
    match q {
        StageQuality::Low => "LOW"@,
        StageQuality::Medium => "MEDIUM"@,
        StageQuality::High => "HIGH"@,
        StageQuality::Best => "BEST"@,
        StageQuality::High8x8 => "8X8"@,
        StageQuality::High8x8Linear => "8X8LINEAR"@,
        StageQuality::High16x16 => "16X16"@,
        StageQuality::High16x16Linear => "16X16LINEAR"@,
    }
}

/// Implements `quality`'s getter.
pub fn quality(stage: &Stage) -> (v: Value)
    ensures
        v matches Value::String(s) && s@ == units_of(quality_name(stage.quality)),
{
    let units = match stage.quality {
        StageQuality::Low => str_units("LOW"),
        StageQuality::Medium => str_units("MEDIUM"),
        StageQuality::High => str_units("HIGH"),
        StageQuality::Best => str_units("BEST"),
        StageQuality::High8x8 => str_units("8X8"),
        StageQuality::High8x8Linear => str_units("8X8LINEAR"),
        StageQuality::High16x16 => str_units("16X16"),
        StageQuality::High16x16Linear => str_units("16X16LINEAR"),
    };
    Value::String(units)
}

/// Implements `quality`'s setter, given the argument parsed as a quality
/// (`None` when it is not one, which changes nothing).
pub fn set_quality(stage: &mut Stage, parsed: Option<StageQuality>) -> (v: Value)
    ensures
        v == Value::Undefined,
        *final(stage) == (match parsed {
            Some(q) => (Stage { quality: q, ..*old(stage) }),
            None => *old(stage),
        }),
{
    if let Some(q) = parsed {
        stage.quality = q;
    }
    Value::Undefined
}

/// Implements `showDefaultContextMenu`'s getter.
pub fn show_default_context_menu(stage: &Stage) -> (v: Value)
    ensures
        v == Value::Bool(stage.show_menu),
{
    Value::Bool(stage.show_menu)
}

/// Implements `showDefaultContextMenu`'s setter, given the argument
/// converted to a boolean.
pub fn set_show_default_context_menu(stage: &mut Stage, show: bool) -> (v: Value)
    ensures
        v == Value::Undefined,
        *final(stage) == (Stage { show_menu: show, ..*old(stage) }),
{
    stage.show_menu = show;
    Value::Undefined
}

/// Implements `ContextMenu.hideBuiltInItems`: it turns the stage's default
/// context menu off and answers `undefined`.
pub fn hide_built_in_items(stage: &mut Stage) -> (v: Value)
    ensures
        v == Value::Undefined,
        *final(stage) == (Stage { show_menu: false, ..*old(stage) }),
{
    stage.show_menu = false;
    Value::Undefined
}

/// The 32-bit ARGB form of a color.
pub open spec fn spec_to_rgba(c: Color) -> u32 {
    (c.a as u32 * 0x100_0000 + c.r as u32 * 0x1_0000 + c.g as u32 * 0x100 + c.b as u32) as u32
}

/// The ARGB form of a color: alpha, red, green and blue from the high byte
/// down.
pub fn to_rgba(c: Color) -> (r: u32)
    ensures
        r == spec_to_rgba(c),
{
    (c.a as u32) * 0x100_0000 + (c.r as u32) * 0x1_0000 + (c.g as u32) * 0x100 + (c.b as u32)
}

/// The color whose red, green and blue are the low three bytes of `rgb`,
/// with the given alpha.
pub open spec fn spec_from_rgb(rgb: u32, alpha: u8) -> Color {
    Color {
        r: ((rgb / 0x1_0000) % 0x100) as u8,
        g: ((rgb / 0x100) % 0x100) as u8,
        b: (rgb % 0x100) as u8,
        a: alpha,
    }
}

/// The color whose red, green and blue are the low three bytes of `rgb`,
/// with the given alpha.
pub fn from_rgb(rgb: u32, alpha: u8) -> (c: Color)
    ensures
        c == spec_from_rgb(rgb, alpha),
{
    Color {
        r: ((rgb / 0x1_0000) % 0x100) as u8,
        g: ((rgb / 0x100) % 0x100) as u8,
        b: (rgb % 0x100) as u8,
        a: alpha,
    }
}

/// Implements `color`'s getter on the stage: its background color, white
/// when it has none, in ARGB form.
pub fn color(this: Option<&Stage>) -> (v: Value)
    ensures
        this is None ==> v == Value::Undefined,
        this matches Some(s) ==> v == Value::Unsigned(
            spec_to_rgba(
                match s.background_color {
                    Some(c) => c,
                    None => (Color { r: 255, g: 255, b: 255, a: 255 }),
                },
            ),
        ),
{
    match this {
        Some(s) => {
            let c = match s.background_color {
                Some(c) => c,
                None => Color { r: 255, g: 255, b: 255, a: 255 },
            };
            Value::Unsigned(to_rgba(c))
        },
        None => Value::Undefined,
    }
}

/// Implements `color`'s setter on the stage, given the argument converted
/// to `uint`: the color becomes opaque with those red, green and blue.
pub fn set_color(stage: &mut Stage, rgb: u32) -> (v: Value)
    ensures
        v == Value::Undefined,
        *final(stage) == (Stage { background_color: Some(spec_from_rgb(rgb, 255)), ..*old(stage) }),
{
    stage.background_color = Some(from_rgb(rgb, 255));
    Value::Undefined
}

/// Implements `stageWidth`'s getter.
pub fn stage_width(this: Option<&Stage>) -> (v: Value)
    ensures
        this is None ==> v == Value::Undefined,
        this matches Some(s) ==> v == Value::Unsigned(s.stage_width),
{
    match this {
        Some(s) => Value::Unsigned(s.stage_width),
        None => Value::Undefined,
    }
}

/// Implements `stageHeight`'s getter.
pub fn stage_height(this: Option<&Stage>) -> (v: Value)
    ensures
        this is None ==> v == Value::Undefined,
        this matches Some(s) ==> v == Value::Unsigned(s.stage_height),
{
    match this {
        Some(s) => Value::Unsigned(s.stage_height),
        None => Value::Undefined,
    }
}

/// Implements `stageWidth`'s setter, which is accepted and does nothing.
pub fn set_stage_width() -> (v: Value)
    ensures
        v == Value::Undefined,
{
    Value::Undefined
}

/// Implements `stageHeight`'s setter, which is accepted and does nothing.
pub fn set_stage_height() -> (v: Value)
    ensures
        v == Value::Undefined,
{
    Value::Undefined
}

/// Implements `allowsFullScreen`'s getter.
pub fn allows_full_screen() -> (v: Value)
    ensures
        v == Value::Bool(true),
{
    Value::Bool(true)
}

/// Implements `allowsFullScreenInteractive`'s getter.
pub fn allows_full_screen_interactive() -> (v: Value)
    ensures
        v == Value::Bool(false),
{
    Value::Bool(false)
}

/// Implements `focus`'s getter: the focused object, or `Null`.
pub fn focus(stage: &Stage) -> (v: Value)
    ensures
        v == (match stage.focus {
            Some(o) => Value::Object(o),
            None => Value::Null,
        }),
{
    match stage.focus {
        Some(o) => Value::Object(o),
        None => Value::Null,
    }
}

/// What the argument of `focus`'s setter is.
#[derive(Clone, Copy, Debug, PartialEq, Eq, Structural)]
pub enum FocusTarget {
    /// `null`: nothing gets the focus.
    Null,
    /// A display object.
    DisplayObject(ObjectId),
    /// Any other value.
    Other,
}

/// Implements `focus`'s setter.
pub fn set_focus(stage: &mut Stage, target: FocusTarget) -> (r: Result<Value, AvmError>)
    ensures
        target == FocusTarget::Null ==> r == Ok::<Value, AvmError>(Value::Undefined) && *final(stage)
            == (Stage { focus: None, ..*old(stage) }),
        target matches FocusTarget::DisplayObject(o) ==> r == Ok::<Value, AvmError>(Value::Undefined)
            && *final(stage) == (Stage { focus: Some(o), ..*old(stage) }),
        target == FocusTarget::Other ==> (r matches Err(e) && e.message@
            == "Cannot set focus to non-DisplayObject"@) && *final(stage) == *old(stage),
{
    match target {
        FocusTarget::Null => {
            stage.focus = None;
            Ok(Value::Undefined)
        },
        FocusTarget::DisplayObject(o) => {
            stage.focus = Some(o);
            Ok(Value::Undefined)
        },
        FocusTarget::Other => Err(AvmError::new("Cannot set focus to non-DisplayObject")),
    }
}

/// Implements `name`'s getter: the stage has no name.
pub fn name() -> (v: Value)
    ensures
        v == Value::Null,
{
    Value::Null
}

/// Implements the class initializer, which does nothing.
pub fn class_init() -> (v: Value)
    ensures
        v == Value::Undefined,
{
    Value::Undefined
}

/// Implements the instance constructor: the stage cannot be constructed.
pub fn instance_init() -> (r: Result<Value, AvmError>)
    ensures
        r matches Err(e) && e.message@ == "You cannot construct new instances of the Stage."@,
{
    Err(AvmError::new("You cannot construct new instances of the Stage."))
}

/// The property setters that the stage refuses.
#[derive(Clone, Copy, Debug, PartialEq, Eq, Structural)]
pub enum LockedProperty {
    AccessibilityProperties,
    Alpha,
    BlendMode,
    CacheAsBitmap,
    ContextMenu,
    Filters,
    FocusRect,
    LoaderInfo,
    Mask,
    MouseEnabled,
    Name,
    OpaqueBackground,
    Rotation,
    ScaleNineGrid,
    ScaleX,
    ScaleY,
    ScrollRect,
    TabEnabled,
    TabIndex,
    Transform,
    Visible,
    X,
    Y,
}

/// The message with which the stage refuses a property setter.
pub open spec fn locked_message(p: LockedProperty) -> Seq<char> {
    match p {
        LockedProperty::AccessibilityProperties => "Error: You cannot set accessibility properties on the stage."@,
        LockedProperty::Alpha => "Error: You cannot set the stage's opacity."@,
        LockedProperty::BlendMode => "Error: You cannot set the blend mode of the stage."@,
        LockedProperty::CacheAsBitmap => "Error: You cannot set the stage to be cached as a bitmap."@,
        LockedProperty::ContextMenu => "Error: You cannot set the stage's context menu."@,
        LockedProperty::Filters => "Error: You cannot apply filters to the stage."@,
        LockedProperty::FocusRect => "Error: You cannot set the stage's focus rect."@,
        LockedProperty::LoaderInfo => "Error: You cannot set the blend mode of the stage."@,
        LockedProperty::Mask => "Error: You cannot mask the stage."@,
        LockedProperty::MouseEnabled => "Error: You cannot enable or disable the mouse on the stage."@,
        LockedProperty::Name => "Error: You cannot set the name of the stage."@,
        LockedProperty::OpaqueBackground => "Error: You cannot give or take away the stage's opaque background."@,
        LockedProperty::Rotation => "Error: You cannot rotate the stage."@,
        LockedProperty::ScaleNineGrid => "Error: You cannot set the stage's 9-slice grid."@,
        LockedProperty::ScaleX => "Error: You cannot set the stage's horizontal scale."@,
        LockedProperty::ScaleY => "Error: You cannot set the stage's vertical scale."@,
        LockedProperty::ScrollRect => "Error: You cannot set the stage's scroll rectangle."@,
        LockedProperty::TabEnabled => "Error: You cannot enable or disable tabbing the stage."@,
        LockedProperty::TabIndex => "Error: You cannot set the stage's tab index."@,
        LockedProperty::Transform => "Error: You cannot transform the stage."@,
        LockedProperty::Visible => "Error: You cannot hide or unhide the stage."@,
        LockedProperty::X => "Error: You cannot move the stage horizontally."@,
        LockedProperty::Y => "Error: You cannot move the stage vertically."@,
    }
}

/// Implements the setter of a property that the stage refuses: it always
/// fails with the property's message and changes nothing.
pub fn set_locked_property(p: LockedProperty) -> (r: Result<Value, AvmError>)
    ensures
        r matches Err(e) && e.message@ == locked_message(p),
{
    let m = match p {
        LockedProperty::AccessibilityProperties => "Error: You cannot set accessibility properties on the stage.",
        LockedProperty::Alpha => "Error: You cannot set the stage's opacity.",
        LockedProperty::BlendMode => "Error: You cannot set the blend mode of the stage.",
        LockedProperty::CacheAsBitmap => "Error: You cannot set the stage to be cached as a bitmap.",
        LockedProperty::ContextMenu => "Error: You cannot set the stage's context menu.",
        LockedProperty::Filters => "Error: You cannot apply filters to the stage.",
        LockedProperty::FocusRect => "Error: You cannot set the stage's focus rect.",
        LockedProperty::LoaderInfo => "Error: You cannot set the blend mode of the stage.",
        LockedProperty::Mask => "Error: You cannot mask the stage.",
        LockedProperty::MouseEnabled => "Error: You cannot enable or disable the mouse on the stage.",
        LockedProperty::Name => "Error: You cannot set the name of the stage.",
        LockedProperty::OpaqueBackground => "Error: You cannot give or take away the stage's opaque background.",
        LockedProperty::Rotation => "Error: You cannot rotate the stage.",
        LockedProperty::ScaleNineGrid => "Error: You cannot set the stage's 9-slice grid.",
        LockedProperty::ScaleX => "Error: You cannot set the stage's horizontal scale.",
        LockedProperty::ScaleY => "Error: You cannot set the stage's vertical scale.",
        LockedProperty::ScrollRect => "Error: You cannot set the stage's scroll rectangle.",
        LockedProperty::TabEnabled => "Error: You cannot enable or disable tabbing the stage.",
        LockedProperty::TabIndex => "Error: You cannot set the stage's tab index.",
        LockedProperty::Transform => "Error: You cannot transform the stage.",
        LockedProperty::Visible => "Error: You cannot hide or unhide the stage.",
        LockedProperty::X => "Error: You cannot move the stage horizontally.",
        LockedProperty::Y => "Error: You cannot move the stage vertically.",
    };
    Err(AvmError::new(m))
}

/// The natives of the stage class that its instance properties name.
#[derive(Clone, Copy, Debug, PartialEq, Eq, Structural)]
pub enum StageNative {
    Name,
    SetLocked(LockedProperty),
    Align,
    SetAlign,
    BrowserZoomFactor,
    Color,
    SetColor,
    ContentsScaleFactor,
    DisplayState,
    SetDisplayState,
    Focus,
    SetFocus,
    FrameRate,
    SetFrameRate,
    ScaleMode,
    SetScaleMode,
    ShowDefaultContextMenu,
    SetShowDefaultContextMenu,
    StageWidth,
    SetStageWidth,
    StageHeight,
    SetStageHeight,
    AllowsFullScreen,
    AllowsFullScreenInteractive,
    Quality,
    SetQuality,
}

/// A public instance property of the stage class: its name and the natives
/// that read and write it, where it has them.
#[derive(Clone, Copy, Debug)]
pub struct PropertyEntry {
    pub name: &'static str,
    pub getter: Option<StageNative>,
    pub setter: Option<StageNative>,
}

/// Whether an accessor trait reads or writes its property.
#[derive(Clone, Copy, Debug, PartialEq, Eq, Structural)]
pub enum AccessorKind {
    Getter,
    Setter,
}

/// An accessor trait of a class's instances.
#[derive(Clone, Copy, Debug)]
pub struct AccessorTrait {
    pub name: &'static str,
    pub kind: AccessorKind,
    pub method: StageNative,
    pub is_override: bool,
}

/// The overriding accessor traits of one property: its getter, if any,
/// then its setter, if any.
pub open spec fn entry_override_traits(e: PropertyEntry) -> Seq<AccessorTrait> {
    (match e.getter {
        Some(g) => seq![AccessorTrait { name: e.name, kind: AccessorKind::Getter, method: g, is_override: true }],
        None => Seq::empty(),
    }) + (match e.setter {
        Some(s) => seq![AccessorTrait { name: e.name, kind: AccessorKind::Setter, method: s, is_override: true }],
        None => Seq::empty(),
    })
}

/// The overriding accessor traits of a table of properties, in table order.
pub open spec fn override_traits(table: Seq<PropertyEntry>) -> Seq<AccessorTrait>
    decreases table.len(),
{
    if table.len() == 0 {
        Seq::empty()
    } else {
        override_traits(table.drop_last()) + entry_override_traits(table.last())
    }
}

/// Defines an overriding getter and setter trait for each property of
/// `table` that has them, in table order.
pub fn define_override_traits(table: &Vec<PropertyEntry>) -> (traits: Vec<AccessorTrait>)
    ensures
        traits@ == override_traits(table@),
{
    let mut traits: Vec<AccessorTrait> = Vec::new();
    let mut i: usize = 0;
    while i < table.len()
        invariant
            i <= table.len(),
            traits@ == override_traits(table@.subrange(0, i as int)),
        decreases table.len() - i,
    {
        let e = table[i];
        if let Some(g) = e.getter {
            traits.push(AccessorTrait { name: e.name, kind: AccessorKind::Getter, method: g, is_override: true });
        }
        if let Some(s) = e.setter {
            traits.push(AccessorTrait { name: e.name, kind: AccessorKind::Setter, method: s, is_override: true });
        }
        assert(table@.subrange(0, i + 1).drop_last() =~= table@.subrange(0, i as int));
        assert(table@.subrange(0, i + 1).last() == e);
        i = i + 1;
        assert(traits@ =~= override_traits(table@.subrange(0, i as int)));
    }
    assert(table@.subrange(0, table.len() as int) =~= table@);
    traits
}

/// The display-object properties that the stage overrides: each setter
/// refuses, and `name` reads as `null`.
pub open spec fn stage_override_properties() -> Seq<PropertyEntry> {
    seq![
        PropertyEntry { name: "accessibilityProperties", getter: None, setter: Some(StageNative::SetLocked(LockedProperty::AccessibilityProperties)) },
        PropertyEntry { name: "alpha", getter: None, setter: Some(StageNative::SetLocked(LockedProperty::Alpha)) },
        PropertyEntry { name: "blendMode", getter: None, setter: Some(StageNative::SetLocked(LockedProperty::BlendMode)) },
        PropertyEntry { name: "cacheAsBitmap", getter: None, setter: Some(StageNative::SetLocked(LockedProperty::CacheAsBitmap)) },
        PropertyEntry { name: "contextMenu", getter: None, setter: Some(StageNative::SetLocked(LockedProperty::ContextMenu)) },
        PropertyEntry { name: "filters", getter: None, setter: Some(StageNative::SetLocked(LockedProperty::Filters)) },
        PropertyEntry { name: "focusRect", getter: None, setter: Some(StageNative::SetLocked(LockedProperty::FocusRect)) },
        PropertyEntry { name: "loaderInfo", getter: None, setter: Some(StageNative::SetLocked(LockedProperty::LoaderInfo)) },
        PropertyEntry { name: "mask", getter: None, setter: Some(StageNative::SetLocked(LockedProperty::Mask)) },
        PropertyEntry { name: "mouseEnabled", getter: None, setter: Some(StageNative::SetLocked(LockedProperty::MouseEnabled)) },
        PropertyEntry { name: "name", getter: Some(StageNative::Name), setter: Some(StageNative::SetLocked(LockedProperty::Name)) },
        PropertyEntry { name: "opaqueBackground", getter: None, setter: Some(StageNative::SetLocked(LockedProperty::OpaqueBackground)) },
        PropertyEntry { name: "rotation", getter: None, setter: Some(StageNative::SetLocked(LockedProperty::Rotation)) },
        PropertyEntry { name: "scale9Grid", getter: None, setter: Some(StageNative::SetLocked(LockedProperty::ScaleNineGrid)) },
        PropertyEntry { name: "scaleX", getter: None, setter: Some(StageNative::SetLocked(LockedProperty::ScaleX)) },
        PropertyEntry { name: "scaleY", getter: None, setter: Some(StageNative::SetLocked(LockedProperty::ScaleY)) },
        PropertyEntry { name: "scrollRect", getter: None, setter: Some(StageNative::SetLocked(LockedProperty::ScrollRect)) },
        PropertyEntry { name: "tabEnabled", getter: None, setter: Some(StageNative::SetLocked(LockedProperty::TabEnabled)) },
        PropertyEntry { name: "tabIndex", getter: None, setter: Some(StageNative::SetLocked(LockedProperty::TabIndex)) },
        PropertyEntry { name: "transform", getter: None, setter: Some(StageNative::SetLocked(LockedProperty::Transform)) },
        PropertyEntry { name: "visible", getter: None, setter: Some(StageNative::SetLocked(LockedProperty::Visible)) },
        PropertyEntry { name: "x", getter: None, setter: Some(StageNative::SetLocked(LockedProperty::X)) },
        PropertyEntry { name: "y", getter: None, setter: Some(StageNative::SetLocked(LockedProperty::Y)) },
    ]
}

/// The stage's own public properties, with their natives.
pub open spec fn stage_public_properties() -> Seq<PropertyEntry> {
    seq![
        PropertyEntry { name: "align", getter: Some(StageNative::Align), setter: Some(StageNative::SetAlign) },
        PropertyEntry { name: "browserZoomFactor", getter: Some(StageNative::BrowserZoomFactor), setter: None },
        PropertyEntry { name: "color", getter: Some(StageNative::Color), setter: Some(StageNative::SetColor) },
        PropertyEntry { name: "contentsScaleFactor", getter: Some(StageNative::ContentsScaleFactor), setter: None },
        PropertyEntry { name: "displayState", getter: Some(StageNative::DisplayState), setter: Some(StageNative::SetDisplayState) },
        PropertyEntry { name: "focus", getter: Some(StageNative::Focus), setter: Some(StageNative::SetFocus) },
        PropertyEntry { name: "frameRate", getter: Some(StageNative::FrameRate), setter: Some(StageNative::SetFrameRate) },
        PropertyEntry { name: "scaleMode", getter: Some(StageNative::ScaleMode), setter: Some(StageNative::SetScaleMode) },
        PropertyEntry { name: "showDefaultContextMenu", getter: Some(StageNative::ShowDefaultContextMenu), setter: Some(StageNative::SetShowDefaultContextMenu) },
        PropertyEntry { name: "stageWidth", getter: Some(StageNative::StageWidth), setter: Some(StageNative::SetStageWidth) },
        PropertyEntry { name: "stageHeight", getter: Some(StageNative::StageHeight), setter: Some(StageNative::SetStageHeight) },
        PropertyEntry { name: "allowsFullScreen", getter: Some(StageNative::AllowsFullScreen), setter: None },
        PropertyEntry { name: "allowsFullScreenInteractive", getter: Some(StageNative::AllowsFullScreenInteractive), setter: None },
        PropertyEntry { name: "quality", getter: Some(StageNative::Quality), setter: Some(StageNative::SetQuality) },
    ]
}

/// The definition of the stage class: `flash.display.Stage`, a sealed
/// subclass of `flash.display.DisplayObjectContainer`, with the overriding
/// accessor traits of the display-object properties it locks, and its own
/// public properties, which the class machinery turns into builtin
/// accessors.
pub struct StageClassDefinition {
    pub package: &'static str,
    pub name: &'static str,
    pub super_package: &'static str,
    pub super_name: &'static str,
    pub sealed: bool,
    pub has_native_instance_init: bool,
    pub override_traits: Vec<AccessorTrait>,
    pub public_properties: Vec<PropertyEntry>,
}

/// Builds the definition of the stage class.
pub fn create_class() -> (c: StageClassDefinition)
    ensures
        c.package@ == "flash.display"@,
        c.name@ == "Stage"@,
        c.super_package@ == "flash.display"@,
        c.super_name@ == "DisplayObjectContainer"@,
        c.sealed,
        c.has_native_instance_init,
        c.override_traits@ == override_traits(stage_override_properties()),
        c.public_properties@ == stage_public_properties(),
{
    let overrides: Vec<PropertyEntry> = vec![
        PropertyEntry { name: "accessibilityProperties", getter: None, setter: Some(StageNative::SetLocked(LockedProperty::AccessibilityProperties)) },
        PropertyEntry { name: "alpha", getter: None, setter: Some(StageNative::SetLocked(LockedProperty::Alpha)) },
        PropertyEntry { name: "blendMode", getter: None, setter: Some(StageNative::SetLocked(LockedProperty::BlendMode)) },
        PropertyEntry { name: "cacheAsBitmap", getter: None, setter: Some(StageNative::SetLocked(LockedProperty::CacheAsBitmap)) },
        PropertyEntry { name: "contextMenu", getter: None, setter: Some(StageNative::SetLocked(LockedProperty::ContextMenu)) },
        PropertyEntry { name: "filters", getter: None, setter: Some(StageNative::SetLocked(LockedProperty::Filters)) },
        PropertyEntry { name: "focusRect", getter: None, setter: Some(StageNative::SetLocked(LockedProperty::FocusRect)) },
        PropertyEntry { name: "loaderInfo", getter: None, setter: Some(StageNative::SetLocked(LockedProperty::LoaderInfo)) },
        PropertyEntry { name: "mask", getter: None, setter: Some(StageNative::SetLocked(LockedProperty::Mask)) },
        PropertyEntry { name: "mouseEnabled", getter: None, setter: Some(StageNative::SetLocked(LockedProperty::MouseEnabled)) },
        PropertyEntry { name: "name", getter: Some(StageNative::Name), setter: Some(StageNative::SetLocked(LockedProperty::Name)) },
        PropertyEntry { name: "opaqueBackground", getter: None, setter: Some(StageNative::SetLocked(LockedProperty::OpaqueBackground)) },
        PropertyEntry { name: "rotation", getter: None, setter: Some(StageNative::SetLocked(LockedProperty::Rotation)) },
        PropertyEntry { name: "scale9Grid", getter: None, setter: Some(StageNative::SetLocked(LockedProperty::ScaleNineGrid)) },
        PropertyEntry { name: "scaleX", getter: None, setter: Some(StageNative::SetLocked(LockedProperty::ScaleX)) },
        PropertyEntry { name: "scaleY", getter: None, setter: Some(StageNative::SetLocked(LockedProperty::ScaleY)) },
        PropertyEntry { name: "scrollRect", getter: None, setter: Some(StageNative::SetLocked(LockedProperty::ScrollRect)) },
        PropertyEntry { name: "tabEnabled", getter: None, setter: Some(StageNative::SetLocked(LockedProperty::TabEnabled)) },
        PropertyEntry { name: "tabIndex", getter: None, setter: Some(StageNative::SetLocked(LockedProperty::TabIndex)) },
        PropertyEntry { name: "transform", getter: None, setter: Some(StageNative::SetLocked(LockedProperty::Transform)) },
        PropertyEntry { name: "visible", getter: None, setter: Some(StageNative::SetLocked(LockedProperty::Visible)) },
        PropertyEntry { name: "x", getter: None, setter: Some(StageNative::SetLocked(LockedProperty::X)) },
        PropertyEntry { name: "y", getter: None, setter: Some(StageNative::SetLocked(LockedProperty::Y)) },
    ];
    assert(overrides@ =~= stage_override_properties());
    let publics: Vec<PropertyEntry> = vec![
        PropertyEntry { name: "align", getter: Some(StageNative::Align), setter: Some(StageNative::SetAlign) },
        PropertyEntry { name: "browserZoomFactor", getter: Some(StageNative::BrowserZoomFactor), setter: None },
        PropertyEntry { name: "color", getter: Some(StageNative::Color), setter: Some(StageNative::SetColor) },
        PropertyEntry { name: "contentsScaleFactor", getter: Some(StageNative::ContentsScaleFactor), setter: None },
        PropertyEntry { name: "displayState", getter: Some(StageNative::DisplayState), setter: Some(StageNative::SetDisplayState) },
        PropertyEntry { name: "focus", getter: Some(StageNative::Focus), setter: Some(StageNative::SetFocus) },
        PropertyEntry { name: "frameRate", getter: Some(StageNative::FrameRate), setter: Some(StageNative::SetFrameRate) },
        PropertyEntry { name: "scaleMode", getter: Some(StageNative::ScaleMode), setter: Some(StageNative::SetScaleMode) },
        PropertyEntry { name: "showDefaultContextMenu", getter: Some(StageNative::ShowDefaultContextMenu), setter: Some(StageNative::SetShowDefaultContextMenu) },
        PropertyEntry { name: "stageWidth", getter: Some(StageNative::StageWidth), setter: Some(StageNative::SetStageWidth) },
        PropertyEntry { name: "stageHeight", getter: Some(StageNative::StageHeight), setter: Some(StageNative::SetStageHeight) },
        PropertyEntry { name: "allowsFullScreen", getter: Some(StageNative::AllowsFullScreen), setter: None },
        PropertyEntry { name: "allowsFullScreenInteractive", getter: Some(StageNative::AllowsFullScreenInteractive), setter: None },
        PropertyEntry { name: "quality", getter: Some(StageNative::Quality), setter: Some(StageNative::SetQuality) },
    ];
    assert(publics@ =~= stage_public_properties());
    let traits = define_override_traits(&overrides);
    StageClassDefinition {
        package: "flash.display",
        name: "Stage",
        super_package: "flash.display",
        super_name: "DisplayObjectContainer",
        sealed: true,
        has_native_instance_init: true,
        override_traits: traits,
        public_properties: publics,
    }
}

/// Reading back the color that `color`'s setter stores gives the argument's
/// red, green and blue with full alpha.
pub proof fn law_color_round_trip(rgb: u32)
    ensures
        spec_to_rgba(spec_from_rgb(rgb, 255)) == 0xff00_0000u32 + rgb % 0x100_0000,
{
    assert(rgb % 0x100_0000 == ((rgb / 0x1_0000) % 0x100) * 0x1_0000 + ((rgb / 0x100) % 0x100)
        * 0x100 + rgb % 0x100) by (nonlinear_arith);
}

/// Each quality reads back under a name of its own: no two qualities share
/// a name, and every name is written in capitals and digits.
pub proof fn law_quality_names_distinct(a: StageQuality, b: StageQuality)
    ensures
        quality_name(a) == quality_name(b) ==> a == b,
        quality_name(a).len() > 0,
        forall|i: int|
            0 <= i < quality_name(a).len() ==> ('A' <= #[trigger] quality_name(a)[i] <= 'Z' || '0'
                <= quality_name(a)[i] <= '9'),
{
    reveal_strlit("LOW");
    reveal_strlit("MEDIUM");
    reveal_strlit("HIGH");
    reveal_strlit("BEST");
    reveal_strlit("8X8");
    reveal_strlit("8X8LINEAR");
    reveal_strlit("16X16");
    reveal_strlit("16X16LINEAR");
    if quality_name(a) == quality_name(b) {
        let na = quality_name(a);
        let nb = quality_name(b);
        assert(na.len() == nb.len());
        assert(na[0] == nb[0]);
        if na.len() > 4 {
            assert(na[4] == nb[4]);
        }
    }
}

/// Each scale mode and each display state reads back under a name of its
/// own.
pub proof fn law_mode_names_distinct(
    a: StageScaleMode,
    b: StageScaleMode,
    c: StageDisplayState,
    d: StageDisplayState,
)
    ensures
        scale_mode_name(a) == scale_mode_name(b) ==> a == b,
        display_state_name(c) == display_state_name(d) ==> c == d,
{
    reveal_strlit("exactFit");
    reveal_strlit("noBorder");
    reveal_strlit("noScale");
    reveal_strlit("showAll");
    reveal_strlit("fullScreen");
    reveal_strlit("fullScreenInteractive");
    reveal_strlit("normal");
    if scale_mode_name(a) == scale_mode_name(b) {
        assert(scale_mode_name(a)[0] == scale_mode_name(b)[0]);
        assert(scale_mode_name(a)[2] == scale_mode_name(b)[2]);
    }
    if display_state_name(c) == display_state_name(d) {
        assert(display_state_name(c).len() == display_state_name(d).len());
        assert(display_state_name(c)[0] == display_state_name(d)[0]);
    }
}

} // verus!
