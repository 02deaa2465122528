use ruffle::filters::Color;
use ruffle::stage::{
    align, allows_full_screen, allows_full_screen_interactive, color, create_class,
    define_override_traits, display_state, focus, from_rgb, hide_built_in_items, instance_init,
    name, quality, scale_mode, set_align, set_color, set_display_state, set_focus,
    set_locked_property, set_quality, set_scale_mode, set_show_default_context_menu,
    show_default_context_menu, stage_height, stage_width, to_rgba, AccessorKind, FocusTarget,
    LockedProperty, PropertyEntry, Stage, StageAlign, StageDisplayState, StageNative,
    StageQuality, StageScaleMode,
};
use ruffle::value::{ObjectId, Value};

fn units(s: &str) -> Vec<u16> {
    s.encode_utf16().collect()
}

fn text(s: &str) -> Value {
    Value::String(units(s))
}

fn stage() -> Stage {
    Stage {
        align: StageAlign::default_align(),
        display_state: StageDisplayState::Normal,
        scale_mode: StageScaleMode::ShowAll,
        quality: StageQuality::High,
        show_menu: true,
        background_color: None,
        stage_width: 550,
        stage_height: 400,
        focus: None,
    }
}

#[test]
fn align_letters_come_in_tblr_order() {
    let mut s = stage();
    assert_eq!(align(&s), text(""));
    let v = set_align(&mut s, Some(StageAlign { top: true, bottom: false, left: true, right: true }));
    assert_eq!(v, Value::Undefined);
    assert_eq!(align(&s), text("TLR"));
    set_align(&mut s, Some(StageAlign { top: false, bottom: true, left: false, right: false }));
    assert_eq!(align(&s), text("B"));
    set_align(&mut s, None);
    assert_eq!(align(&s), text(""));
    assert_eq!(s.stage_width, 550);
}

#[test]
fn full_screen_becomes_interactive() {
    let mut s = stage();
    assert_eq!(display_state(&s), text("normal"));
    assert_eq!(set_display_state(&mut s, Some(StageDisplayState::FullScreen)), Ok(Value::Undefined));
    assert_eq!(s.display_state, StageDisplayState::FullScreenInteractive);
    assert_eq!(display_state(&s), text("fullScreenInteractive"));
}

#[test]
fn display_state_refuses_unknown_values() {
    let mut s = stage();
    let before = s;
    let r = set_display_state(&mut s, None);
    assert_eq!(
        r.unwrap_err().message,
        "ArgumentError: Error #2008: Parameter displayState must be one of the accepted values."
    );
    assert_eq!(s, before);
}

#[test]
fn scale_mode_reads_back_and_refuses_unknown_values() {
    let mut s = stage();
    assert_eq!(scale_mode(&s), text("showAll"));
    assert_eq!(set_scale_mode(&mut s, Some(StageScaleMode::NoScale)), Ok(Value::Undefined));
    assert_eq!(scale_mode(&s), text("noScale"));
    let r = set_scale_mode(&mut s, None);
    assert_eq!(
        r.unwrap_err().message,
        "ArgumentError: Error #2008: Parameter scaleMode must be one of the accepted values."
    );
    assert_eq!(s.scale_mode, StageScaleMode::NoScale);
}

#[test]
fn quality_names_and_ignored_unknown_values() {
    let mut s = stage();
    assert_eq!(quality(&s), text("HIGH"));
    set_quality(&mut s, Some(StageQuality::High16x16Linear));
    assert_eq!(quality(&s), text("16X16LINEAR"));
    assert_eq!(set_quality(&mut s, None), Value::Undefined);
    assert_eq!(quality(&s), text("16X16LINEAR"));
    set_quality(&mut s, Some(StageQuality::Low));
    assert_eq!(quality(&s), text("LOW"));
}

#[test]
fn context_menu_flag_and_hiding_built_in_items() {
    let mut s = stage();
    assert_eq!(show_default_context_menu(&s), Value::Bool(true));
    set_show_default_context_menu(&mut s, false);
    assert_eq!(show_default_context_menu(&s), Value::Bool(false));
    set_show_default_context_menu(&mut s, true);
    assert_eq!(hide_built_in_items(&mut s), Value::Undefined);
    assert_eq!(show_default_context_menu(&s), Value::Bool(false));
}

#[test]
fn color_defaults_to_white_and_reads_back_opaque() {
    let mut s = stage();
    assert_eq!(color(Some(&s)), Value::Unsigned(0xffff_ffff));
    assert_eq!(color(None), Value::Undefined);
    set_color(&mut s, 0x12_3456);
    assert_eq!(s.background_color, Some(Color { r: 0x12, g: 0x34, b: 0x56, a: 255 }));
    assert_eq!(color(Some(&s)), Value::Unsigned(0xff12_3456));
    set_color(&mut s, 0xab12_3456);
    assert_eq!(color(Some(&s)), Value::Unsigned(0xff12_3456));
}

#[test]
fn rgba_conversions() {
    assert_eq!(to_rgba(Color { r: 1, g: 2, b: 3, a: 4 }), 0x0401_0203);
    assert_eq!(from_rgb(0x00a0_b0c0, 7), Color { r: 0xa0, g: 0xb0, b: 0xc0, a: 7 });
    for rgb in [0u32, 0x00ff_ffff, 0x0012_3456, 0xffff_ffff] {
        assert_eq!(to_rgba(from_rgb(rgb, 255)), 0xff00_0000 + rgb % 0x100_0000);
    }
}

#[test]
fn size_and_fixed_answers() {
    let s = stage();
    assert_eq!(stage_width(Some(&s)), Value::Unsigned(550));
    assert_eq!(stage_height(Some(&s)), Value::Unsigned(400));
    assert_eq!(stage_width(None), Value::Undefined);
    assert_eq!(allows_full_screen(), Value::Bool(true));
    assert_eq!(allows_full_screen_interactive(), Value::Bool(false));
    assert_eq!(name(), Value::Null);
    assert_eq!(
        instance_init().unwrap_err().message,
        "You cannot construct new instances of the Stage."
    );
}

#[test]
fn focus_accepts_display_objects_and_null_only() {
    let mut s = stage();
    assert_eq!(focus(&s), Value::Null);
    assert_eq!(set_focus(&mut s, FocusTarget::DisplayObject(ObjectId(7))), Ok(Value::Undefined));
    assert_eq!(focus(&s), Value::Object(ObjectId(7)));
    let r = set_focus(&mut s, FocusTarget::Other);
    assert_eq!(r.unwrap_err().message, "Cannot set focus to non-DisplayObject");
    assert_eq!(focus(&s), Value::Object(ObjectId(7)));
    assert_eq!(set_focus(&mut s, FocusTarget::Null), Ok(Value::Undefined));
    assert_eq!(focus(&s), Value::Null);
}

#[test]
fn locked_properties_refuse_with_their_message() {
    assert_eq!(
        set_locked_property(LockedProperty::Rotation).unwrap_err().message,
        "Error: You cannot rotate the stage."
    );
    assert_eq!(
        set_locked_property(LockedProperty::LoaderInfo).unwrap_err().message,
        "Error: You cannot set the blend mode of the stage."
    );
    assert_eq!(
        set_locked_property(LockedProperty::X).unwrap_err().message,
        "Error: You cannot move the stage horizontally."
    );
}

#[test]
fn override_traits_follow_the_table() {
    let table = vec![
        PropertyEntry { name: "a", getter: None, setter: Some(StageNative::SetAlign) },
        PropertyEntry { name: "b", getter: Some(StageNative::Name), setter: Some(StageNative::SetColor) },
        PropertyEntry { name: "c", getter: None, setter: None },
    ];
    let traits = define_override_traits(&table);
    assert_eq!(traits.len(), 3);
    assert_eq!(traits[0].name, "a");
    assert_eq!(traits[0].kind, AccessorKind::Setter);
    assert_eq!(traits[1].name, "b");
    assert_eq!(traits[1].kind, AccessorKind::Getter);
    assert_eq!(traits[1].method, StageNative::Name);
    assert_eq!(traits[2].kind, AccessorKind::Setter);
    assert_eq!(traits[2].method, StageNative::SetColor);
    assert!(traits.iter().all(|t| t.is_override));
}

#[test]
fn stage_class_definition() {
    let c = create_class();
    assert_eq!(c.package, "flash.display");
    assert_eq!(c.name, "Stage");
    assert_eq!(c.super_name, "DisplayObjectContainer");
    assert!(c.sealed);
    assert_eq!(c.override_traits.len(), 24);
    assert_eq!(c.override_traits[10].name, "name");
    assert_eq!(c.override_traits[10].kind, AccessorKind::Getter);
    assert_eq!(c.override_traits[11].method, StageNative::SetLocked(LockedProperty::Name));
    assert_eq!(c.public_properties.len(), 14);
    assert_eq!(c.public_properties[13].name, "quality");
}
