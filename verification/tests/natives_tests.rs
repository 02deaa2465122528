use ruffle::crypto::{fill_outcome, GENERATOR_FAILED, generate_random_bytes, MAX_RANDOM_BYTES, MIN_RANDOM_BYTES};
use ruffle::desktop::UiState;
use ruffle::font::{enumerate_fonts, font_name, font_style, font_type, register_font, FontDescriptor};
use ruffle::game_input::{
    get_cached_samples, get_enabled, get_id, get_is_supported, get_name, get_num_controls,
    get_sample_interval, init, set_enabled, set_sample_interval, start_caching_samples,
    stop_caching_samples, GamepadHandle, GamepadObjectData,
};
use ruffle::indexed::{
    bytearray_get_index, bytearray_get_property, bytearray_has_own_index,
    bytearray_has_own_property, get_enumerant_name, get_next_enumerant, numbered_index,
    property_is_enumerable, vector_delete_index, vector_delete_property, vector_get_property,
    vector_has_own_index, vector_has_own_property,
};
use ruffle::mouse::{class_init, hide_mouse, instance_init, show_mouse};
use ruffle::value::{str_units, AvmError, ObjectId, Value};
use ruffle::video::{picture_size, preload_frame, FrameDependency, PictureTypeCode};
use ruffle::void::{create_class, void_init, NativeMethod};

fn units(s: &str) -> Vec<u16> {
    s.encode_utf16().collect()
}

#[test]
fn str_units_is_utf16() {
    assert_eq!(str_units("abc"), units("abc"));
    assert_eq!(str_units("é\u{1F600}x"), vec![0xe9, 0xd83d, 0xde00, 0x78]);
    assert_eq!(str_units(""), Vec::<u16>::new());
}

#[test]
fn game_input_listeners_and_support() {
    let mut listeners = vec![ObjectId(1)];
    assert_eq!(init(&mut listeners, Some(ObjectId(2))), Ok(Value::Undefined));
    assert_eq!(listeners, vec![ObjectId(1), ObjectId(2)]);
    assert_eq!(init(&mut listeners, None), Ok(Value::Undefined));
    assert_eq!(listeners.len(), 2);
    assert_eq!(get_is_supported(true), Ok(Value::Bool(true)));
    assert_eq!(get_is_supported(false), Ok(Value::Bool(false)));
}

#[test]
fn game_input_device_placeholders() {
    assert_eq!(get_enabled(), Ok(Value::Bool(false)));
    assert_eq!(set_enabled(), Ok(Value::Undefined));
    assert_eq!(get_sample_interval(), Ok(Value::Integer(0)));
    assert_eq!(set_sample_interval(), Ok(Value::Undefined));
    assert_eq!(get_num_controls(), Ok(Value::Integer(0)));
    assert_eq!(get_cached_samples(), Ok(Value::Integer(0)));
    assert_eq!(start_caching_samples(), Ok(Value::Undefined));
    assert_eq!(stop_caching_samples(), Ok(Value::Undefined));
}

#[test]
fn game_input_device_id_and_name() {
    let pad = GamepadObjectData::from_handle(GamepadHandle(3));
    assert_eq!(pad.handle(), GamepadHandle(3));
    assert_eq!(get_id(Some(&pad)), Ok(Value::Integer(3)));
    assert_eq!(get_id(None), Ok(Value::Null));
    assert_eq!(get_name(Some(&pad), Some("Pad Ω")), Ok(Value::String(units("Pad Ω"))));
    assert_eq!(get_name(Some(&pad), None), Ok(Value::Null));
    assert_eq!(get_name(None, Some("Pad")), Ok(Value::Null));
}

#[test]
fn void_class_and_initializer() {
    assert_eq!(void_init(ObjectId(1), &[Value::Bool(true)]), Ok(Value::Undefined));
    let c = create_class();
    assert_eq!(c.name, units("void"));
    assert!(c.in_public_namespace);
    assert!(!c.has_super_class);
    assert_eq!(c.instance_init, NativeMethod::VoidInit);
    assert_eq!(c.class_init, NativeMethod::VoidInit);
    assert!(c.traits_loaded && c.vtable_initialized);
}

#[test]
fn mouse_hides_and_shows_the_cursor() {
    let mut ui = UiState::new(true);
    assert!(ui.mouse_visible());
    assert_eq!(hide_mouse(&mut ui), Value::Undefined);
    assert!(!ui.mouse_visible());
    assert!(ui.supports_gamepads());
    assert_eq!(show_mouse(&mut ui), Value::Undefined);
    assert!(ui.mouse_visible());
    assert_eq!(class_init(), Value::Undefined);
    assert_eq!(instance_init().unwrap_err().message, "The Mouse class cannot be constructed.");
}

#[test]
fn font_descriptions() {
    let f = FontDescriptor { name: "Arial".to_string(), bold: true, italic: false };
    assert_eq!(font_name(Some(&f)), Value::String(units("Arial")));
    assert_eq!(font_style(Some(&f)), Value::String(units("bold")));
    assert_eq!(font_type(Some(&f)), Value::String(units("embedded")));
    let g = FontDescriptor { name: String::new(), bold: true, italic: true };
    assert_eq!(font_style(Some(&g)), Value::String(units("boldItalic")));
    let h = FontDescriptor { name: String::new(), bold: false, italic: true };
    assert_eq!(font_style(Some(&h)), Value::String(units("italic")));
    let i = FontDescriptor { name: String::new(), bold: false, italic: false };
    assert_eq!(font_style(Some(&i)), Value::String(units("regular")));
    assert_eq!(font_name(None), Value::Undefined);
    assert_eq!(font_style(None), Value::Undefined);
    assert_eq!(font_type(None), Value::Undefined);
    assert_eq!(enumerate_fonts().unwrap_err().message, "Font.enumerateFonts is a stub");
    assert_eq!(register_font().unwrap_err().message, "Font.registerFont is a stub");
}

#[test]
fn vector_enumeration_counts_one_past_each_index() {
    assert_eq!(get_next_enumerant(0, 3), Some(1));
    assert_eq!(get_next_enumerant(2, 3), Some(3));
    assert_eq!(get_next_enumerant(3, 3), None);
    assert_eq!(get_next_enumerant(0, 0), None);
    assert_eq!(get_enumerant_name(1, 3), Value::Unsigned(0));
    assert_eq!(get_enumerant_name(3, 3), Value::Unsigned(2));
    assert_eq!(get_enumerant_name(0, 3), Value::Undefined);
    assert_eq!(get_enumerant_name(4, 3), Value::String(Vec::new()));
    let mut i = 0;
    let mut names = Vec::new();
    while let Some(next) = get_next_enumerant(i, 3) {
        names.push(get_enumerant_name(next, 3));
        i = next;
    }
    assert_eq!(names, vec![Value::Unsigned(0), Value::Unsigned(1), Value::Unsigned(2)]);
}

#[test]
fn vector_and_bytearray_indices() {
    assert!(property_is_enumerable("2", 3));
    assert!(property_is_enumerable("3", 3));
    assert!(property_is_enumerable("+0", 3));
    assert!(!property_is_enumerable("4", 3));
    assert!(!property_is_enumerable("-1", 3));
    assert!(!property_is_enumerable("length", 3));
    assert!(!property_is_enumerable("4294967296", usize::MAX));
    assert!(vector_has_own_index(2, 3));
    assert!(!vector_has_own_index(3, 3));
    assert!(vector_delete_index(5));
    let bytes = vec![7u8, 200];
    assert_eq!(bytearray_get_index(&bytes, 1), Value::Unsigned(200));
    assert_eq!(bytearray_get_index(&bytes, 2), Value::Undefined);
    assert!(bytearray_has_own_index(&bytes, 0));
    assert!(!bytearray_has_own_index(&bytes, 2));
}

#[test]
fn video_frames_and_errors() {
    assert_eq!(preload_frame(Some(PictureTypeCode::IFrame)), Ok(FrameDependency::Standalone));
    assert_eq!(preload_frame(Some(PictureTypeCode::PFrame)), Ok(FrameDependency::Past));
    assert_eq!(preload_frame(Some(PictureTypeCode::DisposablePFrame)), Ok(FrameDependency::Past));
    assert_eq!(
        preload_frame(Some(PictureTypeCode::Other)),
        Err("Invalid picture type code!".to_string())
    );
    assert_eq!(preload_frame(None), Err("Picture in video stream is not a picture".to_string()));
    assert_eq!(picture_size(Some((320, 240))), Ok((320, 240)));
    assert_eq!(picture_size(None), Err("H.263 decoder error!".to_string()));
}

#[test]
fn random_bytes_lengths() {
    let invalid = "Error: Error #2004: One of the parameters is invalid";
    assert_eq!(generate_random_bytes(0).unwrap_err().message, invalid);
    assert_eq!(generate_random_bytes(1025).unwrap_err().message, invalid);
    assert_eq!(generate_random_bytes(u32::MAX).unwrap_err().message, invalid);
    assert_eq!(generate_random_bytes(MIN_RANDOM_BYTES).unwrap().len(), 1);
    assert_eq!(generate_random_bytes(16).unwrap().len(), 16);
    assert_eq!(generate_random_bytes(MAX_RANDOM_BYTES).unwrap().len(), 1024);
}

#[test]
fn random_bytes_are_not_left_zeroed() {
    let bytes = generate_random_bytes(MAX_RANDOM_BYTES).unwrap();
    assert!(bytes.iter().any(|b| *b != 0));
}

#[test]
fn fill_outcome_passes_bytes_or_error() {
    assert_eq!(fill_outcome(vec![1, 2], Ok(())), Ok(vec![1, 2]));
    assert_eq!(
        fill_outcome(vec![1, 2], Err("no entropy".to_string())),
        Err(AvmError { message: "Error: random number generator failed: no entropy".to_string() })
    );
}

#[test]
fn numbered_property_names() {
    assert_eq!(numbered_index(true, Some("12")), Some(12));
    assert_eq!(numbered_index(true, Some("+7")), Some(7));
    assert_eq!(numbered_index(false, Some("12")), None);
    assert_eq!(numbered_index(true, Some("1.5")), None);
    assert_eq!(numbered_index(true, Some("")), None);
    assert_eq!(numbered_index(true, None), None);
}

#[test]
fn vector_properties_by_name() {
    let elements = vec![Value::Integer(4), Value::String(units("b"))];
    assert_eq!(vector_get_property(&elements, true, Some("1")), Some(Value::String(units("b"))));
    assert_eq!(vector_get_property(&elements, true, Some("2")), Some(Value::Undefined));
    assert_eq!(vector_get_property(&elements, true, Some("fixed")), None);
    assert_eq!(vector_get_property(&elements, false, Some("0")), None);
    assert_eq!(vector_has_own_property(2, true, Some("1")), Some(true));
    assert_eq!(vector_has_own_property(2, true, Some("2")), Some(false));
    assert_eq!(vector_has_own_property(2, true, Some("x")), None);
    assert_eq!(vector_delete_property(true, Some("0")), Some(true));
    assert_eq!(vector_delete_property(true, Some("x")), None);
}

#[test]
fn bytearray_properties_by_name() {
    let bytes = vec![1u8, 255];
    assert_eq!(bytearray_get_property(&bytes, true, Some("1")), Some(Value::Unsigned(255)));
    assert_eq!(bytearray_get_property(&bytes, true, Some("9")), Some(Value::Undefined));
    assert_eq!(bytearray_get_property(&bytes, true, Some("length")), None);
    assert_eq!(bytearray_has_own_property(&bytes, true, Some("0")), Some(true));
    assert_eq!(bytearray_has_own_property(&bytes, true, Some("2")), Some(false));
    assert_eq!(bytearray_has_own_property(&bytes, false, Some("0")), None);
}

#[test]
fn generator_failures_are_told_apart_from_error_2004() {
    let r = fill_outcome(vec![0], Err("Error #2004: One of the parameters is invalid".to_string()));
    let message = r.unwrap_err().message;
    assert!(message.starts_with(GENERATOR_FAILED));
    assert_ne!(message, "Error: Error #2004: One of the parameters is invalid");
}
