//! The natives of `flash.text.Font`, for an instance whose class is bound to
//! an embedded font of the movie. What the movie's library says of that
//! font is handed in; `None` when the instance has no such font.
use vstd::prelude::*;
use crate::value::{str_units, units_of, AvmError, Value};

verus! {

/// What the natives read of an embedded font.
#[derive(Clone, Debug, PartialEq, Eq)]
pub struct FontDescriptor {
    pub name: String,
    pub bold: bool,
    pub italic: bool,
}

/// The name of a font's style.
pub open spec fn style_name(bold: bool, italic: bool) -> Seq<char> {
    if bold && italic {
        "boldItalic"@
    } else if bold {
        "bold"@
    } else if italic {
        "italic"@
    } else {
        "regular"@
    }
}

/// Implements `fontName`: the font's name.
pub fn font_name(font: Option<&FontDescriptor>) -> (v: Value)
    ensures
        font is None ==> v == Value::Undefined,
        font matches Some(f) ==> (v matches Value::String(s) && s@ == units_of(f.name@)),
{
    match font {
        Some(f) => Value::String(str_units(f.name.as_str())),
        None => Value::Undefined,
    }
}

/// Implements `fontStyle`: regular, italic, bold or boldItalic.
pub fn font_style(font: Option<&FontDescriptor>) -> (v: Value)
    ensures
        font is None ==> v == Value::Undefined,
        font matches Some(f) ==> (v matches Value::String(s) && s@ == units_of(
            style_name(f.bold, f.italic),
        )),
{
    match font {
        Some(f) => {
            let name = if f.bold && f.italic {
                "boldItalic"
            } else if f.bold {
                "bold"
            } else if f.italic {
                "italic"
            } else {
                "regular"
            };
            Value::String(str_units(name))
        },
        None => Value::Undefined,
    }
}

/// Implements `fontType`: every font of a movie is embedded.
pub fn font_type(font: Option<&FontDescriptor>) -> (v: Value)
    ensures
        font is None ==> v == Value::Undefined,
        font is Some ==> (v matches Value::String(s) && s@ == units_of("embedded"@)),
{
    match font {
        Some(_) => Value::String(str_units("embedded")),
        None => Value::Undefined,
    }
}

/// Implements `Font.enumerateFonts`, which is not available.
pub fn enumerate_fonts() -> (r: Result<Value, AvmError>)
    ensures
        r matches Err(e) && e.message@ == "Font.enumerateFonts is a stub"@,
{
    Err(AvmError::new("Font.enumerateFonts is a stub"))
}

/// Implements `Font.registerFont`, which is not available.
pub fn register_font() -> (r: Result<Value, AvmError>)
    ensures
        r matches Err(e) && e.message@ == "Font.registerFont is a stub"@,
{
    Err(AvmError::new("Font.registerFont is a stub"))
}

} // verus!
