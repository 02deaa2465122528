use ruffle::regexp::{
    exec, exec_result, ExecAnswer, RegExpMatch, dotall, extended, global, ignore_case, instance_init, last_index, multiline, parse_flags,
    set_last_index, source, RegExp, RegExpFlags,
};
use ruffle::value::Value;

fn units(s: &str) -> Vec<u16> {
    s.encode_utf16().collect()
}

#[test]
fn parse_flags_sets_each_known_letter() {
    let f = parse_flags(&units("gimsx"));
    assert_eq!(
        f,
        RegExpFlags { global: true, ignore_case: true, multiline: true, dotall: true, extended: true }
    );
    assert_eq!(parse_flags(&units("")), RegExpFlags::empty());
    let g = parse_flags(&units("qgg"));
    assert_eq!(g, RegExpFlags { global: true, ..RegExpFlags::empty() });
    let h = parse_flags(&units("Gx"));
    assert_eq!(h, RegExpFlags { extended: true, ..RegExpFlags::empty() });
}

#[test]
fn value_of_writes_source_and_flags_in_fixed_order() {
    let mut re = RegExp::new(units("a+b"));
    assert_eq!(re.value_of(), units("/a+b/"));
    re.set_flags(parse_flags(&units("xsmig")));
    assert_eq!(re.value_of(), units("/a+b/gimsx"));
    re.set_flags(parse_flags(&units("mg")));
    assert_eq!(re.value_of(), units("/a+b/gm"));
    let empty = RegExp::new(Vec::new());
    assert_eq!(empty.value_of(), units("//"));
}

#[test]
fn flag_letters_round_trip_through_value_of() {
    for bits in 0u8..32 {
        let f = RegExpFlags {
            global: bits & 1 != 0,
            ignore_case: bits & 2 != 0,
            multiline: bits & 4 != 0,
            dotall: bits & 8 != 0,
            extended: bits & 16 != 0,
        };
        let mut re = RegExp::new(Vec::new());
        re.set_flags(f);
        let text = re.value_of();
        assert_eq!(parse_flags(&text[2..].to_vec()), f);
    }
}

#[test]
fn instance_init_sets_source_and_flags() {
    let mut re = RegExp::new(units("old"));
    re.set_last_index(4);
    let v = instance_init(&mut re, units("new"), &units("i"));
    assert_eq!(v, Value::Undefined);
    assert_eq!(re.source(), &units("new"));
    assert_eq!(re.flags(), RegExpFlags { ignore_case: true, ..RegExpFlags::empty() });
    assert_eq!(re.last_index(), 4);
}

#[test]
fn flag_getters_and_non_regexp_receivers() {
    let mut re = RegExp::new(units("x"));
    re.set_flags(parse_flags(&units("sg")));
    assert_eq!(dotall(Some(&re)), Value::Bool(true));
    assert_eq!(extended(Some(&re)), Value::Bool(false));
    assert_eq!(global(Some(&re)), Value::Bool(true));
    assert_eq!(ignore_case(Some(&re)), Value::Bool(false));
    assert_eq!(multiline(Some(&re)), Value::Bool(false));
    assert_eq!(dotall(None), Value::Undefined);
    assert_eq!(multiline(None), Value::Undefined);
    assert_eq!(source(Some(&re)), Value::String(units("x")));
    assert_eq!(source(None), Value::Undefined);
}

#[test]
fn last_index_reads_and_writes() {
    let mut re = RegExp::new(units("x"));
    assert_eq!(last_index(Some(&re)), Value::Integer(0));
    assert_eq!(set_last_index(&mut re, 17), Value::Undefined);
    assert_eq!(last_index(Some(&re)), Value::Integer(17));
    assert_eq!(last_index(None), Value::Undefined);
    re.set_source(units("y"));
    assert_eq!(re.last_index(), 17);
}

#[test]
fn value_from_usize_switches_to_number_past_int_range() {
    assert_eq!(Value::from_usize(5), Value::Integer(5));
    assert_eq!(Value::from_usize(0x7fff_ffff), Value::Integer(0x7fff_ffff));
    assert_eq!(Value::from_usize(0x8000_0000), Value::Number(0x8000_0000));
}

#[test]
fn exec_builds_the_group_array() {
    let text = units("say hello world");
    let m = RegExpMatch { start: 4, groups: vec![Some((4, 15)), Some((4, 9)), None, Some((10, 10))] };
    let r = exec_result(&text, Some(&m)).unwrap();
    assert_eq!(r.index, 4);
    assert_eq!(r.input, text);
    assert_eq!(
        r.elements,
        vec![
            Value::String(units("hello world")),
            Value::String(units("hello")),
            Value::Undefined,
            Value::String(Vec::new()),
        ]
    );
    assert!(exec_result(&text, None).is_none());
}

#[test]
fn exec_native_answers_by_receiver_and_match() {
    let re = RegExp::new(units("l+"));
    let text = units("hello");
    let m = RegExpMatch { start: 2, groups: vec![Some((2, 4))] };
    assert!(matches!(exec(None, &text, Some(&m)), ExecAnswer::Undefined));
    assert!(matches!(exec(Some(&re), &text, None), ExecAnswer::Null));
    match exec(Some(&re), &text, Some(&m)) {
        ExecAnswer::Match(e) => {
            assert_eq!(e.index, 2);
            assert_eq!(e.elements, vec![Value::String(units("ll"))]);
            assert_eq!(e.input, text);
        }
        _ => panic!("a match gives the array"),
    }
}
