//! The state of AVM2 `RegExp` objects and the natives that read and write
//! it: flag parsing, the flag getters, `lastIndex`, `source` and the
//! `/source/flags` form that `valueOf` gives, and the array that `exec`
//! builds from a match. Strings are UTF-16 code units.
use vstd::prelude::*;
use crate::value::Value;

verus! {

/// The flags of a regular expression.
#[derive(Clone, Copy, Debug, PartialEq, Eq, Structural)]
pub struct RegExpFlags {
    pub global: bool,
    pub ignore_case: bool,
    pub multiline: bool,
    pub dotall: bool,
    pub extended: bool,
}

/// The code units of the flag letters.
pub const UNIT_G: u16 = 0x67;
pub const UNIT_I: u16 = 0x69;
pub const UNIT_M: u16 = 0x6d;
pub const UNIT_S: u16 = 0x73;
pub const UNIT_X: u16 = 0x78;
pub const UNIT_SLASH: u16 = 0x2f;

impl RegExpFlags {
    /// No flag set.
    pub fn empty() -> (f: RegExpFlags)
        ensures
            f == spec_no_flags(),
    {
        RegExpFlags { global: false, ignore_case: false, multiline: false, dotall: false, extended: false }
    }
}

pub open spec fn spec_no_flags() -> RegExpFlags {
    RegExpFlags { global: false, ignore_case: false, multiline: false, dotall: false, extended: false }
}

/// `f` with the flag that the code unit `c` names set; other units are
/// ignored.
pub open spec fn add_flag_unit(f: RegExpFlags, c: u16) -> RegExpFlags {
    if c == UNIT_S {
        RegExpFlags { dotall: true, ..f }
    } else if c == UNIT_X {
        RegExpFlags { extended: true, ..f }
    } else if c == UNIT_G {
        RegExpFlags { global: true, ..f }
    } else if c == UNIT_I {
        RegExpFlags { ignore_case: true, ..f }
    } else if c == UNIT_M {
        RegExpFlags { multiline: true, ..f }
    } else {
        f
    }
}

/// The flags that a flag string sets.
pub open spec fn parse_flag_units(s: Seq<u16>) -> RegExpFlags
    decreases s.len(),
{
    if s.len() == 0 {
        spec_no_flags()
    } else {
        add_flag_unit(parse_flag_units(s.drop_last()), s.last())
    }
}

/// The flag letters that `valueOf` writes, in the order g, i, m, s, x.
pub open spec fn flag_letters(f: RegExpFlags) -> Seq<u16> {
    (if f.global { seq![UNIT_G] } else { Seq::empty() }) + (if f.ignore_case {
        seq![UNIT_I]
    } else {
        Seq::empty()
    }) + (if f.multiline { seq![UNIT_M] } else { Seq::empty() }) + (if f.dotall {
        seq![UNIT_S]
    } else {
        Seq::empty()
    }) + (if f.extended { seq![UNIT_X] } else { Seq::empty() })
}

/// The flags named by a flag string such as `"gi"`: each of the letters
/// s, x, g, i and m sets its flag; any other unit is skipped.
pub fn parse_flags(flag_chars: &Vec<u16>) -> (f: RegExpFlags)
    ensures
        f == parse_flag_units(flag_chars@),
{
    let mut flags = RegExpFlags::empty();
    let mut i: usize = 0;
    while i < flag_chars.len()
        invariant
            i <= flag_chars@.len(),
            flags == parse_flag_units(flag_chars@.subrange(0, i as int)),
        decreases flag_chars@.len() - i,
    {
        let c = flag_chars[i];
        if c == UNIT_S {
            flags.dotall = true;
        } else if c == UNIT_X {
            flags.extended = true;
        } else if c == UNIT_G {
            flags.global = true;
        } else if c == UNIT_I {
            flags.ignore_case = true;
        } else if c == UNIT_M {
            flags.multiline = true;
        }
        assert(flag_chars@.subrange(0, i + 1).drop_last() == flag_chars@.subrange(0, i as int));
        i = i + 1;
    }
    assert(flag_chars@.subrange(0, flag_chars@.len() as int) == flag_chars@);
    flags
}

/// A regular expression: its source, its flags and the index that the next
/// global match starts from.
#[derive(Clone, Debug)]
pub struct RegExp {
    source: Vec<u16>,
    flags: RegExpFlags,
    last_index: usize,
}

impl RegExp {
    pub closed spec fn spec_source(&self) -> Seq<u16> {
        self.source@
    }

    pub closed spec fn spec_flags(&self) -> RegExpFlags {
        self.flags
    }

    pub closed spec fn spec_last_index(&self) -> usize {
        self.last_index
    }

    /// A regular expression with the given source, no flags and index 0.
    pub fn new(source: Vec<u16>) -> (r: RegExp)
        ensures
            r.spec_source() == source@,
            r.spec_flags() == spec_no_flags(),
            r.spec_last_index() == 0,
    {
        RegExp { source, flags: RegExpFlags::empty(), last_index: 0 }
    }

    pub fn source(&self) -> (s: &Vec<u16>)
        ensures
            s@ == self.spec_source(),
    {
        &self.source
    }

    pub fn set_source(&mut self, source: Vec<u16>)
        ensures
            final(self).spec_source() == source@,
            final(self).spec_flags() == old(self).spec_flags(),
            final(self).spec_last_index() == old(self).spec_last_index(),
    {
        self.source = source;
    }

    pub fn flags(&self) -> (f: RegExpFlags)
        ensures
            f == self.spec_flags(),
    {
        self.flags
    }

    pub fn set_flags(&mut self, flags: RegExpFlags)
        ensures
            final(self).spec_flags() == flags,
            final(self).spec_source() == old(self).spec_source(),
            final(self).spec_last_index() == old(self).spec_last_index(),
    {
        self.flags = flags;
    }

    pub fn last_index(&self) -> (i: usize)
        ensures
            i == self.spec_last_index(),
    {
        self.last_index
    }

    pub fn set_last_index(&mut self, i: usize)
        ensures
            final(self).spec_last_index() == i,
            final(self).spec_source() == old(self).spec_source(),
            final(self).spec_flags() == old(self).spec_flags(),
    {
        self.last_index = i;
    }

    /// The `/source/flags` form of the expression, as `valueOf` gives it.
    pub fn value_of(&self) -> (s: Vec<u16>)
        ensures
            s@ == seq![UNIT_SLASH] + self.spec_source() + seq![UNIT_SLASH] + flag_letters(
                self.spec_flags(),
            ),
    {
        let mut s: Vec<u16> = Vec::new();
        s.push(UNIT_SLASH);
        let mut i: usize = 0;
        while i < self.source.len()
            invariant
                i <= self.source@.len(),
                s@ == seq![UNIT_SLASH] + self.source@.subrange(0, i as int),
            decreases self.source@.len() - i,
        {
            s.push(self.source[i]);
            i = i + 1;
            assert(self.source@.subrange(0, i as int) == self.source@.subrange(0, i - 1).push(
                self.source@[i - 1],
            ));
        }
        assert(self.source@.subrange(0, self.source@.len() as int) == self.source@);
        s.push(UNIT_SLASH);
        let ghost head = s@;
        let f = self.flags;
        if f.global {
            s.push(UNIT_G);
        }
        let ghost g1 = s@;
        if f.ignore_case {
            s.push(UNIT_I);
        }
        let ghost g2 = s@;
        if f.multiline {
            s.push(UNIT_M);
        }
        let ghost g3 = s@;
        if f.dotall {
            s.push(UNIT_S);
        }
        let ghost g4 = s@;
        if f.extended {
            s.push(UNIT_X);
        }
        assert(s@ =~= head + flag_letters(f));
        s
    }
}

/// Implements `RegExp`'s instance initializer on a `RegExp` object: the
/// source and the flags come from the first two arguments as strings.
pub fn instance_init(this: &mut RegExp, source: Vec<u16>, flag_chars: &Vec<u16>) -> (v: Value)
    ensures
        v == Value::Undefined,
        final(this).spec_source() == source@,
        final(this).spec_flags() == parse_flag_units(flag_chars@),
        final(this).spec_last_index() == old(this).spec_last_index(),
{
    this.set_source(source);
    let flags = parse_flags(flag_chars);
    this.set_flags(flags);
    Value::Undefined
}

/// Implements the getter of one flag: a `Bool` on a `RegExp` object,
/// `Undefined` elsewhere.
fn flag_getter(this: Option<&RegExp>, which: u16) -> (v: Value)
    ensures
        v == (match this {
            Some(re) => Value::Bool(flag_of(re.spec_flags(), which)),
            None => Value::Undefined,
        }),
{
    match this {
        Some(re) => {
            let f = re.flags();
            let b = if which == UNIT_S {
                f.dotall
            } else if which == UNIT_X {
                f.extended
            } else if which == UNIT_G {
                f.global
            } else if which == UNIT_I {
                f.ignore_case
            } else {
                f.multiline
            };
            Value::Bool(b)
        },
        None => Value::Undefined,
    }
}

/// The flag that a letter names (multiline for any other unit).
pub open spec fn flag_of(f: RegExpFlags, which: u16) -> bool {
    if which == UNIT_S {
        f.dotall
    } else if which == UNIT_X {
        f.extended
    } else if which == UNIT_G {
        f.global
    } else if which == UNIT_I {
        f.ignore_case
    } else {
        f.multiline
    }
}

/// Implements `RegExp.dotall`.
pub fn dotall(this: Option<&RegExp>) -> (v: Value)
    ensures
        v == (match this {
            Some(re) => Value::Bool(re.spec_flags().dotall),
            None => Value::Undefined,
        }),
{
    flag_getter(this, UNIT_S)
}

/// Implements `RegExp.extended`.
pub fn extended(this: Option<&RegExp>) -> (v: Value)
    ensures
        v == (match this {
            Some(re) => Value::Bool(re.spec_flags().extended),
            None => Value::Undefined,
        }),
{
    flag_getter(this, UNIT_X)
}

/// Implements `RegExp.global`.
pub fn global(this: Option<&RegExp>) -> (v: Value)
    ensures
        v == (match this {
            Some(re) => Value::Bool(re.spec_flags().global),
            None => Value::Undefined,
        }),
{
    flag_getter(this, UNIT_G)
}

/// Implements `RegExp.ignoreCase`.
pub fn ignore_case(this: Option<&RegExp>) -> (v: Value)
    ensures
        v == (match this {
            Some(re) => Value::Bool(re.spec_flags().ignore_case),
            None => Value::Undefined,
        }),
{
    flag_getter(this, UNIT_I)
}

/// Implements `RegExp.multiline`.
pub fn multiline(this: Option<&RegExp>) -> (v: Value)
    ensures
        v == (match this {
            Some(re) => Value::Bool(re.spec_flags().multiline),
            None => Value::Undefined,
        }),
{
    flag_getter(this, UNIT_M)
}

/// Implements `RegExp.lastIndex`'s getter.
pub fn last_index(this: Option<&RegExp>) -> (v: Value)
    ensures
        v == (match this {
            Some(re) => crate::value::spec_value_from_usize(re.spec_last_index()),
            None => Value::Undefined,
        }),
{
    match this {
        Some(re) => Value::from_usize(re.last_index()),
        None => Value::Undefined,
    }
}

/// Implements `RegExp.lastIndex`'s setter on a `RegExp` object, with the
/// argument already converted to `uint`.
pub fn set_last_index(this: &mut RegExp, i: u32) -> (v: Value)
    ensures
        v == Value::Undefined,
        final(this).spec_last_index() == i as usize,
        final(this).spec_source() == old(this).spec_source(),
        final(this).spec_flags() == old(this).spec_flags(),
{
    this.set_last_index(i as usize);
    Value::Undefined
}

/// Implements `RegExp.source`.
pub fn source(this: Option<&RegExp>) -> (v: Value)
    ensures
        this is None ==> v == Value::Undefined,
        this matches Some(re) ==> (v matches Value::String(s) && s@ == re.spec_source()),
{
    match this {
        Some(re) => Value::String(copy_units(&re.source)),
        None => Value::Undefined,
    }
}

/// A copy of a string of code units.
fn copy_units(s: &Vec<u16>) -> (r: Vec<u16>)
    ensures
        r@ == s@,
{
    let mut r: Vec<u16> = Vec::new();
    let mut i: usize = 0;
    while i < s.len()
        invariant
            i <= s@.len(),
            r@ == s@.subrange(0, i as int),
        decreases s@.len() - i,
    {
        r.push(s[i]);
        i = i + 1;
        assert(s@.subrange(0, i as int) == s@.subrange(0, i - 1).push(s@[i - 1]));
    }
    assert(s@.subrange(0, s@.len() as int) == s@);
    r
}

/// Reading back the letters that `valueOf` writes gives the same flags.
pub proof fn law_flag_letters_round_trip(f: RegExpFlags)
    ensures
        parse_flag_units(flag_letters(f)) == f,
{
    let e = Seq::<u16>::empty();
    let p1 = if f.global { seq![UNIT_G] } else { e };
    let p2 = p1 + (if f.ignore_case { seq![UNIT_I] } else { e });
    let p3 = p2 + (if f.multiline { seq![UNIT_M] } else { e });
    let p4 = p3 + (if f.dotall { seq![UNIT_S] } else { e });
    let p5 = p4 + (if f.extended { seq![UNIT_X] } else { e });
    assert(flag_letters(f) == p5);
    lemma_parse_append(p4, f.extended, UNIT_X);
    lemma_parse_append(p3, f.dotall, UNIT_S);
    lemma_parse_append(p2, f.multiline, UNIT_M);
    lemma_parse_append(p1, f.ignore_case, UNIT_I);
    lemma_parse_append(e, f.global, UNIT_G);
    assert(e + (if f.global { seq![UNIT_G] } else { e }) =~= p1);
    assert(parse_flag_units(e) == spec_no_flags());
}

/// A match of a regular expression in a text: where it starts, and the
/// range of each group (group 0 is the whole match), `None` for a group
/// that took no part in it.
#[derive(Clone, Debug)]
pub struct RegExpMatch {
    pub start: usize,
    pub groups: Vec<Option<(usize, usize)>>,
}

/// The array that `exec` answers for a match: one element per group, with
/// the index where the match starts and the text it searched.
#[derive(Clone, Debug)]
pub struct ExecResult {
    pub elements: Vec<Value>,
    pub index: usize,
    pub input: Vec<u16>,
}

/// Whether every group of a match lies within a text of `len` units.
pub open spec fn groups_within(groups: Seq<Option<(usize, usize)>>, len: nat) -> bool {
    forall|i: int|
        0 <= i < groups.len() ==> (#[trigger] groups[i] matches Some((a, b)) ==> a <= b <= len)
}

/// The element of one group: its text, or `undefined` when it took no
/// part in the match.
pub open spec fn group_element(text: Seq<u16>, group: Option<(usize, usize)>, element: Value) -> bool {
    match group {
        Some((a, b)) => element matches Value::String(s) && s@ == text.subrange(a as int, b as int),
        None => element == Value::Undefined,
    }
}

/// The text of units `a .. b`.
fn substring(text: &Vec<u16>, a: usize, b: usize) -> (r: Vec<u16>)
    requires
        a <= b <= text@.len(),
    ensures
        r@ == text@.subrange(a as int, b as int),
{
    let mut r: Vec<u16> = Vec::new();
    let mut i: usize = a;
    while i < b
        invariant
            a <= i <= b <= text@.len(),
            r@ == text@.subrange(a as int, i as int),
        decreases b - i,
    {
        r.push(text[i]);
        i = i + 1;
        assert(r@ =~= text@.subrange(a as int, i as int));
    }
    r
}

/// Whether `e` is the array that `exec` builds for the match `m` in
/// `text`: the match's index, the text as `input`, and one element per
/// group.
pub open spec fn exec_array(text: Seq<u16>, m: RegExpMatch, e: ExecResult) -> bool {
    &&& e.index == m.start
    &&& e.input@ == text
    &&& e.elements@.len() == m.groups@.len()
    &&& forall|i: int|
        0 <= i < m.groups@.len() ==> #[trigger] group_element(text, m.groups@[i], e.elements@[i])
}

/// Implements what `exec` answers once the expression has been run on
/// `text`: `None` (the script sees `null`) without a match; else the
/// array of the groups' texts, `undefined` for a group that took no part,
/// with the match's index and the text as `input`.
pub fn exec_result(text: &Vec<u16>, matched: Option<&RegExpMatch>) -> (r: Option<ExecResult>)
    requires
        matched matches Some(m) ==> groups_within(m.groups@, text@.len()),
    ensures
        matched is None ==> r is None,
        matched matches Some(m) ==> (r matches Some(e) && exec_array(text@, *m, e)),
{
    match matched {
        None => None,
        Some(m) => {
            let mut elements: Vec<Value> = Vec::new();
            let mut i: usize = 0;
            while i < m.groups.len()
                invariant
                    i <= m.groups@.len(),
                    groups_within(m.groups@, text@.len()),
                    elements@.len() == i,
                    forall|k: int|
                        0 <= k < i ==> #[trigger] group_element(
                            text@,
                            m.groups@[k],
                            elements@[k],
                        ),
                decreases m.groups@.len() - i,
            {
                let element = match m.groups[i] {
                    Some((a, b)) => {
                        assert(m.groups@[i as int] matches Some((a2, b2)) ==> a2 <= b2 <= text@.len());
                        Value::String(substring(text, a, b))
                    },
                    None => Value::Undefined,
                };
                elements.push(element);
                i = i + 1;
            }
            let input = text.clone();
            assert(input@ =~= text@);
            Some(ExecResult { elements, index: m.start, input })
        },
    }
}

/// What `exec` answers.
#[derive(Clone, Debug)]
pub enum ExecAnswer {
    /// The receiver is not a regular expression.
    Undefined,
    /// The expression does not match.
    Null,
    /// The array built for the match.
    Match(ExecResult),
}

/// Implements `exec`: `undefined` when the receiver is not a regular
/// expression; else, given what running it on `text` matched, `null`
/// without a match and the array of the groups with one.
pub fn exec(this: Option<&RegExp>, text: &Vec<u16>, matched: Option<&RegExpMatch>) -> (r: ExecAnswer)
    requires
        matched matches Some(m) ==> groups_within(m.groups@, text@.len()),
    ensures
        this is None ==> r is Undefined,
        this is Some && matched is None ==> r is Null,
        this is Some ==> (matched matches Some(m) ==> (r matches ExecAnswer::Match(e) && exec_array(
            text@,
            *m,
            e,
        ))),
{
    match this {
        None => ExecAnswer::Undefined,
        Some(_) => match exec_result(text, matched) {
            Some(e) => ExecAnswer::Match(e),
            None => ExecAnswer::Null,
        },
    }
}

proof fn lemma_parse_append(s: Seq<u16>, b: bool, c: u16)
    ensures
        parse_flag_units(s + (if b { seq![c] } else { Seq::empty() })) == (if b {
            add_flag_unit(parse_flag_units(s), c)
        } else {
            parse_flag_units(s)
        }),
{
    if b {
        assert((s + seq![c]).drop_last() =~= s);
    } else {
        assert(s + Seq::<u16>::empty() =~= s);
    }
}

/// A flag string sets each flag exactly when its letter occurs in it,
/// anywhere and in any order: `g` global, `i` ignoreCase, `m` multiline,
/// `s` dotall, `x` extended; other letters set nothing.
pub proof fn law_flags_are_their_letters(s: Seq<u16>)
    ensures
        parse_flag_units(s).global == s.contains(UNIT_G),
        parse_flag_units(s).ignore_case == s.contains(UNIT_I),
        parse_flag_units(s).multiline == s.contains(UNIT_M),
        parse_flag_units(s).dotall == s.contains(UNIT_S),
        parse_flag_units(s).extended == s.contains(UNIT_X),
    decreases s.len(),
{
    if s.len() > 0 {
        let p = s.drop_last();
        law_flags_are_their_letters(p);
        assert forall|c: u16| s.contains(c) <==> (p.contains(c) || s.last() == c) by {
            if s.contains(c) {
                let j = choose|j: int| 0 <= j < s.len() && s[j] == c;
                if j < s.len() - 1 {
                    assert(p[j] == c);
                }
            }
            if p.contains(c) {
                let j = choose|j: int| 0 <= j < p.len() && p[j] == c;
                assert(s[j] == c);
            }
            if s.last() == c {
                assert(s[s.len() - 1] == c);
            }
        }
    }
}

} // verus!
