//! A census of the tags and actions in a SWF movie: one [`Row`] of counts
//! per file, as the desktop survey tool writes them out.
//!
//! Reading the file and decoding its tags happen outside; the census takes
//! the decoded tags, each with the outcome of reading its actions in turn.
use vstd::prelude::*;

verus! {

/// The number of tag columns in a [`Row`].
pub const TAG_KINDS: usize = 54;
/// The number of action columns in a [`Row`].
pub const ACTION_KINDS: usize = 100;

/// The kinds of SWF tags that a census counts, in column order.
#[derive(Clone, Copy, Debug, PartialEq, Eq, Structural)]
pub enum TagKind {
    ScriptLimits,
    ShowFrame,
    Protect,
    CsmTextSettings,
    DebugId,
    DefineBinaryData,
    DefineBits,
    DefineBitsJpeg2,
    DefineBitsJpeg3,
    DefineBitsLossless,
    DefineButton,
    DefineButton2,
    DefineButtonColorTransform,
    DefineButtonSound,
    DefineEditText,
    DefineFont,
    DefineFont2,
    DefineFont4,
    DefineFontAlignZones,
    DefineFontInfo,
    DefineFontName,
    DefineMorphShape,
    DefineScalingGrid,
    DefineShape,
    DefineSound,
    DefineSprite,
    DefineText,
    DefineVideoStream,
    DoAbc,
    DoAction,
    DoInitAction,
    EnableDebugger,
    EnableTelemetry,
    End,
    Metadata,
    ImportAssets,
    JpegTables,
    SetBackgroundColor,
    SetTabIndex,
    SoundStreamBlock,
    SoundStreamHead,
    SoundStreamHead2,
    StartSound,
    StartSound2,
    SymbolClass,
    PlaceObject,
    RemoveObject,
    VideoFrame,
    FileAttributes,
    FrameLabel,
    DefineSceneAndFrameLabelData,
    ProductInfo,
    ExportAssets,
    Unknown,
}

/// The kinds of AVM1 actions that a census counts, in column order.
#[derive(Clone, Copy, Debug, PartialEq, Eq, Structural)]
pub enum ActionKind {
    Add,
    Add2,
    And,
    AsciiToChar,
    BitAnd,
    BitLShift,
    BitOr,
    BitRShift,
    BitURShift,
    BitXor,
    Call,
    CallFunction,
    CallMethod,
    CastOp,
    CharToAscii,
    CloneSprite,
    ConstantPool,
    Decrement,
    DefineFunction,
    DefineFunction2,
    DefineLocal,
    DefineLocal2,
    Delete,
    Delete2,
    Divide,
    EndDrag,
    Enumerate,
    Enumerate2,
    Equals,
    Equals2,
    Extends,
    GetMember,
    GetProperty,
    GetTime,
    GetUrl,
    GetUrl2,
    GetVariable,
    GotoFrame,
    GotoFrame2,
    GotoLabel,
    Greater,
    If,
    ImplementsOp,
    Increment,
    InitArray,
    InitObject,
    InstanceOf,
    Jump,
    Less,
    Less2,
    MBAsciiToChar,
    MBCharToAscii,
    MBStringExtract,
    MBStringLength,
    Modulo,
    Multiply,
    NewMethod,
    NewObject,
    NextFrame,
    Not,
    Or,
    Play,
    Pop,
    PreviousFrame,
    Push,
    PushDuplicate,
    RandomNumber,
    RemoveSprite,
    Return,
    SetMember,
    SetProperty,
    SetTarget,
    SetTarget2,
    SetVariable,
    StackSwap,
    StartDrag,
    Stop,
    StopSounds,
    StoreRegister,
    StrictEquals,
    StringAdd,
    StringEquals,
    StringExtract,
    StringGreater,
    StringLength,
    StringLess,
    Subtract,
    TargetPath,
    Throw,
    ToInteger,
    ToNumber,
    ToString,
    ToggleQuality,
    Trace,
    Try,
    TypeOf,
    WaitForFrame,
    WaitForFrame2,
    With,
    Unknown,
}

pub open spec fn tag_index(k: TagKind) -> nat {
    match k {
        TagKind::ScriptLimits => 0,
        TagKind::ShowFrame => 1,
        TagKind::Protect => 2,
        TagKind::CsmTextSettings => 3,
        TagKind::DebugId => 4,
        TagKind::DefineBinaryData => 5,
        TagKind::DefineBits => 6,
        TagKind::DefineBitsJpeg2 => 7,
        TagKind::DefineBitsJpeg3 => 8,
        TagKind::DefineBitsLossless => 9,
        TagKind::DefineButton => 10,
        TagKind::DefineButton2 => 11,
        TagKind::DefineButtonColorTransform => 12,
        TagKind::DefineButtonSound => 13,
        TagKind::DefineEditText => 14,
        TagKind::DefineFont => 15,
        TagKind::DefineFont2 => 16,
        TagKind::DefineFont4 => 17,
        TagKind::DefineFontAlignZones => 18,
        TagKind::DefineFontInfo => 19,
        TagKind::DefineFontName => 20,
        TagKind::DefineMorphShape => 21,
        TagKind::DefineScalingGrid => 22,
        TagKind::DefineShape => 23,
        TagKind::DefineSound => 24,
        TagKind::DefineSprite => 25,
        TagKind::DefineText => 26,
        TagKind::DefineVideoStream => 27,
        TagKind::DoAbc => 28,
        TagKind::DoAction => 29,
        TagKind::DoInitAction => 30,
        TagKind::EnableDebugger => 31,
        TagKind::EnableTelemetry => 32,
        TagKind::End => 33,
        TagKind::Metadata => 34,
        TagKind::ImportAssets => 35,
        TagKind::JpegTables => 36,
        TagKind::SetBackgroundColor => 37,
        TagKind::SetTabIndex => 38,
        TagKind::SoundStreamBlock => 39,
        TagKind::SoundStreamHead => 40,
        TagKind::SoundStreamHead2 => 41,
        TagKind::StartSound => 42,
        TagKind::StartSound2 => 43,
        TagKind::SymbolClass => 44,
        TagKind::PlaceObject => 45,
        TagKind::RemoveObject => 46,
        TagKind::VideoFrame => 47,
        TagKind::FileAttributes => 48,
        TagKind::FrameLabel => 49,
        TagKind::DefineSceneAndFrameLabelData => 50,
        TagKind::ProductInfo => 51,
        TagKind::ExportAssets => 52,
        TagKind::Unknown => 53,
    }
}

pub open spec fn action_index(k: ActionKind) -> nat {
    match k {
        ActionKind::Add => 0,
        ActionKind::Add2 => 1,
        ActionKind::And => 2,
        ActionKind::AsciiToChar => 3,
        ActionKind::BitAnd => 4,
        ActionKind::BitLShift => 5,
        ActionKind::BitOr => 6,
        ActionKind::BitRShift => 7,
        ActionKind::BitURShift => 8,
        ActionKind::BitXor => 9,
        ActionKind::Call => 10,
        ActionKind::CallFunction => 11,
        ActionKind::CallMethod => 12,
        ActionKind::CastOp => 13,
        ActionKind::CharToAscii => 14,
        ActionKind::CloneSprite => 15,
        ActionKind::ConstantPool => 16,
        ActionKind::Decrement => 17,
        ActionKind::DefineFunction => 18,
        ActionKind::DefineFunction2 => 19,
        ActionKind::DefineLocal => 20,
        ActionKind::DefineLocal2 => 21,
        ActionKind::Delete => 22,
        ActionKind::Delete2 => 23,
        ActionKind::Divide => 24,
        ActionKind::EndDrag => 25,
        ActionKind::Enumerate => 26,
        ActionKind::Enumerate2 => 27,
        ActionKind::Equals => 28,
        ActionKind::Equals2 => 29,
        ActionKind::Extends => 30,
        ActionKind::GetMember => 31,
        ActionKind::GetProperty => 32,
        ActionKind::GetTime => 33,
        ActionKind::GetUrl => 34,
        ActionKind::GetUrl2 => 35,
        ActionKind::GetVariable => 36,
        ActionKind::GotoFrame => 37,
        ActionKind::GotoFrame2 => 38,
        ActionKind::GotoLabel => 39,
        ActionKind::Greater => 40,
        ActionKind::If => 41,
        ActionKind::ImplementsOp => 42,
        ActionKind::Increment => 43,
        ActionKind::InitArray => 44,
        ActionKind::InitObject => 45,
        ActionKind::InstanceOf => 46,
        ActionKind::Jump => 47,
        ActionKind::Less => 48,
        ActionKind::Less2 => 49,
        ActionKind::MBAsciiToChar => 50,
        ActionKind::MBCharToAscii => 51,
        ActionKind::MBStringExtract => 52,
        ActionKind::MBStringLength => 53,
        ActionKind::Modulo => 54,
        ActionKind::Multiply => 55,
        ActionKind::NewMethod => 56,
        ActionKind::NewObject => 57,
        ActionKind::NextFrame => 58,
        ActionKind::Not => 59,
        ActionKind::Or => 60,
        ActionKind::Play => 61,
        ActionKind::Pop => 62,
        ActionKind::PreviousFrame => 63,
        ActionKind::Push => 64,
        ActionKind::PushDuplicate => 65,
        ActionKind::RandomNumber => 66,
        ActionKind::RemoveSprite => 67,
        ActionKind::Return => 68,
        ActionKind::SetMember => 69,
        ActionKind::SetProperty => 70,
        ActionKind::SetTarget => 71,
        ActionKind::SetTarget2 => 72,
        ActionKind::SetVariable => 73,
        ActionKind::StackSwap => 74,
        ActionKind::StartDrag => 75,
        ActionKind::Stop => 76,
        ActionKind::StopSounds => 77,
        ActionKind::StoreRegister => 78,
        ActionKind::StrictEquals => 79,
        ActionKind::StringAdd => 80,
        ActionKind::StringEquals => 81,
        ActionKind::StringExtract => 82,
        ActionKind::StringGreater => 83,
        ActionKind::StringLength => 84,
        ActionKind::StringLess => 85,
        ActionKind::Subtract => 86,
        ActionKind::TargetPath => 87,
        ActionKind::Throw => 88,
        ActionKind::ToInteger => 89,
        ActionKind::ToNumber => 90,
        ActionKind::ToString => 91,
        ActionKind::ToggleQuality => 92,
        ActionKind::Trace => 93,
        ActionKind::Try => 94,
        ActionKind::TypeOf => 95,
        ActionKind::WaitForFrame => 96,
        ActionKind::WaitForFrame2 => 97,
        ActionKind::With => 98,
        ActionKind::Unknown => 99,
    }
}

impl TagKind {
    /// The position of this kind among the columns of a [`Row`].
    pub fn index(&self) -> (i: usize)
        ensures
            i == tag_index(*self),
    {
        match self {
            TagKind::ScriptLimits => 0,
            TagKind::ShowFrame => 1,
            TagKind::Protect => 2,
            TagKind::CsmTextSettings => 3,
            TagKind::DebugId => 4,
            TagKind::DefineBinaryData => 5,
            TagKind::DefineBits => 6,
            TagKind::DefineBitsJpeg2 => 7,
            TagKind::DefineBitsJpeg3 => 8,
            TagKind::DefineBitsLossless => 9,
            TagKind::DefineButton => 10,
            TagKind::DefineButton2 => 11,
            TagKind::DefineButtonColorTransform => 12,
            TagKind::DefineButtonSound => 13,
            TagKind::DefineEditText => 14,
            TagKind::DefineFont => 15,
            TagKind::DefineFont2 => 16,
            TagKind::DefineFont4 => 17,
            TagKind::DefineFontAlignZones => 18,
            TagKind::DefineFontInfo => 19,
            TagKind::DefineFontName => 20,
            TagKind::DefineMorphShape => 21,
            TagKind::DefineScalingGrid => 22,
            TagKind::DefineShape => 23,
            TagKind::DefineSound => 24,
            TagKind::DefineSprite => 25,
            TagKind::DefineText => 26,
            TagKind::DefineVideoStream => 27,
            TagKind::DoAbc => 28,
            TagKind::DoAction => 29,
            TagKind::DoInitAction => 30,
            TagKind::EnableDebugger => 31,
            TagKind::EnableTelemetry => 32,
            TagKind::End => 33,
            TagKind::Metadata => 34,
            TagKind::ImportAssets => 35,
            TagKind::JpegTables => 36,
            TagKind::SetBackgroundColor => 37,
            TagKind::SetTabIndex => 38,
            TagKind::SoundStreamBlock => 39,
            TagKind::SoundStreamHead => 40,
            TagKind::SoundStreamHead2 => 41,
            TagKind::StartSound => 42,
            TagKind::StartSound2 => 43,
            TagKind::SymbolClass => 44,
            TagKind::PlaceObject => 45,
            TagKind::RemoveObject => 46,
            TagKind::VideoFrame => 47,
            TagKind::FileAttributes => 48,
            TagKind::FrameLabel => 49,
            TagKind::DefineSceneAndFrameLabelData => 50,
            TagKind::ProductInfo => 51,
            TagKind::ExportAssets => 52,
            TagKind::Unknown => 53,
        }
    }
}

impl ActionKind {
    /// The position of this kind among the columns of a [`Row`].
    pub fn index(&self) -> (i: usize)
        ensures
            i == action_index(*self),
    {
        match self {
            ActionKind::Add => 0,
            ActionKind::Add2 => 1,
            ActionKind::And => 2,
            ActionKind::AsciiToChar => 3,
            ActionKind::BitAnd => 4,
            ActionKind::BitLShift => 5,
            ActionKind::BitOr => 6,
            ActionKind::BitRShift => 7,
            ActionKind::BitURShift => 8,
            ActionKind::BitXor => 9,
            ActionKind::Call => 10,
            ActionKind::CallFunction => 11,
            ActionKind::CallMethod => 12,
            ActionKind::CastOp => 13,
            ActionKind::CharToAscii => 14,
            ActionKind::CloneSprite => 15,
            ActionKind::ConstantPool => 16,
            ActionKind::Decrement => 17,
            ActionKind::DefineFunction => 18,
            ActionKind::DefineFunction2 => 19,
            ActionKind::DefineLocal => 20,
            ActionKind::DefineLocal2 => 21,
            ActionKind::Delete => 22,
            ActionKind::Delete2 => 23,
            ActionKind::Divide => 24,
            ActionKind::EndDrag => 25,
            ActionKind::Enumerate => 26,
            ActionKind::Enumerate2 => 27,
            ActionKind::Equals => 28,
            ActionKind::Equals2 => 29,
            ActionKind::Extends => 30,
            ActionKind::GetMember => 31,
            ActionKind::GetProperty => 32,
            ActionKind::GetTime => 33,
            ActionKind::GetUrl => 34,
            ActionKind::GetUrl2 => 35,
            ActionKind::GetVariable => 36,
            ActionKind::GotoFrame => 37,
            ActionKind::GotoFrame2 => 38,
            ActionKind::GotoLabel => 39,
            ActionKind::Greater => 40,
            ActionKind::If => 41,
            ActionKind::ImplementsOp => 42,
            ActionKind::Increment => 43,
            ActionKind::InitArray => 44,
            ActionKind::InitObject => 45,
            ActionKind::InstanceOf => 46,
            ActionKind::Jump => 47,
            ActionKind::Less => 48,
            ActionKind::Less2 => 49,
            ActionKind::MBAsciiToChar => 50,
            ActionKind::MBCharToAscii => 51,
            ActionKind::MBStringExtract => 52,
            ActionKind::MBStringLength => 53,
            ActionKind::Modulo => 54,
            ActionKind::Multiply => 55,
            ActionKind::NewMethod => 56,
            ActionKind::NewObject => 57,
            ActionKind::NextFrame => 58,
            ActionKind::Not => 59,
            ActionKind::Or => 60,
            ActionKind::Play => 61,
            ActionKind::Pop => 62,
            ActionKind::PreviousFrame => 63,
            ActionKind::Push => 64,
            ActionKind::PushDuplicate => 65,
            ActionKind::RandomNumber => 66,
            ActionKind::RemoveSprite => 67,
            ActionKind::Return => 68,
            ActionKind::SetMember => 69,
            ActionKind::SetProperty => 70,
            ActionKind::SetTarget => 71,
            ActionKind::SetTarget2 => 72,
            ActionKind::SetVariable => 73,
            ActionKind::StackSwap => 74,
            ActionKind::StartDrag => 75,
            ActionKind::Stop => 76,
            ActionKind::StopSounds => 77,
            ActionKind::StoreRegister => 78,
            ActionKind::StrictEquals => 79,
            ActionKind::StringAdd => 80,
            ActionKind::StringEquals => 81,
            ActionKind::StringExtract => 82,
            ActionKind::StringGreater => 83,
            ActionKind::StringLength => 84,
            ActionKind::StringLess => 85,
            ActionKind::Subtract => 86,
            ActionKind::TargetPath => 87,
            ActionKind::Throw => 88,
            ActionKind::ToInteger => 89,
            ActionKind::ToNumber => 90,
            ActionKind::ToString => 91,
            ActionKind::ToggleQuality => 92,
            ActionKind::Trace => 93,
            ActionKind::Try => 94,
            ActionKind::TypeOf => 95,
            ActionKind::WaitForFrame => 96,
            ActionKind::WaitForFrame2 => 97,
            ActionKind::With => 98,
            ActionKind::Unknown => 99,
        }
    }
}

/// The outcome of reading one action of a `DoAction` tag.
#[derive(Clone, Debug)]
pub enum ActionRead {
    /// An action was read.
    Action(ActionKind),
    /// The reader advanced without producing an action.
    Skipped,
    /// The action could not be read; the message says why.
    Failed(String),
}

/// A decoded tag, with the reads of its actions in order (those of a
/// `DoAction` tag; other tags carry none that count).
#[derive(Clone, Debug)]
pub struct TagRecord {
    pub kind: TagKind,
    pub actions: Vec<ActionRead>,
}

/// One line of the census: the file, an error if one stopped the count,
/// the movie's version and the count of each tag and action kind.
#[derive(Clone, Debug)]
pub struct Row {
    pub file: Option<String>,
    pub error: Option<String>,
    pub version: u8,
    pub tag_counts: Vec<i32>,
    pub action_counts: Vec<i32>,
}

/// How many reads come before the first failed one.
pub open spec fn ok_len(reads: Seq<ActionRead>) -> nat
    decreases reads.len(),
{
    if reads.len() == 0 {
        0
    } else if reads[0] is Failed {
        0
    } else {
        1 + ok_len(reads.drop_first())
    }
}

/// A tag whose actions cannot all be read, which stops the census.
pub open spec fn tag_fails(t: TagRecord) -> bool {
    t.kind == TagKind::DoAction && ok_len(t.actions@) < t.actions@.len()
}

/// How many tags the census counts: up to and including the first one that
/// fails.
pub open spec fn counted_len(tags: Seq<TagRecord>) -> nat
    decreases tags.len(),
{
    if tags.len() == 0 {
        0
    } else if tag_fails(tags[0]) {
        1
    } else {
        1 + counted_len(tags.drop_first())
    }
}

/// How many of the first `n` tags are of the kind in column `k`.
pub open spec fn count_tags(tags: Seq<TagRecord>, n: int, k: int) -> int
    decreases n,
{
    if n <= 0 {
        0
    } else {
        count_tags(tags, n - 1, k) + (if tag_index(tags[n - 1].kind) == k {
            1int
        } else {
            0int
        })
    }
}

/// How many of the first `n` reads gave an action of the kind in column `j`.
pub open spec fn count_reads(reads: Seq<ActionRead>, n: int, j: int) -> int
    decreases n,
{
    if n <= 0 {
        0
    } else {
        count_reads(reads, n - 1, j) + (match reads[n - 1] {
            ActionRead::Action(a) => if action_index(a) == j {
                1int
            } else {
                0int
            },
            _ => 0int,
        })
    }
}

/// The actions of kind `j` that a tag contributes: those of a `DoAction`
/// tag read before its first failure.
pub open spec fn tag_actions(t: TagRecord, j: int) -> int {
    if t.kind == TagKind::DoAction {
        count_reads(t.actions@, ok_len(t.actions@) as int, j)
    } else {
        0
    }
}

/// How many actions of the kind in column `j` the first `n` tags hold.
pub open spec fn count_actions(tags: Seq<TagRecord>, n: int, j: int) -> int
    decreases n,
{
    if n <= 0 {
        0
    } else {
        count_actions(tags, n - 1, j) + tag_actions(tags[n - 1], j)
    }
}

/// How many action reads the first `n` tags carry in all.
pub open spec fn total_reads(tags: Seq<TagRecord>, n: int) -> int
    decreases n,
{
    if n <= 0 {
        0
    } else {
        total_reads(tags, n - 1) + tags[n - 1].actions@.len()
    }
}

/// The message of the read that failed, in a tag that fails.
pub open spec fn failure_message(t: TagRecord) -> Seq<char> {
    match t.actions@[ok_len(t.actions@) as int] {
        ActionRead::Failed(e) => e@,
        _ => Seq::empty(),
    }
}

proof fn lemma_ok_len(reads: Seq<ActionRead>, i: int)
    requires
        0 <= i <= reads.len(),
        forall|m: int| 0 <= m < i ==> !(#[trigger] reads[m] is Failed),
    ensures
        ok_len(reads) >= i,
        i < reads.len() && reads[i] is Failed ==> ok_len(reads) == i,
    decreases i,
{
    if i > 0 {
        let rest = reads.drop_first();
        assert forall|m: int| 0 <= m < i - 1 implies !(#[trigger] rest[m] is Failed) by {
            assert(rest[m] == reads[m + 1]);
        }
        lemma_ok_len(rest, i - 1);
        assert(!(reads[0] is Failed));
        if i < reads.len() && reads[i] is Failed {
            assert(rest[i - 1] == reads[i]);
        }
    }
}

proof fn lemma_ok_len_bound(reads: Seq<ActionRead>)
    ensures
        ok_len(reads) <= reads.len(),
    decreases reads.len(),
{
    if reads.len() > 0 {
        lemma_ok_len_bound(reads.drop_first());
    }
}

proof fn lemma_counted_len(tags: Seq<TagRecord>, i: int)
    requires
        0 <= i <= tags.len(),
        forall|m: int| 0 <= m < i ==> !tag_fails(#[trigger] tags[m]),
    ensures
        i == tags.len() ==> counted_len(tags) == tags.len(),
        i < tags.len() && tag_fails(tags[i]) ==> counted_len(tags) == i + 1,
    decreases i,
{
    if i == 0 {
        if tags.len() == 0 {
        }
    } else {
        let rest = tags.drop_first();
        assert forall|m: int| 0 <= m < i - 1 implies !tag_fails(#[trigger] rest[m]) by {
            assert(rest[m] == tags[m + 1]);
        }
        lemma_counted_len(rest, i - 1);
        assert(!tag_fails(tags[0]));
        if i < tags.len() {
            assert(rest[i - 1] == tags[i]);
        }
    }
}

proof fn lemma_total_reads_mono(tags: Seq<TagRecord>, a: int, b: int)
    requires
        0 <= a <= b <= tags.len(),
    ensures
        total_reads(tags, a) <= total_reads(tags, b),
    decreases b - a,
{
    if a < b {
        lemma_total_reads_mono(tags, a, b - 1);
    }
}

proof fn lemma_count_reads_bound(reads: Seq<ActionRead>, n: int, j: int)
    requires
        0 <= n <= reads.len(),
    ensures
        0 <= count_reads(reads, n, j) <= n,
    decreases n,
{
    if n > 0 {
        lemma_count_reads_bound(reads, n - 1, j);
    }
}

/// A zero count for each of `n` columns.
fn zero_counts(n: usize) -> (v: Vec<i32>)
    ensures
        v@.len() == n,
        forall|k: int| 0 <= k < n ==> v@[k] == 0,
{
    let mut v: Vec<i32> = Vec::new();
    let mut i: usize = 0;
    while i < n
        invariant
            i <= n,
            v@.len() == i,
            forall|k: int| 0 <= k < i ==> v@[k] == 0,
        decreases n - i,
    {
        v.push(0);
        i = i + 1;
    }
    v
}

/// Adds one to column `k`.
fn bump(v: &mut Vec<i32>, k: usize)
    requires
        k < old(v)@.len(),
        old(v)@[k as int] < i32::MAX,
    ensures
        final(v)@ == old(v)@.update(k as int, (old(v)@[k as int] + 1) as i32),
{
    let c = v[k];
    v.set(k, c + 1);
}

/// The census row of a movie whose tags were decoded: every tag and every
/// action read is counted by kind, until a `DoAction` tag holds an action
/// that cannot be read; then the count stops there and the row carries
/// "Failed to parse action: " and the reader's message.
pub fn census_row(file: String, version: u8, tags: &Vec<TagRecord>) -> (r: Row)
    requires
        tags@.len() <= i32::MAX,
        total_reads(tags@, tags@.len() as int) <= i32::MAX,
    ensures
        r.file matches Some(f) && f@ == file@,
        r.version == version,
        r.tag_counts@.len() == TAG_KINDS,
        r.action_counts@.len() == ACTION_KINDS,
        forall|k: int|
            0 <= k < TAG_KINDS ==> #[trigger] r.tag_counts@[k] == count_tags(
                tags@,
                counted_len(tags@) as int,
                k,
            ),
        forall|j: int|
            0 <= j < ACTION_KINDS ==> #[trigger] r.action_counts@[j] == count_actions(
                tags@,
                counted_len(tags@) as int,
                j,
            ),
        counted_len(tags@) > 0 && tag_fails(tags@[counted_len(tags@) - 1]) ==> (r.error matches Some(
            e,
        ) && e@ == "Failed to parse action: "@ + failure_message(tags@[counted_len(tags@) - 1])),
        !(counted_len(tags@) > 0 && tag_fails(tags@[counted_len(tags@) - 1])) ==> r.error is None,
{
    let mut tag_counts = zero_counts(TAG_KINDS);
    let mut action_counts = zero_counts(ACTION_KINDS);
    let mut i: usize = 0;
    while i < tags.len()
        invariant
            i <= tags@.len(),
            tags@.len() <= i32::MAX,
            total_reads(tags@, tags@.len() as int) <= i32::MAX,
            tag_counts@.len() == TAG_KINDS,
            action_counts@.len() == ACTION_KINDS,
            forall|m: int| 0 <= m < i ==> !tag_fails(#[trigger] tags@[m]),
            forall|k: int|
                0 <= k < TAG_KINDS ==> #[trigger] tag_counts@[k] == count_tags(tags@, i as int, k)
                    && tag_counts@[k] <= i,
            forall|j: int|
                0 <= j < ACTION_KINDS ==> #[trigger] action_counts@[j] == count_actions(
                    tags@,
                    i as int,
                    j,
                ) && 0 <= action_counts@[j] <= total_reads(tags@, i as int),
        decreases tags@.len() - i,
    {
        let tag = &tags[i];
        let ki = tag.kind.index();
        let ghost before = tag_counts@;
        bump(&mut tag_counts, ki);
        assert forall|k: int| 0 <= k < TAG_KINDS implies #[trigger] tag_counts@[k] == count_tags(
            tags@,
            i + 1,
            k,
        ) && tag_counts@[k] <= i + 1 by {
            assert(before[k] == count_tags(tags@, i as int, k));
        }
        proof {
            lemma_total_reads_mono(tags@, i as int + 1, tags@.len() as int);
        }
        match tag.kind {
            TagKind::DoAction => {
                let reads = &tag.actions;
                let ghost base = action_counts@;
                let mut m: usize = 0;
                while m < reads.len()
                    invariant
                        i < tags@.len(),
                        tag == tags@[i as int],
                        reads == tag.actions,
                        tag.kind == TagKind::DoAction,
                        m <= reads@.len(),
                        tags@.len() <= i32::MAX,
                        total_reads(tags@, tags@.len() as int) <= i32::MAX,
                        tag_counts@.len() == TAG_KINDS,
                        forall|mm: int| 0 <= mm < i ==> !tag_fails(#[trigger] tags@[mm]),
                        forall|k: int|
                            0 <= k < TAG_KINDS ==> #[trigger] tag_counts@[k] == count_tags(
                                tags@,
                                i + 1,
                                k,
                            ) && tag_counts@[k] <= i + 1,
                        action_counts@.len() == ACTION_KINDS,
                        base.len() == ACTION_KINDS,
                        total_reads(tags@, i + 1) <= i32::MAX,
                        forall|q: int| 0 <= q < m ==> !(#[trigger] reads@[q] is Failed),
                        forall|j: int|
                            0 <= j < ACTION_KINDS ==> base[j] == count_actions(tags@, i as int, j)
                                && 0 <= base[j] <= total_reads(tags@, i as int),
                        forall|j: int|
                            0 <= j < ACTION_KINDS ==> #[trigger] action_counts@[j] == base[j]
                                + count_reads(reads@, m as int, j),
                    decreases reads@.len() - m,
                {
                    match &reads[m] {
                        ActionRead::Action(a) => {
                            let ai = a.index();
                            let ghost prev = action_counts@;
                            proof {
                                lemma_count_reads_bound(reads@, m as int, ai as int);
                            }
                            bump(&mut action_counts, ai);
                            assert forall|j: int| 0 <= j < ACTION_KINDS implies #[trigger] action_counts@[j]
                                == base[j] + count_reads(reads@, m + 1, j) by {
                                assert(prev[j] == base[j] + count_reads(reads@, m as int, j));
                            }
                        },
                        ActionRead::Skipped => {
                            assert forall|j: int| 0 <= j < ACTION_KINDS implies #[trigger] action_counts@[j]
                                == base[j] + count_reads(reads@, m + 1, j) by {
                                assert(count_reads(reads@, m + 1, j) == count_reads(reads@, m as int, j));
                            }
                        },
                        ActionRead::Failed(e) => {
                            proof {
                                lemma_ok_len(reads@, m as int);
                                lemma_counted_len(tags@, i as int);
                            }
                            let mut msg = String::from_str("Failed to parse action: ");
                            msg.append(e.as_str());
                            assert forall|j: int| 0 <= j < ACTION_KINDS implies #[trigger] action_counts@[j]
                                == count_actions(tags@, i + 1, j) by {
                            }
                            return Row {
                                file: Some(file),
                                error: Some(msg),
                                version,
                                tag_counts,
                                action_counts,
                            };
                        },
                    }
                    m = m + 1;
                }
                proof {
                    lemma_ok_len(reads@, m as int);
                    lemma_ok_len_bound(reads@);
                    assert forall|j: int| 0 <= j < ACTION_KINDS implies #[trigger] action_counts@[j]
                        == count_actions(tags@, i + 1, j) && 0 <= action_counts@[j] <= total_reads(
                        tags@,
                        i + 1,
                    ) by {
                        lemma_count_reads_bound(reads@, m as int, j);
                    }
                }
            },
            _ => {
                assert forall|j: int| 0 <= j < ACTION_KINDS implies #[trigger] action_counts@[j]
                    == count_actions(tags@, i + 1, j) && 0 <= action_counts@[j] <= total_reads(
                    tags@,
                    i + 1,
                ) by {
                    assert(tags@[i as int].actions@.len() >= 0);
                }
            },
        }
        i = i + 1;
    }
    proof {
        lemma_counted_len(tags@, i as int);
    }
    Row { file: Some(file), error: None, version, tag_counts, action_counts }
}


impl Row {
    /// A row for `file` that says only why the file could not be counted.
    fn failed(file: String, prefix: &str, message: &str) -> (r: Row)
        ensures
            r.file matches Some(f) && f@ == file@,
            r.error matches Some(e) && e@ == prefix@ + message@,
            r.version == 0,
            r.tag_counts@.len() == TAG_KINDS,
            r.action_counts@.len() == ACTION_KINDS,
            forall|k: int| 0 <= k < TAG_KINDS ==> #[trigger] r.tag_counts@[k] == 0,
            forall|j: int| 0 <= j < ACTION_KINDS ==> #[trigger] r.action_counts@[j] == 0,
    {
        let mut e = String::from_str(prefix);
        e.append(message);
        Row {
            file: Some(file),
            error: Some(e),
            version: 0,
            tag_counts: zero_counts(TAG_KINDS),
            action_counts: zero_counts(ACTION_KINDS),
        }
    }
}

impl Default for Row {
    /// A row with no file, no error, version 0 and every count 0.
    fn default() -> (r: Row)
        ensures
            r.file is None,
            r.error is None,
            r.version == 0,
            r.tag_counts@.len() == TAG_KINDS,
            r.action_counts@.len() == ACTION_KINDS,
            forall|k: int| 0 <= k < TAG_KINDS ==> #[trigger] r.tag_counts@[k] == 0,
            forall|j: int| 0 <= j < ACTION_KINDS ==> #[trigger] r.action_counts@[j] == 0,
    {
        Row {
            file: None,
            error: None,
            version: 0,
            tag_counts: zero_counts(TAG_KINDS),
            action_counts: zero_counts(ACTION_KINDS),
        }
    }
}

/// The row of a file that could not be read: "Failed to read file: " and
/// the reason, with every count 0.
pub fn read_failure_row(file: String, message: &str) -> (r: Row)
    ensures
        r.file matches Some(f) && f@ == file@,
        r.error matches Some(e) && e@ == "Failed to read file: "@ + message@,
        r.version == 0,
        r.tag_counts@.len() == TAG_KINDS,
        r.action_counts@.len() == ACTION_KINDS,
        forall|k: int| 0 <= k < TAG_KINDS ==> #[trigger] r.tag_counts@[k] == 0,
        forall|j: int| 0 <= j < ACTION_KINDS ==> #[trigger] r.action_counts@[j] == 0,
{
    Row::failed(file, "Failed to read file: ", message)
}

/// The row of a file that is not a valid movie: "Failed to parse swf: " and
/// the reason, with every count 0.
pub fn parse_failure_row(file: String, message: &str) -> (r: Row)
    ensures
        r.file matches Some(f) && f@ == file@,
        r.error matches Some(e) && e@ == "Failed to parse swf: "@ + message@,
        r.version == 0,
        r.tag_counts@.len() == TAG_KINDS,
        r.action_counts@.len() == ACTION_KINDS,
        forall|k: int| 0 <= k < TAG_KINDS ==> #[trigger] r.tag_counts@[k] == 0,
        forall|j: int| 0 <= j < ACTION_KINDS ==> #[trigger] r.action_counts@[j] == 0,
{
    Row::failed(file, "Failed to parse swf: ", message)
}

/// The row of a file whose census panicked: "PANIC: " and the panic's
/// description, with every count 0.
pub fn panic_row(file: String, description: &str) -> (r: Row)
    ensures
        r.file matches Some(f) && f@ == file@,
        r.error matches Some(e) && e@ == "PANIC: "@ + description@,
        r.version == 0,
        r.tag_counts@.len() == TAG_KINDS,
        r.action_counts@.len() == ACTION_KINDS,
        forall|k: int| 0 <= k < TAG_KINDS ==> #[trigger] r.tag_counts@[k] == 0,
        forall|j: int| 0 <= j < ACTION_KINDS ==> #[trigger] r.action_counts@[j] == 0,
{
    Row::failed(file, "PANIC: ", description)
}

/// Whether a directory entry joins the census: a file whose extension is
/// exactly `swf`.
pub fn is_movie_file(is_file: bool, extension: Option<&str>) -> (r: bool)
    ensures
        r == (is_file && (extension matches Some(e) && e@ == "swf"@)),
{
    proof {
        reveal_strlit("swf");
    }
    if !is_file {
        return false;
    }
    match extension {
        None => false,
        Some(e) => {
            if e.unicode_len() != 3 {
                return false;
            }
            let same = e.get_char(0) == 's' && e.get_char(1) == 'w' && e.get_char(2) == 'f';
            if same {
                assert(e@ =~= "swf"@);
            }
            same
        },
    }
}

/// The sum of tag columns `0..c` over the first `n` tags.
pub open spec fn sum_tag_columns(tags: Seq<TagRecord>, n: int, c: int) -> int
    decreases c,
{
    if c <= 0 {
        0
    } else {
        sum_tag_columns(tags, n, c - 1) + count_tags(tags, n, c - 1)
    }
}

proof fn lemma_sum_tag_step(tags: Seq<TagRecord>, n: int, c: int)
    requires
        0 < n <= tags.len(),
        0 <= c,
    ensures
        sum_tag_columns(tags, n, c) == sum_tag_columns(tags, n - 1, c) + (if tag_index(
            tags[n - 1].kind,
        ) < c {
            1int
        } else {
            0int
        }),
    decreases c,
{
    if c > 0 {
        lemma_sum_tag_step(tags, n, c - 1);
    }
}

/// Every counted tag lands in exactly one column: the tag columns of a row
/// add up to the number of tags counted.
pub proof fn law_each_tag_counted_once(tags: Seq<TagRecord>, n: int)
    requires
        0 <= n <= tags.len(),
    ensures
        sum_tag_columns(tags, n, TAG_KINDS as int) == n,
    decreases n,
{
    if n > 0 {
        law_each_tag_counted_once(tags, n - 1);
        lemma_sum_tag_step(tags, n, TAG_KINDS as int);
        assert(tag_index(tags[n - 1].kind) < TAG_KINDS);
    } else {
        lemma_sum_zero(tags, TAG_KINDS as int);
    }
}

proof fn lemma_sum_zero(tags: Seq<TagRecord>, c: int)
    requires
        c >= 0,
    ensures
        sum_tag_columns(tags, 0, c) == 0,
    decreases c,
{
    if c > 0 {
        lemma_sum_zero(tags, c - 1);
    }
}


/// The names of the tag columns of a census row, in the order in which the
/// row writes them out.
pub open spec fn tag_columns() -> Seq<Seq<char>> {
    seq![
        "script_limits"@,
        "show_frame"@,
        "protect"@,
        "csm_text_settings"@,
        "debug_id"@,
        "define_binary_data"@,
        "define_bits"@,
        "define_bits_jpeg2"@,
        "define_bits_jpeg3"@,
        "define_bits_lossless"@,
        "define_button"@,
        "define_button2"@,
        "define_button_color_transform"@,
        "define_button_sound"@,
        "define_edit_text"@,
        "define_font"@,
        "define_font2"@,
        "define_font4"@,
        "define_font_align_zones"@,
        "define_font_info"@,
        "define_font_name"@,
        "define_morph_shape"@,
        "define_scaling_grid"@,
        "define_shape"@,
        "define_sound"@,
        "define_sprite"@,
        "define_text"@,
        "define_video_stream"@,
        "do_abc"@,
        "do_action"@,
        "do_init_action"@,
        "enable_debugger"@,
        "enable_telemetry"@,
        "end"@,
        "metadata"@,
        "import_assets"@,
        "jpeg_tables"@,
        "set_background_color"@,
        "set_tab_index"@,
        "sound_stream_block"@,
        "sound_stream_head"@,
        "sound_stream_head2"@,
        "start_sound"@,
        "start_sound2"@,
        "symbol_class"@,
        "place_object"@,
        "remove_object"@,
        "video_frame"@,
        "file_attributes"@,
        "frame_label"@,
        "define_scene_and_frame_label_data"@,
        "product_info"@,
        "export_assets"@,
        "unknown"@,
    ]
}

/// The name of the column that counts tags of kind `k`.
pub open spec fn tag_column_name(k: TagKind) -> Seq<char> {
    match k {
        TagKind::ScriptLimits => "script_limits"@,
        TagKind::ShowFrame => "show_frame"@,
        TagKind::Protect => "protect"@,
        TagKind::CsmTextSettings => "csm_text_settings"@,
        TagKind::DebugId => "debug_id"@,
        TagKind::DefineBinaryData => "define_binary_data"@,
        TagKind::DefineBits => "define_bits"@,
        TagKind::DefineBitsJpeg2 => "define_bits_jpeg2"@,
        TagKind::DefineBitsJpeg3 => "define_bits_jpeg3"@,
        TagKind::DefineBitsLossless => "define_bits_lossless"@,
        TagKind::DefineButton => "define_button"@,
        TagKind::DefineButton2 => "define_button2"@,
        TagKind::DefineButtonColorTransform => "define_button_color_transform"@,
        TagKind::DefineButtonSound => "define_button_sound"@,
        TagKind::DefineEditText => "define_edit_text"@,
        TagKind::DefineFont => "define_font"@,
        TagKind::DefineFont2 => "define_font2"@,
        TagKind::DefineFont4 => "define_font4"@,
        TagKind::DefineFontAlignZones => "define_font_align_zones"@,
        TagKind::DefineFontInfo => "define_font_info"@,
        TagKind::DefineFontName => "define_font_name"@,
        TagKind::DefineMorphShape => "define_morph_shape"@,
        TagKind::DefineScalingGrid => "define_scaling_grid"@,
        TagKind::DefineShape => "define_shape"@,
        TagKind::DefineSound => "define_sound"@,
        TagKind::DefineSprite => "define_sprite"@,
        TagKind::DefineText => "define_text"@,
        TagKind::DefineVideoStream => "define_video_stream"@,
        TagKind::DoAbc => "do_abc"@,
        TagKind::DoAction => "do_action"@,
        TagKind::DoInitAction => "do_init_action"@,
        TagKind::EnableDebugger => "enable_debugger"@,
        TagKind::EnableTelemetry => "enable_telemetry"@,
        TagKind::End => "end"@,
        TagKind::Metadata => "metadata"@,
        TagKind::ImportAssets => "import_assets"@,
        TagKind::JpegTables => "jpeg_tables"@,
        TagKind::SetBackgroundColor => "set_background_color"@,
        TagKind::SetTabIndex => "set_tab_index"@,
        TagKind::SoundStreamBlock => "sound_stream_block"@,
        TagKind::SoundStreamHead => "sound_stream_head"@,
        TagKind::SoundStreamHead2 => "sound_stream_head2"@,
        TagKind::StartSound => "start_sound"@,
        TagKind::StartSound2 => "start_sound2"@,
        TagKind::SymbolClass => "symbol_class"@,
        TagKind::PlaceObject => "place_object"@,
        TagKind::RemoveObject => "remove_object"@,
        TagKind::VideoFrame => "video_frame"@,
        TagKind::FileAttributes => "file_attributes"@,
        TagKind::FrameLabel => "frame_label"@,
        TagKind::DefineSceneAndFrameLabelData => "define_scene_and_frame_label_data"@,
        TagKind::ProductInfo => "product_info"@,
        TagKind::ExportAssets => "export_assets"@,
        TagKind::Unknown => "unknown"@,
    }
}

/// The names of the action columns of a census row, in the order in which
/// the row writes them out.
pub open spec fn action_columns() -> Seq<Seq<char>> {
    seq![
        "action_add"@,
        "action_add2"@,
        "action_and"@,
        "action_ascii_to_char"@,
        "action_bit_and"@,
        "action_bit_l_shift"@,
        "action_bit_or"@,
        "action_bit_r_shift"@,
        "action_bit_u_r_shift"@,
        "action_bit_xor"@,
        "action_call"@,
        "action_call_function"@,
        "action_call_method"@,
        "action_cast_op"@,
        "action_char_to_ascii"@,
        "action_clone_sprite"@,
        "action_constant_pool"@,
        "action_decrement"@,
        "action_define_function"@,
        "action_define_function2"@,
        "action_define_local"@,
        "action_define_local2"@,
        "action_delete"@,
        "action_delete2"@,
        "action_divide"@,
        "action_end_drag"@,
        "action_enumerate"@,
        "action_enumerate2"@,
        "action_equals"@,
        "action_equals2"@,
        "action_extends"@,
        "action_get_member"@,
        "action_get_property"@,
        "action_get_time"@,
        "action_get_url"@,
        "action_get_url2"@,
        "action_get_variable"@,
        "action_goto_frame"@,
        "action_goto_frame2"@,
        "action_goto_label"@,
        "action_greater"@,
        "action_if"@,
        "action_implements_op"@,
        "action_increment"@,
        "action_init_array"@,
        "action_init_object"@,
        "action_instance_of"@,
        "action_jump"@,
        "action_less"@,
        "action_less2"@,
        "action_m_b_ascii_to_char"@,
        "action_m_b_char_to_ascii"@,
        "action_m_b_string_extract"@,
        "action_m_b_string_length"@,
        "action_modulo"@,
        "action_multiply"@,
        "action_new_method"@,
        "action_new_object"@,
        "action_next_frame"@,
        "action_not"@,
        "action_or"@,
        "action_play"@,
        "action_pop"@,
        "action_previous_frame"@,
        "action_push"@,
        "action_push_duplicate"@,
        "action_random_number"@,
        "action_remove_sprite"@,
        "action_return"@,
        "action_set_member"@,
        "action_set_property"@,
        "action_set_target"@,
        "action_set_target2"@,
        "action_set_variable"@,
        "action_stack_swap"@,
        "action_start_drag"@,
        "action_stop"@,
        "action_stop_sounds"@,
        "action_store_register"@,
        "action_strict_equals"@,
        "action_string_add"@,
        "action_string_equals"@,
        "action_string_extract"@,
        "action_string_greater"@,
        "action_string_length"@,
        "action_string_less"@,
        "action_subtract"@,
        "action_target_path"@,
        "action_throw"@,
        "action_to_integer"@,
        "action_to_number"@,
        "action_to_string"@,
        "action_toggle_quality"@,
        "action_trace"@,
        "action_try"@,
        "action_type_of"@,
        "action_wait_for_frame"@,
        "action_wait_for_frame2"@,
        "action_with"@,
        "action_unknown"@,
    ]
}

/// The name of the column that counts actions of kind `k`.
pub open spec fn action_column_name(k: ActionKind) -> Seq<char> {
    match k {
        ActionKind::Add => "action_add"@,
        ActionKind::Add2 => "action_add2"@,
        ActionKind::And => "action_and"@,
        ActionKind::AsciiToChar => "action_ascii_to_char"@,
        ActionKind::BitAnd => "action_bit_and"@,
        ActionKind::BitLShift => "action_bit_l_shift"@,
        ActionKind::BitOr => "action_bit_or"@,
        ActionKind::BitRShift => "action_bit_r_shift"@,
        ActionKind::BitURShift => "action_bit_u_r_shift"@,
        ActionKind::BitXor => "action_bit_xor"@,
        ActionKind::Call => "action_call"@,
        ActionKind::CallFunction => "action_call_function"@,
        ActionKind::CallMethod => "action_call_method"@,
        ActionKind::CastOp => "action_cast_op"@,
        ActionKind::CharToAscii => "action_char_to_ascii"@,
        ActionKind::CloneSprite => "action_clone_sprite"@,
        ActionKind::ConstantPool => "action_constant_pool"@,
        ActionKind::Decrement => "action_decrement"@,
        ActionKind::DefineFunction => "action_define_function"@,
        ActionKind::DefineFunction2 => "action_define_function2"@,
        ActionKind::DefineLocal => "action_define_local"@,
        ActionKind::DefineLocal2 => "action_define_local2"@,
        ActionKind::Delete => "action_delete"@,
        ActionKind::Delete2 => "action_delete2"@,
        ActionKind::Divide => "action_divide"@,
        ActionKind::EndDrag => "action_end_drag"@,
        ActionKind::Enumerate => "action_enumerate"@,
        ActionKind::Enumerate2 => "action_enumerate2"@,
        ActionKind::Equals => "action_equals"@,
        ActionKind::Equals2 => "action_equals2"@,
        ActionKind::Extends => "action_extends"@,
        ActionKind::GetMember => "action_get_member"@,
        ActionKind::GetProperty => "action_get_property"@,
        ActionKind::GetTime => "action_get_time"@,
        ActionKind::GetUrl => "action_get_url"@,
        ActionKind::GetUrl2 => "action_get_url2"@,
        ActionKind::GetVariable => "action_get_variable"@,
        ActionKind::GotoFrame => "action_goto_frame"@,
        ActionKind::GotoFrame2 => "action_goto_frame2"@,
        ActionKind::GotoLabel => "action_goto_label"@,
        ActionKind::Greater => "action_greater"@,
        ActionKind::If => "action_if"@,
        ActionKind::ImplementsOp => "action_implements_op"@,
        ActionKind::Increment => "action_increment"@,
        ActionKind::InitArray => "action_init_array"@,
        ActionKind::InitObject => "action_init_object"@,
        ActionKind::InstanceOf => "action_instance_of"@,
        ActionKind::Jump => "action_jump"@,
        ActionKind::Less => "action_less"@,
        ActionKind::Less2 => "action_less2"@,
        ActionKind::MBAsciiToChar => "action_m_b_ascii_to_char"@,
        ActionKind::MBCharToAscii => "action_m_b_char_to_ascii"@,
        ActionKind::MBStringExtract => "action_m_b_string_extract"@,
        ActionKind::MBStringLength => "action_m_b_string_length"@,
        ActionKind::Modulo => "action_modulo"@,
        ActionKind::Multiply => "action_multiply"@,
        ActionKind::NewMethod => "action_new_method"@,
        ActionKind::NewObject => "action_new_object"@,
        ActionKind::NextFrame => "action_next_frame"@,
        ActionKind::Not => "action_not"@,
        ActionKind::Or => "action_or"@,
        ActionKind::Play => "action_play"@,
        ActionKind::Pop => "action_pop"@,
        ActionKind::PreviousFrame => "action_previous_frame"@,
        ActionKind::Push => "action_push"@,
        ActionKind::PushDuplicate => "action_push_duplicate"@,
        ActionKind::RandomNumber => "action_random_number"@,
        ActionKind::RemoveSprite => "action_remove_sprite"@,
        ActionKind::Return => "action_return"@,
        ActionKind::SetMember => "action_set_member"@,
        ActionKind::SetProperty => "action_set_property"@,
        ActionKind::SetTarget => "action_set_target"@,
        ActionKind::SetTarget2 => "action_set_target2"@,
        ActionKind::SetVariable => "action_set_variable"@,
        ActionKind::StackSwap => "action_stack_swap"@,
        ActionKind::StartDrag => "action_start_drag"@,
        ActionKind::Stop => "action_stop"@,
        ActionKind::StopSounds => "action_stop_sounds"@,
        ActionKind::StoreRegister => "action_store_register"@,
        ActionKind::StrictEquals => "action_strict_equals"@,
        ActionKind::StringAdd => "action_string_add"@,
        ActionKind::StringEquals => "action_string_equals"@,
        ActionKind::StringExtract => "action_string_extract"@,
        ActionKind::StringGreater => "action_string_greater"@,
        ActionKind::StringLength => "action_string_length"@,
        ActionKind::StringLess => "action_string_less"@,
        ActionKind::Subtract => "action_subtract"@,
        ActionKind::TargetPath => "action_target_path"@,
        ActionKind::Throw => "action_throw"@,
        ActionKind::ToInteger => "action_to_integer"@,
        ActionKind::ToNumber => "action_to_number"@,
        ActionKind::ToString => "action_to_string"@,
        ActionKind::ToggleQuality => "action_toggle_quality"@,
        ActionKind::Trace => "action_trace"@,
        ActionKind::Try => "action_try"@,
        ActionKind::TypeOf => "action_type_of"@,
        ActionKind::WaitForFrame => "action_wait_for_frame"@,
        ActionKind::WaitForFrame2 => "action_wait_for_frame2"@,
        ActionKind::With => "action_with"@,
        ActionKind::Unknown => "action_unknown"@,
    }
}

/// Each tag kind is counted in the column of the row that bears its name:
/// its index is that column's position, within the row's tag columns.
pub proof fn law_tag_counted_under_its_name(k: TagKind)
    ensures
        tag_index(k) < TAG_KINDS,
        tag_columns().len() == TAG_KINDS,
        tag_columns()[tag_index(k) as int] == tag_column_name(k),
{
    let c = tag_columns();
    match k {
        TagKind::ScriptLimits => { assert(c[0] == "script_limits"@); },
        TagKind::ShowFrame => { assert(c[1] == "show_frame"@); },
        TagKind::Protect => { assert(c[2] == "protect"@); },
        TagKind::CsmTextSettings => { assert(c[3] == "csm_text_settings"@); },
        TagKind::DebugId => { assert(c[4] == "debug_id"@); },
        TagKind::DefineBinaryData => { assert(c[5] == "define_binary_data"@); },
        TagKind::DefineBits => { assert(c[6] == "define_bits"@); },
        TagKind::DefineBitsJpeg2 => { assert(c[7] == "define_bits_jpeg2"@); },
        TagKind::DefineBitsJpeg3 => { assert(c[8] == "define_bits_jpeg3"@); },
        TagKind::DefineBitsLossless => { assert(c[9] == "define_bits_lossless"@); },
        TagKind::DefineButton => { assert(c[10] == "define_button"@); },
        TagKind::DefineButton2 => { assert(c[11] == "define_button2"@); },
        TagKind::DefineButtonColorTransform => { assert(c[12] == "define_button_color_transform"@); },
        TagKind::DefineButtonSound => { assert(c[13] == "define_button_sound"@); },
        TagKind::DefineEditText => { assert(c[14] == "define_edit_text"@); },
        TagKind::DefineFont => { assert(c[15] == "define_font"@); },
        TagKind::DefineFont2 => { assert(c[16] == "define_font2"@); },
        TagKind::DefineFont4 => { assert(c[17] == "define_font4"@); },
        TagKind::DefineFontAlignZones => { assert(c[18] == "define_font_align_zones"@); },
        TagKind::DefineFontInfo => { assert(c[19] == "define_font_info"@); },
        TagKind::DefineFontName => { assert(c[20] == "define_font_name"@); },
        TagKind::DefineMorphShape => { assert(c[21] == "define_morph_shape"@); },
        TagKind::DefineScalingGrid => { assert(c[22] == "define_scaling_grid"@); },
        TagKind::DefineShape => { assert(c[23] == "define_shape"@); },
        TagKind::DefineSound => { assert(c[24] == "define_sound"@); },
        TagKind::DefineSprite => { assert(c[25] == "define_sprite"@); },
        TagKind::DefineText => { assert(c[26] == "define_text"@); },
        TagKind::DefineVideoStream => { assert(c[27] == "define_video_stream"@); },
        TagKind::DoAbc => { assert(c[28] == "do_abc"@); },
        TagKind::DoAction => { assert(c[29] == "do_action"@); },
        TagKind::DoInitAction => { assert(c[30] == "do_init_action"@); },
        TagKind::EnableDebugger => { assert(c[31] == "enable_debugger"@); },
        TagKind::EnableTelemetry => { assert(c[32] == "enable_telemetry"@); },
        TagKind::End => { assert(c[33] == "end"@); },
        TagKind::Metadata => { assert(c[34] == "metadata"@); },
        TagKind::ImportAssets => { assert(c[35] == "import_assets"@); },
        TagKind::JpegTables => { assert(c[36] == "jpeg_tables"@); },
        TagKind::SetBackgroundColor => { assert(c[37] == "set_background_color"@); },
        TagKind::SetTabIndex => { assert(c[38] == "set_tab_index"@); },
        TagKind::SoundStreamBlock => { assert(c[39] == "sound_stream_block"@); },
        TagKind::SoundStreamHead => { assert(c[40] == "sound_stream_head"@); },
        TagKind::SoundStreamHead2 => { assert(c[41] == "sound_stream_head2"@); },
        TagKind::StartSound => { assert(c[42] == "start_sound"@); },
        TagKind::StartSound2 => { assert(c[43] == "start_sound2"@); },
        TagKind::SymbolClass => { assert(c[44] == "symbol_class"@); },
        TagKind::PlaceObject => { assert(c[45] == "place_object"@); },
        TagKind::RemoveObject => { assert(c[46] == "remove_object"@); },
        TagKind::VideoFrame => { assert(c[47] == "video_frame"@); },
        TagKind::FileAttributes => { assert(c[48] == "file_attributes"@); },
        TagKind::FrameLabel => { assert(c[49] == "frame_label"@); },
        TagKind::DefineSceneAndFrameLabelData => { assert(c[50] == "define_scene_and_frame_label_data"@); },
        TagKind::ProductInfo => { assert(c[51] == "product_info"@); },
        TagKind::ExportAssets => { assert(c[52] == "export_assets"@); },
        TagKind::Unknown => { assert(c[53] == "unknown"@); },
    }
}

/// Each action kind is counted in the column of the row that bears its
/// name: its index is that column's position, within the row's action
/// columns.
pub proof fn law_action_counted_under_its_name(k: ActionKind)
    ensures
        action_index(k) < ACTION_KINDS,
        action_columns().len() == ACTION_KINDS,
        action_columns()[action_index(k) as int] == action_column_name(k),
{
    let c = action_columns();
    match k {
        ActionKind::Add => { assert(c[0] == "action_add"@); },
        ActionKind::Add2 => { assert(c[1] == "action_add2"@); },
        ActionKind::And => { assert(c[2] == "action_and"@); },
        ActionKind::AsciiToChar => { assert(c[3] == "action_ascii_to_char"@); },
        ActionKind::BitAnd => { assert(c[4] == "action_bit_and"@); },
        ActionKind::BitLShift => { assert(c[5] == "action_bit_l_shift"@); },
        ActionKind::BitOr => { assert(c[6] == "action_bit_or"@); },
        ActionKind::BitRShift => { assert(c[7] == "action_bit_r_shift"@); },
        ActionKind::BitURShift => { assert(c[8] == "action_bit_u_r_shift"@); },
        ActionKind::BitXor => { assert(c[9] == "action_bit_xor"@); },
        ActionKind::Call => { assert(c[10] == "action_call"@); },
        ActionKind::CallFunction => { assert(c[11] == "action_call_function"@); },
        ActionKind::CallMethod => { assert(c[12] == "action_call_method"@); },
        ActionKind::CastOp => { assert(c[13] == "action_cast_op"@); },
        ActionKind::CharToAscii => { assert(c[14] == "action_char_to_ascii"@); },
        ActionKind::CloneSprite => { assert(c[15] == "action_clone_sprite"@); },
        ActionKind::ConstantPool => { assert(c[16] == "action_constant_pool"@); },
        ActionKind::Decrement => { assert(c[17] == "action_decrement"@); },
        ActionKind::DefineFunction => { assert(c[18] == "action_define_function"@); },
        ActionKind::DefineFunction2 => { assert(c[19] == "action_define_function2"@); },
        ActionKind::DefineLocal => { assert(c[20] == "action_define_local"@); },
        ActionKind::DefineLocal2 => { assert(c[21] == "action_define_local2"@); },
        ActionKind::Delete => { assert(c[22] == "action_delete"@); },
        ActionKind::Delete2 => { assert(c[23] == "action_delete2"@); },
        ActionKind::Divide => { assert(c[24] == "action_divide"@); },
        ActionKind::EndDrag => { assert(c[25] == "action_end_drag"@); },
        ActionKind::Enumerate => { assert(c[26] == "action_enumerate"@); },
        ActionKind::Enumerate2 => { assert(c[27] == "action_enumerate2"@); },
        ActionKind::Equals => { assert(c[28] == "action_equals"@); },
        ActionKind::Equals2 => { assert(c[29] == "action_equals2"@); },
        ActionKind::Extends => { assert(c[30] == "action_extends"@); },
        ActionKind::GetMember => { assert(c[31] == "action_get_member"@); },
        ActionKind::GetProperty => { assert(c[32] == "action_get_property"@); },
        ActionKind::GetTime => { assert(c[33] == "action_get_time"@); },
        ActionKind::GetUrl => { assert(c[34] == "action_get_url"@); },
        ActionKind::GetUrl2 => { assert(c[35] == "action_get_url2"@); },
        ActionKind::GetVariable => { assert(c[36] == "action_get_variable"@); },
        ActionKind::GotoFrame => { assert(c[37] == "action_goto_frame"@); },
        ActionKind::GotoFrame2 => { assert(c[38] == "action_goto_frame2"@); },
        ActionKind::GotoLabel => { assert(c[39] == "action_goto_label"@); },
        ActionKind::Greater => { assert(c[40] == "action_greater"@); },
        ActionKind::If => { assert(c[41] == "action_if"@); },
        ActionKind::ImplementsOp => { assert(c[42] == "action_implements_op"@); },
        ActionKind::Increment => { assert(c[43] == "action_increment"@); },
        ActionKind::InitArray => { assert(c[44] == "action_init_array"@); },
        ActionKind::InitObject => { assert(c[45] == "action_init_object"@); },
        ActionKind::InstanceOf => { assert(c[46] == "action_instance_of"@); },
        ActionKind::Jump => { assert(c[47] == "action_jump"@); },
        ActionKind::Less => { assert(c[48] == "action_less"@); },
        ActionKind::Less2 => { assert(c[49] == "action_less2"@); },
        ActionKind::MBAsciiToChar => { assert(c[50] == "action_m_b_ascii_to_char"@); },
        ActionKind::MBCharToAscii => { assert(c[51] == "action_m_b_char_to_ascii"@); },
        ActionKind::MBStringExtract => { assert(c[52] == "action_m_b_string_extract"@); },
        ActionKind::MBStringLength => { assert(c[53] == "action_m_b_string_length"@); },
        ActionKind::Modulo => { assert(c[54] == "action_modulo"@); },
        ActionKind::Multiply => { assert(c[55] == "action_multiply"@); },
        ActionKind::NewMethod => { assert(c[56] == "action_new_method"@); },
        ActionKind::NewObject => { assert(c[57] == "action_new_object"@); },
        ActionKind::NextFrame => { assert(c[58] == "action_next_frame"@); },
        ActionKind::Not => { assert(c[59] == "action_not"@); },
        ActionKind::Or => { assert(c[60] == "action_or"@); },
        ActionKind::Play => { assert(c[61] == "action_play"@); },
        ActionKind::Pop => { assert(c[62] == "action_pop"@); },
        ActionKind::PreviousFrame => { assert(c[63] == "action_previous_frame"@); },
        ActionKind::Push => { assert(c[64] == "action_push"@); },
        ActionKind::PushDuplicate => { assert(c[65] == "action_push_duplicate"@); },
        ActionKind::RandomNumber => { assert(c[66] == "action_random_number"@); },
        ActionKind::RemoveSprite => { assert(c[67] == "action_remove_sprite"@); },
        ActionKind::Return => { assert(c[68] == "action_return"@); },
        ActionKind::SetMember => { assert(c[69] == "action_set_member"@); },
        ActionKind::SetProperty => { assert(c[70] == "action_set_property"@); },
        ActionKind::SetTarget => { assert(c[71] == "action_set_target"@); },
        ActionKind::SetTarget2 => { assert(c[72] == "action_set_target2"@); },
        ActionKind::SetVariable => { assert(c[73] == "action_set_variable"@); },
        ActionKind::StackSwap => { assert(c[74] == "action_stack_swap"@); },
        ActionKind::StartDrag => { assert(c[75] == "action_start_drag"@); },
        ActionKind::Stop => { assert(c[76] == "action_stop"@); },
        ActionKind::StopSounds => { assert(c[77] == "action_stop_sounds"@); },
        ActionKind::StoreRegister => { assert(c[78] == "action_store_register"@); },
        ActionKind::StrictEquals => { assert(c[79] == "action_strict_equals"@); },
        ActionKind::StringAdd => { assert(c[80] == "action_string_add"@); },
        ActionKind::StringEquals => { assert(c[81] == "action_string_equals"@); },
        ActionKind::StringExtract => { assert(c[82] == "action_string_extract"@); },
        ActionKind::StringGreater => { assert(c[83] == "action_string_greater"@); },
        ActionKind::StringLength => { assert(c[84] == "action_string_length"@); },
        ActionKind::StringLess => { assert(c[85] == "action_string_less"@); },
        ActionKind::Subtract => { assert(c[86] == "action_subtract"@); },
        ActionKind::TargetPath => { assert(c[87] == "action_target_path"@); },
        ActionKind::Throw => { assert(c[88] == "action_throw"@); },
        ActionKind::ToInteger => { assert(c[89] == "action_to_integer"@); },
        ActionKind::ToNumber => { assert(c[90] == "action_to_number"@); },
        ActionKind::ToString => { assert(c[91] == "action_to_string"@); },
        ActionKind::ToggleQuality => { assert(c[92] == "action_toggle_quality"@); },
        ActionKind::Trace => { assert(c[93] == "action_trace"@); },
        ActionKind::Try => { assert(c[94] == "action_try"@); },
        ActionKind::TypeOf => { assert(c[95] == "action_type_of"@); },
        ActionKind::WaitForFrame => { assert(c[96] == "action_wait_for_frame"@); },
        ActionKind::WaitForFrame2 => { assert(c[97] == "action_wait_for_frame2"@); },
        ActionKind::With => { assert(c[98] == "action_with"@); },
        ActionKind::Unknown => { assert(c[99] == "action_unknown"@); },
    }
}

} // verus!
