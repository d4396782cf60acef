use vstd::prelude::*;

use crate::fb_builder::{
    builder_create_string, builder_end_table, builder_finish_size_prefixed,
    builder_finished_data, builder_new, builder_push_offset_slot, builder_push_u32_slot,
    builder_push_u8_slot, builder_start_table, builder_steps, created_string_offset,
    distinct_slots, ends_with_root_table, finished_bytes, le_u32, lemma_push_step,
    open_table_pushes, read_string_slot, read_u32_slot, read_u8_slot, reads_back,
    root_table_pos, space_bound, string_at, table_end_offset, table_start_offset, BuildStep,
    MAX_BUFFER_SIZE,
};
use crate::log_level::{level_code, level_of_code, LogLevel};
use crate::text::{decimal, push_decimal};
use vstd::utf8::{encode_utf8, encode_utf8_decode_utf8};

verus! {

broadcast use vstd::string::to_string_from_display_ensures_for_str;

/// Why a guest log record could not be read.
#[derive(Clone, Debug, PartialEq, Eq)]
pub enum GuestLogDataError {
    /// A string field of the record is absent; `field_name` names it.
    MissingField { field_name: String },
    /// The level byte of the record names no known level.
    UnsupportedLogLevel { code: u8 },
}

impl GuestLogDataError {
    /// The text of the error: `Missing field: <name>` for an absent field,
    /// `Unsupported log level: <code>` for an unknown level code.
    pub fn message(&self) -> (text: String)
        ensures
            self matches GuestLogDataError::MissingField { field_name } ==> text@ == "Missing field: "@
                + field_name@,
            self matches GuestLogDataError::UnsupportedLogLevel { code } ==> text@
                == "Unsupported log level: "@ + decimal(code as nat),
    {
        match self {
            GuestLogDataError::MissingField { field_name } => {
                let mut text = "Missing field: ".to_string();
                text.append(field_name.as_str());
                text
            },
            GuestLogDataError::UnsupportedLogLevel { code } => {
                let mut text = "Unsupported log level: ".to_string();
                push_decimal(&mut text, *code as usize);
                text
            },
        }
    }
}

/// The guest log data for a VM sandbox.
#[derive(Clone, Debug, PartialEq, Eq)]
pub struct GuestLogData {
    pub message: String,
    pub source: String,
    pub level: LogLevel,
    pub caller: String,
    pub source_file: String,
    pub line: u32,
}

/// The abstract content of a record.
pub struct GuestLogDataView {
    pub message: Seq<char>,
    pub source: Seq<char>,
    pub level: LogLevel,
    pub caller: Seq<char>,
    pub source_file: Seq<char>,
    pub line: u32,
}

impl View for GuestLogData {
    type V = GuestLogDataView;

    open spec fn view(&self) -> GuestLogDataView {
        GuestLogDataView {
            message: self.message@,
            source: self.source@,
            level: self.level,
            caller: self.caller@,
            source_file: self.source_file@,
            line: self.line,
        }
    }
}

impl GuestLogData {
    /// Builds a record from its six fields, unchanged.
    pub fn new(
        message: String,
        source: String,
        level: LogLevel,
        caller: String,
        source_file: String,
        line: u32,
    ) -> (data: Self)
        ensures
            data.message == message,
            data.source == source,
            data.level == level,
            data.caller == caller,
            data.source_file == source_file,
            data.line == line,
    {
        Self { message, source, level, caller, source_file, line }
    }
}

/// Turns an optional string read from a record into an owned one; an absent
/// string is the error `MissingField` naming `field_name`.
pub fn convert_generated_option(field_name: &str, opt: Option<&str>) -> (res: Result<
    String,
    GuestLogDataError,
>)
    ensures
        opt matches Some(s) ==> (res matches Ok(v) && v@ == s@),
        opt is None ==> (res matches Err(GuestLogDataError::MissingField { field_name: n })
            && n@ == field_name@),
{
    match opt {
        Some(s) => Ok(s.to_string()),
        None => Err(GuestLogDataError::MissingField { field_name: field_name.to_string() }),
    }
}

/// The name of the string field that reading reports as missing, if any.
/// Message and source are checked first, then the level code (an unknown
/// code is reported instead, and then no field is), then caller and source
/// file.
pub open spec fn record_outcome(
    message: Option<Seq<char>>,
    source: Option<Seq<char>>,
    level_code: u8,
    caller: Option<Seq<char>>,
    source_file: Option<Seq<char>>,
) -> Option<Seq<char>> {
    if message is None {
        Some("message"@)
    } else if source is None {
        Some("source"@)
    } else if level_of_code(level_code) is None {
        Option::None
    } else if caller is None {
        Some("caller"@)
    } else if source_file is None {
        Some("source file"@)
    } else {
        Option::None
    }
}

/// The record that the fields read from an encoded record make up: present
/// when all four strings are present and the level code names a level.
pub open spec fn assembled_record(
    message: Option<Seq<char>>,
    source: Option<Seq<char>>,
    level_code: u8,
    caller: Option<Seq<char>>,
    source_file: Option<Seq<char>>,
    line: u32,
) -> Option<GuestLogDataView> {
    match (message, source, level_of_code(level_code), caller, source_file) {
        (Some(m), Some(s), Some(l), Some(c), Some(f)) => Some(
            GuestLogDataView { message: m, source: s, level: l, caller: c, source_file: f, line },
        ),
        _ => None,
    }
}

/// The characters of an optional string.
pub open spec fn opt_view(o: Option<&str>) -> Option<Seq<char>> {
    match o {
        Some(s) => Some(s@),
        None => None,
    }
}

impl GuestLogData {
    /// Assembles a record from the fields read out of its encoded form: each
    /// string field must be present and the level code must name a level.
    pub fn try_from_fields(
        message: Option<&str>,
        source: Option<&str>,
        level_code: u8,
        caller: Option<&str>,
        source_file: Option<&str>,
        line: u32,
    ) -> (res: Result<GuestLogData, GuestLogDataError>)
        ensures
            ({
                let missing = record_outcome(
                    opt_view(message),
                    opt_view(source),
                    level_code,
                    opt_view(caller),
                    opt_view(source_file),
                );
                &&& missing matches Some(name) ==> (res matches Err(
                    GuestLogDataError::MissingField { field_name: n },
                ) && n@ == name)
                &&& (missing is None && level_of_code(level_code) is None) ==> res == Err::<
                    GuestLogData,
                    GuestLogDataError,
                >(GuestLogDataError::UnsupportedLogLevel { code: level_code })
                &&& res is Ok <==> assembled_record(
                    opt_view(message),
                    opt_view(source),
                    level_code,
                    opt_view(caller),
                    opt_view(source_file),
                    line,
                ) is Some
                &&& res matches Ok(d) ==> Some(d@) == assembled_record(
                    opt_view(message),
                    opt_view(source),
                    level_code,
                    opt_view(caller),
                    opt_view(source_file),
                    line,
                )
            }),
    {
        let message = convert_generated_option("message", message)?;
        let source = convert_generated_option("source", source)?;
        let level = match LogLevel::from_code(level_code) {
            Some(l) => l,
            None => {
                return Err(GuestLogDataError::UnsupportedLogLevel { code: level_code });
            },
        };
        let caller = convert_generated_option("caller", caller)?;
        let source_file = convert_generated_option("source file", source_file)?;
        Ok(GuestLogData { message, source, level, caller, source_file, line })
    }
}

/// The fields that encoding writes for a record (its four strings, its
/// level code and its line) assemble back into that record.
pub proof fn lemma_encoded_fields_reassemble(d: GuestLogDataView)
    ensures
        assembled_record(
            Some(d.message),
            Some(d.source),
            level_code(d.level),
            Some(d.caller),
            Some(d.source_file),
            d.line,
        ) == Some(d),
{
    crate::log_level::lemma_level_code_round_trip(d.level);
}

/// Vtable slot of the `message` field of the record table.
pub const VT_MESSAGE: u16 = 4;
/// Vtable slot of the `source` field.
pub const VT_SOURCE: u16 = 6;
/// Vtable slot of the `level` field (one byte, default `Trace`).
pub const VT_LEVEL: u16 = 8;
/// Vtable slot of the `caller` field.
pub const VT_CALLER: u16 = 10;
/// Vtable slot of the `source_file` field.
pub const VT_SOURCE_FILE: u16 = 12;
/// Vtable slot of the `line` field (`u32`, default 0).
pub const VT_LINE: u16 = 14;

/// The record table's slots follow its schema, whose fields are message,
/// source, level, caller, source file and line, in that order: field `k`
/// (from 0) sits at vtable byte `4 + 2 * k`.
pub proof fn lemma_record_slots_follow_schema_order()
    ensures
        VT_MESSAGE == 4 + 2 * 0,
        VT_SOURCE == 4 + 2 * 1,
        VT_LEVEL == 4 + 2 * 2,
        VT_CALLER == 4 + 2 * 3,
        VT_SOURCE_FILE == 4 + 2 * 4,
        VT_LINE == 4 + 2 * 5,
{
}

/// The builder calls that encode a record: its four strings (message,
/// source, caller, source file), then one table holding the line, the four
/// string offsets and the level code, finished with a size prefix.
pub open spec fn encoding_steps(d: GuestLogDataView) -> Seq<BuildStep> {
    let s1 = seq![BuildStep::CreateString(d.message)];
    let s2 = s1.push(BuildStep::CreateString(d.source));
    let s3 = s2.push(BuildStep::CreateString(d.caller));
    let s4 = s3.push(BuildStep::CreateString(d.source_file));
    let s5 = s4.push(BuildStep::StartTable);
    let s6 = s5.push(BuildStep::PushU32Slot { slot: VT_LINE, value: d.line, default: 0 });
    let s7 = s6.push(
        BuildStep::PushOffsetSlot { slot: VT_SOURCE_FILE, offset: created_string_offset(s4) },
    );
    let s8 = s7.push(BuildStep::PushOffsetSlot { slot: VT_CALLER, offset: created_string_offset(s3) });
    let s9 = s8.push(BuildStep::PushOffsetSlot { slot: VT_SOURCE, offset: created_string_offset(s2) });
    let s10 = s9.push(
        BuildStep::PushOffsetSlot { slot: VT_MESSAGE, offset: created_string_offset(s1) },
    );
    let s11 = s10.push(BuildStep::PushU8Slot { slot: VT_LEVEL, value: level_code(d.level), default: 0 });
    let s12 = s11.push(BuildStep::EndTable { start: table_start_offset(s5) });
    s12.push(BuildStep::FinishSizePrefixed { root: table_end_offset(s12) })
}

/// The record's encoding stays within what a FlatBuffers builder can hold.
pub open spec fn fits_in_buffer(d: GuestLogData) -> bool {
    space_bound(encoding_steps(d@)) <= MAX_BUFFER_SIZE
}

/// The space bound of a record's encoding: the UTF-8 bytes of its four
/// strings and 752 bytes besides.
pub proof fn lemma_encoding_space(d: GuestLogDataView)
    ensures
        space_bound(encoding_steps(d)) == encode_utf8(d.message).len() + encode_utf8(d.source).len()
            + encode_utf8(d.caller).len() + encode_utf8(d.source_file).len() + 752,
{
    let st = encoding_steps(d);
    assert forall|k: int| 0 <= k < st.len() implies space_bound(#[trigger] st.take(k + 1))
        == space_bound(st.take(k)) + match st[k] {
        BuildStep::CreateString(s) => encode_utf8(s).len() + 8,
        _ => 80nat,
    } by {
        assert(st.take(k + 1).drop_last() =~= st.take(k));
    }
    assert(st.take(0).len() == 0);
    assert(st.take(13) =~= st);
    assert(space_bound(st.take(1)) == space_bound(st.take(0)) + encode_utf8(d.message).len() + 8);
    assert(space_bound(st.take(2)) == space_bound(st.take(1)) + encode_utf8(d.source).len() + 8);
    assert(space_bound(st.take(3)) == space_bound(st.take(2)) + encode_utf8(d.caller).len() + 8);
    assert(space_bound(st.take(4)) == space_bound(st.take(3)) + encode_utf8(d.source_file).len()
        + 8);
    assert(space_bound(st.take(13)) == space_bound(st.take(4)) + 9 * 80) by {
        assert(space_bound(st.take(5)) == space_bound(st.take(4)) + 80);
        assert(space_bound(st.take(6)) == space_bound(st.take(5)) + 80);
        assert(space_bound(st.take(7)) == space_bound(st.take(6)) + 80);
        assert(space_bound(st.take(8)) == space_bound(st.take(7)) + 80);
        assert(space_bound(st.take(9)) == space_bound(st.take(8)) + 80);
        assert(space_bound(st.take(10)) == space_bound(st.take(9)) + 80);
        assert(space_bound(st.take(11)) == space_bound(st.take(10)) + 80);
        assert(space_bound(st.take(12)) == space_bound(st.take(11)) + 80);
        assert(space_bound(st.take(13)) == space_bound(st.take(12)) + 80);
    }
}

/// The record that encoded bytes hold, read as FlatBuffers reads them: the
/// root table's four strings (decoded from UTF-8), its level code (default
/// 0) and its line (default 0); present when all four strings are there and
/// the level code names a level.
pub open spec fn decoded_record(b: Seq<u8>) -> Option<GuestLogDataView> {
    let t = root_table_pos(b);
    assembled_record(
        read_string_slot(b, t, VT_MESSAGE),
        read_string_slot(b, t, VT_SOURCE),
        read_u8_slot(b, t, VT_LEVEL, 0),
        read_string_slot(b, t, VT_CALLER),
        read_string_slot(b, t, VT_SOURCE_FILE),
        read_u32_slot(b, t, VT_LINE, 0) as u32,
    )
}

/// Two records are encoded to the same bytes if and only if they are the
/// same record (`b1` and `b2` as `to_flatbuffer` describes its result for
/// `g1` and `g2`).
pub proof fn lemma_encoding_injective(
    g1: GuestLogDataView,
    g2: GuestLogDataView,
    b1: Seq<u8>,
    b2: Seq<u8>,
)
    requires
        b1 == finished_bytes(encoding_steps(g1)),
        decoded_record(b1) == Some(g1),
        b2 == finished_bytes(encoding_steps(g2)),
        decoded_record(b2) == Some(g2),
    ensures
        (b1 == b2) <==> (g1 == g2),
{
}

impl GuestLogData {
    /// Encodes the record as a size-prefixed FlatBuffer.
    pub fn to_flatbuffer(&self) -> (bytes: Vec<u8>)
        requires
            fits_in_buffer(*self),
        ensures
            bytes@ == finished_bytes(encoding_steps(self@)),
            bytes@.len() >= 8,
            le_u32(bytes@) + 4 == bytes@.len(),
            decoded_record(bytes@) == Some(self@),
    {
        let ghost d = self@;
        proof {
            lemma_encoding_space(d);
        }
        let mut builder = builder_new();
        proof {
            lemma_push_step(Seq::empty(), BuildStep::CreateString(d.message));
        }
        let message = builder_create_string(&mut builder, self.message.as_str());
        let ghost s1 = builder_steps(builder);
        proof {
            lemma_push_step(s1, BuildStep::CreateString(d.source));
        }
        let source = builder_create_string(&mut builder, self.source.as_str());
        let ghost s2 = builder_steps(builder);
        proof {
            lemma_push_step(s2, BuildStep::CreateString(d.caller));
        }
        let caller = builder_create_string(&mut builder, self.caller.as_str());
        let ghost s3 = builder_steps(builder);
        proof {
            lemma_push_step(s3, BuildStep::CreateString(d.source_file));
        }
        let source_file = builder_create_string(&mut builder, self.source_file.as_str());
        let ghost s4 = builder_steps(builder);
        let level = self.level.to_code();
        proof {
            lemma_push_step(s4, BuildStep::StartTable);
        }
        let start = builder_start_table(&mut builder);
        proof {
            lemma_push_step(
                builder_steps(builder),
                BuildStep::PushU32Slot { slot: VT_LINE, value: d.line, default: 0 },
            );
        }
        builder_push_u32_slot(&mut builder, VT_LINE, self.line, 0);
        proof {
            lemma_push_step(
                builder_steps(builder),
                BuildStep::PushOffsetSlot { slot: VT_SOURCE_FILE, offset: source_file },
            );
        }
        builder_push_offset_slot(&mut builder, VT_SOURCE_FILE, source_file);
        proof {
            lemma_push_step(
                builder_steps(builder),
                BuildStep::PushOffsetSlot { slot: VT_CALLER, offset: caller },
            );
        }
        builder_push_offset_slot(&mut builder, VT_CALLER, caller);
        proof {
            lemma_push_step(
                builder_steps(builder),
                BuildStep::PushOffsetSlot { slot: VT_SOURCE, offset: source },
            );
        }
        builder_push_offset_slot(&mut builder, VT_SOURCE, source);
        proof {
            lemma_push_step(
                builder_steps(builder),
                BuildStep::PushOffsetSlot { slot: VT_MESSAGE, offset: message },
            );
        }
        builder_push_offset_slot(&mut builder, VT_MESSAGE, message);
        proof {
            lemma_push_step(
                builder_steps(builder),
                BuildStep::PushU8Slot { slot: VT_LEVEL, value: level, default: 0 },
            );
        }
        builder_push_u8_slot(&mut builder, VT_LEVEL, level, 0);
        let ghost s11 = builder_steps(builder);
        proof {
            lemma_push_step(s11, BuildStep::EndTable { start });
        }
        let root = builder_end_table(&mut builder, start);
        let ghost s12 = builder_steps(builder);
        proof {
            lemma_push_step(s12, BuildStep::FinishSizePrefixed { root });
        }
        builder_finish_size_prefixed(&mut builder, root);
        let ghost st = builder_steps(builder);
        proof {
            assert(st =~= encoding_steps(d));
            assert(st.take(12) =~= s12);
            assert(st.take(11) =~= s11);
            assert(st.take(4) =~= s4);
            assert(st.take(3) =~= s3);
            assert(st.take(2) =~= s2);
            assert(st.take(1) =~= s1);
        }
        let bytes = builder_finished_data(&builder);
        proof {
            let b = bytes@;
            let t = root_table_pos(b);
            let pushes = open_table_pushes(s11);
            assert(pushes =~= seq![
                BuildStep::PushU32Slot { slot: VT_LINE, value: d.line, default: 0 },
                BuildStep::PushOffsetSlot { slot: VT_SOURCE_FILE, offset: source_file },
                BuildStep::PushOffsetSlot { slot: VT_CALLER, offset: caller },
                BuildStep::PushOffsetSlot { slot: VT_SOURCE, offset: source },
                BuildStep::PushOffsetSlot { slot: VT_MESSAGE, offset: message },
                BuildStep::PushU8Slot { slot: VT_LEVEL, value: level, default: 0 },
            ]);
            assert(distinct_slots(pushes));
            assert(ends_with_root_table(st));
            assert(reads_back(b, t, pushes[0]));
            assert(reads_back(b, t, pushes[1]));
            assert(reads_back(b, t, pushes[2]));
            assert(reads_back(b, t, pushes[3]));
            assert(reads_back(b, t, pushes[4]));
            assert(reads_back(b, t, pushes[5]));
            assert(string_at(b, b.len() - created_string_offset(st.take(1))) == encode_utf8(
                d.message,
            ));
            assert(string_at(b, b.len() - created_string_offset(st.take(2))) == encode_utf8(
                d.source,
            ));
            assert(string_at(b, b.len() - created_string_offset(st.take(3))) == encode_utf8(
                d.caller,
            ));
            assert(string_at(b, b.len() - created_string_offset(st.take(4))) == encode_utf8(
                d.source_file,
            ));
            encode_utf8_decode_utf8(d.message);
            encode_utf8_decode_utf8(d.source);
            encode_utf8_decode_utf8(d.caller);
            encode_utf8_decode_utf8(d.source_file);
            lemma_encoded_fields_reassemble(d);
        }
        bytes
    }
}

} // verus!
