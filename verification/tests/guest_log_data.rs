use hyperlight::guest_log_data::{
    convert_generated_option, GuestLogData, GuestLogDataError, VT_CALLER, VT_LEVEL, VT_LINE,
    VT_MESSAGE, VT_SOURCE, VT_SOURCE_FILE,
};
use hyperlight::log_level::LogLevel;

fn u16_at(b: &[u8], pos: usize) -> u16 {
    u16::from_le_bytes([b[pos], b[pos + 1]])
}

fn u32_at(b: &[u8], pos: usize) -> u32 {
    u32::from_le_bytes([b[pos], b[pos + 1], b[pos + 2], b[pos + 3]])
}

/// Position of a present field of the root table of a size-prefixed buffer.
fn field_pos(b: &[u8], slot: u16) -> Option<usize> {
    let table = 4 + u32_at(b, 4) as usize;
    let soff = i32::from_le_bytes([b[table], b[table + 1], b[table + 2], b[table + 3]]);
    let vtable = (table as i64 - soff as i64) as usize;
    let vtable_len = u16_at(b, vtable);
    if slot >= vtable_len {
        return None;
    }
    let off = u16_at(b, vtable + slot as usize);
    if off == 0 {
        None
    } else {
        Some(table + off as usize)
    }
}

fn string_field(b: &[u8], slot: u16) -> Option<String> {
    let pos = field_pos(b, slot)?;
    let s = pos + u32_at(b, pos) as usize;
    let len = u32_at(b, s) as usize;
    assert_eq!(b[s + 4 + len], 0, "strings are zero-terminated");
    Some(String::from_utf8(b[s + 4..s + 4 + len].to_vec()).unwrap())
}

/// Reads a record back the way its generated accessors do.
fn read_back(b: &[u8]) -> Result<GuestLogData, GuestLogDataError> {
    let message = string_field(b, VT_MESSAGE);
    let source = string_field(b, VT_SOURCE);
    let caller = string_field(b, VT_CALLER);
    let source_file = string_field(b, VT_SOURCE_FILE);
    let level = field_pos(b, VT_LEVEL).map(|p| b[p]).unwrap_or(0);
    let line = field_pos(b, VT_LINE).map(|p| u32_at(b, p)).unwrap_or(0);
    GuestLogData::try_from_fields(
        message.as_deref(),
        source.as_deref(),
        level,
        caller.as_deref(),
        source_file.as_deref(),
        line,
    )
}

fn sample() -> GuestLogData {
    GuestLogData::new(
        "guest says hello".to_string(),
        "guest".to_string(),
        LogLevel::Warning,
        "main".to_string(),
        "src/main.rs".to_string(),
        42,
    )
}

#[test]
fn new_keeps_every_field() {
    let d = sample();
    assert_eq!(d.message, "guest says hello");
    assert_eq!(d.source, "guest");
    assert_eq!(d.level, LogLevel::Warning);
    assert_eq!(d.caller, "main");
    assert_eq!(d.source_file, "src/main.rs");
    assert_eq!(d.line, 42);
}

#[test]
fn encoding_is_framed_by_its_size_prefix() {
    let bytes = sample().to_flatbuffer();
    assert!(bytes.len() >= 8);
    assert_eq!(u32_at(&bytes, 0) as usize + 4, bytes.len());
}

#[test]
fn encoding_reads_back_to_the_same_record() {
    let d = sample();
    let bytes = d.to_flatbuffer();
    assert_eq!(read_back(&bytes), Ok(d));
}

#[test]
fn encoding_of_every_level_reads_back() {
    for level in [
        LogLevel::Trace,
        LogLevel::Debug,
        LogLevel::Information,
        LogLevel::Warning,
        LogLevel::Error,
        LogLevel::Critical,
        LogLevel::Off,
    ] {
        let d = GuestLogData::new(String::new(), "s".to_string(), level, String::new(), "f".to_string(), 0);
        let bytes = d.to_flatbuffer();
        assert_eq!(read_back(&bytes), Ok(d));
    }
}

#[test]
fn trace_level_and_zero_line_are_left_to_their_defaults() {
    let d = GuestLogData::new(
        "m".to_string(),
        "s".to_string(),
        LogLevel::Trace,
        "c".to_string(),
        "f".to_string(),
        0,
    );
    let bytes = d.to_flatbuffer();
    assert_eq!(field_pos(&bytes, VT_LEVEL), None);
    assert_eq!(field_pos(&bytes, VT_LINE), None);
    assert_eq!(read_back(&bytes), Ok(d));
}

#[test]
fn encoding_keeps_non_ascii_text() {
    let d = GuestLogData::new(
        "grüße ✓".to_string(),
        "gäst".to_string(),
        LogLevel::Critical,
        "fn ☃".to_string(),
        "π.rs".to_string(),
        u32::MAX,
    );
    let bytes = d.to_flatbuffer();
    assert_eq!(read_back(&bytes), Ok(d));
}

#[test]
fn different_records_encode_differently() {
    let a = sample().to_flatbuffer();
    let mut other = sample();
    other.line = 43;
    let b = other.to_flatbuffer();
    assert_ne!(a, b);
}

#[test]
fn convert_generated_option_present() {
    assert_eq!(convert_generated_option("message", Some("hi")), Ok("hi".to_string()));
}

#[test]
fn convert_generated_option_absent_names_the_field() {
    assert_eq!(
        convert_generated_option("source file", None),
        Err(GuestLogDataError::MissingField { field_name: "source file".to_string() })
    );
}

#[test]
fn fields_assemble_into_a_record() {
    let r = GuestLogData::try_from_fields(Some("m"), Some("s"), 4, Some("c"), Some("f"), 7);
    assert_eq!(
        r,
        Ok(GuestLogData::new(
            "m".to_string(),
            "s".to_string(),
            LogLevel::Error,
            "c".to_string(),
            "f".to_string(),
            7
        ))
    );
}

#[test]
fn missing_fields_are_reported_in_order() {
    let missing = |name: &str| Err(GuestLogDataError::MissingField { field_name: name.to_string() });
    assert_eq!(GuestLogData::try_from_fields(None, None, 9, None, None, 0), missing("message"));
    assert_eq!(GuestLogData::try_from_fields(Some("m"), None, 9, None, None, 0), missing("source"));
    assert_eq!(
        GuestLogData::try_from_fields(Some("m"), Some("s"), 0, None, None, 0),
        missing("caller")
    );
    assert_eq!(
        GuestLogData::try_from_fields(Some("m"), Some("s"), 0, Some("c"), None, 0),
        missing("source file")
    );
}

#[test]
fn unknown_level_code_is_refused_after_message_and_source() {
    assert_eq!(
        GuestLogData::try_from_fields(Some("m"), Some("s"), 7, None, None, 0),
        Err(GuestLogDataError::UnsupportedLogLevel { code: 7 })
    );
    assert_eq!(
        GuestLogData::try_from_fields(Some("m"), Some("s"), 255, Some("c"), Some("f"), 0),
        Err(GuestLogDataError::UnsupportedLogLevel { code: 255 })
    );
}

#[test]
fn level_codes_round_trip() {
    for code in 0u8..=6 {
        let level = LogLevel::from_code(code).unwrap();
        assert_eq!(level.to_code(), code);
    }
    assert_eq!(LogLevel::from_code(7), None);
    assert_eq!(LogLevel::Trace.to_code(), 0);
    assert_eq!(LogLevel::Information.to_code(), 2);
    assert_eq!(LogLevel::Off.to_code(), 6);
}

#[test]
fn missing_field_message_names_the_field() {
    let err = convert_generated_option("source file", None).unwrap_err();
    assert_eq!(err.message(), "Missing field: source file");
    let err = GuestLogData::try_from_fields(Some("m"), None, 1, None, None, 0).unwrap_err();
    assert_eq!(err.message(), "Missing field: source");
}

#[test]
fn unknown_level_message_gives_the_code() {
    let err = GuestLogData::try_from_fields(Some("m"), Some("s"), 200, None, None, 0).unwrap_err();
    assert_eq!(err.message(), "Unsupported log level: 200");
    let err = GuestLogData::try_from_fields(Some("m"), Some("s"), 7, None, None, 0).unwrap_err();
    assert_eq!(err.message(), "Unsupported log level: 7");
}

#[test]
fn equal_records_encode_equally_and_strings_tell_records_apart() {
    assert_eq!(sample().to_flatbuffer(), sample().clone().to_flatbuffer());
    let mut swapped = sample();
    swapped.source = sample().caller;
    swapped.caller = sample().source;
    assert_ne!(sample().to_flatbuffer(), swapped.to_flatbuffer());
    let mut other_level = sample();
    other_level.level = LogLevel::Trace;
    assert_ne!(sample().to_flatbuffer(), other_level.to_flatbuffer());
}
