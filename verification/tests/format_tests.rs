use log_facade::facade::{add_sink, emit, startup, Facade};
use log_facade::format::{format_record, Field, FieldValue};
use log_facade::level::{Level, LevelFilter};
use log_facade::record::Record;
use log_facade::sink::{format_line, DebugConsoleSink};

fn field(key: &str, value: FieldValue) -> Field {
    Field {
        key: key.to_string(),
        value,
    }
}

#[test]
fn no_fields_yields_no_args() {
    let (msg, args) = format_record("hello", &Vec::new());
    assert_eq!(msg, "hello");
    assert!(args.is_none());
}

#[test]
fn fields_join_with_single_spaces() {
    let fields = vec![
        field("a", FieldValue::U64(1)),
        field("b", FieldValue::Bool(true)),
        field("c", FieldValue::I64(-5)),
    ];
    let (msg, args) = format_record("hello", &fields);
    assert_eq!(msg, "hello");
    assert_eq!(args.unwrap(), "a=1 b=true c=-5");
}

#[test]
fn message_field_extends_primary_message() {
    let fields = vec![
        field("message", FieldValue::Text(" and more".to_string())),
        field("k", FieldValue::U64(1)),
    ];
    let (msg, args) = format_record("hello", &fields);
    assert_eq!(msg, "hello and more");
    assert_eq!(args.unwrap(), "k=1");
}

#[test]
fn only_message_fields_yield_no_args() {
    let fields = vec![field("message", FieldValue::Debug("Thing".to_string()))];
    let (msg, args) = format_record("", &fields);
    assert_eq!(msg, "Thing");
    assert!(args.is_none());
}

#[test]
fn numeric_extremes_render_exactly() {
    let fields = vec![
        field("umax", FieldValue::U64(u64::MAX)),
        field("imin", FieldValue::I64(i64::MIN)),
        field("wmax", FieldValue::U128(u128::MAX)),
        field("wmin", FieldValue::I128(i128::MIN)),
        field("zero", FieldValue::U64(0)),
    ];
    let (_, args) = format_record("n", &fields);
    assert_eq!(
        args.unwrap(),
        "umax=18446744073709551615 imin=-9223372036854775808 \
         wmax=340282366920938463463374607431768211455 \
         wmin=-170141183460469231731687303715884105728 zero=0"
    );
}

#[test]
fn text_debug_and_error_values_render_verbatim() {
    let fields = vec![
        field("s", FieldValue::Text("plain".to_string())),
        field("d", FieldValue::Debug("Struct { x: 1 }".to_string())),
        field("e", FieldValue::ErrorText("boom".to_string())),
    ];
    let (_, args) = format_record("m", &fields);
    assert_eq!(args.unwrap(), "s=plain d=Struct { x: 1 } e=boom");
}

#[test]
fn line_includes_source_location_when_fully_known() {
    let record = Record {
        level: Level::Warn,
        msg: "careful".to_string(),
        args: Some("a=1".to_string()),
        file: Some("src/x.rs".to_string()),
        line: Some(42),
    };
    assert_eq!(format_line(&record), "[WARN][src/x.rs:42] careful a=1\n");
}

#[test]
fn line_without_args_keeps_location() {
    let record = Record {
        level: Level::Trace,
        msg: "quiet".to_string(),
        args: None,
        file: Some("lib.rs".to_string()),
        line: Some(7),
    };
    assert_eq!(format_line(&record), "[TRACE][lib.rs:7] quiet\n");
}

#[test]
fn line_with_partial_location_falls_back_and_drops_args() {
    let record = Record {
        level: Level::Debug,
        msg: "odd".to_string(),
        args: Some("a=1".to_string()),
        file: Some("lib.rs".to_string()),
        line: None,
    };
    assert_eq!(format_line(&record), "[DEBUG][unknown:unknown] odd\n");
}

#[test]
fn emit_carries_source_location_to_sinks() {
    let mut f: Facade<DebugConsoleSink> = Facade::new();
    startup(&mut f, LevelFilter::Trace).unwrap();
    add_sink(&mut f, 1, DebugConsoleSink::new(LevelFilter::Trace));
    let fields = vec![field("cheese", FieldValue::U64(7))];
    emit(
        &mut f,
        Level::Error,
        "Test message 3",
        &fields,
        Some("win32/main.rs"),
        Some(31),
    );
    let lines = f.get_sink(1).unwrap().lines();
    assert_eq!(lines[0], "[ERROR][win32/main.rs:31] Test message 3 cheese=7\n");
}
