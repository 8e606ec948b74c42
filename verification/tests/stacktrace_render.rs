use probe::stacktrace::{
    decimal_string, render_frame_header, render_location_line, render_stacktrace, ColumnType,
    SourceLocation, StackFrame,
};

fn bare_frame(name: &str, pc: u64) -> StackFrame {
    StackFrame {
        function_name: String::from(name),
        pc,
        is_inlined: false,
        source_location: None,
    }
}

#[test]
fn decimal_rendering_matches_exact_values() {
    assert_eq!(decimal_string(0), "0");
    assert_eq!(decimal_string(7), "7");
    assert_eq!(decimal_string(10), "10");
    assert_eq!(decimal_string(1_234_567_890), "1234567890");
    assert_eq!(decimal_string(u64::MAX), "18446744073709551615");
}

#[test]
fn header_line_shows_index_name_and_pc() {
    let line = render_frame_header(0, &bare_frame("main", 4660));
    assert_eq!(line, "Frame 0: main @ 4660");
}

#[test]
fn header_line_marks_inlined_frames() {
    let mut frame = bare_frame("memcpy", 134219776);
    frame.is_inlined = true;
    let line = render_frame_header(3, &frame);
    assert_eq!(line, "Frame 3: memcpy @ 134219776 inline");
}

#[test]
fn location_line_renders_all_known_components() {
    let location = SourceLocation {
        directory: Some(String::from("/home/user/project/src")),
        file: Some(String::from("main.rs")),
        line: Some(7),
        column: Some(ColumnType::Column(3)),
    };
    let line = render_location_line(&location);
    assert_eq!(line, "       /home/user/project/src/main.rs:7:3");
}

#[test]
fn location_line_renders_left_edge_as_column_one() {
    let location = SourceLocation {
        directory: Some(String::from("/src")),
        file: Some(String::from("lib.rs")),
        line: Some(42),
        column: Some(ColumnType::LeftEdge),
    };
    let line = render_location_line(&location);
    assert_eq!(line, "       /src/lib.rs:42:1");
}

#[test]
fn location_line_omits_unknown_components() {
    // A directory alone: no file, so no line or column either.
    let location = SourceLocation {
        directory: Some(String::from("/src")),
        file: None,
        line: Some(9),
        column: Some(ColumnType::Column(2)),
    };
    assert_eq!(render_location_line(&location), "       /src");

    // A file alone, without a line.
    let location = SourceLocation {
        directory: None,
        file: Some(String::from("boot.rs")),
        line: None,
        column: None,
    };
    assert_eq!(render_location_line(&location), "       /boot.rs");

    // A file with a line but no column.
    let location = SourceLocation {
        directory: None,
        file: Some(String::from("boot.rs")),
        line: Some(12),
        column: None,
    };
    assert_eq!(render_location_line(&location), "       /boot.rs:12");
}

#[test]
fn stacktrace_renders_header_and_location_lines_in_order() {
    let frames = vec![
        StackFrame {
            function_name: String::from("panic_handler"),
            pc: 2048,
            is_inlined: true,
            source_location: Some(SourceLocation {
                directory: Some(String::from("/app")),
                file: Some(String::from("main.rs")),
                line: Some(15),
                column: Some(ColumnType::Column(5)),
            }),
        },
        bare_frame("reset", 512),
    ];

    let lines = render_stacktrace(&frames);
    assert_eq!(
        lines,
        vec![
            String::from("Frame 0: panic_handler @ 2048 inline"),
            String::from("       /app/main.rs:15:5"),
            String::from("Frame 1: reset @ 512"),
        ]
    );
}

#[test]
fn stacktrace_skips_location_lines_without_dir_or_file() {
    let frames = vec![StackFrame {
        function_name: String::from("idle"),
        pc: 0,
        is_inlined: false,
        source_location: Some(SourceLocation {
            directory: None,
            file: None,
            line: Some(3),
            column: None,
        }),
    }];
    let lines = render_stacktrace(&frames);
    assert_eq!(lines, vec![String::from("Frame 0: idle @ 0")]);
}

#[test]
fn empty_stacktrace_renders_no_lines() {
    let lines = render_stacktrace(&vec![]);
    assert!(lines.is_empty());
}
