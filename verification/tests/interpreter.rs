use sniprun::context::DataHolder;
use sniprun::interpreter::{descriptor, fetch, Interpreter};
use sniprun::interpreters::js_ts_deno::JS_TS_deno;
use sniprun::level::SupportLevel;
use sniprun::process::{Invocation, ProcessReport};
use sniprun::registry::BackendDescriptor;
use sniprun::text::{has_more_than_spaces, has_visible_text};

fn request(block: &str, line: &str) -> DataHolder {
    let mut data = DataHolder::new();
    data.filetype = String::from("typescript");
    data.work_dir = String::from("/cache");
    data.current_bloc = String::from(block);
    data.current_line = String::from(line);
    data
}

#[test]
fn new_request_is_empty() {
    let data = DataHolder::new();
    assert_eq!(data.filetype, "");
    assert_eq!(data.work_dir, "");
    assert_eq!(data.current_line, "");
    assert_eq!(data.current_bloc, "");
    assert_eq!(DataHolder::default(), data);
    assert_eq!(data.clone(), data);
}

#[test]
fn whitespace_is_space_tab_and_line_ends() {
    assert!(!has_visible_text(""));
    assert!(!has_visible_text(" \t\n\r \r\n"));
    assert!(has_visible_text(" \t\nx\r"));
    assert!(has_visible_text("\u{a0}"));
    assert!(has_visible_text("\u{b}"));
}

#[test]
fn only_spaces_are_removed_from_a_line() {
    assert!(!has_more_than_spaces(""));
    assert!(!has_more_than_spaces("     "));
    assert!(has_more_than_spaces("  \t "));
    assert!(has_more_than_spaces("\n"));
    assert!(has_more_than_spaces(" x "));
}

#[test]
fn fetch_takes_the_block_verbatim_at_bloc() {
    let data = request("  let a = 1;\n\tlet b = 2;  \n", "let a = 1;");
    assert_eq!(fetch(&data, SupportLevel::Bloc), "  let a = 1;\n\tlet b = 2;  \n");
    assert_eq!(fetch(&data, SupportLevel::Import), "  let a = 1;\n\tlet b = 2;  \n");
    assert_eq!(fetch(&data, SupportLevel::File), "  let a = 1;\n\tlet b = 2;  \n");
}

#[test]
fn fetch_falls_back_to_the_line() {
    let data = request("let a = 1;\nlet b = 2;", "  let a = 1;");
    assert_eq!(fetch(&data, SupportLevel::Line), "  let a = 1;");
    let blank_block = request(" \n\t", "  let a = 1;");
    assert_eq!(fetch(&blank_block, SupportLevel::Bloc), "  let a = 1;");
    assert_eq!(fetch(&blank_block, SupportLevel::File), "  let a = 1;");
}

#[test]
fn fetch_takes_nothing_when_disabled_or_blank() {
    let data = request("let a = 1;\nlet b = 2;", "let a = 1;");
    assert_eq!(fetch(&data, SupportLevel::Disabled), "");
    let blank = request(" \n\t\r", "   ");
    assert_eq!(fetch(&blank, SupportLevel::Disabled), "");
    assert_eq!(fetch(&blank, SupportLevel::Line), "");
    assert_eq!(fetch(&blank, SupportLevel::Bloc), "");
    assert_eq!(fetch(&blank, SupportLevel::File), "");
    let tab_line = request("", "\t");
    assert_eq!(fetch(&tab_line, SupportLevel::Line), "\t");
}

#[test]
fn instance_starts_at_the_capped_level() {
    let at_max = JS_TS_deno::new(request("a", "b"));
    assert_eq!(at_max.get_current_level(), SupportLevel::Bloc);
    let lower = JS_TS_deno::new_with_level(request("a", "b"), SupportLevel::Line);
    assert_eq!(lower.get_current_level(), SupportLevel::Line);
    let capped = JS_TS_deno::new_with_level(request("a", "b"), SupportLevel::File);
    assert_eq!(capped.get_current_level(), SupportLevel::Bloc);
    let off = JS_TS_deno::new_with_level(request("a", "b"), SupportLevel::Disabled);
    assert_eq!(off.get_current_level(), SupportLevel::Disabled);
}

#[test]
fn level_is_lowered_but_never_raised() {
    let mut interpreter = JS_TS_deno::new(request("a", "b"));
    interpreter.set_current_level(SupportLevel::File);
    assert_eq!(interpreter.get_current_level(), SupportLevel::Bloc);
    interpreter.set_current_level(SupportLevel::Line);
    assert_eq!(interpreter.get_current_level(), SupportLevel::Line);
    interpreter.set_current_level(SupportLevel::Bloc);
    assert_eq!(interpreter.get_current_level(), SupportLevel::Line);
    interpreter.set_current_level(SupportLevel::Disabled);
    assert_eq!(interpreter.get_current_level(), SupportLevel::Disabled);
    interpreter.set_current_level(SupportLevel::Line);
    assert_eq!(interpreter.get_current_level(), SupportLevel::Disabled);
}

#[test]
fn fetch_code_follows_the_level_and_can_be_repeated() {
    let mut interpreter = JS_TS_deno::new(request("let a = 1;\nlet b = 2;", "let a = 1;"));
    assert_eq!(interpreter.build().content, "");
    assert_eq!(interpreter.fetch_code(), Ok(()));
    assert_eq!(interpreter.build().content, "let a = 1;\nlet b = 2;");
    assert_eq!(interpreter.fetch_code(), Ok(()));
    assert_eq!(interpreter.build().content, "let a = 1;\nlet b = 2;");
    interpreter.set_current_level(SupportLevel::Line);
    assert_eq!(interpreter.fetch_code(), Ok(()));
    assert_eq!(interpreter.build().content, "let a = 1;");
    assert_eq!(interpreter.fetch_code(), Ok(()));
    assert_eq!(interpreter.build().content, "let a = 1;");
    interpreter.set_current_level(SupportLevel::Disabled);
    assert_eq!(interpreter.fetch_code(), Ok(()));
    assert_eq!(interpreter.build().content, "");
}

#[test]
fn deno_adds_no_boilerplate() {
    let mut interpreter = JS_TS_deno::new(request("console.log(1)", ""));
    assert_eq!(interpreter.fetch_code(), Ok(()));
    assert_eq!(interpreter.add_boilerplate(), Ok(()));
    assert_eq!(interpreter.build().content, "console.log(1)");
    assert_eq!(interpreter.add_boilerplate(), Ok(()));
    assert_eq!(interpreter.build().content, "console.log(1)");
}

#[test]
fn deno_describes_itself() {
    assert_eq!(JS_TS_deno::get_name(), "JS_TS_deno");
    assert_eq!(
        JS_TS_deno::get_supported_languages(),
        vec![
            String::from("TS/JS via Deno"),
            String::from("typescript"),
            String::from("typescriptreact"),
            String::from("ts"),
            String::from("js"),
            String::from("javascript"),
        ]
    );
    assert_eq!(JS_TS_deno::get_max_support_level(), SupportLevel::Bloc);
    assert!(!JS_TS_deno::default_for_filetype());
    assert_eq!(
        descriptor::<JS_TS_deno>(),
        BackendDescriptor {
            name: String::from("JS_TS_deno"),
            filetypes: vec![
                String::from("typescript"),
                String::from("typescriptreact"),
                String::from("ts"),
                String::from("js"),
                String::from("javascript"),
            ],
            max_support_level: SupportLevel::Bloc,
            is_default_for_filetype: false,
        }
    );
}

#[test]
fn deno_keeps_its_request_and_its_paths() {
    let data = request("console.log(1)", "");
    let interpreter = JS_TS_deno::new(data.clone());
    assert_eq!(interpreter.get_data(), data);
    assert_eq!(interpreter.build().path, "/cache/JS_TS_deno/main.ts");
    assert_eq!(
        interpreter.command(),
        Invocation {
            program: String::from("deno"),
            args: vec![String::from("run"), String::from("-A"), String::from("--unstable")],
            artifact_path: String::from("/cache/JS_TS_deno/main.ts"),
        }
    );
    let copy = interpreter.clone();
    assert_eq!(copy.get_data(), data);
    assert_eq!(copy.get_current_level(), SupportLevel::Bloc);
    assert_eq!(copy.build(), interpreter.build());
}

#[test]
fn deno_reads_the_report() {
    let interpreter = JS_TS_deno::new(request("console.log(1)", ""));
    let report = ProcessReport { success: true, stdout: b"1\n".to_vec(), stderr: Vec::new() };
    assert_eq!(interpreter.execute(report), Ok(String::from("1\n")));
}
