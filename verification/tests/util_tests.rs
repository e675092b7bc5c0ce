use rimpub::cli::{Cli, Command, FAILURE_LEAD, NO_COMMAND_HINT, TOO_VERBOSE_REMARK};
use rimpub::config::{ConfigArgs, ConfigCommand};
use rimpub::error::{Error, ErrorKind};
use rimpub::generate::{
    gen_config_file, gen_ignore_file, FileContent, GenerateArgs, GenerateCommand,
    IGNORE_FILE_TEMPLATE,
};
use rimpub::logger::{init, LogLevel, SimpleColorLogger};
use rimpub::paths::{clone_names, prefix_is, same_names, Location};
use rimpub::text::{clone_text, joined, joined3, parse_bool, same_text, write_bool};
use rimpub::trigger::{
    build_arguments, execute_dotnet_build, find_sln_file, names_solution, BuildRun, DirItem,
    BUILD_PROGRAM,
};
use rimpub::util::{
    confirm, confirm_prompt, decode_out, decode_out_checked, get_dir, is_affirmative,
    TextEncoding,
    APP_DIRECTORY_NAME, KEY_INSTALL_DIR, STEAM_REG_PATH, STEAM_REG_PATH_32,
};

fn p(parts: &[&str]) -> Vec<String> {
    parts.iter().map(|s| s.to_string()).collect()
}

fn item(name: &str, is_file: bool) -> DirItem {
    DirItem { name: name.to_string(), is_file }
}

#[test]
fn texts_are_the_same_only_character_by_character() {
    assert!(same_text("", ""));
    assert!(same_text("path_game", "path_game"));
    assert!(same_text("模组", "模组"));
    assert!(!same_text("path_game", "path_gam"));
    assert!(!same_text("path_game", "Path_game"));
    assert!(!same_text("a", ""));
    assert!(!same_text("é", "e"));
}

#[test]
fn texts_are_joined_in_order() {
    assert_eq!(joined("ab", "cd"), "abcd");
    assert_eq!(joined("", "x"), "x");
    assert_eq!(joined3("a", "", "c"), "ac");
    assert_eq!(joined3("'", "key", "'"), "'key'");
}

#[test]
fn booleans_are_written_and_read_in_lowercase_only() {
    assert_eq!(write_bool(true), "true");
    assert_eq!(write_bool(false), "false");
    assert_eq!(parse_bool("true"), Some(true));
    assert_eq!(parse_bool("false"), Some(false));
    assert_eq!(parse_bool("True"), None);
    assert_eq!(parse_bool("1"), None);
    assert_eq!(parse_bool(""), None);
    assert_eq!(parse_bool("true "), None);
}

#[test]
fn an_absent_text_is_copied_as_absent() {
    assert_eq!(clone_text(&None), None);
    assert_eq!(clone_text(&Some("x".to_string())), Some("x".to_string()));
}

#[test]
fn lists_of_names_are_compared_name_by_name() {
    assert!(same_names(&p(&[]), &p(&[])));
    assert!(same_names(&p(&["a", "b"]), &p(&["a", "b"])));
    assert!(!same_names(&p(&["a", "b"]), &p(&["a"])));
    assert!(!same_names(&p(&["a", "b"]), &p(&["a", "c"])));
    assert!(!same_names(&p(&["ab"]), &p(&["a", "b"])));
    assert_eq!(clone_names(&p(&["x", "y"])), p(&["x", "y"]));
}

#[test]
fn a_prefix_is_compared_up_to_its_length() {
    assert!(prefix_is(&p(&["a", "b", "c"]), 2, &p(&["a", "b"])));
    assert!(prefix_is(&p(&["a", "b", "c"]), 0, &p(&[])));
    assert!(prefix_is(&p(&["a", "b", "c"]), 3, &p(&["a", "b", "c"])));
    assert!(!prefix_is(&p(&["a", "b", "c"]), 2, &p(&["a"])));
    assert!(!prefix_is(&p(&["a", "b", "c"]), 2, &p(&["a", "c"])));
}

#[test]
fn a_location_grows_by_names() {
    let base = Location::new("/games");
    assert_eq!(base.base, "/games");
    assert!(base.below.is_empty());
    let mods = base.join("Mods");
    assert_eq!(mods.below, p(&["Mods"]));
    let deep = mods.descend(&p(&["MyMod", "About"]));
    assert_eq!(deep.base, "/games");
    assert_eq!(deep.below, p(&["Mods", "MyMod", "About"]));
    let copy = deep.duplicate();
    assert_eq!(copy.base, deep.base);
    assert_eq!(copy.below, deep.below);
    assert_eq!(mods.below, p(&["Mods"]));
}

#[test]
fn the_tool_keeps_its_files_below_home() {
    let place = get_dir("/home/pawn");
    assert_eq!(place.base, "/home/pawn");
    assert_eq!(place.below, p(&[".rimpub"]));
    assert_eq!(APP_DIRECTORY_NAME, ".rimpub");
    assert_eq!(STEAM_REG_PATH, r"SOFTWARE\WOW6432Node\Valve\Steam");
    assert_eq!(STEAM_REG_PATH_32, r"SOFTWARE\Valve\Steam");
    assert_eq!(KEY_INSTALL_DIR, "InstallPath");
}

#[test]
fn only_y_and_yes_confirm() {
    assert!(confirm("y"));
    assert!(confirm("yes"));
    assert!(confirm("Y"));
    assert!(confirm("YES"));
    assert!(confirm("  yes \n"));
    assert!(confirm("y\r\n"));
    assert!(!confirm("n"));
    assert!(!confirm("no"));
    assert!(!confirm(""));
    assert!(!confirm("\n"));
    assert!(!confirm("yep"));
    assert!(!confirm("y es"));
    assert!(is_affirmative("y"));
    assert!(is_affirmative("yes"));
    assert!(!is_affirmative("Y"));
    assert!(!is_affirmative(" y"));
}

#[test]
fn a_question_ends_in_the_hint() {
    assert_eq!(confirm_prompt("Delete?"), "Delete? (y/n): ");
}

#[test]
fn plain_output_is_read_as_it_is() {
    assert_eq!(decode_out(b"Build succeeded.", TextEncoding::Gbk), "Build succeeded.");
    assert_eq!(decode_out(b"Build succeeded.", TextEncoding::Utf8Lossy), "Build succeeded.");
    assert_eq!(decode_out(b"", TextEncoding::Gbk), "");
    assert_eq!(decode_out(b"", TextEncoding::Utf8Lossy), "");
    assert_eq!(decode_out("生成成功".as_bytes(), TextEncoding::Utf8Lossy), "生成成功");
}

#[test]
fn gbk_output_is_decoded() {
    let bytes = [0xC4u8, 0xE3, 0xBA, 0xC3];
    assert_eq!(decode_out(&bytes, TextEncoding::Gbk), "你好");
    assert_eq!(decode_out(&[0x80], TextEncoding::Gbk), "\u{20AC}");
}

#[test]
fn what_cannot_be_decoded_is_replaced() {
    assert_eq!(decode_out(&[b'a', 0xFF, b'b'], TextEncoding::Utf8Lossy), "a\u{FFFD}b");
    assert_eq!(decode_out(&[b'a', 0xFF, b'b'], TextEncoding::Gbk), "a\u{FFFD}b");
}

#[test]
fn malformed_gbk_is_flagged_and_nothing_else() {
    assert_eq!(
        decode_out_checked(&[b'a', 0xFF, b'b'], TextEncoding::Gbk),
        ("a\u{FFFD}b".to_string(), true)
    );
    assert_eq!(
        decode_out_checked(&[0xC4, 0xE3, 0xBA, 0xC3], TextEncoding::Gbk),
        ("你好".to_string(), false)
    );
    assert_eq!(decode_out_checked(b"plain", TextEncoding::Gbk), ("plain".to_string(), false));
    assert_eq!(decode_out_checked(b"", TextEncoding::Gbk), (String::new(), false));
    assert_eq!(
        decode_out_checked(&[b'a', 0xFF, b'b'], TextEncoding::Utf8Lossy),
        ("a\u{FFFD}b".to_string(), false)
    );
}

#[test]
fn white_space_of_every_kind_is_trimmed_from_an_answer() {
    assert!(confirm("\t y \r\n"));
    assert!(confirm("\u{A0}yes\u{3000}"));
    assert!(confirm("\u{2003}Y\u{85}"));
    assert!(confirm("\u{0B}\u{0C}yes\u{2028}\u{2029}"));
    assert!(confirm("\u{1680}\u{202F}\u{205F}y"));
    assert!(!confirm("\u{200B}y"));
    assert!(!confirm("\u{180E}y"));
    assert!(!confirm("y\u{FEFF}"));
}

#[test]
fn exactly_the_white_space_code_points_are_trimmed() {
    let listed = |n: u32| {
        (0x09..=0x0D).contains(&n)
            || n == 0x20
            || n == 0x85
            || n == 0xA0
            || n == 0x1680
            || (0x2000..=0x200A).contains(&n)
            || n == 0x2028
            || n == 0x2029
            || n == 0x202F
            || n == 0x205F
            || n == 0x3000
    };
    let mut text = String::new();
    for n in 0..=0x10FFFFu32 {
        if let Some(c) = char::from_u32(n) {
            text.clear();
            text.push(c);
            text.push('y');
            assert_eq!(confirm(&text), listed(n), "leading U+{:04X}", n);
            text.clear();
            text.push_str("yes");
            text.push(c);
            assert_eq!(confirm(&text), listed(n), "trailing U+{:04X}", n);
        }
    }
}

#[test]
fn the_native_encoding_follows_the_system() {
    assert_eq!(TextEncoding::native(true), TextEncoding::Gbk);
    assert_eq!(TextEncoding::native(false), TextEncoding::Utf8Lossy);
}

#[test]
fn a_solution_name_ends_in_sln_after_something() {
    assert!(names_solution("Mod.sln"));
    assert!(names_solution("a.sln"));
    assert!(names_solution("my.mod.sln"));
    assert!(names_solution("..sln"));
    assert!(names_solution("模组.sln"));
    assert!(!names_solution(".sln"));
    assert!(!names_solution("sln"));
    assert!(!names_solution("Mod.SLN"));
    assert!(!names_solution("Mod.sln.bak"));
    assert!(!names_solution("Mod.csproj"));
    assert!(!names_solution("Modsln"));
    assert!(!names_solution(""));
}

#[test]
fn the_first_solution_file_is_found() {
    let listing = vec![
        item("About", false),
        item("dir.sln", false),
        item("README.md", true),
        item("First.sln", true),
        item("Second.sln", true),
    ];
    assert_eq!(find_sln_file(&listing), Some("First.sln".to_string()));
    assert_eq!(find_sln_file(&vec![item("a.txt", true), item("x.sln", false)]), None);
    assert_eq!(find_sln_file(&vec![]), None);
}

#[test]
fn the_build_is_a_release_build_of_the_solution() {
    assert_eq!(BUILD_PROGRAM, "dotnet");
    assert_eq!(
        build_arguments("/work/MyMod/Mod.sln"),
        p(&["build", "/work/MyMod/Mod.sln", "--configuration", "Release"])
    );
}

#[test]
fn a_build_is_judged_by_its_exit_status() {
    let good = BuildRun::Exited {
        success: true,
        stdout: b"ok".to_vec(),
        stderr: b"error: ignored".to_vec(),
    };
    assert_eq!(execute_dotnet_build(&good, TextEncoding::Utf8Lossy).ok().unwrap(), "ok");
    let bad = BuildRun::Exited {
        success: false,
        stdout: b"Build succeeded".to_vec(),
        stderr: vec![0xC4, 0xE3, 0xBA, 0xC3],
    };
    let e = execute_dotnet_build(&bad, TextEncoding::Gbk).err().unwrap();
    assert_eq!(e.kind, ErrorKind::Build);
    assert_eq!(e.message, "Project build failed:\n你好");
    let never = BuildRun::NotStarted("program not found".to_string());
    let e = execute_dotnet_build(&never, TextEncoding::Gbk).err().unwrap();
    assert_eq!(e.kind, ErrorKind::Build);
    assert_eq!(e.message, "Failed to execute dotnet build:\nprogram not found");
}

#[test]
fn failures_carry_their_words() {
    let e = Error::new(ErrorKind::Config, "lead: ", "detail");
    assert_eq!(e.kind, ErrorKind::Config);
    assert_eq!(e.message(), "lead: detail");
    let inner = Error::of(ErrorKind::Build, "boom".to_string());
    let outer = inner.within("while building: ");
    assert_eq!(outer.kind, ErrorKind::Build);
    assert_eq!(outer.message, "while building: boom");
    let copy = outer.duplicate();
    assert_eq!(copy.kind, outer.kind);
    assert_eq!(copy.message, outer.message);
}

#[test]
fn the_log_level_follows_the_verbosity() {
    let quiet = Cli { command: None, verbose: 0 }.run();
    assert_eq!(quiet.level, LogLevel::Info);
    assert_eq!(quiet.remark, None);
    assert_eq!(quiet.warning, Some(NO_COMMAND_HINT));
    assert_eq!(NO_COMMAND_HINT, "Choose an option, referring to '--help' for more info");
    let check = || Some(Command::Config(ConfigArgs { command: ConfigCommand::Check }));
    let debug = Cli { command: check(), verbose: 1 }.run();
    assert_eq!(debug.level, LogLevel::Debug);
    assert_eq!(debug.remark, None);
    assert_eq!(debug.warning, None);
    let trace = Cli { command: check(), verbose: 2 }.run();
    assert_eq!(trace.level, LogLevel::Trace);
    assert_eq!(trace.remark, None);
    let crazy = Cli { command: check(), verbose: 3 }.run();
    assert_eq!(crazy.level, LogLevel::Trace);
    assert_eq!(crazy.remark, Some("Man don't be too crazy"));
    assert_eq!(crazy.remark, Some(TOO_VERBOSE_REMARK));
    let max = Cli { command: check(), verbose: 255 }.run();
    assert_eq!(max.level, LogLevel::Trace);
    assert!(max.remark.is_some());
}

#[test]
fn a_failure_at_the_top_is_called_unexpected() {
    let e = Cli::failure(&Error::of(ErrorKind::Config, "Unexpected key x provided".to_string()));
    assert_eq!(e.kind, ErrorKind::Config);
    assert_eq!(e.message, "Unexpected error during exec: Unexpected key x provided");
    assert_eq!(FAILURE_LEAD, "Unexpected error during exec: ");
}

#[test]
fn generate_without_a_command_makes_both_files() {
    assert_eq!(
        GenerateArgs { command: None }.run(),
        vec![GenerateCommand::ConfigFile, GenerateCommand::IgnoreFile]
    );
    assert_eq!(
        GenerateArgs { command: Some(GenerateCommand::IgnoreFile) }.run(),
        vec![GenerateCommand::IgnoreFile]
    );
    assert_eq!(
        GenerateArgs { command: Some(GenerateCommand::ConfigFile) }.run(),
        vec![GenerateCommand::ConfigFile]
    );
}

#[test]
fn a_file_that_exists_is_not_generated() {
    assert!(gen_config_file(true).is_none());
    assert!(gen_ignore_file(true).is_none());
    assert!(GenerateCommand::ConfigFile.run(true).is_none());
    assert!(GenerateCommand::IgnoreFile.run(true).is_none());
}

#[test]
fn generated_files_have_their_names_and_contents() {
    let config = gen_config_file(false).unwrap();
    assert_eq!(config.name, ".rimpub.toml");
    match config.content {
        FileContent::Rendered(conf) => assert_eq!(conf.name, ""),
        _ => panic!("the configuration is rendered"),
    }
    let ignore = gen_ignore_file(false).unwrap();
    assert_eq!(ignore.name, ".rimpub-ignore");
    match ignore.content {
        FileContent::Text(text) => {
            assert_eq!(text, "# Add files or directories to ignore here\n");
            assert_eq!(text, IGNORE_FILE_TEMPLATE);
        }
        _ => panic!("the ignore file is a text"),
    }
    assert_eq!(GenerateCommand::ConfigFile.file_name(), ".rimpub.toml");
    assert_eq!(GenerateCommand::IgnoreFile.file_name(), ".rimpub-ignore");
    assert_eq!(GenerateCommand::ConfigFile.run(false).unwrap().name, ".rimpub.toml");
    assert_eq!(GenerateCommand::IgnoreFile.run(false).unwrap().name, ".rimpub-ignore");
}

#[test]
fn log_lines_carry_a_coloured_tag() {
    let (logger, level) = init();
    assert_eq!(level, LogLevel::Info);
    assert!(logger.enabled(LogLevel::Trace));
    assert!(logger.enabled(LogLevel::Error));
    assert_eq!(logger.log(LogLevel::Error, "boom"), "\x1b[31m[ERROR]\x1b[0m boom");
    assert_eq!(logger.log(LogLevel::Warn, "careful"), "\x1b[33m[WARN]\x1b[0m careful");
    assert_eq!(logger.log(LogLevel::Info, "done"), "\x1b[32m[INFO]\x1b[0m done");
    assert_eq!(logger.log(LogLevel::Debug, "x = 1"), "\x1b[36m[DEBUG]\x1b[0m x = 1");
    assert_eq!(logger.log(LogLevel::Trace, ""), "\x1b[35m[TRACE]\x1b[0m ");
    assert_eq!(SimpleColorLogger::tag(LogLevel::Info), "\x1b[32m[INFO]\x1b[0m");
}
