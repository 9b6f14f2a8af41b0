use harper_desktop::app_name::{
    display_name_from_answer, display_name_from_app_path, display_name_from_output,
    display_name_query, file_name,
};
use harper_desktop::dictionary::{get_dictionary, set_dictionary};
use harper_desktop::launch::{launch_app_bundle, launch_failure};
use harper_desktop::text::{chars_of, is_white_space, joined, pieces, same_text, string_of, trim};

const PATHS: [&str; 26] = [
    "",
    "/",
    "//",
    ".",
    "..",
    "./.",
    "a",
    "/a",
    "a/",
    "a//",
    "a/.",
    "a/./.",
    "a/./b",
    "a/..",
    "a/../",
    "../a",
    "/..",
    "...",
    "a/...",
    ".a",
    "/Applications/Notes.app",
    "/Applications/Notes.app/",
    "/Applications/ Odd Name .app",
    "/System/Applications/Utilities/Terminal.app/.",
    "Caf\u{e9}.app",
    " / ",
];

#[test]
fn file_names_agree_with_the_standard_library() {
    for path in PATHS {
        let expected = std::path::Path::new(path)
            .file_name()
            .map(|name| name.to_str().unwrap().to_string());
        let found = file_name(&path.chars().collect()).map(|name| string_of(&name));
        assert_eq!(found, expected, "{path:?}");
    }
}

#[test]
fn white_space_agrees_with_the_standard_library() {
    for code in 0..=0x10FFFFu32 {
        if let Some(c) = char::from_u32(code) {
            assert_eq!(is_white_space(c), c.is_whitespace(), "{code:x}");
        }
    }
}

#[test]
fn trimming_agrees_with_the_standard_library() {
    for text in ["", " ", "a", " a", "a ", "\t a b \r\n", "\u{3000}x\u{a0}", "\u{200b}x"] {
        assert_eq!(string_of(&trim(&chars_of(text))), text.trim());
    }
}

#[test]
fn trimming_twice_is_trimming_once() {
    let once = trim(&chars_of("  two  words  "));
    assert_eq!(once, chars_of("two  words"));
    assert_eq!(trim(&once), once);
}

#[test]
fn pieces_agree_with_the_standard_library() {
    for text in ["", "/", "a", "a/b", "/a//b/", "\u{e9}/\u{4e2d}"] {
        let found: Vec<String> = pieces(&chars_of(text), '/').iter().map(string_of).collect();
        let expected: Vec<String> = text.split('/').map(|piece| piece.to_string()).collect();
        assert_eq!(found, expected);
    }
}

#[test]
fn texts_are_joined_and_compared() {
    assert_eq!(joined("ab", "\u{e9}"), "ab\u{e9}");
    assert!(same_text("main", "main"));
    assert!(!same_text("main", "Main"));
    assert!(!same_text("main", "mai"));
}

#[test]
fn application_names() {
    let name = |path: &str| display_name_from_app_path(path);
    assert_eq!(name("/Applications/Notes.app"), Some("Notes".to_string()));
    assert_eq!(name("/Applications/Notes.app/"), Some("Notes".to_string()));
    assert_eq!(name("/Applications/ Odd Name .app"), Some("Odd Name".to_string()));
    assert_eq!(name("/usr/bin/vim"), Some("vim".to_string()));
    assert_eq!(name("Twice.app.app"), Some("Twice.app".to_string()));
    assert_eq!(name("/Applications/.app"), None);
    assert_eq!(name("/Applications/ .app"), None);
    assert_eq!(name("/Applications/.."), None);
    assert_eq!(name("/"), None);
    assert_eq!(name(""), None);
}

#[test]
fn application_names_are_clean() {
    for path in PATHS {
        if let Some(name) = display_name_from_app_path(path) {
            assert!(!name.is_empty());
            assert_eq!(name.trim(), name);
            assert!(!name.contains('/'));
        }
    }
}

fn reference_answer(output: &[u8]) -> Option<String> {
    String::from_utf8_lossy(output)
        .lines()
        .filter_map(|line| display_name_from_app_path(line.trim()))
        .next()
}

#[test]
fn answers_give_the_first_name() {
    let cases: [&[u8]; 8] = [
        b"",
        b"\n",
        b"\n  \n/Applications/Notes.app\n/Applications/Mail.app\n",
        b"/Applications/Notes.app\r\n/Applications/Mail.app\r\n",
        b"/Applications/Notes.app\r",
        b"/..\n/Applications/Mail.app",
        b"  /Applications/Mail.app  ",
        b"/Applications/No\xfftes.app\n",
    ];
    for output in cases {
        assert_eq!(display_name_from_answer(true, output), reference_answer(output));
        assert_eq!(display_name_from_answer(false, output), None);
    }
}

#[test]
fn invalid_bytes_are_replaced() {
    assert_eq!(
        display_name_from_answer(true, b"/Applications/No\xfftes.app\n"),
        Some("No\u{fffd}tes".to_string())
    );
    assert_eq!(
        display_name_from_answer(true, "/Applications/Caf\u{e9}.app\n".as_bytes()),
        Some("Caf\u{e9}".to_string())
    );
}

#[test]
fn output_is_read_line_by_line() {
    assert_eq!(
        display_name_from_output("\n/Applications/Mail.app\n"),
        Some("Mail".to_string())
    );
    assert_eq!(display_name_from_output("\n\n"), None);
}

#[test]
fn queries_quote_the_identifier() {
    assert_eq!(
        display_name_query(" com.apple.Notes "),
        Some("kMDItemCFBundleIdentifier == \"com.apple.Notes\"".to_string())
    );
    assert_eq!(display_name_query(" \t"), None);
    assert_eq!(display_name_query(""), None);
    for id in ["a\"b", "a\\b", "\\\"", "\"\\\\\"", "x\" || true || \"y"] {
        let escaped = id.replace('\\', "\\\\").replace('"', "\\\"");
        assert_eq!(
            display_name_query(id),
            Some(format!("kMDItemCFBundleIdentifier == \"{escaped}\""))
        );
    }
}

#[test]
fn launching_needs_an_identifier() {
    let command = launch_app_bundle("  com.apple.Notes\n").ok().unwrap();
    assert_eq!(command.program, "open");
    assert_eq!(command.option, "-b");
    assert_eq!(command.bundle_id, "com.apple.Notes");
    assert_eq!(
        launch_app_bundle(" \u{3000}").err(),
        Some("Bundle ID cannot be empty.".to_string())
    );
    assert_eq!(
        launch_failure("com.apple.Notes", "not found"),
        "Failed to launch com.apple.Notes: not found"
    );
}

fn words(texts: &[&str]) -> Vec<Vec<char>> {
    texts.iter().map(|text| text.chars().collect()).collect()
}

#[test]
fn dictionaries_are_listed_in_order() {
    let texts = ["zeta", "alpha", "", "Alpha", "al", "\u{e9}clair", "\u{10000}", "\u{ffff}", "al"];
    let mut expected: Vec<String> = texts.iter().map(|text| text.to_string()).collect();
    expected.sort();
    assert_eq!(get_dictionary(words(&texts)), expected);
    assert_eq!(get_dictionary(Vec::new()), Vec::<String>::new());
}

#[test]
fn the_order_of_the_words_does_not_matter() {
    let one = get_dictionary(words(&["b", "a", "c", "a"]));
    let other = get_dictionary(words(&["a", "c", "a", "b"]));
    assert_eq!(one, other);
    assert_eq!(one, ["a", "a", "b", "c"]);
}

#[test]
fn dictionary_words_are_taken_in_as_characters() {
    let entries = set_dictionary(vec!["na\u{ef}ve".to_string(), String::new(), "b".to_string()]);
    assert_eq!(entries, words(&["na\u{ef}ve", "", "b"]));
}
