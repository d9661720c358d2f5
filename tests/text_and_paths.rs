use asm2hex::bits::BitsMode;
use asm2hex::log::{classify_line, LogLine, Severity};
use asm2hex::paths::{jobs_for, ConversionJob};
use asm2hex::preprocess::{directive_for, has_bits_directive, insert_bits};
use asm2hex::text::{chars_of, contains_str, join_lines};

#[test]
fn default_mode_is_64() {
    assert!(BitsMode::default() == BitsMode::BITS64);
}

#[test]
fn mode_strings() {
    assert_eq!(BitsMode::BITS16.bits_mode_str(), "16");
    assert_eq!(BitsMode::BITS32.bits_mode_str(), "32");
    assert_eq!(BitsMode::BITS64.bits_mode_str(), "64");
}

#[test]
fn directive_text() {
    assert_eq!(directive_for(BitsMode::BITS32), "[bits 32]\n");
}

#[test]
fn insert_prefixes_directive() {
    let r = insert_bits("mov ax, 1\n", BitsMode::BITS16);
    assert_eq!(r, Some("[bits 16]\nmov ax, 1\n".to_string()));
}

#[test]
fn insert_into_empty_source() {
    assert_eq!(insert_bits("", BitsMode::BITS64), Some("[bits 64]\n".to_string()));
}

#[test]
fn preprocess_twice_inserts_once() {
    let once = insert_bits("nop\n", BitsMode::BITS32).unwrap();
    assert_eq!(once, "[bits 32]\nnop\n");
    assert_eq!(insert_bits(&once, BitsMode::BITS32), None);
    assert_eq!(insert_bits(&once, BitsMode::BITS64), None);
}

#[test]
fn existing_bracket_directive_left_alone() {
    let src = "; target\n  mov eax, 1 ; see [bits later\n";
    assert_eq!(insert_bits(src, BitsMode::BITS64), None);
    assert!(has_bits_directive(src));
}

#[test]
fn bare_directive_left_alone() {
    assert_eq!(insert_bits("bits 16\nnop\n", BitsMode::BITS64), None);
}

#[test]
fn directive_match_is_case_sensitive() {
    assert!(!has_bits_directive("[BITS 16]\nnop\n"));
    assert!(!has_bits_directive("bits\n"));
    assert_eq!(
        insert_bits("[BITS 16]\n", BitsMode::BITS16),
        Some("[bits 16]\n[BITS 16]\n".to_string())
    );
}

#[test]
fn substring_search() {
    assert!(contains_str("hello world", "o w"));
    assert!(contains_str("abc", ""));
    assert!(contains_str("", ""));
    assert!(!contains_str("ab", "abc"));
    assert!(!contains_str("abcabd", "abe"));
    assert!(contains_str("aaab", "aab"));
    assert_eq!(chars_of("h\u{e9}!"), vec!['h', '\u{e9}', '!']);
}

#[test]
fn lines_joined_without_trailing_newline() {
    let lines = vec![":0100".to_string(), ":00000001FF".to_string()];
    assert_eq!(join_lines(&lines), ":0100\n:00000001FF");
    assert_eq!(join_lines(&vec![]), "");
    assert_eq!(join_lines(&vec!["x".to_string()]), "x");
}

#[test]
fn derived_paths_from_stem() {
    let j = ConversionJob::from_stem("/src/foo.asm", "/out", "foo");
    assert_eq!(j.source_path, "/src/foo.asm");
    assert_eq!(j.bin_path, "/out/foo.bin");
    assert_eq!(j.hex_path, "/out/foo.hex");
}

#[test]
fn derived_paths_from_source() {
    let j = ConversionJob::new("/home/me/boot.asm", "/out");
    assert_eq!(j.bin_path, "/out/boot.bin");
    assert_eq!(j.hex_path, "/out/boot.hex");
    let k = ConversionJob::new("dir/kernel.v2.asm", ".");
    assert_eq!(k.bin_path, "./kernel.v2.bin");
}

#[test]
fn derived_paths_fallback_stem() {
    let j = ConversionJob::new("", "/out");
    assert_eq!(j.bin_path, "/out/output.bin");
    assert_eq!(j.hex_path, "/out/output.hex");
}

#[test]
fn jobs_keep_selection_order() {
    let files = vec!["a.asm".to_string(), "b.asm".to_string()];
    let jobs = jobs_for(&files, "/o");
    assert_eq!(jobs.len(), 2);
    assert_eq!(jobs[0].source_path, "a.asm");
    assert_eq!(jobs[1].hex_path, "/o/b.hex");
}

#[test]
fn rendered_lines_classify_back() {
    let cases = [Severity::Info, Severity::Warning, Severity::Error, Severity::Success];
    for sev in cases {
        let l = LogLine::new(sev, "plain message".to_string());
        assert_eq!(classify_line(&l.render()), sev);
    }
    assert_eq!(LogLine::new(Severity::Error, "x".to_string()).render(), "[error] x");
}

#[test]
fn classification_precedence() {
    assert_eq!(classify_line("[ok] but [error] too"), Severity::Error);
    assert_eq!(classify_line("[warn] [ok]"), Severity::Success);
    assert_eq!(classify_line("[warn] careful"), Severity::Warning);
    assert_eq!(classify_line("nothing"), Severity::Info);
}
