use techlead::chat::Model;
use techlead::chat::Role;
use techlead::scanner::FileDescriptor;
use techlead::scanner::WalkEntry;
use techlead::summarizer::compact;
use techlead::summarizer::is_noise_line;
use techlead::summarizer::join_lines;
use techlead::summarizer::strategy;
use techlead::summarizer::summary_request;
use techlead::summarizer::Strategy;

fn descriptor(name: &str, is_file: bool) -> FileDescriptor {
    FileDescriptor::describe(&WalkEntry {
        path: format!("./{}", name),
        name: name.to_string(),
        depth: 1,
        is_file,
    })
}

fn lines(text: &[&str]) -> Vec<String> {
    text.iter().map(|l| l.to_string()).collect()
}

#[test]
fn documents_and_manifests_are_summarized_remotely() {
    assert_eq!(strategy(&descriptor("README.md", true)), Some(Strategy::Remote));
    assert_eq!(strategy(&descriptor("Cargo.toml", true)), Some(Strategy::Remote));
    assert_eq!(strategy(&descriptor("notes.old.md", true)), Some(Strategy::Remote));
}

#[test]
fn source_files_are_compacted_locally() {
    assert_eq!(strategy(&descriptor("main.rs", true)), Some(Strategy::Local));
    assert_eq!(strategy(&descriptor("mod.test.rs", true)), Some(Strategy::Local));
}

#[test]
fn other_files_get_no_fragment() {
    assert_eq!(strategy(&descriptor("Cargo.lock", true)), None);
    assert_eq!(strategy(&descriptor("Makefile", true)), None);
    assert_eq!(strategy(&descriptor("photo.MD", true)), None);
    assert_eq!(strategy(&descriptor("lib.rs.bak", true)), None);
    assert_eq!(strategy(&descriptor("rs", true)), None);
    assert_eq!(strategy(&descriptor("x.", true)), None);
}

#[test]
fn directories_get_no_fragment_whatever_their_name() {
    assert_eq!(strategy(&descriptor("docs.md", false)), None);
    assert_eq!(strategy(&descriptor("src.rs", false)), None);
}

#[test]
fn blank_lines_and_comment_lines_are_noise() {
    assert!(is_noise_line(""));
    assert!(is_noise_line("   "));
    assert!(is_noise_line("\t\u{a0}"));
    assert!(is_noise_line("// a comment"));
    assert!(is_noise_line("    /// a doc comment"));
    assert!(is_noise_line("\t//"));
    assert!(is_noise_line("//! inner"));
}

#[test]
fn code_lines_are_no_noise() {
    assert!(!is_noise_line("fn main() {"));
    assert!(!is_noise_line("    let x = 1; // trailing comment"));
    assert!(!is_noise_line("/ / spaced"));
    assert!(!is_noise_line("/"));
    assert!(!is_noise_line("/* block */"));
    assert!(!is_noise_line("x //"));
}

#[test]
fn compaction_removes_comment_lines_and_blank_lines() {
    let source = lines(&[
        "// the entry point",
        "",
        "fn main() {",
        "    // say hello",
        "    println!(\"hello\");",
        "   ",
        "}",
    ]);
    assert_eq!(compact(&source), "fn main() {\n    println!(\"hello\");\n}\n");
}

#[test]
fn compaction_keeps_the_exact_text_of_code_lines() {
    let source = lines(&["\tlet a = 1;  ", "  let b = 2; // why", "    }"]);
    assert_eq!(compact(&source), "\tlet a = 1;  \n  let b = 2; // why\n    }\n");
}

#[test]
fn compaction_keeps_the_order_and_repeated_lines() {
    let source = lines(&["b", "// x", "a", "b", "", "a"]);
    assert_eq!(compact(&source), "b\na\nb\na\n");
}

#[test]
fn compaction_of_nothing_or_of_noise_alone_is_empty() {
    assert_eq!(compact(&lines(&[])), "");
    assert_eq!(compact(&lines(&["", "// only", "  //", " "])), "");
}

#[test]
fn joined_lines_each_end_with_a_line_end() {
    assert_eq!(join_lines(&lines(&[])), "");
    assert_eq!(join_lines(&lines(&["hello"])), "hello\n");
    assert_eq!(join_lines(&lines(&["# Title", "", "text"])), "# Title\n\ntext\n");
}

#[test]
fn summary_request_carries_the_instruction_and_the_text() {
    let request = summary_request("hello\n".to_string());
    assert_eq!(request.model, Model::Gpt4Turbo);
    assert_eq!(request.messages.len(), 2);
    assert_eq!(request.messages[0].role, Role::System);
    assert_eq!(
        request.messages[0].content,
        "Make a compact summary of the given input. if it is code, then give back only give back the code directly"
    );
    assert_eq!(request.messages[1].role, Role::User);
    assert_eq!(request.messages[1].content, "hello\n");
}
