use xor_cipher::text::ends_with;

#[test]
fn ends_with_finds_a_suffix() {
    assert!(ends_with("a.txt", ".txt"));
    assert!(ends_with(".txt", ".txt"));
    assert!(ends_with("dir/notes.txt", ".txt"));
    assert!(ends_with("naïve.txt", ".txt"));
    assert!(ends_with("日本語.txt", ".txt"));
    assert!(ends_with("anything", ""));
    assert!(ends_with("", ""));
}

#[test]
fn ends_with_refuses_what_is_no_suffix() {
    assert!(!ends_with("a.bin", ".txt"));
    assert!(!ends_with("a.txt.bak", ".txt"));
    assert!(!ends_with("a.TXT", ".txt"));
    assert!(!ends_with("atxt", ".txt"));
    assert!(!ends_with("txt", ".txt"));
    assert!(!ends_with("", ".txt"));
    assert!(!ends_with(".txt ", ".txt"));
    assert!(!ends_with("a.tx", ".txt"));
}

#[test]
fn ends_with_agrees_with_the_standard_library() {
    let texts = ["", "a", ".txt", "a.txt", "a.txtx", "é.txt", "a.tét", "tt", "ttt", "xt"];
    let suffixes = ["", "t", "xt", ".txt", "é", "ét", "tt"];
    for text in texts {
        for suffix in suffixes {
            assert_eq!(ends_with(text, suffix), text.ends_with(suffix));
        }
    }
}
