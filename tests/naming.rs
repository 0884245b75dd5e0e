use rust_seal::naming::{next_decrypt_candidate, strip_extension};

#[test]
fn strip_removes_the_last_extension() {
    assert_eq!(strip_extension("test.txt.cipher"), "test.txt");
    assert_eq!(strip_extension("report.cipher"), "report");
    assert_eq!(strip_extension("plain"), "plain");
    assert_eq!(strip_extension(".bashrc"), ".bashrc");
    assert_eq!(strip_extension("archive."), "archive");
}

#[test]
fn candidate_adds_suffix_to_the_stem() {
    assert_eq!(next_decrypt_candidate("test.txt"), "test-decrypt.txt");
    assert_eq!(
        next_decrypt_candidate("test-decrypt.txt"),
        "test-decrypt-decrypt.txt"
    );
    assert_eq!(next_decrypt_candidate("data"), "data-decrypt");
    assert_eq!(next_decrypt_candidate("a.tar.gz"), "a.tar-decrypt.gz");
    assert_eq!(next_decrypt_candidate(".profile"), ".profile-decrypt");
}
