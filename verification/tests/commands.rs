use tabiew::command::{CommandId, CommandRegistry};
use tabiew::event::{accept_key_kind, KeyKind};
use tabiew::file_format::{detect_format, FileFormat};

#[test]
fn format_follows_the_last_extension() {
    assert_eq!(detect_format(b"data.parquet"), FileFormat::Parquet);
    assert_eq!(detect_format(b"data.csv"), FileFormat::Csv);
    assert_eq!(detect_format(b"data.json"), FileFormat::Json);
    assert_eq!(detect_format(b"dir.csv/data.json"), FileFormat::Json);
    assert_eq!(detect_format(b"archive.tar.csv"), FileFormat::Csv);
    assert_eq!(detect_format(b"data.xlsx"), FileFormat::Unsupported);
    assert_eq!(detect_format(b"noextension"), FileFormat::Unsupported);
    assert_eq!(detect_format(b"data."), FileFormat::Unsupported);
    assert_eq!(detect_format(b"data.CSV"), FileFormat::Unsupported);
    assert_eq!(detect_format(b""), FileFormat::Unsupported);
}

#[test]
fn release_reports_are_filtered_out() {
    assert!(accept_key_kind(KeyKind::Press));
    assert!(accept_key_kind(KeyKind::Repeat));
    assert!(!accept_key_kind(KeyKind::Release));
}

#[test]
fn lookup_is_case_insensitive() {
    let reg = CommandRegistry::standard();
    for text in ["quit", "QUIT", "Quit", "qUiT"] {
        let (id, rest) = reg.lookup(text.as_bytes()).expect("quit should match");
        assert_eq!(id, CommandId::Quit);
        assert!(rest.is_empty());
    }
}

#[test]
fn lookup_splits_token_and_argument_text() {
    let reg = CommandRegistry::standard();
    let (id, rest) = reg.lookup(b"Query SELECT * FROM df").expect("query should match");
    assert_eq!(id, CommandId::Query);
    assert_eq!(rest, b"SELECT * FROM df".to_vec());
}

#[test]
fn lookup_keeps_argument_case() {
    let reg = CommandRegistry::standard();
    let (_, rest) = reg.lookup(b"QUERY Select A from DF").unwrap();
    assert_eq!(rest, b"Select A from DF".to_vec());
}

#[test]
fn unmatched_input_yields_nothing() {
    let reg = CommandRegistry::standard();
    assert!(reg.lookup(b"frobnicate").is_none());
    assert!(reg.lookup(b"").is_none());
    assert!(reg.lookup(b" quit").is_none());
    assert!(reg.lookup(b"quitnow").is_none());
}

#[test]
fn short_alias_and_moves_match() {
    let reg = CommandRegistry::standard();
    assert_eq!(reg.lookup(b"q").unwrap().0, CommandId::Quit);
    assert_eq!(reg.lookup(b"moveup").unwrap().0, CommandId::MoveUp);
    assert_eq!(reg.lookup(b"MoveDown").unwrap().0, CommandId::MoveDown);
    assert_eq!(reg.lookup(b"MOVELEFT").unwrap().0, CommandId::MoveLeft);
    assert_eq!(reg.lookup(b"moveRIGHT").unwrap().0, CommandId::MoveRight);
}
