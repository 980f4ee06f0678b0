use ostt::keywords::{keep_non_blank, parse_keywords, KeywordsManager};

#[test]
fn parse_trims_and_skips_blank_lines() {
    assert_eq!(
        parse_keywords("  Verus \n\n\tRust\r\n   \nostt"),
        vec!["Verus".to_string(), "Rust".to_string(), "ostt".to_string()]
    );
    assert_eq!(parse_keywords(""), Vec::<String>::new());
}

#[test]
fn add_keyword_skips_duplicates() {
    let mut m = KeywordsManager::new("/cfg");
    assert_eq!(m.file_path(), "/cfg/keywords.txt");
    assert!(m.add_keyword("alpha".to_string()));
    assert!(m.add_keyword("beta".to_string()));
    assert!(!m.add_keyword("alpha".to_string()));
    assert_eq!(m.keywords(), vec!["alpha".to_string(), "beta".to_string()]);
    assert_eq!(m.to_text(), "alpha\nbeta");
}

#[test]
fn remove_keyword_by_index() {
    let mut m = KeywordsManager::new("/cfg");
    m.load_keywords("a\nb\nc\n");
    assert!(m.remove_keyword(1));
    assert!(!m.remove_keyword(5));
    assert_eq!(m.keywords(), vec!["a".to_string(), "c".to_string()]);
    assert!(m.contains(&"c".to_string()));
    assert!(!m.contains(&"b".to_string()));
}

#[test]
fn empty_list_is_empty_text() {
    let m = KeywordsManager::new("/cfg");
    assert_eq!(m.to_text(), "");
}

#[test]
fn keyword_path_joins_like_a_path() {
    assert_eq!(KeywordsManager::new("").file_path(), "keywords.txt");
    assert_eq!(KeywordsManager::new("/cfg/").file_path(), "/cfg/keywords.txt");
    assert_eq!(KeywordsManager::new("cfg").file_path(), "cfg/keywords.txt");
}

#[test]
fn keep_non_blank_drops_empty_entries() {
    let lines = vec!["a".to_string(), String::new(), "b".to_string(), String::new()];
    assert_eq!(keep_non_blank(lines), vec!["a".to_string(), "b".to_string()]);
    assert_eq!(keep_non_blank(vec![]), Vec::<String>::new());
}
