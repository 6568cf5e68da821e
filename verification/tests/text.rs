use recipe_ops::text::{text_contains, text_eq};

#[test]
fn text_search_matches_character_runs() {
    assert!(text_contains("models/xgboost/train.rs", "xgboost"));
    assert!(text_contains("abc", ""));
    assert!(text_contains("abc", "abc"));
    assert!(!text_contains("ab", "abc"));
    assert!(!text_contains("models/lightgbm", "xgboost"));
    assert!(text_contains("née→x", "→x"));
    assert!(text_eq("same", "same"));
    assert!(!text_eq("same", "Same"));
}
