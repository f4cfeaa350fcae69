use globe_viewer::text::same_text;

#[test]
fn same_text_compares_contents() {
    assert!(same_text("", ""));
    assert!(same_text("ADMIN", "ADMIN"));
    assert!(!same_text("ADMIN", "ADMIn"));
    assert!(!same_text("ADMIN", "ADMI"));
    assert!(!same_text("ADMI", "ADMIN"));
    assert!(!same_text("", "a"));
}

#[test]
fn same_text_compares_beyond_ascii() {
    let owned = String::from("Côte d'Ivoire");
    assert!(same_text(&owned, "Côte d'Ivoire"));
    assert!(!same_text(&owned, "Cote d'Ivoire"));
    assert!(same_text("日本", "日本"));
    assert!(!same_text("日本", "日本国"));
}
