use rust_editor::syntax::SyntaxStyle;

#[test]
fn known_style_ids_decode_to_their_styles() {
    assert_eq!(SyntaxStyle::from_u32(0), SyntaxStyle::Default);
    assert_eq!(SyntaxStyle::from_u32(1), SyntaxStyle::Keyword);
    assert_eq!(SyntaxStyle::from_u32(2), SyntaxStyle::Comment);
    assert_eq!(SyntaxStyle::from_u32(3), SyntaxStyle::String);
    assert_eq!(SyntaxStyle::from_u32(4), SyntaxStyle::Number);
    assert_eq!(SyntaxStyle::from_u32(5), SyntaxStyle::Type);
}

#[test]
fn unknown_style_ids_decode_to_default() {
    assert_eq!(SyntaxStyle::from_u32(6), SyntaxStyle::Default);
    assert_eq!(SyntaxStyle::from_u32(255), SyntaxStyle::Default);
    assert_eq!(SyntaxStyle::from_u32(u32::MAX), SyntaxStyle::Default);
}
