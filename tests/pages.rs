use z2p::pages::flash_messages_html;

#[test]
fn flash_messages_become_paragraphs() {
    assert_eq!(flash_messages_html(&Vec::new()), "");
    let messages = vec!["Password fields must match.".to_string(), "second".to_string()];
    assert_eq!(
        flash_messages_html(&messages),
        "<p><i>Password fields must match.</i></p>\n<p><i>second</i></p>\n"
    );
}
