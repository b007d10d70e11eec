//! Checks of page-anchor identifiers.

use rdoc::anchor::Id;

#[test]
fn anchor_text_round_trip() {
    let id = Id::new("struct.Point".to_string());
    assert_eq!(id.text(), "struct.Point");
}

#[test]
fn anchor_with_pound() {
    let id = Id::new("method.len".to_string());
    assert_eq!(id.with_pound(), "#method.len");
}

#[test]
fn anchor_join() {
    let parent = Id::new("impl-Display".to_string());
    let child = Id::new("method.fmt".to_string());
    assert_eq!(parent.join(&child).text(), "impl-Display.method.fmt");
}
