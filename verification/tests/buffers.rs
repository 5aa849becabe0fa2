use clipmon::buffer::SelectionData;
use clipmon::mime::MimeTypes;
use clipmon::offer::DataOffer;
use clipmon::selection::Selection;
use clipmon::text::{is_well_formed, same_text};

#[test]
fn new_buffer_is_empty_and_open() {
    let buffer = SelectionData::new();
    assert_eq!(buffer.len(), 0);
    assert_eq!(buffer.data(), b"");
    assert!(!buffer.is_complete());
    let buffer = SelectionData::default();
    assert_eq!(buffer.len(), 0);
    assert!(!buffer.is_complete());
}

#[test]
fn buffer_appends_behind_what_it_holds() {
    let mut buffer = SelectionData::new();
    buffer.append(b"abc");
    buffer.append(b"");
    buffer.append(b"de");
    assert_eq!(buffer.data(), b"abcde");
    assert_eq!(buffer.len(), 5);
    assert!(!buffer.is_complete());
}

#[test]
fn completion_keeps_the_bytes_and_stays() {
    let mut buffer = SelectionData::new();
    buffer.append(b"abc");
    buffer.mark_complete();
    assert!(buffer.is_complete());
    assert_eq!(buffer.data(), b"abc");
    buffer.mark_complete();
    assert!(buffer.is_complete());
}

#[test]
fn separator_makes_a_name_well_formed() {
    assert!(is_well_formed("text/plain"));
    assert!(is_well_formed("text/plain;charset=utf-8"));
    assert!(is_well_formed("/"));
    assert!(is_well_formed("a/"));
    assert!(is_well_formed("/b"));
    assert!(is_well_formed("\u{e9}t\u{e9}/\u{4e2d}"));
    assert!(!is_well_formed(""));
    assert!(!is_well_formed("UTF8_STRING"));
    assert!(!is_well_formed("text\\plain"));
    assert!(!is_well_formed("\u{e9}t\u{e9}"));
}

#[test]
fn same_text_compares_every_character() {
    assert!(same_text("", ""));
    assert!(same_text("text/plain", "text/plain"));
    assert!(!same_text("text/plain", "text/plaim"));
    assert!(!same_text("text/plain", "text/plai"));
    assert!(!same_text("text/plain", "Text/plain"));
    assert!(!same_text("", "a"));
    assert!(same_text("\u{4e2d}/\u{6587}", "\u{4e2d}/\u{6587}"));
    assert!(!same_text("\u{4e2d}/\u{6587}", "\u{4e2d}/\u{6588}"));
}

#[test]
fn mime_types_hold_each_name_once() {
    let mut types = MimeTypes::new();
    assert_eq!(types.len(), 0);
    assert!(types.all_complete());
    types.add("text/plain".to_string());
    types.add("text/html".to_string());
    types.add("text/plain".to_string());
    assert_eq!(types.len(), 2);
    assert!(types.contains("text/plain"));
    assert!(types.contains("text/html"));
    assert!(!types.contains("text"));
    assert_eq!(types.names(), vec!["text/plain".to_string(), "text/html".to_string()]);
}

#[test]
fn adding_a_name_again_keeps_its_buffer() {
    let mut types = MimeTypes::new();
    types.add("text/plain".to_string());
    types.append("text/plain", b"kept");
    types.mark_complete("text/plain");
    types.add("text/plain".to_string());
    let buffer = types.get("text/plain").expect("held");
    assert_eq!(buffer.data(), b"kept");
    assert!(buffer.is_complete());
}

#[test]
fn mime_types_append_to_the_named_buffer_only() {
    let mut types = MimeTypes::new();
    types.add("text/plain".to_string());
    types.add("text/html".to_string());
    types.append("text/html", b"<p>");
    types.append("text/plain", b"p");
    types.append("text/html", b"</p>");
    types.append("image/png", b"lost");
    assert_eq!(types.get("text/plain").expect("held").data(), b"p");
    assert_eq!(types.get("text/html").expect("held").data(), b"<p></p>");
    assert!(types.get("image/png").is_none());
    assert_eq!(types.len(), 2);
}

#[test]
fn all_complete_needs_every_buffer() {
    let mut types = MimeTypes::new();
    types.add("text/plain".to_string());
    types.add("text/html".to_string());
    assert!(!types.all_complete());
    types.mark_complete("text/plain");
    assert!(!types.all_complete());
    types.mark_complete("image/png");
    assert!(!types.all_complete());
    types.mark_complete("text/html");
    assert!(types.all_complete());
}

#[test]
fn removing_a_name_keeps_the_others() {
    let mut types = MimeTypes::new();
    types.add("a/1".to_string());
    types.add("b/2".to_string());
    types.add("c/3".to_string());
    types.append("c/3", b"3");
    types.remove("b/2");
    types.remove("d/4");
    assert_eq!(types.len(), 2);
    assert!(!types.contains("b/2"));
    assert_eq!(types.names(), vec!["a/1".to_string(), "c/3".to_string()]);
    assert_eq!(types.get("c/3").expect("held").data(), b"3");
}

#[test]
fn offer_takes_well_formed_names_only() {
    let mut offer = DataOffer::new();
    offer.advertise("text/plain".to_string());
    offer.advertise("TEXT".to_string());
    offer.advertise("text/plain".to_string());
    assert_eq!(offer.mime_types().len(), 1);
    assert!(offer.is_live("text/plain"));
    assert!(!offer.is_live("TEXT"));
    assert!(offer.get("TEXT").is_none());
    assert!(!offer.is_ready());
}

#[test]
fn offer_keeps_its_first_selection() {
    let mut offer = DataOffer::default();
    assert_eq!(offer.selection(), None);
    assert!(offer.confirm(Selection::Primary));
    assert_eq!(offer.selection(), Some(Selection::Primary));
    assert!(!offer.confirm(Selection::Clipboard));
    assert_eq!(offer.selection(), Some(Selection::Primary));
    assert!(!offer.confirm(Selection::Primary));
    assert_eq!(offer.selection(), Some(Selection::Primary));
}

#[test]
fn empty_offer_is_not_ready() {
    let offer = DataOffer::new();
    assert!(!offer.is_ready());
    assert_eq!(offer.mime_types().len(), 0);
}
