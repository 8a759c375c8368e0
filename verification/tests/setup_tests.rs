use aisudo::setup::{bot_identity, first_chat_id, skip_offset, waiting_dots};

#[test]
fn bot_identities() {
    assert_eq!(bot_identity(Some(true), None, Some("my_bot".to_string())), Ok("my_bot".to_string()));
    assert_eq!(bot_identity(Some(true), None, None), Ok("unknown".to_string()));
    assert_eq!(
        bot_identity(Some(false), Some("Unauthorized".to_string()), Some("x".to_string())),
        Err("Unauthorized".to_string())
    );
    assert_eq!(bot_identity(None, None, None), Err("unknown error".to_string()));
}

#[test]
fn chat_ids_and_offsets() {
    assert_eq!(first_chat_id(&vec![None, Some(-100123), Some(5)]), Some("-100123".to_string()));
    assert_eq!(first_chat_id(&vec![None]), None);
    assert_eq!(first_chat_id(&vec![]), None);
    assert_eq!(skip_offset(Some(41)), 42);
    assert_eq!(skip_offset(None), 1);
}

#[test]
fn waiting_indicator_cycles() {
    assert_eq!(waiting_dots(0), (1, "..".to_string()));
    assert_eq!(waiting_dots(1), (2, "...".to_string()));
    assert_eq!(waiting_dots(2), (3, "....".to_string()));
    assert_eq!(waiting_dots(3), (0, ".".to_string()));
}
