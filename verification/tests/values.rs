use dashboard::pane::{Buffer, Kind, PaneState, Settings};
use dashboard::text::selected_text;

#[test]
fn pieces_of_one_row_are_joined_and_rows_are_broken() {
    assert_eq!(selected_text(&vec![]), "");
    assert_eq!(selected_text(&vec![(3, "alone".to_string())]), "alone");
    assert_eq!(
        selected_text(&vec![
            (1, "a".to_string()),
            (1, "b".to_string()),
            (2, "c".to_string()),
            (1, "d".to_string()),
            (1, "".to_string()),
            (4, "e".to_string()),
        ]),
        "ab\nc\nd\ne"
    );
}

#[test]
fn kinds_are_compared_by_their_names() {
    let general = Kind::Channel { server: "s".to_string(), channel: "#general".to_string() };
    assert!(general.same(&Kind::Channel { server: "s".to_string(), channel: "#general".to_string() }));
    assert!(!general.same(&Kind::Channel { server: "t".to_string(), channel: "#general".to_string() }));
    assert!(!general.same(&Kind::Channel { server: "s".to_string(), channel: "#other".to_string() }));
    assert!(!general.same(&Kind::Query { server: "s".to_string(), nick: "#general".to_string() }));
    assert!(!general.same(&Kind::Server { server: "s".to_string() }));
    assert!(Kind::Server { server: "s".to_string() }.same(&Kind::Server { server: "s".to_string() }));
    assert!(Kind::Query { server: "s".to_string(), nick: "n".to_string() }
        .same(&Kind::Query { server: "s".to_string(), nick: "n".to_string() }));
    assert!(!Kind::Query { server: "s".to_string(), nick: "n".to_string() }
        .same(&Kind::Query { server: "s".to_string(), nick: "m".to_string() }));
    assert_eq!(general.clone(), general);
}

#[test]
fn a_buffer_knows_what_it_shows() {
    let general = Kind::Channel { server: "s".to_string(), channel: "#general".to_string() };
    let buffer = Buffer::from(general.clone());
    assert_eq!(buffer, Buffer::Channel { server: "s".to_string(), channel: "#general".to_string() });
    assert_eq!(buffer.data(), Some(general.clone()));
    assert!(buffer.is_showing(&general));
    assert!(!buffer.is_showing(&Kind::Server { server: "s".to_string() }));
    assert!(!buffer.is_empty());
    assert!(Buffer::empty().is_empty());
    assert_eq!(Buffer::empty().data(), None);
    assert!(!Buffer::empty().is_showing(&general));
    assert_eq!(buffer.clone(), buffer);

    let pane = PaneState::new(buffer, Settings { show_user_list: true });
    assert_eq!(pane.resource(), Some(general));
    assert_eq!(pane.clone(), pane);
    assert_eq!(PaneState::new(Buffer::Empty, Settings::default()).resource(), None);
}

#[test]
fn toggling_the_user_list_twice_changes_nothing() {
    let mut settings = Settings { show_user_list: true };
    settings.toggle_user_list();
    assert_eq!(settings, Settings { show_user_list: false });
    settings.toggle_user_list();
    assert_eq!(settings, Settings { show_user_list: true });
}
