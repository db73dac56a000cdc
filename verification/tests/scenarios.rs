use dashboard::effect::Effect;
use dashboard::event::Event;
use dashboard::message::Message;
use dashboard::pane::{Buffer, Config, Drag, Kind, PaneState, Settings};
use dashboard::persistence::Timestamp;
use dashboard::screen::Dashboard;
use dashboard::side_menu;
use dashboard::snapshot::Snapshot;
use iced::widget::pane_grid::{self, Axis, Configuration, Node, Region, ResizeEvent};

fn config() -> Config {
    Config { new_buffer: Settings { show_user_list: true } }
}

fn at(millis: u64) -> Timestamp {
    Timestamp::new(millis)
}

fn channel(name: &str) -> Kind {
    Kind::Channel { server: "irc.example.org".to_string(), channel: name.to_string() }
}

fn leaves(node: &Node, found: &mut Vec<pane_grid::Pane>) {
    match node {
        Node::Split { a, b, .. } => {
            leaves(a, found);
            leaves(b, found);
        }
        Node::Pane(pane) => found.push(*pane),
    }
}

fn leaves_of(dashboard: &Dashboard) -> Vec<pane_grid::Pane> {
    let mut found = Vec::new();
    leaves(dashboard.grid().layout(), &mut found);
    found
}

fn first_pane(dashboard: &Dashboard) -> pane_grid::Pane {
    leaves_of(dashboard)[0]
}

fn pane_of(kind: Kind) -> PaneState {
    PaneState::new(Buffer::from(kind), Settings { show_user_list: true })
}

fn two_channels() -> Dashboard {
    let configuration = Configuration::Split {
        axis: Axis::Vertical,
        ratio: 0.25,
        a: Box::new(Configuration::Pane(pane_of(channel("#a")))),
        b: Box::new(Configuration::Pane(pane_of(channel("#b")))),
    };
    Dashboard::restore(configuration).0
}

#[test]
fn a_new_workspace_is_one_empty_pane() {
    let (dashboard, resources) = Dashboard::empty(&config());
    assert_eq!(dashboard.len(), 1);
    assert_eq!(dashboard.focus(), None);
    assert_eq!(dashboard.last_changed(), None);
    assert_eq!(dashboard.maximized(), None);
    assert!(resources.is_empty());
    let first = first_pane(&dashboard);
    assert_eq!(
        dashboard.pane(&first),
        Some(&PaneState { buffer: Buffer::Empty, settings: Settings { show_user_list: true } })
    );
    assert_eq!(dashboard.snapshot(), Snapshot::Empty);
}

#[test]
fn opening_in_a_single_empty_pane_replaces_its_buffer() {
    let (mut dashboard, _) = Dashboard::empty(&config());
    let first = first_pane(&dashboard);
    let effect = dashboard.update(
        Message::SideMenu(side_menu::Event::Open(channel("#general"))),
        at(10),
        &config(),
    );
    assert_eq!(dashboard.len(), 1);
    assert_eq!(leaves_of(&dashboard), vec![first]);
    assert_eq!(
        dashboard.pane(&first).unwrap().buffer,
        Buffer::Channel { server: "irc.example.org".to_string(), channel: "#general".to_string() }
    );
    assert_eq!(dashboard.focus(), Some(first));
    assert_eq!(effect, Effect::FocusBuffer(first));
    assert_eq!(dashboard.last_changed(), Some(at(10)));
}

#[test]
fn opening_a_shown_resource_moves_focus_to_its_pane() {
    let (mut dashboard, _) = Dashboard::empty(&config());
    let a = first_pane(&dashboard);
    dashboard.update(Message::SideMenu(side_menu::Event::Open(channel("#x"))), at(1), &config());
    dashboard.update(
        Message::Pane(dashboard::pane::Message::SplitPane(Axis::Horizontal)),
        at(2),
        &config(),
    );
    let b = dashboard.focus().unwrap();
    assert_ne!(a, b);
    assert_eq!(dashboard.pane(&b).unwrap().buffer, Buffer::Empty);
    assert_eq!(dashboard.len(), 2);

    let effect =
        dashboard.update(Message::SideMenu(side_menu::Event::Open(channel("#x"))), at(3), &config());
    assert_eq!(dashboard.focus(), Some(a));
    assert_eq!(dashboard.len(), 2);
    assert_eq!(leaves_of(&dashboard), vec![a, b]);
    assert_eq!(effect, Effect::FocusBuffer(a));
    assert_eq!(dashboard.last_changed(), Some(at(2)));

    let effect =
        dashboard.update(Message::SideMenu(side_menu::Event::Open(channel("#x"))), at(4), &config());
    assert_eq!(effect, Effect::Nothing);
    assert_eq!(dashboard.focus(), Some(a));
    assert_eq!(dashboard.last_changed(), Some(at(2)));
}

#[test]
fn splitting_makes_an_even_split_and_resizing_sets_its_ratio() {
    let (mut dashboard, _) = Dashboard::empty(&config());
    let a = first_pane(&dashboard);
    dashboard.focus_pane(a);
    let effect = dashboard.update(
        Message::Pane(dashboard::pane::Message::SplitPane(Axis::Horizontal)),
        at(5),
        &config(),
    );
    let b = dashboard.focus().unwrap();
    assert_ne!(a, b);
    assert_eq!(effect, Effect::FocusBuffer(b));
    assert_eq!(leaves_of(&dashboard), vec![a, b]);
    assert_eq!(
        dashboard.snapshot(),
        Snapshot::Split {
            axis: Axis::Horizontal,
            ratio: 0.5f32.to_bits(),
            a: Box::new(Snapshot::Empty),
            b: Box::new(Snapshot::Empty),
        }
    );
    assert_eq!(dashboard.last_changed(), Some(at(5)));

    let split = *dashboard.grid().layout().splits().next().unwrap();
    let effect = dashboard.update(
        Message::Pane(dashboard::pane::Message::PaneResized(ResizeEvent { split, ratio: 0.7 })),
        at(9),
        &config(),
    );
    assert_eq!(effect, Effect::Nothing);
    match dashboard.snapshot() {
        Snapshot::Split { ratio, .. } => assert_eq!(f32::from_bits(ratio), 0.7),
        other => panic!("not a split: {:?}", other),
    }
    assert_eq!(dashboard.last_changed(), Some(at(9)));
}

#[test]
fn a_ratio_outside_the_open_unit_interval_is_not_taken() {
    let mut dashboard = two_channels();
    let split = *dashboard.grid().layout().splits().next().unwrap();
    for ratio in [0.0f32, 1.0, 1.5, -0.25, f32::NAN, f32::INFINITY] {
        dashboard.update(
            Message::Pane(dashboard::pane::Message::PaneResized(ResizeEvent { split, ratio })),
            at(3),
            &config(),
        );
        match dashboard.snapshot() {
            Snapshot::Split { ratio, .. } => assert_eq!(f32::from_bits(ratio), 0.25),
            other => panic!("not a split: {:?}", other),
        }
        assert_eq!(dashboard.last_changed(), Some(at(3)));
    }
    dashboard.update(
        Message::Pane(dashboard::pane::Message::PaneResized(ResizeEvent { split, ratio: 0.999 })),
        at(4),
        &config(),
    );
    match dashboard.snapshot() {
        Snapshot::Split { ratio, .. } => assert_eq!(f32::from_bits(ratio), 0.999),
        other => panic!("not a split: {:?}", other),
    }
}

#[test]
fn close_requested_with_unsaved_changes_saves_once() {
    let mut dashboard = two_channels();
    let a = first_pane(&dashboard);
    dashboard.update(
        Message::SideMenu(side_menu::Event::Replace(channel("#c"), a)),
        at(100),
        &config(),
    );
    let expected = dashboard.snapshot();
    let effect = dashboard.handle_event(Event::CloseRequested);
    assert_eq!(effect, Effect::Shutdown { save: Some(expected) });
    assert_eq!(dashboard.last_changed(), Some(at(100)));
    let effect = dashboard.update(Message::Close, at(101), &config());
    assert_eq!(effect, Effect::CloseWindow);
}

#[test]
fn close_requested_without_changes_saves_nothing() {
    let mut dashboard = two_channels();
    let effect = dashboard.handle_event(Event::CloseRequested);
    assert_eq!(effect, Effect::Shutdown { save: None });
}

#[test]
fn closing_the_only_pane_empties_it() {
    let (mut dashboard, _) = Dashboard::empty(&config());
    let a = first_pane(&dashboard);
    dashboard.update(Message::SideMenu(side_menu::Event::Open(channel("#x"))), at(1), &config());
    dashboard.update(Message::Pane(dashboard::pane::Message::ToggleShowUserList), at(2), &config());
    assert_eq!(dashboard.focus(), Some(a));

    let effect =
        dashboard.update(Message::Pane(dashboard::pane::Message::ClosePane), at(3), &config());
    assert_eq!(effect, Effect::Nothing);
    assert_eq!(dashboard.len(), 1);
    assert_eq!(leaves_of(&dashboard), vec![a]);
    assert_eq!(
        dashboard.pane(&a),
        Some(&PaneState { buffer: Buffer::Empty, settings: Settings { show_user_list: false } })
    );
    assert_eq!(dashboard.focus(), Some(a));
    assert_eq!(dashboard.last_changed(), Some(at(3)));
}

#[test]
fn the_menu_cannot_close_the_only_pane_but_drops_its_focus() {
    let (mut dashboard, _) = Dashboard::empty(&config());
    let a = first_pane(&dashboard);
    dashboard.focus_pane(a);
    let effect =
        dashboard.update(Message::SideMenu(side_menu::Event::Close(a)), at(7), &config());
    assert_eq!(effect, Effect::Nothing);
    assert_eq!(dashboard.len(), 1);
    assert_eq!(leaves_of(&dashboard), vec![a]);
    assert_eq!(dashboard.focus(), None);
    assert_eq!(dashboard.last_changed(), Some(at(7)));
}

#[test]
fn closing_the_focused_pane_moves_focus_to_its_sibling() {
    let mut dashboard = two_channels();
    let found = leaves_of(&dashboard);
    let (a, b) = (found[0], found[1]);
    dashboard.focus_pane(b);
    let effect =
        dashboard.update(Message::Pane(dashboard::pane::Message::ClosePane), at(4), &config());
    assert_eq!(effect, Effect::FocusBuffer(a));
    assert_eq!(dashboard.focus(), Some(a));
    assert_eq!(leaves_of(&dashboard), vec![a]);
    assert_eq!(dashboard.pane(&b), None);
    assert_eq!(dashboard.len(), 1);
}

#[test]
fn closing_without_focus_does_nothing() {
    let mut dashboard = two_channels();
    let effect =
        dashboard.update(Message::Pane(dashboard::pane::Message::ClosePane), at(4), &config());
    assert_eq!(effect, Effect::Nothing);
    assert_eq!(dashboard.len(), 2);
    assert_eq!(dashboard.last_changed(), None);
}

#[test]
fn the_menu_closes_a_pane_and_drops_focus_only_from_it() {
    let mut dashboard = two_channels();
    let found = leaves_of(&dashboard);
    let (a, b) = (found[0], found[1]);
    dashboard.focus_pane(a);
    dashboard.update(Message::SideMenu(side_menu::Event::Close(b)), at(1), &config());
    assert_eq!(dashboard.focus(), Some(a));
    assert_eq!(leaves_of(&dashboard), vec![a]);

    let mut dashboard = two_channels();
    let found = leaves_of(&dashboard);
    let (a, b) = (found[0], found[1]);
    dashboard.focus_pane(a);
    dashboard.update(Message::SideMenu(side_menu::Event::Close(a)), at(1), &config());
    assert_eq!(dashboard.focus(), None);
    assert_eq!(leaves_of(&dashboard), vec![b]);
}

#[test]
fn every_pane_stays_in_exactly_one_leaf() {
    let (mut dashboard, _) = Dashboard::empty(&config());
    let first = first_pane(&dashboard);
    dashboard.focus_pane(first);
    let mut time = 0;
    let mut check = |dashboard: &Dashboard| {
        let mut in_layout = leaves_of(dashboard);
        let mut with_state = dashboard.panes();
        in_layout.sort();
        with_state.sort();
        assert!(!in_layout.is_empty());
        assert_eq!(in_layout, with_state);
        let mut unique = in_layout.clone();
        unique.dedup();
        assert_eq!(unique, in_layout);
        assert_eq!(dashboard.len(), in_layout.len());
    };
    for round in 0..6 {
        time += 1;
        let axis = if round % 2 == 0 { Axis::Horizontal } else { Axis::Vertical };
        dashboard.update(Message::Pane(dashboard::pane::Message::SplitPane(axis)), at(time), &config());
        check(&dashboard);
    }
    let all = leaves_of(&dashboard);
    assert_eq!(all.len(), 7);
    dashboard.update(Message::SideMenu(side_menu::Event::Swap(all[0], all[6])), at(time), &config());
    check(&dashboard);
    dashboard.update(Message::SideMenu(side_menu::Event::Swap(all[3], all[3])), at(time), &config());
    check(&dashboard);
    dashboard.update(
        Message::Pane(dashboard::pane::Message::PaneDragged(Drag::Dropped {
            pane: all[1],
            target: all[5],
            region: Region::Edge(pane_grid::Edge::Left),
        })),
        at(time),
        &config(),
    );
    check(&dashboard);
    dashboard.update(Message::SideMenu(side_menu::Event::Close(all[2])), at(time), &config());
    check(&dashboard);
    // A pane that is gone changes places with no one.
    dashboard.update(Message::SideMenu(side_menu::Event::Swap(all[2], all[4])), at(time), &config());
    check(&dashboard);
    dashboard.update(
        Message::Pane(dashboard::pane::Message::PaneDragged(Drag::Dropped {
            pane: all[4],
            target: all[2],
            region: Region::Center,
        })),
        at(time),
        &config(),
    );
    check(&dashboard);
    for _ in 0..10 {
        let any = leaves_of(&dashboard)[0];
        dashboard.focus_pane(any);
        dashboard.update(Message::Pane(dashboard::pane::Message::ClosePane), at(time), &config());
        check(&dashboard);
    }
    assert_eq!(dashboard.len(), 1);
}

#[test]
fn opening_twice_adds_one_pane_at_most() {
    let mut dashboard = two_channels();
    let effect =
        dashboard.update(Message::SideMenu(side_menu::Event::Open(channel("#c"))), at(1), &config());
    let opened = dashboard.focus().unwrap();
    assert_eq!(effect, Effect::FocusBuffer(opened));
    assert_eq!(dashboard.len(), 3);
    let before = dashboard.snapshot();

    dashboard.handle_event(Event::Escape);
    let effect =
        dashboard.update(Message::SideMenu(side_menu::Event::Open(channel("#c"))), at(2), &config());
    assert_eq!(effect, Effect::FocusBuffer(opened));
    assert_eq!(dashboard.len(), 3);
    assert_eq!(dashboard.focus(), Some(opened));
    assert_eq!(dashboard.snapshot(), before);
    assert_eq!(dashboard.last_changed(), Some(at(1)));
}

#[test]
fn without_focus_a_resource_opens_beside_the_newest_pane() {
    let mut dashboard = two_channels();
    assert_eq!(dashboard.focus(), None);
    dashboard.update(Message::SideMenu(side_menu::Event::Open(channel("#c"))), at(1), &config());
    assert_eq!(
        dashboard.snapshot(),
        Snapshot::Split {
            axis: Axis::Vertical,
            ratio: 0.25f32.to_bits(),
            a: Box::new(Snapshot::Buffer {
                buffer: channel("#a"),
                settings: Settings { show_user_list: true },
            }),
            b: Box::new(Snapshot::Split {
                axis: Axis::Horizontal,
                ratio: 0.5f32.to_bits(),
                a: Box::new(Snapshot::Buffer {
                    buffer: channel("#b"),
                    settings: Settings { show_user_list: true },
                }),
                b: Box::new(Snapshot::Buffer {
                    buffer: channel("#c"),
                    settings: Settings { show_user_list: true },
                }),
            }),
        }
    );
    assert_eq!(dashboard.newest(), dashboard.focus());
}

#[test]
fn with_focus_a_resource_opens_beside_the_focused_pane() {
    let mut dashboard = two_channels();
    let a = first_pane(&dashboard);
    dashboard.focus_pane(a);
    let settings = Config { new_buffer: Settings { show_user_list: false } };
    dashboard.update(Message::SideMenu(side_menu::Event::Open(channel("#c"))), at(1), &settings);
    let found = leaves_of(&dashboard);
    assert_eq!(found.len(), 3);
    assert_eq!(found[0], a);
    assert_eq!(dashboard.focus(), Some(found[1]));
    assert_eq!(
        dashboard.pane(&found[1]),
        Some(&PaneState {
            buffer: Buffer::from(channel("#c")),
            settings: Settings { show_user_list: false },
        })
    );
}

#[test]
fn replacing_keeps_the_settings_and_takes_focus() {
    let mut dashboard = two_channels();
    let found = leaves_of(&dashboard);
    let (a, b) = (found[0], found[1]);
    dashboard.focus_pane(b);
    dashboard.update(Message::Pane(dashboard::pane::Message::ToggleShowUserList), at(1), &config());
    dashboard.focus_pane(a);
    let query = Kind::Query { server: "irc.example.org".to_string(), nick: "ada".to_string() };
    let effect = dashboard.update(
        Message::SideMenu(side_menu::Event::Replace(
            Kind::Query { server: "irc.example.org".to_string(), nick: "ada".to_string() },
            b,
        )),
        at(2),
        &config(),
    );
    assert_eq!(effect, Effect::FocusBuffer(b));
    assert_eq!(dashboard.focus(), Some(b));
    assert_eq!(
        dashboard.pane(&b),
        Some(&PaneState {
            buffer: Buffer::Query { server: "irc.example.org".to_string(), nick: "ada".to_string() },
            settings: Settings { show_user_list: false },
        })
    );
    assert_eq!(dashboard.find(&query), Some(b));
    assert_eq!(dashboard.last_changed(), Some(at(2)));
}

#[test]
fn replacing_in_a_pane_that_is_gone_does_nothing() {
    let mut dashboard = two_channels();
    let found = leaves_of(&dashboard);
    let (a, b) = (found[0], found[1]);
    dashboard.update(Message::SideMenu(side_menu::Event::Close(b)), at(1), &config());
    let effect = dashboard.update(
        Message::SideMenu(side_menu::Event::Replace(channel("#z"), b)),
        at(2),
        &config(),
    );
    assert_eq!(effect, Effect::Nothing);
    assert_eq!(dashboard.focus(), None);
    assert_eq!(dashboard.last_changed(), Some(at(1)));
    assert_eq!(leaves_of(&dashboard), vec![a]);
    assert_eq!(dashboard.find(&channel("#z")), None);
}

#[test]
fn swapping_exchanges_what_two_panes_show() {
    let mut dashboard = two_channels();
    let found = leaves_of(&dashboard);
    let (a, b) = (found[0], found[1]);
    dashboard.focus_pane(b);
    dashboard.update(Message::Pane(dashboard::pane::Message::ToggleShowUserList), at(0), &config());
    let effect =
        dashboard.update(Message::SideMenu(side_menu::Event::Swap(a, b)), at(1), &config());
    assert_eq!(effect, Effect::FocusBuffer(a));
    assert_eq!(dashboard.focus(), Some(a));
    assert_eq!(leaves_of(&dashboard), vec![a, b]);
    assert_eq!(
        dashboard.pane(&a),
        Some(&PaneState {
            buffer: Buffer::from(channel("#b")),
            settings: Settings { show_user_list: false },
        })
    );
    assert_eq!(
        dashboard.pane(&b),
        Some(&PaneState {
            buffer: Buffer::from(channel("#a")),
            settings: Settings { show_user_list: true },
        })
    );
    assert_eq!(
        dashboard.snapshot(),
        Snapshot::Split {
            axis: Axis::Vertical,
            ratio: 0.25f32.to_bits(),
            a: Box::new(Snapshot::Buffer {
                buffer: channel("#b"),
                settings: Settings { show_user_list: false },
            }),
            b: Box::new(Snapshot::Buffer {
                buffer: channel("#a"),
                settings: Settings { show_user_list: true },
            }),
        }
    );
    assert_eq!(dashboard.last_changed(), Some(at(1)));
}

#[test]
fn swapping_with_a_pane_that_is_gone_exchanges_nothing() {
    let mut dashboard = two_channels();
    let found = leaves_of(&dashboard);
    let (a, b) = (found[0], found[1]);
    dashboard.update(Message::SideMenu(side_menu::Event::Close(b)), at(1), &config());
    let before = dashboard.snapshot();
    let effect =
        dashboard.update(Message::SideMenu(side_menu::Event::Swap(a, b)), at(2), &config());
    assert_eq!(effect, Effect::FocusBuffer(a));
    assert_eq!(dashboard.snapshot(), before);
    assert_eq!(leaves_of(&dashboard), vec![a]);
    assert_eq!(dashboard.last_changed(), Some(at(2)));
    let effect =
        dashboard.update(Message::SideMenu(side_menu::Event::Swap(b, a)), at(3), &config());
    assert_eq!(effect, Effect::Nothing);
    assert_eq!(dashboard.focus(), Some(b));
    assert_eq!(dashboard.snapshot(), before);
}

#[test]
fn dropping_on_the_centre_exchanges_and_on_an_edge_moves() {
    let mut dashboard = two_channels();
    let found = leaves_of(&dashboard);
    let (a, b) = (found[0], found[1]);
    dashboard.update(
        Message::Pane(dashboard::pane::Message::PaneDragged(Drag::Dropped {
            pane: a,
            target: b,
            region: Region::Center,
        })),
        at(1),
        &config(),
    );
    assert_eq!(leaves_of(&dashboard), vec![a, b]);
    assert_eq!(dashboard.pane(&a).unwrap().buffer, Buffer::from(channel("#b")));
    assert_eq!(dashboard.pane(&b).unwrap().buffer, Buffer::from(channel("#a")));
    assert_eq!(dashboard.last_changed(), Some(at(1)));

    dashboard.update(
        Message::Pane(dashboard::pane::Message::PaneDragged(Drag::Dropped {
            pane: b,
            target: a,
            region: Region::Edge(pane_grid::Edge::Top),
        })),
        at(2),
        &config(),
    );
    assert_eq!(
        dashboard.snapshot(),
        Snapshot::Split {
            axis: Axis::Horizontal,
            ratio: 0.5f32.to_bits(),
            a: Box::new(Snapshot::Buffer {
                buffer: channel("#a"),
                settings: Settings { show_user_list: true },
            }),
            b: Box::new(Snapshot::Buffer {
                buffer: channel("#b"),
                settings: Settings { show_user_list: true },
            }),
        }
    );
    assert_eq!(dashboard.len(), 2);
    assert_eq!(dashboard.pane(&b), None);
    assert_eq!(leaves_of(&dashboard)[1], a);

    dashboard.update(
        Message::Pane(dashboard::pane::Message::PaneDragged(Drag::Dropped {
            pane: a,
            target: leaves_of(&dashboard)[0],
            region: Region::Edge(pane_grid::Edge::Right),
        })),
        at(3),
        &config(),
    );
    assert_eq!(
        dashboard.snapshot(),
        Snapshot::Split {
            axis: Axis::Vertical,
            ratio: 0.5f32.to_bits(),
            a: Box::new(Snapshot::Buffer {
                buffer: channel("#a"),
                settings: Settings { show_user_list: true },
            }),
            b: Box::new(Snapshot::Buffer {
                buffer: channel("#b"),
                settings: Settings { show_user_list: true },
            }),
        }
    );

    let effect = dashboard.update(
        Message::Pane(dashboard::pane::Message::PaneDragged(Drag::Unfinished)),
        at(4),
        &config(),
    );
    assert_eq!(effect, Effect::Nothing);
    assert_eq!(dashboard.last_changed(), Some(at(3)));
}

#[test]
fn a_drop_that_names_a_pane_that_is_gone_moves_nothing() {
    let mut dashboard = two_channels();
    let a = first_pane(&dashboard);
    dashboard.focus_pane(a);
    dashboard.update(
        Message::Pane(dashboard::pane::Message::SplitPane(Axis::Horizontal)),
        at(1),
        &config(),
    );
    let gone = dashboard.focus().unwrap();
    dashboard.update(Message::Pane(dashboard::pane::Message::ClosePane), at(2), &config());
    let before = dashboard.snapshot();
    let found = leaves_of(&dashboard);
    for region in [Region::Center, Region::Edge(pane_grid::Edge::Bottom)] {
        dashboard.update(
            Message::Pane(dashboard::pane::Message::PaneDragged(Drag::Dropped {
                pane: found[1],
                target: gone,
                region,
            })),
            at(3),
            &config(),
        );
        assert_eq!(dashboard.snapshot(), before);
        assert_eq!(leaves_of(&dashboard), found);
        assert_eq!(dashboard.last_changed(), Some(at(3)));
    }
}

#[test]
fn clicking_a_pane_gives_it_focus_once() {
    let mut dashboard = two_channels();
    let b = leaves_of(&dashboard)[1];
    let effect = dashboard.update(
        Message::Pane(dashboard::pane::Message::PaneClicked(b)),
        at(1),
        &config(),
    );
    assert_eq!(effect, Effect::FocusBuffer(b));
    assert!(dashboard.is_focused(&b));
    assert_eq!(dashboard.last_changed(), None);
    let effect = dashboard.update(
        Message::Pane(dashboard::pane::Message::PaneClicked(b)),
        at(2),
        &config(),
    );
    assert_eq!(effect, Effect::Nothing);
    assert!(dashboard.is_focused(&b));
    assert!(!dashboard.is_focused(&leaves_of(&dashboard)[0]));
}

#[test]
fn escape_clears_focus_and_home_and_end_scroll_the_focused_pane() {
    let mut dashboard = two_channels();
    assert_eq!(dashboard.handle_event(Event::Home), Effect::Nothing);
    assert_eq!(dashboard.handle_event(Event::End), Effect::Nothing);
    let a = first_pane(&dashboard);
    dashboard.focus_pane(a);
    assert_eq!(dashboard.handle_event(Event::Home), Effect::ScrollToStart(a));
    assert_eq!(dashboard.handle_event(Event::End), Effect::ScrollToEnd(a));
    assert_eq!(dashboard.handle_event(Event::Copy), Effect::CopySelection);
    assert_eq!(dashboard.handle_event(Event::Escape), Effect::Nothing);
    assert_eq!(dashboard.focus(), None);
    assert_eq!(dashboard.handle_event(Event::Home), Effect::Nothing);
    assert_eq!(dashboard.len(), 2);
}

#[test]
fn the_user_list_of_the_focused_pane_is_toggled() {
    let mut dashboard = two_channels();
    dashboard.update(Message::Pane(dashboard::pane::Message::ToggleShowUserList), at(1), &config());
    assert_eq!(dashboard.last_changed(), None);
    let a = first_pane(&dashboard);
    dashboard.focus_pane(a);
    dashboard.update(Message::Pane(dashboard::pane::Message::ToggleShowUserList), at(2), &config());
    assert_eq!(dashboard.pane(&a).unwrap().settings, Settings { show_user_list: false });
    assert_eq!(dashboard.pane(&a).unwrap().buffer, Buffer::from(channel("#a")));
    assert_eq!(dashboard.last_changed(), Some(at(2)));
    dashboard.update(Message::Pane(dashboard::pane::Message::ToggleShowUserList), at(3), &config());
    assert_eq!(dashboard.pane(&a).unwrap().settings, Settings { show_user_list: true });
}

#[test]
fn maximizing_is_no_change_to_save() {
    let mut dashboard = two_channels();
    dashboard.update(Message::Pane(dashboard::pane::Message::MaximizePane), at(1), &config());
    assert_eq!(dashboard.maximized(), None);
    let b = leaves_of(&dashboard)[1];
    dashboard.focus_pane(b);
    dashboard.update(Message::Pane(dashboard::pane::Message::MaximizePane), at(2), &config());
    assert_eq!(dashboard.maximized(), Some(b));
    assert_eq!(dashboard.last_changed(), None);
    assert_eq!(dashboard.len(), 2);
    dashboard.update(Message::Pane(dashboard::pane::Message::MaximizePane), at(3), &config());
    assert_eq!(dashboard.maximized(), None);
    assert_eq!(dashboard.last_changed(), None);
}

#[test]
fn a_buffer_message_goes_to_a_pane_of_the_grid_only() {
    let mut dashboard = two_channels();
    let found = leaves_of(&dashboard);
    let (a, b) = (found[0], found[1]);
    let effect =
        dashboard.update(Message::Pane(dashboard::pane::Message::Buffer(b)), at(1), &config());
    assert_eq!(effect, Effect::UpdateBuffer(b));
    dashboard.update(Message::SideMenu(side_menu::Event::Close(b)), at(2), &config());
    let effect =
        dashboard.update(Message::Pane(dashboard::pane::Message::Buffer(b)), at(3), &config());
    assert_eq!(effect, Effect::Nothing);
    let effect =
        dashboard.update(Message::Pane(dashboard::pane::Message::Buffer(a)), at(3), &config());
    assert_eq!(effect, Effect::UpdateBuffer(a));
}

#[test]
fn the_resources_of_all_panes_are_tracked() {
    let mut dashboard = two_channels();
    let mut resources = Dashboard::restore(Configuration::Pane(pane_of(channel("#only")))).1;
    assert_eq!(resources, vec![channel("#only")]);
    resources = dashboard.track();
    assert_eq!(resources.len(), 2);
    assert!(resources.contains(&channel("#a")));
    assert!(resources.contains(&channel("#b")));
    let a = first_pane(&dashboard);
    dashboard.focus_pane(a);
    dashboard.update(
        Message::Pane(dashboard::pane::Message::SplitPane(Axis::Vertical)),
        at(1),
        &config(),
    );
    assert_eq!(dashboard.track().len(), 2);
    let server = Kind::Server { server: "irc.example.org".to_string() };
    dashboard.update(
        Message::SideMenu(side_menu::Event::Open(Kind::Server {
            server: "irc.example.org".to_string(),
        })),
        at(2),
        &config(),
    );
    let resources = dashboard.track();
    assert_eq!(resources.len(), 3);
    assert!(resources.contains(&server));
}

#[test]
fn a_message_is_handled_and_the_resources_are_listed() {
    let (mut dashboard, _) = Dashboard::empty(&config());
    assert_eq!(dashboard.sole_empty_pane(), Some(first_pane(&dashboard)));
    let (effect, resources) = dashboard.update_and_track(
        Message::SideMenu(side_menu::Event::Open(channel("#x"))),
        at(1),
        &config(),
    );
    assert_eq!(effect, Effect::FocusBuffer(first_pane(&dashboard)));
    assert_eq!(resources, vec![channel("#x")]);
    assert_eq!(dashboard.sole_empty_pane(), None);
    assert_eq!(dashboard.find(&channel("#x")), Some(first_pane(&dashboard)));
    assert_eq!(dashboard.find(&channel("#y")), None);

    let (effect, resources) = dashboard.update_and_track(
        Message::Pane(dashboard::pane::Message::ClosePane),
        at(2),
        &config(),
    );
    assert_eq!(effect, Effect::Nothing);
    assert!(resources.is_empty());
    assert_eq!(dashboard.sole_empty_pane(), Some(first_pane(&dashboard)));

    let two = two_channels();
    assert_eq!(two.sole_empty_pane(), None);
    assert_eq!(two.newest(), Some(leaves_of(&two)[1]));
    let mut ids = two.panes();
    ids.sort();
    assert_eq!(ids, leaves_of(&two));
}

#[test]
fn other_messages_leave_the_workspace_alone() {
    let mut dashboard = two_channels();
    let before = dashboard.snapshot();
    assert_eq!(dashboard.update(Message::History, at(1), &config()), Effect::UpdateHistory);
    assert_eq!(dashboard.update(Message::Close, at(1), &config()), Effect::CloseWindow);
    assert_eq!(dashboard.update(Message::DashboardSaved(Ok(())), at(1), &config()), Effect::Nothing);
    assert_eq!(
        dashboard.update(
            Message::DashboardSaved(Err(dashboard::message::SaveError {
                reason: "disk full".to_string()
            })),
            at(1),
            &config()
        ),
        Effect::Nothing
    );
    assert_eq!(
        dashboard.update(
            Message::SelectedText(vec![
                (7, "first".to_string()),
                (7, " line".to_string()),
                (9, "second".to_string()),
            ]),
            at(1),
            &config()
        ),
        Effect::WriteClipboard("first line\nsecond".to_string())
    );
    assert_eq!(dashboard.snapshot(), before);
    assert_eq!(dashboard.last_changed(), None);
    assert_eq!(dashboard.focus(), None);
}
