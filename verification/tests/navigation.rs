use audio_tester_rs::navigation::{FramePlan, Navigator, Screen, TestKind};

fn plan(o: bool, i: bool, l: bool, create: Option<TestKind>) -> FramePlan {
    FramePlan { drop_output: o, drop_input: i, drop_latency: l, create }
}

#[test]
fn menu_tears_everything_down() {
    let mut n = Navigator::new();
    assert_eq!(n.screen(), Screen::Menu);
    assert_eq!(n.begin_frame(), plan(true, true, true, None));
}

#[test]
fn entering_a_test_screen_creates_its_test_once() {
    let mut n = Navigator::new();
    n.begin_frame();
    n.open_screen(Screen::OutputTest);
    assert_eq!(n.begin_frame(), plan(false, true, true, Some(TestKind::Output)));
    assert_eq!(n.begin_frame(), plan(false, false, false, None));
    n.back();
    assert_eq!(n.screen(), Screen::Menu);
    assert_eq!(n.begin_frame(), plan(true, true, true, None));
}

#[test]
fn latency_screens_pick_their_test() {
    let mut n = Navigator::new();
    n.begin_frame();
    n.open_screen(Screen::TapToTone);
    assert_eq!(n.begin_frame(), plan(true, true, false, Some(TestKind::TapToTone)));
    n.back();
    n.begin_frame();
    n.open_screen(Screen::RoundTripLatency);
    assert_eq!(n.begin_frame(), plan(true, true, false, Some(TestKind::RoundTrip)));
    n.back();
    n.begin_frame();
    n.open_screen(Screen::InputTest);
    assert_eq!(n.begin_frame(), plan(true, false, true, Some(TestKind::Input)));
}
