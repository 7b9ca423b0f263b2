//! Screen navigation of the tester: the menu and the four test screens, and
//! which test (and its audio streams) is alive on each of them.
use vstd::prelude::*;

verus! {

/// The screens of the tester.
#[derive(Clone, Copy, PartialEq, Eq, Structural, Debug)]
pub enum Screen {
    Menu,
    OutputTest,
    InputTest,
    RoundTripLatency,
    TapToTone,
}

/// A test to bring up on entering a screen.
#[derive(Clone, Copy, PartialEq, Eq, Structural, Debug)]
pub enum TestKind {
    Output,
    Input,
    RoundTrip,
    TapToTone,
}

/// The tests to tear down and the one to bring up at the start of a frame.
#[derive(Clone, Copy, PartialEq, Eq, Structural, Debug)]
pub struct FramePlan {
    pub drop_output: bool,
    pub drop_input: bool,
    pub drop_latency: bool,
    pub create: Option<TestKind>,
}

/// The abstract state of a [`Navigator`]: the screen shown and which of the
/// three test slots (output, input, latency) hold a test.
pub struct NavView {
    pub screen: Screen,
    pub output: bool,
    pub input: bool,
    pub latency: bool,
}

/// Which slots a screen needs filled: (output, input, latency).
pub open spec fn slots_for(screen: Screen) -> (bool, bool, bool) {
    match screen {
        Screen::Menu => (false, false, false),
        Screen::OutputTest => (true, false, false),
        Screen::InputTest => (false, true, false),
        _ => (false, false, true),
    }
}

/// At most one test is alive.
pub open spec fn at_most_one(v: NavView) -> bool {
    (v.output as int) + (v.input as int) + (v.latency as int) <= 1
}

/// Tracks the screen and the live tests of the tester.
pub struct Navigator {
    screen: Screen,
    output: bool,
    input: bool,
    latency: bool,
}

impl Navigator {
    pub closed spec fn view(&self) -> NavView {
        NavView { screen: self.screen, output: self.output, input: self.input, latency: self.latency }
    }

    #[verifier::type_invariant]
    closed spec fn inv(&self) -> bool {
        at_most_one(self.view())
    }

    /// The menu, with no test alive.
    pub fn new() -> (r: Self)
        ensures
            r.view() == (NavView { screen: Screen::Menu, output: false, input: false, latency: false }),
            at_most_one(r.view()),
    {
        Navigator { screen: Screen::Menu, output: false, input: false, latency: false }
    }

    /// Starts a frame: on the menu every test is torn down; on a test screen
    /// whose test is not alive yet, the other tests are torn down and its
    /// test is brought up (the latency screens share one slot).
    pub fn begin_frame(&mut self) -> (plan: FramePlan)
        ensures
            final(self).view().screen == old(self).view().screen,
            ({
                let (o, i, l) = slots_for(old(self).view().screen);
                let v = old(self).view();
                let needed_alive = (o && v.output) || (i && v.input) || (l && v.latency);
                if v.screen == Screen::Menu {
                    &&& plan == (FramePlan {
                        drop_output: true,
                        drop_input: true,
                        drop_latency: true,
                        create: None,
                    })
                    &&& final(self).view() == (NavView { screen: Screen::Menu, output: false, input: false, latency: false })
                } else if needed_alive {
                    &&& plan == (FramePlan {
                        drop_output: false,
                        drop_input: false,
                        drop_latency: false,
                        create: None,
                    })
                    &&& final(self).view() == v
                } else {
                    &&& plan == (FramePlan {
                        drop_output: !o,
                        drop_input: !i,
                        drop_latency: !l,
                        create: Some(test_for(v.screen)),
                    })
                    &&& final(self).view() == (NavView { screen: v.screen, output: o, input: i, latency: l })
                }
            }),
            at_most_one(final(self).view()),
            final(self).view().screen != Screen::Menu ==> ({
                let (o, i, l) = slots_for(final(self).view().screen);
                &&& final(self).view().output == o
                &&& final(self).view().input == i
                &&& final(self).view().latency == l
            }),
    {
        proof {
            use_type_invariant(&*self);
        }
        match self.screen {
            Screen::Menu => {
                *self = Navigator { screen: Screen::Menu, output: false, input: false, latency: false };
                FramePlan { drop_output: true, drop_input: true, drop_latency: true, create: None }
            },
            Screen::OutputTest => {
                if self.output {
                    FramePlan { drop_output: false, drop_input: false, drop_latency: false, create: None }
                } else {
                    *self = Navigator { screen: Screen::OutputTest, output: true, input: false, latency: false };
                    FramePlan {
                        drop_output: false,
                        drop_input: true,
                        drop_latency: true,
                        create: Some(TestKind::Output),
                    }
                }
            },
            Screen::InputTest => {
                if self.input {
                    FramePlan { drop_output: false, drop_input: false, drop_latency: false, create: None }
                } else {
                    *self = Navigator { screen: Screen::InputTest, output: false, input: true, latency: false };
                    FramePlan {
                        drop_output: true,
                        drop_input: false,
                        drop_latency: true,
                        create: Some(TestKind::Input),
                    }
                }
            },
            Screen::RoundTripLatency | Screen::TapToTone => {
                if self.latency {
                    FramePlan { drop_output: false, drop_input: false, drop_latency: false, create: None }
                } else {
                    let kind = if self.screen == Screen::TapToTone {
                        TestKind::TapToTone
                    } else {
                        TestKind::RoundTrip
                    };
                    *self = Navigator { screen: self.screen, output: false, input: false, latency: true };
                    FramePlan {
                        drop_output: true,
                        drop_input: true,
                        drop_latency: false,
                        create: Some(kind),
                    }
                }
            },
        }
    }

    /// Leaves the menu for the screen picked on it.
    pub fn open_screen(&mut self, next: Screen)
        requires
            old(self).view().screen == Screen::Menu,
        ensures
            final(self).view() == (NavView { screen: next, ..old(self).view() }),
            at_most_one(final(self).view()),
    {
        proof {
            use_type_invariant(&*self);
        }
        *self = Navigator { screen: next, ..*self };
    }

    /// Goes back to the menu; the live test is torn down at the next frame.
    pub fn back(&mut self)
        ensures
            final(self).view() == (NavView { screen: Screen::Menu, ..old(self).view() }),
            at_most_one(final(self).view()),
    {
        proof {
            use_type_invariant(&*self);
        }
        *self = Navigator { screen: Screen::Menu, ..*self };
    }

    pub fn screen(&self) -> (r: Screen)
        ensures
            r == self.view().screen,
    {
        self.screen
    }
}

/// The test a screen brings up.
pub open spec fn test_for(screen: Screen) -> TestKind {
    match screen {
        Screen::OutputTest => TestKind::Output,
        Screen::InputTest => TestKind::Input,
        Screen::TapToTone => TestKind::TapToTone,
        _ => TestKind::RoundTrip,
    }
}

/// Each screen keeps alive exactly the test it shows: none on the menu, the
/// output test on the output screen, the input test on the input screen, and
/// the latency test on both latency screens; the test a screen brings up is
/// the one that fills its slot.
pub proof fn lemma_screen_slots()
    ensures
        slots_for(Screen::Menu) == (false, false, false),
        slots_for(Screen::OutputTest) == (true, false, false),
        slots_for(Screen::InputTest) == (false, true, false),
        slots_for(Screen::RoundTripLatency) == (false, false, true),
        slots_for(Screen::TapToTone) == (false, false, true),
        test_for(Screen::OutputTest) == TestKind::Output,
        test_for(Screen::InputTest) == TestKind::Input,
        test_for(Screen::RoundTripLatency) == TestKind::RoundTrip,
        test_for(Screen::TapToTone) == TestKind::TapToTone,
{
}

} // verus!
