//! Input snapshot and key-edge tracking.
//!
//! The host polls its windowing layer and feeds plain key events in here; the
//! library keeps the per-key hold state and derives the edge-triggered
//! "just pressed" / "just released" snapshot each frame.
use vstd::prelude::*;

verus! {

/// The keys the engine reacts to.
#[derive(Clone, Copy, Debug, PartialEq, Eq, Structural)]
pub enum Key {
    Escape,
    Space,
    Down,
    Up,
    Right,
    Left,
    Num1,
    Num2,
    Num3,
}

/// What happened since the last frame: `Some(true)` means just pressed,
/// `Some(false)` just released, `None` no change.
#[derive(Clone, Copy, Debug, PartialEq, Eq)]
pub struct ImmediateEvents {
    pub resize: Option<(u32, u32)>,
    pub key_escape: Option<bool>,
    pub key_space: Option<bool>,
    pub key_down: Option<bool>,
    pub key_up: Option<bool>,
    pub key_right: Option<bool>,
    pub key_left: Option<bool>,
    pub key_1: Option<bool>,
    pub key_2: Option<bool>,
    pub key_3: Option<bool>,
    pub quit: bool,
}

impl ImmediateEvents {
    /// The edge recorded for one key.
    pub open spec fn edge(self, k: Key) -> Option<bool> {
        match k {
            Key::Escape => self.key_escape,
            Key::Space => self.key_space,
            Key::Down => self.key_down,
            Key::Up => self.key_up,
            Key::Right => self.key_right,
            Key::Left => self.key_left,
            Key::Num1 => self.key_1,
            Key::Num2 => self.key_2,
            Key::Num3 => self.key_3,
        }
    }

    /// A snapshot with nothing happening.
    pub fn new() -> (r: ImmediateEvents)
        ensures
            forall|k: Key| r.edge(k) is None,
            !r.quit,
            r.resize is None,
    {
        ImmediateEvents {
            resize: None,
            key_escape: None,
            key_space: None,
            key_down: None,
            key_up: None,
            key_right: None,
            key_left: None,
            key_1: None,
            key_2: None,
            key_3: None,
            quit: false,
        }
    }
}

/// Per-key hold state plus the current frame's edge snapshot.
#[derive(Clone, Copy, Debug, PartialEq, Eq)]
pub struct Events {
    pub now: ImmediateEvents,
    pub key_escape: bool,
    pub key_space: bool,
    pub key_down: bool,
    pub key_up: bool,
    pub key_right: bool,
    pub key_left: bool,
    pub key_1: bool,
    pub key_2: bool,
    pub key_3: bool,
}

impl Events {
    /// Whether one key is currently held.
    pub open spec fn held(self, k: Key) -> bool {
        match k {
            Key::Escape => self.key_escape,
            Key::Space => self.key_space,
            Key::Down => self.key_down,
            Key::Up => self.key_up,
            Key::Right => self.key_right,
            Key::Left => self.key_left,
            Key::Num1 => self.key_1,
            Key::Num2 => self.key_2,
            Key::Num3 => self.key_3,
        }
    }

    /// Fresh state: nothing held, nothing happening.
    pub fn new() -> (r: Events)
        ensures
            forall|k: Key| !r.held(k),
            forall|k: Key| r.now.edge(k) is None,
            !r.now.quit,
            r.now.resize is None,
    {
        Events {
            now: ImmediateEvents::new(),
            key_escape: false,
            key_space: false,
            key_down: false,
            key_up: false,
            key_right: false,
            key_left: false,
            key_1: false,
            key_2: false,
            key_3: false,
        }
    }

    /// Start a new frame: clear the edge snapshot, keep the hold state.
    pub fn begin_frame(&mut self)
        ensures
            forall|k: Key| final(self).held(k) == old(self).held(k),
            forall|k: Key| final(self).now.edge(k) is None,
            !final(self).now.quit,
            final(self).now.resize is None,
    {
        self.now = ImmediateEvents::new();
    }

    /// Record that `k` went down; a press edge only if it was not held.
    #[verifier::rlimit(50)]
    pub fn key_pressed(&mut self, k: Key)
        ensures
            forall|k2: Key| final(self).held(k2) == (k2 == k || old(self).held(k2)),
            forall|k2: Key|
                final(self).now.edge(k2) == if k2 == k && !old(self).held(k) {
                    Some(true)
                } else {
                    old(self).now.edge(k2)
                },
            final(self).now.quit == old(self).now.quit,
            final(self).now.resize == old(self).now.resize,
    {
        match k {
            Key::Escape => {
                if !self.key_escape {
                    self.now.key_escape = Some(true);
                }
                self.key_escape = true;
            },
            Key::Space => {
                if !self.key_space {
                    self.now.key_space = Some(true);
                }
                self.key_space = true;
            },
            Key::Down => {
                if !self.key_down {
                    self.now.key_down = Some(true);
                }
                self.key_down = true;
            },
            Key::Up => {
                if !self.key_up {
                    self.now.key_up = Some(true);
                }
                self.key_up = true;
            },
            Key::Right => {
                if !self.key_right {
                    self.now.key_right = Some(true);
                }
                self.key_right = true;
            },
            Key::Left => {
                if !self.key_left {
                    self.now.key_left = Some(true);
                }
                self.key_left = true;
            },
            Key::Num1 => {
                if !self.key_1 {
                    self.now.key_1 = Some(true);
                }
                self.key_1 = true;
            },
            Key::Num2 => {
                if !self.key_2 {
                    self.now.key_2 = Some(true);
                }
                self.key_2 = true;
            },
            Key::Num3 => {
                if !self.key_3 {
                    self.now.key_3 = Some(true);
                }
                self.key_3 = true;
            },
        }
    }

    /// Record that `k` went up: a release edge, and the key is no longer held.
    #[verifier::rlimit(50)]
    pub fn key_released(&mut self, k: Key)
        ensures
            forall|k2: Key| final(self).held(k2) == (k2 != k && old(self).held(k2)),
            forall|k2: Key|
                final(self).now.edge(k2) == if k2 == k {
                    Some(false)
                } else {
                    old(self).now.edge(k2)
                },
            final(self).now.quit == old(self).now.quit,
            final(self).now.resize == old(self).now.resize,
    {
        match k {
            Key::Escape => {
                self.now.key_escape = Some(false);
                self.key_escape = false;
            },
            Key::Space => {
                self.now.key_space = Some(false);
                self.key_space = false;
            },
            Key::Down => {
                self.now.key_down = Some(false);
                self.key_down = false;
            },
            Key::Up => {
                self.now.key_up = Some(false);
                self.key_up = false;
            },
            Key::Right => {
                self.now.key_right = Some(false);
                self.key_right = false;
            },
            Key::Left => {
                self.now.key_left = Some(false);
                self.key_left = false;
            },
            Key::Num1 => {
                self.now.key_1 = Some(false);
                self.key_1 = false;
            },
            Key::Num2 => {
                self.now.key_2 = Some(false);
                self.key_2 = false;
            },
            Key::Num3 => {
                self.now.key_3 = Some(false);
                self.key_3 = false;
            },
        }
    }

    /// Record the window-close request.
    pub fn quit_requested(&mut self)
        ensures
            forall|k2: Key| final(self).held(k2) == old(self).held(k2),
            forall|k2: Key| final(self).now.edge(k2) == old(self).now.edge(k2),
            final(self).now.quit,
            final(self).now.resize == old(self).now.resize,
    {
        self.now.quit = true;
    }

    /// Record a window resize to the given drawable size.
    pub fn resized(&mut self, w: u32, h: u32)
        ensures
            forall|k2: Key| final(self).held(k2) == old(self).held(k2),
            forall|k2: Key| final(self).now.edge(k2) == old(self).now.edge(k2),
            final(self).now.quit == old(self).now.quit,
            final(self).now.resize == Some((w, h)),
    {
        self.now.resize = Some((w, h));
    }
}

} // verus!
