use vstd::prelude::*;

verus! {

/// Physical keys the game distinguishes; every other key is `Other`.
#[derive(Clone, Copy, Debug, PartialEq, Eq, Structural)]
pub enum KeyCode {
    Escape,
    Enter,
    F11,
    KeyW,
    KeyS,
    KeyA,
    KeyD,
    Space,
    ShiftLeft,
    Other,
}

/// Logical game keys bound in the key map.
#[derive(Clone, Copy, Debug, PartialEq, Eq, Structural)]
pub enum Keys {
    Forward,
    Backward,
    Left,
    Right,
    Escape,
    Enter,
}

/// A keyboard event: which key, whether it went down, and whether it is an
/// auto-repeat of a held key.
#[derive(Clone, Copy, Debug, PartialEq, Eq, Structural)]
pub struct KeyEvent {
    pub key: KeyCode,
    pub pressed: bool,
    pub repeat: bool,
}

/// What a key event asks the game to do.
#[derive(Clone, Copy, Debug, PartialEq, Eq, Structural)]
pub enum KeyboardCommand {
    Nothing,
    ToggleFullscreen,
    SwitchToMenu,
    SwitchToWorld,
}

/// What a mouse event asks the menu to do.
#[derive(Clone, Copy, Debug, PartialEq, Eq, Structural)]
pub enum MouseCommand {
    Nothing,
    HoverUIObject(usize),
    UnhoverUIObject,
    PressUIObject(usize),
}

/// The kind of a window mouse event, as far as the menu cares.
#[derive(Clone, Copy, Debug, PartialEq, Eq, Structural)]
pub enum MouseEventKind {
    CursorMoved,
    CursorLeft,
    ButtonPressed,
    Other,
}

/// The command a key event yields.
pub open spec fn command_for(event: KeyEvent) -> KeyboardCommand {
    if event.pressed && event.key == KeyCode::Escape {
        KeyboardCommand::SwitchToMenu
    } else if event.pressed && event.key == KeyCode::Enter {
        KeyboardCommand::SwitchToWorld
    } else if event.pressed && event.key == KeyCode::F11 {
        KeyboardCommand::ToggleFullscreen
    } else {
        KeyboardCommand::Nothing
    }
}

/// Movement keys, the only keys whose held state is tracked.
pub open spec fn is_movement_key(key: KeyCode) -> bool {
    key == KeyCode::KeyW || key == KeyCode::KeyS || key == KeyCode::KeyA || key == KeyCode::KeyD
        || key == KeyCode::Space || key == KeyCode::ShiftLeft
}

/// Whether an event updates the held-key set: forward and backward keys on every
/// event, the other movement keys only on events that are not auto-repeats.
pub open spec fn updates_held_keys(event: KeyEvent) -> bool {
    ||| event.key == KeyCode::KeyW
    ||| event.key == KeyCode::KeyS
    ||| (!event.repeat && (event.key == KeyCode::KeyA || event.key == KeyCode::KeyD || event.key
        == KeyCode::Space || event.key == KeyCode::ShiftLeft))
}

/// The held-key set after `event`.
pub open spec fn held_after(held: Set<KeyCode>, event: KeyEvent) -> Set<KeyCode> {
    if updates_held_keys(event) && command_for(event) == KeyboardCommand::Nothing {
        if event.pressed {
            held.insert(event.key)
        } else {
            held.remove(event.key)
        }
    } else {
        held
    }
}

/// Tracks which movement keys are held and turns key events into commands.
pub struct KeyboardHandler {
    keys_pressed: Vec<KeyCode>,
    pub key_map: Vec<(KeyCode, Keys)>,
}

/// The default bindings of physical keys to game keys.
pub open spec fn default_key_map() -> Seq<(KeyCode, Keys)> {
    seq![
        (KeyCode::Escape, Keys::Escape),
        (KeyCode::Enter, Keys::Enter),
        (KeyCode::KeyW, Keys::Forward),
        (KeyCode::KeyS, Keys::Backward),
        (KeyCode::KeyA, Keys::Left),
        (KeyCode::KeyD, Keys::Right),
    ]
}

impl KeyboardHandler {
    /// The set of held movement keys.
    pub closed spec fn held(&self) -> Set<KeyCode> {
        self.keys_pressed@.to_set()
    }

    /// The key bindings.
    pub closed spec fn bindings(&self) -> Seq<(KeyCode, Keys)> {
        self.key_map@
    }

    /// Internal consistency: each held key is recorded once and is a movement key.
    pub closed spec fn wf(&self) -> bool {
        &&& self.keys_pressed@.no_duplicates()
        &&& forall|i: int| 0 <= i < self.keys_pressed@.len() ==> is_movement_key(#[trigger] self.keys_pressed@[i])
    }

    /// No key held, default bindings.
    pub fn new() -> (handler: KeyboardHandler)
        ensures
            handler.wf(),
            handler.held() == Set::<KeyCode>::empty(),
            handler.bindings() == default_key_map(),
    {
        let key_map = vec![
            (KeyCode::Escape, Keys::Escape),
            (KeyCode::Enter, Keys::Enter),
            (KeyCode::KeyW, Keys::Forward),
            (KeyCode::KeyS, Keys::Backward),
            (KeyCode::KeyA, Keys::Left),
            (KeyCode::KeyD, Keys::Right),
        ];
        let keys_pressed: Vec<KeyCode> = Vec::new();
        proof {
            assert(keys_pressed@.to_set() =~= Set::<KeyCode>::empty());
        }
        KeyboardHandler { keys_pressed, key_map }
    }

    /// Records a key event: updates the held movement keys and returns the command
    /// the event triggers.
    pub fn register_key(&mut self, event: &KeyEvent) -> (command: KeyboardCommand)
        requires
            old(self).wf(),
        ensures
            final(self).wf(),
            command == command_for(*event),
            !event.pressed ==> command == KeyboardCommand::Nothing,
            command == KeyboardCommand::ToggleFullscreen <==> (event.pressed && event.key == KeyCode::F11),
            command == KeyboardCommand::SwitchToMenu <==> (event.pressed && event.key == KeyCode::Escape),
            command == KeyboardCommand::SwitchToWorld <==> (event.pressed && event.key == KeyCode::Enter),
            final(self).held() == held_after(old(self).held(), *event),
            final(self).bindings() == old(self).bindings(),
    {
        if event.pressed {
            match event.key {
                KeyCode::Escape => return KeyboardCommand::SwitchToMenu,
                KeyCode::Enter => return KeyboardCommand::SwitchToWorld,
                KeyCode::F11 => return KeyboardCommand::ToggleFullscreen,
                _ => {},
            }
        }
        let tracked_key = match event.key {
            KeyCode::KeyW | KeyCode::KeyS => true,
            KeyCode::KeyA | KeyCode::KeyD | KeyCode::Space | KeyCode::ShiftLeft => !event.repeat,
            _ => false,
        };
        if tracked_key {
            if event.pressed {
                self.insert_key(event.key);
            } else {
                self.remove_key(event.key);
            }
        }
        KeyboardCommand::Nothing
    }

    /// The held movement keys, each once.
    pub fn keys_pressed(&self) -> (keys: &Vec<KeyCode>)
        ensures
            keys@.to_set() == self.held(),
            self.wf() ==> keys@.no_duplicates(),
    {
        &self.keys_pressed
    }

    /// Whether no movement key is held.
    pub fn no_key_held(&self) -> (none: bool)
        ensures
            none == (self.held() == Set::<KeyCode>::empty()),
    {
        let none = self.keys_pressed.len() == 0;
        proof {
            if !none {
                assert(self.keys_pressed@.to_set().contains(self.keys_pressed@[0]));
            } else {
                assert(self.keys_pressed@.to_set() =~= Set::<KeyCode>::empty());
            }
        }
        none
    }

    proof fn lemma_held_are_movement(&self, k: KeyCode)
        requires
            self.wf(),
            self.held().contains(k),
        ensures
            is_movement_key(k),
    {
        let i = choose|i: int| 0 <= i < self.keys_pressed@.len() && self.keys_pressed@[i] == k;
        assert(is_movement_key(self.keys_pressed@[i]));
    }

    fn position_of(&self, key: KeyCode) -> (pos: Option<usize>)
        ensures
            pos matches Some(i) ==> i < self.keys_pressed@.len() && self.keys_pressed@[i as int] == key,
            pos is None ==> !self.keys_pressed@.contains(key),
    {
        let mut i: usize = 0;
        while i < self.keys_pressed.len()
            invariant
                i <= self.keys_pressed@.len(),
                forall|k: int| 0 <= k < i ==> self.keys_pressed@[k] != key,
            decreases self.keys_pressed@.len() - i,
        {
            if self.keys_pressed[i] == key {
                return Some(i);
            }
            i = i + 1;
        }
        None
    }

    fn insert_key(&mut self, key: KeyCode)
        requires
            old(self).wf(),
            is_movement_key(key),
        ensures
            final(self).wf(),
            final(self).held() == old(self).held().insert(key),
            final(self).bindings() == old(self).bindings(),
    {
        if self.position_of(key).is_none() {
            let ghost before = self.keys_pressed@;
            self.keys_pressed.push(key);
            proof {
                assert(self.keys_pressed@ == before.push(key));
                before.lemma_push_to_set_commute(key);
                assert forall|a: int, b: int|
                    0 <= a < self.keys_pressed@.len() && 0 <= b < self.keys_pressed@.len() && a != b
                    implies self.keys_pressed@[a] != self.keys_pressed@[b] by {
                    if a == before.len() as int {
                        assert(self.keys_pressed@[b] == before[b]);
                    } else if b == before.len() as int {
                        assert(self.keys_pressed@[a] == before[a]);
                    }
                }
            }
        } else {
            proof {
                assert(self.keys_pressed@.to_set().contains(key));
                assert(self.keys_pressed@.to_set().insert(key) =~= self.keys_pressed@.to_set());
            }
        }
    }

    fn remove_key(&mut self, key: KeyCode)
        requires
            old(self).wf(),
        ensures
            final(self).wf(),
            final(self).held() == old(self).held().remove(key),
            final(self).bindings() == old(self).bindings(),
    {
        match self.position_of(key) {
            Some(i) => {
                let ghost before = self.keys_pressed@;
                self.keys_pressed.remove(i);
                proof {
                    assert(self.keys_pressed@ == before.remove(i as int));
                    assert forall|x: KeyCode| self.keys_pressed@.to_set().contains(x)
                        <==> before.to_set().remove(key).contains(x) by {
                        if self.keys_pressed@.contains(x) {
                            let j = choose|j: int| 0 <= j < self.keys_pressed@.len() && self.keys_pressed@[j] == x;
                            if j < i {
                                assert(before[j] == x);
                            } else {
                                assert(before[j + 1] == x);
                            }
                            assert(before.contains(x));
                        }
                        if before.contains(x) && x != key {
                            let j = choose|j: int| 0 <= j < before.len() && before[j] == x;
                            if j < i {
                                assert(self.keys_pressed@[j] == x);
                            } else {
                                assert(j != i);
                                assert(self.keys_pressed@[j - 1] == x);
                            }
                        }
                    }
                    assert(self.keys_pressed@.to_set() =~= before.to_set().remove(key));
                }
            },
            None => {
                proof {
                    assert(self.keys_pressed@.to_set().remove(key) =~= self.keys_pressed@.to_set());
                }
            },
        }
    }
}

/// `i` is the first position whose hit test succeeded.
pub open spec fn is_first_hit(hits: Seq<bool>, i: int) -> bool {
    &&& 0 <= i < hits.len()
    &&& hits[i]
    &&& forall|j: int| 0 <= j < i ==> !hits[j]
}

/// No hit test succeeded.
pub open spec fn no_hit(hits: Seq<bool>) -> bool {
    forall|j: int| 0 <= j < hits.len() ==> !hits[j]
}

fn first_hit(hits: &[bool]) -> (found: Option<usize>)
    ensures
        found matches Some(i) ==> is_first_hit(hits@, i as int),
        found is None ==> no_hit(hits@),
{
    let mut i: usize = 0;
    while i < hits.len()
        invariant
            i <= hits@.len(),
            forall|j: int| 0 <= j < i ==> !hits@[j],
        decreases hits@.len() - i,
    {
        if hits[i] {
            return Some(i);
        }
        i = i + 1;
    }
    None
}

/// The command a mouse event gives in the menu. `hits[i]` tells whether the cursor
/// position of the event (for a button press: the last known cursor position) lies
/// inside the `i`-th UI object; `has_position` tells whether a cursor position is known.
pub fn menu_mouse_command(kind: MouseEventKind, hits: &[bool], has_position: bool) -> (command: MouseCommand)
    ensures
        kind == MouseEventKind::CursorMoved ==> match command {
            MouseCommand::HoverUIObject(i) => is_first_hit(hits@, i as int),
            MouseCommand::UnhoverUIObject => no_hit(hits@),
            _ => false,
        },
        kind == MouseEventKind::CursorLeft ==> command == MouseCommand::UnhoverUIObject,
        kind == MouseEventKind::ButtonPressed ==> match command {
            MouseCommand::PressUIObject(i) => has_position && is_first_hit(hits@, i as int),
            MouseCommand::Nothing => !has_position || no_hit(hits@),
            _ => false,
        },
        kind == MouseEventKind::Other ==> command == MouseCommand::Nothing,
{
    match kind {
        MouseEventKind::CursorMoved => match first_hit(hits) {
            Some(i) => MouseCommand::HoverUIObject(i),
            None => MouseCommand::UnhoverUIObject,
        },
        MouseEventKind::CursorLeft => MouseCommand::UnhoverUIObject,
        MouseEventKind::ButtonPressed => {
            if has_position {
                match first_hit(hits) {
                    Some(i) => MouseCommand::PressUIObject(i),
                    None => MouseCommand::Nothing,
                }
            } else {
                MouseCommand::Nothing
            }
        },
        MouseEventKind::Other => MouseCommand::Nothing,
    }
}

/// Pressing a movement key and releasing it again leaves the held set as it was,
/// without that key.
pub proof fn lemma_press_then_release(held: Set<KeyCode>, key: KeyCode)
    requires
        is_movement_key(key),
    ensures
        held_after(
            held_after(held, KeyEvent { key, pressed: true, repeat: false }),
            KeyEvent { key, pressed: false, repeat: false },
        ) == held.remove(key),
        held_after(held, KeyEvent { key, pressed: true, repeat: false }).contains(key),
{
    assert(held.insert(key).remove(key) =~= held.remove(key));
}

/// Keys other than the movement keys never change the held set, and the held set of a
/// well-formed handler only ever holds movement keys.
pub proof fn lemma_only_movement_keys_held(handler: &KeyboardHandler, held: Set<KeyCode>, event: KeyEvent)
    requires
        handler.wf(),
        !is_movement_key(event.key),
    ensures
        held_after(held, event) == held,
        forall|k: KeyCode| handler.held().contains(k) ==> is_movement_key(k),
{
    assert forall|k: KeyCode| handler.held().contains(k) implies is_movement_key(k) by {
        handler.lemma_held_are_movement(k);
    }
}

/// Only presses give commands: a released key never does. Escape, Enter and F11
/// pressed give the menu, the world and the fullscreen toggle respectively, and no
/// other key gives any command.
pub proof fn lemma_commands_only_on_press(event: KeyEvent)
    ensures
        !event.pressed ==> command_for(event) == KeyboardCommand::Nothing,
        command_for(event) == KeyboardCommand::ToggleFullscreen <==> (event.pressed && event.key
            == KeyCode::F11),
        command_for(event) == KeyboardCommand::SwitchToMenu <==> (event.pressed && event.key
            == KeyCode::Escape),
        command_for(event) == KeyboardCommand::SwitchToWorld <==> (event.pressed && event.key
            == KeyCode::Enter),
        (event.key != KeyCode::Escape && event.key != KeyCode::Enter && event.key != KeyCode::F11)
            ==> command_for(event) == KeyboardCommand::Nothing,
{
}

} // verus!
