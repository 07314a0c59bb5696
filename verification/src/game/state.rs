use vstd::prelude::*;
use crate::game::input::{KeyboardCommand, MouseCommand};
use crate::utils::{hover_size_fits, hover_size_spec, lemma_hover_round_trip, Size2D};

verus! {

/// A change the menu asks its UI objects to show.
#[derive(Clone, Copy, Debug, PartialEq, Eq, Structural)]
pub enum UIChange {
    /// The object became hovered (grow it and move it forward).
    Hovered(usize),
    /// The object stopped being hovered (undo the hover change).
    Unhovered(usize),
    /// The object was clicked (brighten its colour).
    Pressed(usize),
}

/// The main menu: the sizes of its UI objects and which one, if any, is hovered.
pub struct MenuState {
    ui_sizes: Vec<Size2D>,
    resting_sizes: Ghost<Seq<Size2D>>,
    hovered_index: Option<usize>,
}

/// The world: the sizes of its UI objects.
pub struct WorldState {
    ui_sizes: Vec<Size2D>,
}

/// The active screen of the game.
pub enum GameState {
    MenuState(MenuState),
    WorldState(WorldState),
}

/// What a state asks the program to do with the active state.
pub enum StateTransition {
    Stay,
    SwitchTo(GameState),
    Pop,
    Quit,
}

/// Sizes of the menu's UI objects when nothing is hovered.
pub open spec fn menu_initial_sizes() -> Seq<Size2D> {
    seq![
        Size2D { width: 200, height: 200 },
        Size2D { width: 200, height: 200 },
        Size2D { width: 200, height: 200 },
        Size2D { width: 200, height: 200 },
    ]
}

/// Sizes of the world's UI objects.
pub open spec fn world_initial_sizes() -> Seq<Size2D> {
    seq![Size2D { width: 400, height: 100 }]
}

/// Whether position `i` is the hovered one.
pub open spec fn hovered_at(hovered: Option<usize>, i: int) -> bool {
    hovered matches Some(h) && h as int == i
}

/// The size each object shows: its resting size, grown when it is the hovered one.
pub open spec fn shown_sizes(resting: Seq<Size2D>, hovered: Option<usize>) -> Seq<Size2D> {
    Seq::new(
        resting.len(),
        |i: int|
            if hovered_at(hovered, i) {
                hover_size_spec(resting[i], true)
            } else {
                resting[i]
            },
    )
}

/// The changes that move the hover from `before` to `after`.
pub open spec fn hover_changes(before: Option<usize>, after: Option<usize>) -> Seq<UIChange> {
    if before == after {
        Seq::empty()
    } else {
        let off = match before {
            Some(j) => seq![UIChange::Unhovered(j)],
            None => Seq::empty(),
        };
        let on = match after {
            Some(i) => seq![UIChange::Hovered(i)],
            None => Seq::empty(),
        };
        off + on
    }
}

/// The transition switches to a freshly created world.
pub open spec fn switches_to_new_world(transition: &StateTransition) -> bool {
    transition matches StateTransition::SwitchTo(GameState::WorldState(w)) && w.sizes() == world_initial_sizes()
}

/// The transition switches to a freshly created menu.
pub open spec fn switches_to_new_menu(transition: &StateTransition) -> bool {
    transition matches StateTransition::SwitchTo(GameState::MenuState(m)) && m.wf() && m.sizes()
        == menu_initial_sizes() && m.hovered() is None
}

/// What a mouse command does to the menu: hovering moves the hover (reporting the
/// changes), un-hovering clears it, pressing the first object asks for the world and
/// pressing another one reports the click; resting sizes never change.
pub open spec fn menu_command_effect(
    before: MenuState,
    after: MenuState,
    command: MouseCommand,
    result: (StateTransition, Vec<UIChange>),
) -> bool {
    &&& after.wf()
    &&& after.resting() == before.resting()
    &&& match command {
        MouseCommand::HoverUIObject(i) => {
            &&& after.hovered() == Some(i)
            &&& result.0 is Stay
            &&& result.1@ == hover_changes(before.hovered(), Some(i))
        },
        MouseCommand::UnhoverUIObject => {
            &&& after.hovered() is None
            &&& result.0 is Stay
            &&& result.1@ == hover_changes(before.hovered(), None)
        },
        MouseCommand::PressUIObject(i) => {
            &&& after.hovered() == before.hovered()
            &&& after.sizes() == before.sizes()
            &&& if i == 0 {
                &&& switches_to_new_world(&result.0)
                &&& result.1@ == Seq::<UIChange>::empty()
            } else {
                &&& result.0 is Stay
                &&& result.1@ == seq![UIChange::Pressed(i)]
            }
        },
        MouseCommand::Nothing => {
            &&& after.hovered() == before.hovered()
            &&& after.sizes() == before.sizes()
            &&& result.0 is Stay
            &&& result.1@ == Seq::<UIChange>::empty()
        },
    }
}

impl MenuState {
    /// The sizes the UI objects show.
    pub closed spec fn sizes(&self) -> Seq<Size2D> {
        self.ui_sizes@
    }

    /// The sizes the UI objects have when they are not hovered.
    pub closed spec fn resting(&self) -> Seq<Size2D> {
        self.resting_sizes@
    }

    /// The hovered object, if any.
    pub closed spec fn hovered(&self) -> Option<usize> {
        self.hovered_index
    }

    /// Every object shows its resting size, grown exactly when it is the hovered one.
    pub closed spec fn wf(&self) -> bool {
        &&& self.resting_sizes@.len() == self.ui_sizes@.len()
        &&& self.hovered_index matches Some(h) ==> h < self.ui_sizes@.len() && hover_size_fits(
            self.resting_sizes@[h as int],
            true,
        )
        &&& self.ui_sizes@ == shown_sizes(self.resting_sizes@, self.hovered_index)
    }

    proof fn lemma_wf_unfold(&self)
        requires
            self.wf(),
        ensures
            self.sizes() == shown_sizes(self.resting(), self.hovered()),
            self.sizes().len() == self.resting().len(),
    {
    }

    /// The menu with its four objects, nothing hovered.
    pub fn new() -> (menu: MenuState)
        ensures
            menu.wf(),
            menu.resting() == menu_initial_sizes(),
            menu.hovered() is None,
            menu.sizes() == menu_initial_sizes(),
    {
        let ui_sizes = vec![
            Size2D { width: 200, height: 200 },
            Size2D { width: 200, height: 200 },
            Size2D { width: 200, height: 200 },
            Size2D { width: 200, height: 200 },
        ];
        let menu = MenuState { resting_sizes: Ghost(ui_sizes@), ui_sizes, hovered_index: None };
        proof {
            assert(menu.ui_sizes@ =~= shown_sizes(menu.resting_sizes@, None));
            assert(menu.ui_sizes@ =~= menu_initial_sizes());
        }
        menu
    }

    /// Number of UI objects the renderer must hold.
    pub fn ui_capacity(&self) -> (n: usize)
        ensures
            n == self.sizes().len(),
    {
        self.ui_sizes.len()
    }

    /// The sizes the UI objects show.
    pub fn ui_sizes(&self) -> (sizes: &Vec<Size2D>)
        ensures
            sizes@ == self.sizes(),
    {
        &self.ui_sizes
    }

    /// The hovered object, if any.
    pub fn hovered_index(&self) -> (hovered: Option<usize>)
        ensures
            hovered == self.hovered(),
    {
        self.hovered_index
    }

    /// Whether a mouse command can be applied: the indices it names must exist, and a
    /// newly hovered object must be able to grow within `u32`.
    pub open spec fn accepts(&self, command: MouseCommand) -> bool {
        match command {
            MouseCommand::HoverUIObject(i) => i < self.sizes().len() && hover_size_fits(
                self.resting()[i as int],
                true,
            ),
            MouseCommand::PressUIObject(i) => i == 0 || i < self.sizes().len(),
            _ => true,
        }
    }

    fn set_hover(&mut self, index: usize, is_hovered: bool)
        requires
            index < old(self).ui_sizes@.len(),
            old(self).resting_sizes@.len() == old(self).ui_sizes@.len(),
            hover_size_fits(old(self).ui_sizes@[index as int], is_hovered),
        ensures
            final(self).ui_sizes@ == old(self).ui_sizes@.update(
                index as int,
                hover_size_spec(old(self).ui_sizes@[index as int], is_hovered),
            ),
            final(self).resting_sizes == old(self).resting_sizes,
            final(self).hovered_index == old(self).hovered_index,
    {
        let resized = self.ui_sizes[index].hover(is_hovered);
        self.ui_sizes.set(index, resized);
    }

    fn unhover_current(&mut self, changes: &mut Vec<UIChange>)
        requires
            old(self).wf(),
        ensures
            final(self).wf(),
            final(self).hovered_index is None,
            final(self).resting_sizes == old(self).resting_sizes,
            final(changes)@ == old(changes)@ + hover_changes(old(self).hovered_index, None),
    {
        if let Some(h) = self.hovered_index {
            proof {
                assert(self.ui_sizes@[h as int] == hover_size_spec(self.resting_sizes@[h as int], true));
                lemma_hover_round_trip(self.resting_sizes@[h as int]);
            }
            self.set_hover(h, false);
            self.hovered_index = None;
            changes.push(UIChange::Unhovered(h));
            proof {
                assert forall|k: int| 0 <= k < self.ui_sizes@.len() implies self.ui_sizes@[k]
                    == shown_sizes(self.resting_sizes@, None)[k] by {
                    if k != h as int {
                        assert(old(self).ui_sizes@[k] == shown_sizes(self.resting_sizes@, Some(h))[k]);
                    }
                }
                assert(self.ui_sizes@ =~= shown_sizes(self.resting_sizes@, None));
                assert(hover_changes(Some(h), None) =~= seq![UIChange::Unhovered(h)]);
            }
        } else {
            proof {
                assert(hover_changes(None, None) =~= Seq::<UIChange>::empty());
                assert(changes@ + Seq::<UIChange>::empty() =~= changes@);
            }
        }
    }

    /// Applies a mouse command: moves the hover, or reports a click. Clicking the
    /// first object asks for the world; clicking another one asks to brighten it.
    pub fn handle_mouse_command(&mut self, command: &MouseCommand) -> (result: (StateTransition, Vec<UIChange>))
        requires
            old(self).wf(),
            old(self).accepts(*command),
        ensures
            menu_command_effect(*old(self), *final(self), *command, result),
            final(self).wf(),
            final(self).resting() == old(self).resting(),
            match *command {
                MouseCommand::PressUIObject(i) => if i != 0 {
                    &&& result.0 is Stay
                    &&& result.1@ == seq![UIChange::Pressed(i)]
                    &&& final(self).hovered() == old(self).hovered()
                    &&& final(self).sizes() == old(self).sizes()
                } else {
                    &&& result.0 is SwitchTo
                    &&& result.1@.len() == 0
                    &&& final(self).hovered() == old(self).hovered()
                    &&& final(self).sizes() == old(self).sizes()
                },
                MouseCommand::HoverUIObject(i) => result.0 is Stay && final(self).hovered() == Some(i),
                MouseCommand::UnhoverUIObject => result.0 is Stay && final(self).hovered() is None,
                MouseCommand::Nothing => {
                    &&& result.0 is Stay
                    &&& result.1@.len() == 0
                    &&& final(self).hovered() == old(self).hovered()
                    &&& final(self).sizes() == old(self).sizes()
                },
            },
    {
        let mut changes: Vec<UIChange> = Vec::new();
        match command {
            MouseCommand::HoverUIObject(index) => {
                let index = *index;
                if let Some(h) = self.hovered_index {
                    if h == index {
                        proof {
                            assert(changes@ =~= hover_changes(Some(h), Some(index)));
                        }
                        return (StateTransition::Stay, changes);
                    }
                }
                let ghost before = self.hovered_index;
                self.unhover_current(&mut changes);
                proof {
                    assert(self.ui_sizes@[index as int] == self.resting_sizes@[index as int]);
                }
                self.set_hover(index, true);
                self.hovered_index = Some(index);
                changes.push(UIChange::Hovered(index));
                proof {
                    assert(self.ui_sizes@ =~= shown_sizes(self.resting_sizes@, Some(index)));
                    assert(changes@ =~= hover_changes(before, Some(index)));
                }
                (StateTransition::Stay, changes)
            },
            MouseCommand::UnhoverUIObject => {
                proof {
                    assert(changes@ =~= Seq::<UIChange>::empty());
                }
                self.unhover_current(&mut changes);
                proof {
                    assert(changes@ =~= hover_changes(old(self).hovered_index, None));
                }
                (StateTransition::Stay, changes)
            },
            MouseCommand::PressUIObject(index) => {
                if *index == 0 {
                    (StateTransition::SwitchTo(GameState::WorldState(WorldState::new())), changes)
                } else {
                    changes.push(UIChange::Pressed(*index));
                    (StateTransition::Stay, changes)
                }
            },
            MouseCommand::Nothing => (StateTransition::Stay, changes),
        }
    }

    /// Applies a keyboard command: Enter asks for the world.
    pub fn handle_keyboard_command(&mut self, command: &KeyboardCommand) -> (transition: StateTransition)
        ensures
            *final(self) == *old(self),
            *command == KeyboardCommand::SwitchToWorld ==> switches_to_new_world(&transition),
            *command != KeyboardCommand::SwitchToWorld ==> transition is Stay,
    {
        match command {
            KeyboardCommand::SwitchToWorld => StateTransition::SwitchTo(GameState::WorldState(WorldState::new())),
            _ => StateTransition::Stay,
        }
    }
}

impl WorldState {
    /// The sizes of the world's UI objects.
    pub closed spec fn sizes(&self) -> Seq<Size2D> {
        self.ui_sizes@
    }

    /// The world with its single status panel.
    pub fn new() -> (world: WorldState)
        ensures
            world.sizes() == world_initial_sizes(),
    {
        let world = WorldState { ui_sizes: vec![Size2D { width: 400, height: 100 }] };
        proof {
            assert(world.ui_sizes@ =~= world_initial_sizes());
        }
        world
    }

    /// Number of UI objects the renderer must hold.
    pub fn ui_capacity(&self) -> (n: usize)
        ensures
            n == self.sizes().len(),
    {
        self.ui_sizes.len()
    }

    /// The sizes of the world's UI objects.
    pub fn ui_sizes(&self) -> (sizes: &Vec<Size2D>)
        ensures
            sizes@ == self.sizes(),
    {
        &self.ui_sizes
    }

    /// Applies a keyboard command: Escape asks for the menu.
    pub fn handle_keyboard_command(&mut self, command: &KeyboardCommand) -> (transition: StateTransition)
        ensures
            *final(self) == *old(self),
            *command == KeyboardCommand::SwitchToMenu ==> switches_to_new_menu(&transition),
            *command != KeyboardCommand::SwitchToMenu ==> transition is Stay,
    {
        match command {
            KeyboardCommand::SwitchToMenu => StateTransition::SwitchTo(GameState::MenuState(MenuState::new())),
            _ => StateTransition::Stay,
        }
    }
}

impl GameState {
    /// Internal consistency of the active state.
    pub open spec fn wf(&self) -> bool {
        match self {
            GameState::MenuState(m) => m.wf(),
            GameState::WorldState(_) => true,
        }
    }

    /// The game starts in the menu.
    pub fn new() -> (state: GameState)
        ensures
            state.wf(),
            state matches GameState::MenuState(m) && m.sizes() == menu_initial_sizes() && m.hovered() is None,
    {
        GameState::MenuState(MenuState::new())
    }

    /// Number of UI objects of the active state.
    pub fn ui_capacity(&self) -> (n: usize)
        ensures
            n == match self {
                GameState::MenuState(m) => m.sizes().len(),
                GameState::WorldState(w) => w.sizes().len(),
            },
    {
        match self {
            GameState::MenuState(m) => m.ui_capacity(),
            GameState::WorldState(w) => w.ui_capacity(),
        }
    }

    /// Whether the state hides and confines the cursor (the world does, the menu does not).
    pub fn captures_cursor(&self) -> (b: bool)
        ensures
            b == (self is WorldState),
    {
        match self {
            GameState::MenuState(_) => false,
            GameState::WorldState(_) => true,
        }
    }

    /// Dispatches a keyboard command to the active state.
    pub fn handle_keyboard_command(&mut self, command: &KeyboardCommand) -> (transition: StateTransition)
        ensures
            *final(self) == *old(self),
            match *old(self) {
                GameState::MenuState(_) => if *command == KeyboardCommand::SwitchToWorld {
                    switches_to_new_world(&transition)
                } else {
                    transition is Stay
                },
                GameState::WorldState(_) => if *command == KeyboardCommand::SwitchToMenu {
                    switches_to_new_menu(&transition)
                } else {
                    transition is Stay
                },
            },
    {
        match self {
            GameState::MenuState(m) => m.handle_keyboard_command(command),
            GameState::WorldState(w) => w.handle_keyboard_command(command),
        }
    }

    /// Dispatches a mouse command: the menu handles it, the world ignores it.
    pub fn handle_mouse_command(&mut self, command: &MouseCommand) -> (result: (StateTransition, Vec<UIChange>))
        requires
            old(self).wf(),
            *old(self) matches GameState::MenuState(m) ==> m.accepts(*command),
        ensures
            final(self).wf(),
            *old(self) is WorldState ==> *final(self) == *old(self) && result.0 is Stay && result.1@
                == Seq::<UIChange>::empty(),
            *old(self) matches GameState::MenuState(m) ==> *final(self) matches GameState::MenuState(n)
                && menu_command_effect(m, n, *command, result),
    {
        match self {
            GameState::MenuState(m) => m.handle_mouse_command(command),
            GameState::WorldState(_) => (StateTransition::Stay, Vec::new()),
        }
    }
}

/// The set of objects showing the hover change after replaying `changes` on top of
/// the objects in `grown`.
pub open spec fn grown_after(grown: Set<usize>, changes: Seq<UIChange>) -> Set<usize>
    decreases changes.len(),
{
    if changes.len() == 0 {
        grown
    } else {
        let next = match changes[0] {
            UIChange::Hovered(i) => grown.insert(i),
            UIChange::Unhovered(i) => grown.remove(i),
            UIChange::Pressed(_) => grown,
        };
        grown_after(next, changes.drop_first())
    }
}

/// The objects showing the hover change when `hovered` is the hovered object.
pub open spec fn hover_set(hovered: Option<usize>) -> Set<usize> {
    match hovered {
        Some(h) => set![h],
        None => Set::empty(),
    }
}

/// Replaying the reported hover changes on the objects that showed the old hover
/// makes exactly the newly hovered object show it: a renderer that applies every
/// reported change never shows two hovered objects, nor a stale one.
pub proof fn lemma_hover_changes_replay(before: Option<usize>, after: Option<usize>)
    ensures
        grown_after(hover_set(before), hover_changes(before, after)) == hover_set(after),
{
    reveal_with_fuel(grown_after, 3);
    let changes = hover_changes(before, after);
    if before == after {
    } else {
        match before {
            Some(j) => {
                match after {
                    Some(i) => {
                        assert(changes =~= seq![UIChange::Unhovered(j), UIChange::Hovered(i)]);
                        assert(changes.drop_first() =~= seq![UIChange::Hovered(i)]);
                        assert(changes.drop_first().drop_first() =~= Seq::<UIChange>::empty());
                        assert(set![j].remove(j).insert(i) =~= set![i]);
                    },
                    None => {
                        assert(changes =~= seq![UIChange::Unhovered(j)]);
                        assert(changes.drop_first() =~= Seq::<UIChange>::empty());
                        assert(set![j].remove(j) =~= Set::<usize>::empty());
                    },
                }
            },
            None => {
                match after {
                    Some(i) => {
                        assert(changes =~= seq![UIChange::Hovered(i)]);
                        assert(changes.drop_first() =~= Seq::<UIChange>::empty());
                        assert(Set::<usize>::empty().insert(i) =~= set![i]);
                    },
                    None => {},
                }
            },
        }
    }
}

/// In a well-formed menu every object shows its resting size, grown exactly when it
/// is the hovered object; in particular, with nothing hovered every object is back
/// at its resting size.
pub proof fn lemma_menu_shows_hover(menu: &MenuState)
    requires
        menu.wf(),
    ensures
        menu.sizes().len() == menu.resting().len(),
        forall|i: int|
            0 <= i < menu.sizes().len() ==> #[trigger] menu.sizes()[i] == if hovered_at(menu.hovered(), i) {
                hover_size_spec(menu.resting()[i], true)
            } else {
                menu.resting()[i]
            },
        menu.hovered() is None ==> menu.sizes() == menu.resting(),
{
    menu.lemma_wf_unfold();
    if menu.hovered() is None {
        assert(menu.sizes() =~= menu.resting());
    }
}

/// Only the first menu object opens the world: pressing any other object keeps the
/// menu, leaves the hover and the sizes as they are, and reports exactly that object
/// as pressed. Pressing the first one reports no change and switches to a new world.
pub proof fn lemma_press_only_first_opens_world(
    before: MenuState,
    after: MenuState,
    i: usize,
    result: (StateTransition, Vec<UIChange>),
)
    requires
        menu_command_effect(before, after, MouseCommand::PressUIObject(i), result),
    ensures
        i != 0 ==> result.0 is Stay && result.1@ == seq![UIChange::Pressed(i)],
        i == 0 ==> result.0 is SwitchTo && result.1@.len() == 0,
        result.0 is SwitchTo <==> i == 0,
        after.hovered() == before.hovered(),
        after.sizes() == before.sizes(),
{
}

} // verus!
