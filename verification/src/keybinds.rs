//! Key bindings: which physical inputs stand for which action.
//!
//! Several devices map to one set of actions. The controller only ever asks
//! for an action; it never looks at a device.

use vstd::prelude::*;

verus! {

/// What a player can ask the game to do.
#[derive(Clone, Copy, Debug, PartialEq, Eq, Structural, Hash)]
pub enum PlayerAction {
    /// Move the player.
    Move,
    /// Look around.
    Look,
    /// Make the player run.
    Run,
    /// Make the player jump.
    Jump,
    /// Make the player crouch.
    Crouch,
    /// The primary action.
    Primary,
    /// The secondary action.
    Secondary,
    /// Open the score board.
    ScoreBoard,
    /// A melee attack.
    Melee,
    /// Reload the weapon.
    Reload,
    /// Interact with the world.
    Interact,
}

/// A key of the keyboard.
#[derive(Clone, Copy, Debug, PartialEq, Eq, Structural, Hash)]
pub enum KeyCode {
    ShiftLeft,
    Space,
    ControlLeft,
    Tab,
    KeyV,
    KeyR,
    KeyF,
}

/// A button of the mouse.
#[derive(Clone, Copy, Debug, PartialEq, Eq, Structural, Hash)]
pub enum MouseButton {
    Left,
    Right,
}

/// A button of a gamepad.
#[derive(Clone, Copy, Debug, PartialEq, Eq, Structural, Hash)]
pub enum GamepadButtonType {
    South,
    East,
    North,
    West,
    LeftTrigger,
    RightTrigger,
    Select,
    LeftThumb,
    RightThumb,
}

/// A physical input that can stand for an action.
#[derive(Clone, Copy, Debug, PartialEq, Eq, Structural, Hash)]
pub enum UserInput {
    /// The keys W, A, S and D as four directions.
    Wasd,
    /// The motion of the mouse.
    MouseMotion,
    /// The left stick of a gamepad.
    LeftStick,
    /// The right stick of a gamepad.
    RightStick,
    /// A key.
    Key(KeyCode),
    /// A mouse button.
    Mouse(MouseButton),
    /// A gamepad button.
    Gamepad(GamepadButtonType),
}

/// The number of actions.
pub const ACTION_COUNT: usize = 11;

/// `inputs` with `input` added at the end, unless it is there already.
pub open spec fn spec_inserted(inputs: Seq<UserInput>, input: UserInput) -> Seq<UserInput> {
    if inputs.contains(input) {
        inputs
    } else {
        inputs.push(input)
    }
}

/// The inputs bound to each action, in the order in which they were bound.
/// No input is bound to one action twice.
pub struct InputMap {
    slots: Vec<Vec<UserInput>>,
}

impl View for InputMap {
    type V = Map<PlayerAction, Seq<UserInput>>;

    /// For every action, the inputs bound to it.
    open spec fn view(&self) -> Map<PlayerAction, Seq<UserInput>> {
        Map::total(|action: PlayerAction| self.spec_get(action))
    }
}

impl InputMap {
    #[verifier::type_invariant]
    spec fn well_formed(self) -> bool {
        &&& self.slots@.len() == ACTION_COUNT
        &&& forall|i: int| 0 <= i < self.slots@.len() ==> (#[trigger] self.slots@[i])@.no_duplicates()
    }

    /// The inputs bound to `action`.
    pub closed spec fn spec_get(self, action: PlayerAction) -> Seq<UserInput> {
        self.slots@[action.spec_index()]@
    }

    /// A map that binds nothing.
    pub fn new() -> (map: InputMap)
        ensures
            forall|action: PlayerAction| (#[trigger] map@[action]).len() == 0,
    {
        let mut slots: Vec<Vec<UserInput>> = Vec::new();
        while slots.len() < ACTION_COUNT
            invariant
                slots@.len() <= ACTION_COUNT,
                forall|i: int| 0 <= i < slots@.len() ==> (#[trigger] slots@[i])@.len() == 0,
            decreases ACTION_COUNT - slots@.len(),
        {
            slots.push(Vec::new());
        }
        InputMap { slots }
    }

    /// The inputs bound to `action`, in the order in which they were bound.
    pub fn get(&self, action: PlayerAction) -> (inputs: &Vec<UserInput>)
        ensures
            inputs@ == self@[action],
            inputs@.no_duplicates(),
    {
        proof {
            use_type_invariant(self);
        }
        &self.slots[action.index()]
    }

    /// Binds `input` to `action`, after the inputs that `action` already has.
    /// An input that is bound to `action` already is not bound again.
    pub fn insert(&mut self, action: PlayerAction, input: UserInput)
        ensures
            final(self)@[action] == spec_inserted(old(self)@[action], input),
            forall|other: PlayerAction|
                other != action ==> #[trigger] final(self)@[other] == old(self)@[other],
    {
        proof {
            use_type_invariant(&*self);
        }
        let slot = action.index();
        let mut found = false;
        let mut j: usize = 0;
        while j < self.slots[slot].len()
            invariant
                self.slots == old(self).slots,
                0 <= slot < self.slots@.len(),
                0 <= j <= self.slots@[slot as int]@.len(),
                found ==> self.slots@[slot as int]@.contains(input),
                !found ==> forall|k: int| 0 <= k < j ==> self.slots@[slot as int]@[k] != input,
            decreases self.slots@[slot as int]@.len() - j,
        {
            if self.slots[slot][j] == input {
                found = true;
            }
            j = j + 1;
        }
        if !found {
            let ghost before = self.slots@;
            let mut extended: Vec<UserInput> = Vec::new();
            let mut k: usize = 0;
            while k < self.slots[slot].len()
                invariant
                    self.slots@ == before,
                    0 <= slot < before.len(),
                    0 <= k <= before[slot as int]@.len(),
                    extended@ == before[slot as int]@.take(k as int),
                decreases before[slot as int]@.len() - k,
            {
                extended.push(self.slots[slot][k]);
                assert(before[slot as int]@.take(k + 1) =~= before[slot as int]@.take(k as int).push(
                    before[slot as int]@[k as int],
                ));
                k = k + 1;
            }
            assert(before[slot as int]@.take(k as int) =~= before[slot as int]@);
            extended.push(input);
            proof {
                assert(extended@ == before[slot as int]@.push(input));
                assert(extended@.no_duplicates());
                assert forall|i: int| 0 <= i < before.len() implies (#[trigger] before.update(
                    slot as int,
                    extended,
                )[i])@.no_duplicates() by {
                    if i != slot {
                        assert(before.update(slot as int, extended)[i] == before[i]);
                    }
                }
            }
            put_slot(&mut self.slots, slot, extended);
            proof {
                assert forall|other: PlayerAction| other != action implies self.spec_get(other)
                    == old(self).spec_get(other) by {
                    lemma_index_is_injective(other, action);
                }
            }
        }
    }
}

impl PlayerAction {
    /// The place of an action among the actions.
    pub open spec fn spec_index(self) -> int {
        match self {
            PlayerAction::Move => 0,
            PlayerAction::Look => 1,
            PlayerAction::Run => 2,
            PlayerAction::Jump => 3,
            PlayerAction::Crouch => 4,
            PlayerAction::Primary => 5,
            PlayerAction::Secondary => 6,
            PlayerAction::ScoreBoard => 7,
            PlayerAction::Melee => 8,
            PlayerAction::Reload => 9,
            PlayerAction::Interact => 10,
        }
    }

    /// The keyboard or mouse input that stands for an action unless a
    /// configuration says otherwise.
    pub open spec fn keyboard_mouse_binding(self) -> UserInput {
        match self {
            PlayerAction::Move => UserInput::Wasd,
            PlayerAction::Look => UserInput::MouseMotion,
            PlayerAction::Run => UserInput::Key(KeyCode::ShiftLeft),
            PlayerAction::Jump => UserInput::Key(KeyCode::Space),
            PlayerAction::Crouch => UserInput::Key(KeyCode::ControlLeft),
            PlayerAction::Primary => UserInput::Mouse(MouseButton::Left),
            PlayerAction::Secondary => UserInput::Mouse(MouseButton::Right),
            PlayerAction::ScoreBoard => UserInput::Key(KeyCode::Tab),
            PlayerAction::Melee => UserInput::Key(KeyCode::KeyV),
            PlayerAction::Reload => UserInput::Key(KeyCode::KeyR),
            PlayerAction::Interact => UserInput::Key(KeyCode::KeyF),
        }
    }

    /// The gamepad input that stands for an action unless a configuration
    /// says otherwise.
    pub open spec fn gamepad_binding(self) -> UserInput {
        match self {
            PlayerAction::Move => UserInput::LeftStick,
            PlayerAction::Look => UserInput::RightStick,
            PlayerAction::Run => UserInput::Gamepad(GamepadButtonType::LeftThumb),
            PlayerAction::Jump => UserInput::Gamepad(GamepadButtonType::South),
            PlayerAction::Crouch => UserInput::Gamepad(GamepadButtonType::East),
            PlayerAction::Primary => UserInput::Gamepad(GamepadButtonType::RightTrigger),
            PlayerAction::Secondary => UserInput::Gamepad(GamepadButtonType::LeftTrigger),
            PlayerAction::ScoreBoard => UserInput::Gamepad(GamepadButtonType::Select),
            PlayerAction::Melee => UserInput::Gamepad(GamepadButtonType::RightThumb),
            PlayerAction::Reload => UserInput::Gamepad(GamepadButtonType::West),
            PlayerAction::Interact => UserInput::Gamepad(GamepadButtonType::North),
        }
    }

    /// The place of an action among the actions.
    pub fn index(self) -> (i: usize)
        ensures
            i == self.spec_index(),
            i < ACTION_COUNT,
    {
        match self {
            PlayerAction::Move => 0,
            PlayerAction::Look => 1,
            PlayerAction::Run => 2,
            PlayerAction::Jump => 3,
            PlayerAction::Crouch => 4,
            PlayerAction::Primary => 5,
            PlayerAction::Secondary => 6,
            PlayerAction::ScoreBoard => 7,
            PlayerAction::Melee => 8,
            PlayerAction::Reload => 9,
            PlayerAction::Interact => 10,
        }
    }

    /// Binds every action to its keyboard or mouse input.
    pub fn kvm(input_map: &mut InputMap)
        ensures
            forall|action: PlayerAction| #[trigger]
                final(input_map)@[action] == spec_inserted(
                    old(input_map)@[action],
                    action.keyboard_mouse_binding(),
                ),
    {
        input_map.insert(PlayerAction::Move, UserInput::Wasd);
        input_map.insert(PlayerAction::Look, UserInput::MouseMotion);
        input_map.insert(PlayerAction::Run, UserInput::Key(KeyCode::ShiftLeft));
        input_map.insert(PlayerAction::Jump, UserInput::Key(KeyCode::Space));
        input_map.insert(PlayerAction::Crouch, UserInput::Key(KeyCode::ControlLeft));
        input_map.insert(PlayerAction::Primary, UserInput::Mouse(MouseButton::Left));
        input_map.insert(PlayerAction::Secondary, UserInput::Mouse(MouseButton::Right));
        input_map.insert(PlayerAction::ScoreBoard, UserInput::Key(KeyCode::Tab));
        input_map.insert(PlayerAction::Melee, UserInput::Key(KeyCode::KeyV));
        input_map.insert(PlayerAction::Reload, UserInput::Key(KeyCode::KeyR));
        input_map.insert(PlayerAction::Interact, UserInput::Key(KeyCode::KeyF));
    }

    /// Binds every action to its gamepad input.
    pub fn gamepad(input_map: &mut InputMap)
        ensures
            forall|action: PlayerAction| #[trigger]
                final(input_map)@[action] == spec_inserted(
                    old(input_map)@[action],
                    action.gamepad_binding(),
                ),
    {
        input_map.insert(PlayerAction::Move, UserInput::LeftStick);
        input_map.insert(PlayerAction::Look, UserInput::RightStick);
        input_map.insert(PlayerAction::Run, UserInput::Gamepad(GamepadButtonType::LeftThumb));
        input_map.insert(PlayerAction::Jump, UserInput::Gamepad(GamepadButtonType::South));
        input_map.insert(PlayerAction::Crouch, UserInput::Gamepad(GamepadButtonType::East));
        input_map.insert(PlayerAction::Primary, UserInput::Gamepad(GamepadButtonType::RightTrigger));
        input_map.insert(
            PlayerAction::Secondary,
            UserInput::Gamepad(GamepadButtonType::LeftTrigger),
        );
        input_map.insert(PlayerAction::ScoreBoard, UserInput::Gamepad(GamepadButtonType::Select));
        input_map.insert(PlayerAction::Melee, UserInput::Gamepad(GamepadButtonType::RightThumb));
        input_map.insert(PlayerAction::Reload, UserInput::Gamepad(GamepadButtonType::West));
        input_map.insert(PlayerAction::Interact, UserInput::Gamepad(GamepadButtonType::North));
    }

    /// The bindings to play with: those of the configuration if one was read,
    /// and if none was, because the file is missing or cannot be understood,
    /// the built-in ones, which bind every action to its keyboard or mouse
    /// input and then to its gamepad input.
    pub fn load_keybinds<M>(config: Option<M>) -> (binds: KeyBinds<M>)
        ensures
            match config {
                Some(loaded) => binds == KeyBinds::<M>::FromFile(loaded),
                None => binds matches KeyBinds::BuiltIn(map) && forall|action: PlayerAction| #[trigger]
                    map@[action] == seq![
                        action.keyboard_mouse_binding(),
                        action.gamepad_binding(),
                    ],
            },
    {
        match config {
            Some(loaded) => KeyBinds::FromFile(loaded),
            None => {
                let mut input_map = InputMap::new();
                PlayerAction::kvm(&mut input_map);
                PlayerAction::gamepad(&mut input_map);
                proof {
                    assert forall|action: PlayerAction| #[trigger]
                        input_map@[action] == seq![
                            action.keyboard_mouse_binding(),
                            action.gamepad_binding(),
                        ] by {
                        let first = action.keyboard_mouse_binding();
                        let second = action.gamepad_binding();
                        let empty = Seq::<UserInput>::empty();
                        assert(spec_inserted(empty, first) =~= seq![first]);
                        assert(seq![first][0] == first);
                        assert(first != second);
                        assert(!seq![first].contains(second));
                        assert(spec_inserted(seq![first], second) =~= seq![first, second]);
                    }
                }
                KeyBinds::BuiltIn(input_map)
            },
        }
    }
}

/// Where the bindings in use came from.
pub enum KeyBinds<M> {
    /// Read from a configuration, and handed on as it was read.
    FromFile(M),
    /// The built-in bindings.
    BuiltIn(InputMap),
}

/// Puts `inputs` in the place `slot`.
fn put_slot(slots: &mut Vec<Vec<UserInput>>, slot: usize, inputs: Vec<UserInput>)
    requires
        slot < old(slots)@.len(),
    ensures
        final(slots)@ == old(slots)@.update(slot as int, inputs),
    no_unwind
{
    slots[slot] = inputs;
}

/// Different actions have different places.
proof fn lemma_index_is_injective(a: PlayerAction, b: PlayerAction)
    requires
        a != b,
    ensures
        a.spec_index() != b.spec_index(),
{
}

} // verus!
