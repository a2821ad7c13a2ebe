//! Rebinding at runtime: requests to rebind, add or delete bindings, the rebinding that
//! waits for the next pressed input of a device, and what that input does.
use crate::gamepad::{default_gamepad_binding, GamepadBinding, GamepadBindingSource, GamepadBindings};
use crate::mouse::{default_mouse_button_binding, MouseButton, MouseButtonBinding};
use vstd::prelude::*;

verus! {

/// How many rebindings wait for an input.
#[derive(Clone, Copy, Debug, PartialEq, Eq, Structural)]
pub struct WaitingForInput(pub u8);

impl WaitingForInput {
    /// Whether some rebinding waits for an input.
    pub fn waiting(&self) -> (r: bool)
        ensures
            r == (self.0 > 0),
    {
        self.0 > 0
    }
}

/// A request concerning the keyboard bindings of an action (an entity id).
#[derive(Clone, Copy, Debug, PartialEq, Eq, Structural)]
pub enum RequestKeyboardRebinding {
    RebindKey { binding_index: usize, action: u64 },
    DeleteBinding { binding_index: usize, action: u64 },
    NewBinding { action: u64 },
}

/// A request concerning the gamepad bindings of an action.
#[derive(Clone, Copy, Debug, PartialEq, Eq, Structural)]
pub enum RequestGamepadRebinding {
    Rebind { binding_index: usize, action: u64 },
    DeleteBinding { binding_index: usize, action: u64 },
    NewBinding { action: u64 },
}

/// A request concerning the mouse bindings of an action.
#[derive(Clone, Copy, Debug, PartialEq, Eq, Structural)]
pub enum RequestMouseRebinding {
    RebindButton { binding_index: usize, action: u64 },
    DeleteButtonBinding { binding_index: usize, action: u64 },
    NewButtonBinding { action: u64 },
    NewMotionBinding { action: u64 },
    DeleteMotionBinding { action: u64 },
}

/// A request concerning the OpenXR bindings of an action.
#[derive(Clone, Debug, PartialEq, Eq)]
pub enum RequestOpenXrRebinding {
    DeleteBinding { binding_index: usize, profile: String, action: u64 },
    DeleteProfile { profile: String, action: u64 },
}

/// The input devices whose bindings can be rebound by pressing an input.
#[derive(Clone, Copy, Debug, PartialEq, Eq, Structural)]
pub enum RebindingDevice {
    Keyboard,
    Mouse,
    Gamepad,
}

/// A rebinding that waits for the next pressed input: to replace the input of an existing
/// binding, or to add a binding of the input.
#[derive(Clone, Copy, Debug, PartialEq, Eq, Structural)]
pub enum PendingRebinding {
    Rebind { binding_index: usize, action: u64 },
    New { action: u64 },
}

/// What handling a request asks to be done to an action's bindings, besides starting a
/// pending rebinding.
#[derive(Clone, Copy, Debug, PartialEq, Eq, Structural)]
pub enum RequestEffect {
    /// Nothing is changed on the action.
    Nothing,
    /// Delete the button or key binding at `binding_index` of `action`.
    DeleteBinding { binding_index: usize, action: u64 },
    /// Give `action` a mouse motion binding with the default settings.
    NewMotionBinding { action: u64 },
    /// Remove the mouse motion binding of `action`.
    DeleteMotionBinding { action: u64 },
}

/// What the action of a pending rebinding has of the device's bindings: whether the
/// action entity exists, and the number of its bindings of the device (`None` when it has
/// no bindings component for the device).
#[derive(Clone, Copy, Debug, PartialEq, Eq, Structural)]
pub struct ActionBindingsState {
    pub exists: bool,
    pub bindings_len: Option<usize>,
}

/// What a pressed input does to the action of the pending rebinding.
#[derive(Clone, Copy, Debug, PartialEq, Eq, Structural)]
pub enum InputEffect {
    /// Nothing; the rebinding keeps waiting (the action or binding is missing).
    KeepWaiting,
    /// Replace the input of the binding at this index.
    Replace { binding_index: usize, action: u64 },
    /// Add a binding of the input to the existing bindings.
    Push { action: u64 },
    /// Give the action a bindings component holding one binding of the input.
    Create { action: u64 },
}

/// The rebindings waiting for an input, one per device at most, and the count of them.
#[derive(Clone, Copy, Debug)]
pub struct RebindingState {
    keyboard: Option<PendingRebinding>,
    mouse: Option<PendingRebinding>,
    gamepad: Option<PendingRebinding>,
    waiting: WaitingForInput,
}

/// The number of devices that have a pending rebinding.
pub open spec fn pending_count(
    keyboard: Option<PendingRebinding>,
    mouse: Option<PendingRebinding>,
    gamepad: Option<PendingRebinding>,
) -> nat {
    (if keyboard is Some { 1nat } else { 0nat }) + (if mouse is Some { 1nat } else { 0nat }) + (
    if gamepad is Some { 1nat } else { 0nat })
}

/// What a pressed input does under the pending rebinding `pending`.
pub open spec fn input_effect(pending: PendingRebinding, state: ActionBindingsState) -> InputEffect {
    match pending {
        PendingRebinding::Rebind { binding_index, action } => match state.bindings_len {
            Some(len) => if state.exists && binding_index < len {
                InputEffect::Replace { binding_index, action }
            } else {
                InputEffect::KeepWaiting
            },
            None => InputEffect::KeepWaiting,
        },
        PendingRebinding::New { action } => if !state.exists {
            InputEffect::KeepWaiting
        } else if state.bindings_len is Some {
            InputEffect::Push { action }
        } else {
            InputEffect::Create { action }
        },
    }
}

/// The action a pending rebinding is for.
pub open spec fn pending_action(pending: PendingRebinding) -> u64 {
    match pending {
        PendingRebinding::Rebind { action, .. } => action,
        PendingRebinding::New { action } => action,
    }
}

/// A pressed input never drops the bindings an action already has: when the action has a
/// bindings component for the device (of any length), the input replaces one binding or is
/// added after them, and a fresh component holding only the input is made only for an
/// existing action that has none. A new binding is always made for an existing action; a
/// binding is replaced exactly when the action exists and has a binding at that index; and
/// every effect is on the action the rebinding is for.
pub proof fn lemma_pressed_input_keeps_existing_bindings(
    pending: PendingRebinding,
    state: ActionBindingsState,
)
    ensures
        state.bindings_len is Some ==> !(input_effect(pending, state) is Create),
        input_effect(pending, state) is Create ==> pending is New && state.exists
            && state.bindings_len is None,
        pending is New && state.exists && state.bindings_len is Some ==> input_effect(pending, state)
            == (InputEffect::Push { action: pending_action(pending) }),
        pending is New && state.exists && state.bindings_len is None ==> input_effect(pending, state)
            == (InputEffect::Create { action: pending_action(pending) }),
        !state.exists ==> input_effect(pending, state) == InputEffect::KeepWaiting,
        pending matches PendingRebinding::Rebind { binding_index, action } ==> (input_effect(
            pending,
            state,
        ) == (if state.exists && (state.bindings_len matches Some(len) && binding_index < len) {
            InputEffect::Replace { binding_index, action }
        } else {
            InputEffect::KeepWaiting
        })),
{
}

impl RebindingState {
    /// The count of waiting rebindings is the number of devices with a pending rebinding.
    #[verifier::type_invariant]
    pub closed spec fn counts_pending(&self) -> bool {
        self.waiting.0 == pending_count(self.keyboard, self.mouse, self.gamepad)
    }

    /// The pending rebinding of `device`, if any.
    pub closed spec fn pending(&self, device: RebindingDevice) -> Option<PendingRebinding> {
        match device {
            RebindingDevice::Keyboard => self.keyboard,
            RebindingDevice::Mouse => self.mouse,
            RebindingDevice::Gamepad => self.gamepad,
        }
    }

    /// The count of waiting rebindings.
    pub closed spec fn waiting_count(&self) -> u8 {
        self.waiting.0
    }

    /// No rebinding waits.
    pub fn new() -> (r: RebindingState)
        ensures
            r.counts_pending(),
            r.pending(RebindingDevice::Keyboard) is None,
            r.pending(RebindingDevice::Mouse) is None,
            r.pending(RebindingDevice::Gamepad) is None,
            r.waiting_count() == 0,
    {
        RebindingState { keyboard: None, mouse: None, gamepad: None, waiting: WaitingForInput(0) }
    }

    /// The count of waiting rebindings, as a `WaitingForInput` value.
    pub fn waiting_for_input(&self) -> (r: WaitingForInput)
        ensures
            r.0 == self.waiting_count(),
    {
        self.waiting
    }

    /// The pending rebinding of `device`, if any.
    pub fn pending_for(&self, device: RebindingDevice) -> (r: Option<PendingRebinding>)
        ensures
            r == self.pending(device),
    {
        match device {
            RebindingDevice::Keyboard => self.keyboard,
            RebindingDevice::Mouse => self.mouse,
            RebindingDevice::Gamepad => self.gamepad,
        }
    }

    /// Makes `pending` the pending rebinding of `device`, which had none.
    fn start(&mut self, device: RebindingDevice, pending: PendingRebinding)
        requires
            old(self).pending(device) is None,
        ensures
            final(self).counts_pending(),
            final(self).pending(device) == Some(pending),
            forall|d: RebindingDevice| d != device ==> #[trigger] final(self).pending(d) == old(self).pending(d),
            final(self).waiting_count() == old(self).waiting_count() + 1,
    {
        proof {
            use_type_invariant(&*self);
        }
        let mut s = *self;
        let count = s.waiting.0 + 1;
        match device {
            RebindingDevice::Keyboard => {
                s = RebindingState { keyboard: Some(pending), waiting: WaitingForInput(count), ..s };
            },
            RebindingDevice::Mouse => {
                s = RebindingState { mouse: Some(pending), waiting: WaitingForInput(count), ..s };
            },
            RebindingDevice::Gamepad => {
                s = RebindingState { gamepad: Some(pending), waiting: WaitingForInput(count), ..s };
            },
        }
        *self = s;
        proof {
            use_type_invariant(&*self);
        }
    }

    /// Forgets the pending rebinding of `device`, which had one.
    fn finish(&mut self, device: RebindingDevice)
        requires
            old(self).pending(device) is Some,
        ensures
            final(self).counts_pending(),
            final(self).pending(device) is None,
            forall|d: RebindingDevice| d != device ==> #[trigger] final(self).pending(d) == old(self).pending(d),
            final(self).waiting_count() == old(self).waiting_count() - 1,
    {
        proof {
            use_type_invariant(&*self);
        }
        let mut s = *self;
        let count = if s.waiting.0 > 0 { s.waiting.0 - 1 } else { 0 };
        match device {
            RebindingDevice::Keyboard => {
                s = RebindingState { keyboard: None, waiting: WaitingForInput(count), ..s };
            },
            RebindingDevice::Mouse => {
                s = RebindingState { mouse: None, waiting: WaitingForInput(count), ..s };
            },
            RebindingDevice::Gamepad => {
                s = RebindingState { gamepad: None, waiting: WaitingForInput(count), ..s };
            },
        }
        *self = s;
        proof {
            use_type_invariant(&*self);
        }
    }

    /// Handles a keyboard request. While a keyboard rebinding waits, requests are
    /// ignored. A rebind or new-binding request starts waiting for a key; a delete request
    /// asks for the binding to be deleted.
    pub fn handle_keyboard_request(&mut self, request: RequestKeyboardRebinding) -> (r: RequestEffect)
        ensures
            final(self).counts_pending(),
            old(self).pending(RebindingDevice::Keyboard) is Some ==> r == RequestEffect::Nothing
                && *final(self) == *old(self),
            old(self).pending(RebindingDevice::Keyboard) is None ==> match request {
                RequestKeyboardRebinding::RebindKey { binding_index, action } => {
                    &&& r == RequestEffect::Nothing
                    &&& final(self).pending(RebindingDevice::Keyboard) == Some(
                        PendingRebinding::Rebind { binding_index, action },
                    )
                    &&& final(self).waiting_count() == old(self).waiting_count() + 1
                },
                RequestKeyboardRebinding::DeleteBinding { binding_index, action } => {
                    &&& r == RequestEffect::DeleteBinding { binding_index, action }
                    &&& *final(self) == *old(self)
                },
                RequestKeyboardRebinding::NewBinding { action } => {
                    &&& r == RequestEffect::Nothing
                    &&& final(self).pending(RebindingDevice::Keyboard) == Some(
                        PendingRebinding::New { action },
                    )
                    &&& final(self).waiting_count() == old(self).waiting_count() + 1
                },
            },
            forall|d: RebindingDevice|
                d != RebindingDevice::Keyboard ==> #[trigger] final(self).pending(d) == old(self).pending(d),
    {
        proof {
            use_type_invariant(&*self);
        }
        if self.keyboard.is_some() {
            return RequestEffect::Nothing;
        }
        match request {
            RequestKeyboardRebinding::RebindKey { binding_index, action } => {
                self.start(RebindingDevice::Keyboard, PendingRebinding::Rebind { binding_index, action });
                RequestEffect::Nothing
            },
            RequestKeyboardRebinding::DeleteBinding { binding_index, action } => {
                RequestEffect::DeleteBinding { binding_index, action }
            },
            RequestKeyboardRebinding::NewBinding { action } => {
                self.start(RebindingDevice::Keyboard, PendingRebinding::New { action });
                RequestEffect::Nothing
            },
        }
    }

    /// Handles a gamepad request, as keyboard requests are handled.
    pub fn handle_gamepad_request(&mut self, request: RequestGamepadRebinding) -> (r: RequestEffect)
        ensures
            final(self).counts_pending(),
            old(self).pending(RebindingDevice::Gamepad) is Some ==> r == RequestEffect::Nothing
                && *final(self) == *old(self),
            old(self).pending(RebindingDevice::Gamepad) is None ==> match request {
                RequestGamepadRebinding::Rebind { binding_index, action } => {
                    &&& r == RequestEffect::Nothing
                    &&& final(self).pending(RebindingDevice::Gamepad) == Some(
                        PendingRebinding::Rebind { binding_index, action },
                    )
                    &&& final(self).waiting_count() == old(self).waiting_count() + 1
                },
                RequestGamepadRebinding::DeleteBinding { binding_index, action } => {
                    &&& r == RequestEffect::DeleteBinding { binding_index, action }
                    &&& *final(self) == *old(self)
                },
                RequestGamepadRebinding::NewBinding { action } => {
                    &&& r == RequestEffect::Nothing
                    &&& final(self).pending(RebindingDevice::Gamepad) == Some(
                        PendingRebinding::New { action },
                    )
                    &&& final(self).waiting_count() == old(self).waiting_count() + 1
                },
            },
            forall|d: RebindingDevice|
                d != RebindingDevice::Gamepad ==> #[trigger] final(self).pending(d) == old(self).pending(d),
    {
        proof {
            use_type_invariant(&*self);
        }
        if self.gamepad.is_some() {
            return RequestEffect::Nothing;
        }
        match request {
            RequestGamepadRebinding::Rebind { binding_index, action } => {
                self.start(RebindingDevice::Gamepad, PendingRebinding::Rebind { binding_index, action });
                RequestEffect::Nothing
            },
            RequestGamepadRebinding::DeleteBinding { binding_index, action } => {
                RequestEffect::DeleteBinding { binding_index, action }
            },
            RequestGamepadRebinding::NewBinding { action } => {
                self.start(RebindingDevice::Gamepad, PendingRebinding::New { action });
                RequestEffect::Nothing
            },
        }
    }

    /// Handles a mouse request: button requests as keyboard requests are handled; motion
    /// requests ask for the motion binding to be created or removed.
    pub fn handle_mouse_request(&mut self, request: RequestMouseRebinding) -> (r: RequestEffect)
        ensures
            final(self).counts_pending(),
            old(self).pending(RebindingDevice::Mouse) is Some ==> r == RequestEffect::Nothing
                && *final(self) == *old(self),
            old(self).pending(RebindingDevice::Mouse) is None ==> match request {
                RequestMouseRebinding::RebindButton { binding_index, action } => {
                    &&& r == RequestEffect::Nothing
                    &&& final(self).pending(RebindingDevice::Mouse) == Some(
                        PendingRebinding::Rebind { binding_index, action },
                    )
                    &&& final(self).waiting_count() == old(self).waiting_count() + 1
                },
                RequestMouseRebinding::DeleteButtonBinding { binding_index, action } => {
                    &&& r == RequestEffect::DeleteBinding { binding_index, action }
                    &&& *final(self) == *old(self)
                },
                RequestMouseRebinding::NewButtonBinding { action } => {
                    &&& r == RequestEffect::Nothing
                    &&& final(self).pending(RebindingDevice::Mouse) == Some(
                        PendingRebinding::New { action },
                    )
                    &&& final(self).waiting_count() == old(self).waiting_count() + 1
                },
                RequestMouseRebinding::NewMotionBinding { action } => {
                    &&& r == RequestEffect::NewMotionBinding { action }
                    &&& *final(self) == *old(self)
                },
                RequestMouseRebinding::DeleteMotionBinding { action } => {
                    &&& r == RequestEffect::DeleteMotionBinding { action }
                    &&& *final(self) == *old(self)
                },
            },
            forall|d: RebindingDevice|
                d != RebindingDevice::Mouse ==> #[trigger] final(self).pending(d) == old(self).pending(d),
    {
        proof {
            use_type_invariant(&*self);
        }
        if self.mouse.is_some() {
            return RequestEffect::Nothing;
        }
        match request {
            RequestMouseRebinding::RebindButton { binding_index, action } => {
                self.start(RebindingDevice::Mouse, PendingRebinding::Rebind { binding_index, action });
                RequestEffect::Nothing
            },
            RequestMouseRebinding::DeleteButtonBinding { binding_index, action } => {
                RequestEffect::DeleteBinding { binding_index, action }
            },
            RequestMouseRebinding::NewButtonBinding { action } => {
                self.start(RebindingDevice::Mouse, PendingRebinding::New { action });
                RequestEffect::Nothing
            },
            RequestMouseRebinding::NewMotionBinding { action } => RequestEffect::NewMotionBinding {
                action,
            },
            RequestMouseRebinding::DeleteMotionBinding { action } => {
                RequestEffect::DeleteMotionBinding { action }
            },
        }
    }

    /// Handles a pressed input of `device` while a rebinding of it waits: decides what the
    /// input does to the action, given what the action has of the device's bindings, and
    /// stops waiting unless the action or the binding is missing.
    pub fn handle_pressed_input(&mut self, device: RebindingDevice, state: ActionBindingsState) -> (r:
        InputEffect)
        requires
            old(self).pending(device) is Some,
        ensures
            final(self).counts_pending(),
            r == input_effect(old(self).pending(device).unwrap(), state),
            r == InputEffect::KeepWaiting ==> *final(self) == *old(self),
            r != InputEffect::KeepWaiting ==> {
                &&& final(self).pending(device) is None
                &&& final(self).waiting_count() == old(self).waiting_count() - 1
            },
            forall|d: RebindingDevice| d != device ==> #[trigger] final(self).pending(d) == old(self).pending(d),
    {
        proof {
            use_type_invariant(&*self);
        }
        let pending = match self.pending_for(device) {
            Some(p) => p,
            None => {
                return InputEffect::KeepWaiting;
            },
        };
        let effect = match pending {
            PendingRebinding::Rebind { binding_index, action } => match state.bindings_len {
                Some(len) => if state.exists && binding_index < len {
                    InputEffect::Replace { binding_index, action }
                } else {
                    InputEffect::KeepWaiting
                },
                None => InputEffect::KeepWaiting,
            },
            PendingRebinding::New { action } => if !state.exists {
                InputEffect::KeepWaiting
            } else if state.bindings_len.is_some() {
                InputEffect::Push { action }
            } else {
                InputEffect::Create { action }
            },
        };
        match effect {
            InputEffect::KeepWaiting => {},
            _ => {
                self.finish(device);
            },
        }
        effect
    }
}

impl Default for RebindingState {
    fn default() -> (r: RebindingState)
        ensures
            r.waiting_count() == 0,
    {
        RebindingState::new()
    }
}

/// The count of waiting rebindings is the number of devices with a pending rebinding, so
/// input is awaited exactly when some rebinding is pending; at most three wait.
pub proof fn lemma_waiting_counts_pending(state: RebindingState)
    requires
        state.counts_pending(),
    ensures
        state.waiting_count() == pending_count(
            state.pending(RebindingDevice::Keyboard),
            state.pending(RebindingDevice::Mouse),
            state.pending(RebindingDevice::Gamepad),
        ),
        (state.waiting_count() > 0) <==> (state.pending(RebindingDevice::Keyboard) is Some
            || state.pending(RebindingDevice::Mouse) is Some || state.pending(
            RebindingDevice::Gamepad,
        ) is Some),
        state.waiting_count() <= 3,
{
}

/// Applies a pressed gamepad input, read as `source`, to the gamepad bindings of the
/// action as `effect` says; `None` stands for an action without gamepad bindings, and the
/// result is the bindings the action has afterwards.
pub fn apply_gamepad_input(
    effect: InputEffect,
    bindings: Option<GamepadBindings>,
    source: GamepadBindingSource,
) -> (r: Option<GamepadBindings>)
    requires
        match effect {
            InputEffect::Replace { binding_index, .. } => match bindings {
                Some(b) => binding_index < b.bindings@.len(),
                None => false,
            },
            InputEffect::Push { .. } => bindings is Some,
            _ => true,
        },
    ensures
        match effect {
            InputEffect::KeepWaiting => r == bindings,
            InputEffect::Replace { binding_index, .. } => r is Some && r.unwrap().bindings@
                == bindings.unwrap().bindings@.update(
                binding_index as int,
                GamepadBinding { source, ..bindings.unwrap().bindings@[binding_index as int] },
            ),
            InputEffect::Push { .. } => r is Some && r.unwrap().bindings@
                == bindings.unwrap().bindings@.push(default_gamepad_binding(source)),
            InputEffect::Create { .. } => r is Some && r.unwrap().bindings@ == seq![
                default_gamepad_binding(source),
            ],
        },
{
    match effect {
        InputEffect::KeepWaiting => bindings,
        InputEffect::Replace { binding_index, .. } => {
            let mut b = bindings.unwrap();
            let old_binding = b.bindings[binding_index];
            b.bindings.set(binding_index, GamepadBinding { source, ..old_binding });
            Some(b)
        },
        InputEffect::Push { .. } => {
            let mut b = bindings.unwrap();
            b.bindings.push(GamepadBinding::new(source));
            Some(b)
        },
        InputEffect::Create { .. } => {
            let b = GamepadBindings::new().add_binding(GamepadBinding::new(source));
            Some(b)
        },
    }
}

/// Applies a pressed mouse button to the button bindings of the action as `effect` says;
/// `None` stands for an action without mouse bindings.
pub fn apply_mouse_input(
    effect: InputEffect,
    buttons: Option<Vec<MouseButtonBinding>>,
    button: MouseButton,
) -> (r: Option<Vec<MouseButtonBinding>>)
    requires
        match effect {
            InputEffect::Replace { binding_index, .. } => match buttons {
                Some(b) => binding_index < b@.len(),
                None => false,
            },
            InputEffect::Push { .. } => buttons is Some,
            _ => true,
        },
    ensures
        match effect {
            InputEffect::KeepWaiting => r == buttons,
            InputEffect::Replace { binding_index, .. } => r is Some && r.unwrap()@
                == buttons.unwrap()@.update(
                binding_index as int,
                MouseButtonBinding { button, ..buttons.unwrap()@[binding_index as int] },
            ),
            InputEffect::Push { .. } => r is Some && r.unwrap()@ == buttons.unwrap()@.push(
                default_mouse_button_binding(button),
            ),
            InputEffect::Create { .. } => r is Some && r.unwrap()@ == seq![
                default_mouse_button_binding(button),
            ],
        },
{
    match effect {
        InputEffect::KeepWaiting => buttons,
        InputEffect::Replace { binding_index, .. } => {
            let mut b = buttons.unwrap();
            let old_binding = b[binding_index];
            b.set(binding_index, MouseButtonBinding { button, ..old_binding });
            Some(b)
        },
        InputEffect::Push { .. } => {
            let mut b = buttons.unwrap();
            b.push(MouseButtonBinding::new(button));
            Some(b)
        },
        InputEffect::Create { .. } => {
            let mut b: Vec<MouseButtonBinding> = Vec::new();
            b.push(MouseButtonBinding::new(button));
            Some(b)
        },
    }
}

/// The kind of value an action has, as the rebinding window shows it.
#[derive(Clone, Copy, Debug, PartialEq, Eq, Structural)]
pub enum ActionType {
    Unkown,
    Bool,
    F32,
    Vec2,
    GamepadHaptic,
}

impl ActionType {
    /// The kind of value of an action from the value components it has (`found` tells
    /// whether the action entity exists): the first of boolean, 1D, 2D and gamepad haptics
    /// that it has, else unknown.
    pub fn from_components(
        found: bool,
        has_bool: bool,
        has_f32: bool,
        has_vec2: bool,
        has_gamepad_haptic: bool,
    ) -> (r: ActionType)
        ensures
            r == (if !found {
                ActionType::Unkown
            } else if has_bool {
                ActionType::Bool
            } else if has_f32 {
                ActionType::F32
            } else if has_vec2 {
                ActionType::Vec2
            } else if has_gamepad_haptic {
                ActionType::GamepadHaptic
            } else {
                ActionType::Unkown
            }),
    {
        if !found {
            return ActionType::Unkown;
        }
        if has_bool {
            return ActionType::Bool;
        }
        if has_f32 {
            return ActionType::F32;
        }
        if has_vec2 {
            return ActionType::Vec2;
        }
        if has_gamepad_haptic {
            return ActionType::GamepadHaptic;
        }
        ActionType::Unkown
    }

    /// The text shown for the kind.
    pub fn to_display_string(&self) -> (r: String)
        ensures
            r@ == (match *self {
                ActionType::Unkown => "Unknown"@,
                ActionType::Bool => "Boolean"@,
                ActionType::F32 => "1D Axis"@,
                ActionType::Vec2 => "2D Axis"@,
                ActionType::GamepadHaptic => "Gamepad Haptics"@,
            }),
    {
        match self {
            ActionType::Unkown => "Unknown".to_string(),
            ActionType::Bool => "Boolean".to_string(),
            ActionType::F32 => "1D Axis".to_string(),
            ActionType::Vec2 => "2D Axis".to_string(),
            ActionType::GamepadHaptic => "Gamepad Haptics".to_string(),
        }
    }
}

} // verus!
