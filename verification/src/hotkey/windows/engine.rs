use vstd::prelude::*;
use windows_sys::Win32::UI::WindowsAndMessaging::{WM_KEYDOWN, WM_KEYUP, WM_SYSKEYDOWN, WM_SYSKEYUP};
use crate::hotkey::Hotkey;
use crate::hotkey::key_code::KeyCode;
use crate::hotkey::modifiers::{Modifier, Modifiers, lemma_view_of};
use crate::hotkey::windows::Error;
use crate::hotkey::windows::key_state::KeyState;
use crate::hotkey::windows::scan_code::{parse_scan_code, scan_code_key};

verus! {

/// `WM_KEYDOWN` of windows-sys: the number of the message that reports that
/// a key went down. The contract gives its value.
#[verifier::external_body]
fn wm_keydown() -> (r: u32)
    ensures
        r == 0x0100,
{
    WM_KEYDOWN
}

/// `WM_KEYUP` of windows-sys: the number of the message that reports that a
/// key went up. The contract gives its value.
#[verifier::external_body]
fn wm_keyup() -> (r: u32)
    ensures
        r == 0x0101,
{
    WM_KEYUP
}

/// `WM_SYSKEYDOWN` of windows-sys: the number of the message that reports
/// that a key went down while alt was held. The contract gives its value.
#[verifier::external_body]
fn wm_syskeydown() -> (r: u32)
    ensures
        r == 0x0104,
{
    WM_SYSKEYDOWN
}

/// `WM_SYSKEYUP` of windows-sys: the number of the message that reports that
/// a key went up while alt was held. The contract gives its value.
#[verifier::external_body]
fn wm_syskeyup() -> (r: u32)
    ensures
        r == 0x0105,
{
    WM_SYSKEYUP
}

/// The message that tells the hook thread to leave its message loop.
pub const MSG_EXIT: u32 = 0x400;

/// The direction in which a key moved.
#[derive(Clone, Copy, Debug, PartialEq, Eq, Hash, Structural)]
pub enum Transition {
    Down,
    Up,
}

/// One key event as the engine takes it: the direction, and the scan code
/// with the extended form folded in.
#[derive(Clone, Copy, Debug, PartialEq, Eq, Hash, Structural)]
pub struct KeyEvent {
    pub transition: Transition,
    pub scan_code: u32,
}

/// What a call of the hook procedure means to the engine: nothing where the
/// hook code is negative or the message is not about a key.
pub open spec fn spec_transition(code: i32, message: u32) -> Option<Transition> {
    if code < 0 {
        None
    } else if message == 0x0100 || message == 0x0104 {
        Some(Transition::Down)
    } else if message == 0x0101 || message == 0x0105 {
        Some(Transition::Up)
    } else {
        None
    }
}

/// Tells from the hook code and the message number of a call of the hook
/// procedure whether a key went down or up. On `None` the engine has nothing
/// to do with the call. Whatever the answer, the caller hands the call on to
/// the next hook.
pub fn transition_of(code: i32, message: u32) -> (r: Option<Transition>)
    ensures
        r == spec_transition(code, message),
{
    if code < 0 {
        None
    } else if message == wm_keydown() || message == wm_syskeydown() {
        Some(Transition::Down)
    } else if message == wm_keyup() || message == wm_syskeyup() {
        Some(Transition::Up)
    } else {
        None
    }
}

/// The modifier that a key stands for, the left and the right key alike.
pub open spec fn spec_modifier(key_code: KeyCode) -> Option<Modifier> {
    match key_code {
        KeyCode::AltLeft | KeyCode::AltRight => Some(Modifier::Alt),
        KeyCode::ControlLeft | KeyCode::ControlRight => Some(Modifier::Control),
        KeyCode::MetaLeft | KeyCode::MetaRight => Some(Modifier::Meta),
        KeyCode::ShiftLeft | KeyCode::ShiftRight => Some(Modifier::Shift),
        _ => None,
    }
}

/// The modifier that a key stands for, if it is a modifier key.
pub fn modifier_of(key_code: KeyCode) -> (r: Option<Modifier>)
    ensures
        r == spec_modifier(key_code),
{
    match key_code {
        KeyCode::AltLeft | KeyCode::AltRight => Some(Modifier::Alt),
        KeyCode::ControlLeft | KeyCode::ControlRight => Some(Modifier::Control),
        KeyCode::MetaLeft | KeyCode::MetaRight => Some(Modifier::Meta),
        KeyCode::ShiftLeft | KeyCode::ShiftRight => Some(Modifier::Shift),
        _ => None,
    }
}

/// What the engine knows between two events, as mathematics: the modifiers
/// it takes to be held, and the keys it takes to be down.
pub struct StateView {
    pub modifiers: Set<Modifier>,
    pub down: Set<KeyCode>,
}

/// The state at the start: nothing is held.
pub open spec fn initial() -> StateView {
    StateView { modifiers: Set::empty(), down: Set::empty() }
}

/// The modifiers after the key `key_code` went down.
pub open spec fn modifiers_with(modifiers: Set<Modifier>, key_code: KeyCode) -> Set<Modifier> {
    match spec_modifier(key_code) {
        Some(modifier) => modifiers.insert(modifier),
        None => modifiers,
    }
}

/// The modifiers after the key `key_code` went up.
pub open spec fn modifiers_without(modifiers: Set<Modifier>, key_code: KeyCode) -> Set<Modifier> {
    match spec_modifier(key_code) {
        Some(modifier) => modifiers.remove(modifier),
        None => modifiers,
    }
}

/// A key-down event. A known key that was up is now down, and is sent out as
/// a hotkey with the modifiers held before the event; if it is a modifier
/// key, its modifier is held from now on. An unknown scan code, or a key
/// that is down already, changes nothing and sends nothing.
pub open spec fn key_down(state: StateView, scan_code: u32) -> (StateView, Option<Hotkey>) {
    match scan_code_key(scan_code) {
        Some(key_code) => if state.down.contains(key_code) {
            (state, None)
        } else {
            (
                StateView {
                    modifiers: modifiers_with(state.modifiers, key_code),
                    down: state.down.insert(key_code),
                },
                Some(Hotkey { key_code, modifiers: Modifiers::of(state.modifiers) }),
            )
        },
        None => (state, None),
    }
}

/// A key-up event. A known key is up from now on, whether it was down or
/// not; if it is a modifier key, its modifier is no longer held. Nothing is
/// sent.
pub open spec fn key_up(state: StateView, scan_code: u32) -> StateView {
    match scan_code_key(scan_code) {
        Some(key_code) => StateView {
            modifiers: modifiers_without(state.modifiers, key_code),
            down: state.down.remove(key_code),
        },
        None => state,
    }
}

/// One event: the state after it, and the hotkey that it sends out.
pub open spec fn step(state: StateView, event: KeyEvent) -> (StateView, Option<Hotkey>) {
    match event.transition {
        Transition::Down => key_down(state, event.scan_code),
        Transition::Up => (key_up(state, event.scan_code), None),
    }
}

/// What the hook thread keeps between two events: the modifiers that are
/// held and the keys that are down. Only the hook thread touches it.
pub struct State {
    modifiers: Modifiers,
    key_state: KeyState,
}

impl View for State {
    type V = StateView;

    closed spec fn view(&self) -> StateView {
        StateView { modifiers: self.modifiers@, down: self.key_state@ }
    }
}

impl State {
    /// The state at the start: nothing is held.
    pub fn new() -> (r: State)
        ensures
            r@ == initial(),
    {
        State { modifiers: Modifiers::empty(), key_state: KeyState::new() }
    }

    /// The modifiers that are held.
    pub fn modifiers(&self) -> (r: Modifiers)
        ensures
            r@ == self@.modifiers,
            r == Modifiers::of(self@.modifiers),
    {
        proof {
            use_type_invariant(&self.modifiers);
            lemma_view_of(self.modifiers);
        }
        self.modifiers
    }

    /// Whether the key is down.
    pub fn is_down(&self, key_code: KeyCode) -> (r: bool)
        ensures
            r == self@.down.contains(key_code),
    {
        self.key_state.is_down(key_code)
    }

    /// Takes a key-down event with the scan code `scan_code`, the extended
    /// form folded in, and returns the hotkey to send to the dispatcher, if
    /// there is one.
    pub fn key_down(&mut self, scan_code: u32) -> (r: Option<Hotkey>)
        ensures
            final(self)@ == key_down(old(self)@, scan_code).0,
            r == key_down(old(self)@, scan_code).1,
    {
        if let Some(key_code) = parse_scan_code(scan_code) {
            if !self.key_state.is_down(key_code) {
                self.key_state.set_down(key_code);
                let hotkey = Hotkey { key_code, modifiers: self.modifiers() };
                match modifier_of(key_code) {
                    Some(modifier) => {
                        self.modifiers.insert(Modifiers::single(modifier));
                        assert(self.modifiers@ =~= old(self)@.modifiers.insert(modifier));
                    },
                    None => {},
                }
                return Some(hotkey);
            }
        }
        None
    }

    /// Takes a key-up event with the scan code `scan_code`, the extended form
    /// folded in.
    pub fn key_up(&mut self, scan_code: u32)
        ensures
            final(self)@ == key_up(old(self)@, scan_code),
    {
        if let Some(key_code) = parse_scan_code(scan_code) {
            self.key_state.set_up(key_code);
            match modifier_of(key_code) {
                Some(modifier) => {
                    self.modifiers.remove(Modifiers::single(modifier));
                    assert(self.modifiers@ =~= old(self)@.modifiers.remove(modifier));
                },
                None => {},
            }
        }
    }

    /// Takes one key event and returns the hotkey to send to the dispatcher,
    /// if there is one.
    pub fn handle(&mut self, event: KeyEvent) -> (r: Option<Hotkey>)
        ensures
            final(self)@ == step(old(self)@, event).0,
            r == step(old(self)@, event).1,
    {
        match event.transition {
            Transition::Down => self.key_down(event.scan_code),
            Transition::Up => {
                self.key_up(event.scan_code);
                None
            },
        }
    }
}

/// What the hook thread does after it has tried to install the hook.
#[derive(Clone, Copy, Debug, PartialEq, Eq, Structural)]
pub enum Pumped {
    /// Wait for the next message.
    Continue,
    /// Leave the loop, take the hook out and end.
    Unhook,
    /// End with this error, which nobody waits for.
    Failed(Error),
}

/// What the hook thread hands to the one who started it, once it has tried
/// to install the hook: its own thread identifier, or the error.
pub fn installation_report(installed: bool, thread_id: u32) -> (r: Result<
    u32,
    crate::hotkey::Error,
>)
    ensures
        installed ==> r == Ok::<u32, crate::hotkey::Error>(thread_id),
        !installed ==> r == Err::<u32, crate::hotkey::Error>(
            crate::hotkey::Error::Platform(Error::WindowsHook),
        ),
{
    if installed {
        Ok(thread_id)
    } else {
        Err(crate::hotkey::Error::Platform(Error::WindowsHook))
    }
}

/// Whether the hook thread goes on to its message loop: only with the hook
/// installed, and with its report delivered. Else it ends with the error
/// given.
pub fn enter_loop(installed: bool, delivered: bool) -> (r: Result<(), Error>)
    ensures
        !delivered ==> r == Err::<(), Error>(Error::ThreadStopped),
        delivered && !installed ==> r == Err::<(), Error>(Error::WindowsHook),
        delivered && installed ==> r is Ok,
{
    if !delivered {
        Err(Error::ThreadStopped)
    } else if !installed {
        Err(Error::WindowsHook)
    } else {
        Ok(())
    }
}

/// What follows one round of the message loop, from what the retrieval of
/// the message returned and from the number of the message: a negative
/// return is an error of the loop, whatever the message; the exit message
/// ends the loop; anything else goes on.
pub fn pumped(returned: i32, message: u32) -> (r: Pumped)
    ensures
        returned < 0 ==> r == Pumped::Failed(Error::MessageLoop),
        returned >= 0 && message == MSG_EXIT ==> r == Pumped::Unhook,
        returned >= 0 && message != MSG_EXIT ==> r == Pumped::Continue,
{
    if returned < 0 {
        Pumped::Failed(Error::MessageLoop)
    } else if message == MSG_EXIT {
        Pumped::Unhook
    } else {
        Pumped::Continue
    }
}

} // verus!
