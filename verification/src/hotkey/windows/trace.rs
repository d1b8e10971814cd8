use vstd::prelude::*;
use crate::hotkey::Hotkey;
use crate::hotkey::key_code::KeyCode;
use crate::hotkey::modifiers::{Modifier, Modifiers, lemma_of_view};
use crate::hotkey::windows::engine::{
    KeyEvent, StateView, Transition, initial, key_down, key_up, spec_modifier, step,
};
use crate::hotkey::windows::scan_code::scan_code_key;

verus! {

/// The state after a sequence of events.
pub open spec fn state_after(state: StateView, events: Seq<KeyEvent>) -> StateView
    decreases events.len(),
{
    if events.len() == 0 {
        state
    } else {
        state_after(step(state, events[0]).0, events.skip(1))
    }
}

/// The hotkeys that a sequence of events sends out, in their order.
pub open spec fn sent(state: StateView, events: Seq<KeyEvent>) -> Seq<Hotkey>
    decreases events.len(),
{
    if events.len() == 0 {
        Seq::empty()
    } else {
        let (next, hotkey) = step(state, events[0]);
        let rest = sent(next, events.skip(1));
        match hotkey {
            Some(hotkey) => seq![hotkey].add(rest),
            None => rest,
        }
    }
}

/// How many of the hotkeys are for the key `key_code`.
pub open spec fn presses(hotkeys: Seq<Hotkey>, key_code: KeyCode) -> nat
    decreases hotkeys.len(),
{
    if hotkeys.len() == 0 {
        0
    } else if hotkeys[0].key_code == key_code {
        1 + presses(hotkeys.skip(1), key_code)
    } else {
        presses(hotkeys.skip(1), key_code)
    }
}

/// Whether the event says that the key `key_code` went up.
pub open spec fn releases(event: KeyEvent, key_code: KeyCode) -> bool {
    event.transition == Transition::Up && scan_code_key(event.scan_code) == Some(key_code)
}

/// The left key of a modifier.
pub open spec fn left_key(modifier: Modifier) -> KeyCode {
    match modifier {
        Modifier::Shift => KeyCode::ShiftLeft,
        Modifier::Control => KeyCode::ControlLeft,
        Modifier::Alt => KeyCode::AltLeft,
        Modifier::Meta => KeyCode::MetaLeft,
    }
}

/// The right key of a modifier.
pub open spec fn right_key(modifier: Modifier) -> KeyCode {
    match modifier {
        Modifier::Shift => KeyCode::ShiftRight,
        Modifier::Control => KeyCode::ControlRight,
        Modifier::Alt => KeyCode::AltRight,
        Modifier::Meta => KeyCode::MetaRight,
    }
}

/// Whether one of the two keys of the modifier is down.
pub open spec fn held(down: Set<KeyCode>, modifier: Modifier) -> bool {
    down.contains(left_key(modifier)) || down.contains(right_key(modifier))
}

/// The modifiers taken to be held are those of which a key is down.
pub open spec fn tracks(state: StateView) -> bool {
    forall|modifier: Modifier|
        state.modifiers.contains(modifier) <==> #[trigger] held(state.down, modifier)
}

/// Whether the event lets go of one key of a modifier while the other key
/// of that modifier is down.
pub open spec fn releases_half(state: StateView, event: KeyEvent) -> bool {
    event.transition == Transition::Up && match scan_code_key(event.scan_code) {
        Some(key_code) => match spec_modifier(key_code) {
            Some(modifier) => held(state.down.remove(key_code), modifier),
            None => false,
        },
        None => false,
    }
}

/// Whether some event of the sequence, taken in its turn, lets go of one
/// key of a modifier while the other is down.
pub open spec fn some_releases_half(state: StateView, events: Seq<KeyEvent>) -> bool
    decreases events.len(),
{
    if events.len() == 0 {
        false
    } else {
        releases_half(state, events[0]) || some_releases_half(
            step(state, events[0]).0,
            events.skip(1),
        )
    }
}

/// A key that was up and goes down is marked as down and sent out once,
/// with the modifiers held before.
pub proof fn law_press_sends(state: StateView, scan_code: u32, key_code: KeyCode)
    requires
        scan_code_key(scan_code) == Some(key_code),
        !state.down.contains(key_code),
    ensures
        key_down(state, scan_code).1 == Some(
            Hotkey { key_code, modifiers: Modifiers::of(state.modifiers) },
        ),
        key_down(state, scan_code).1->0.modifiers@ == state.modifiers,
        key_down(state, scan_code).0.down.contains(key_code),
{
    lemma_of_view(state.modifiers);
}

/// A key-down event for a key that is down already changes nothing and
/// sends nothing: what the keyboard repeats while a key is held is dropped.
pub proof fn law_repeat_is_dropped(state: StateView, scan_code: u32, key_code: KeyCode)
    requires
        scan_code_key(scan_code) == Some(key_code),
        state.down.contains(key_code),
    ensures
        key_down(state, scan_code) == (state, None::<Hotkey>),
{
}

/// Taking the same key-down event twice gives the state and the hotkey of
/// taking it once: the second one changes nothing and sends nothing.
pub proof fn law_key_down_idempotent(state: StateView, scan_code: u32)
    ensures
        key_down(key_down(state, scan_code).0, scan_code) == (
            key_down(state, scan_code).0,
            None::<Hotkey>,
        ),
{
}

/// A key-up event clears the key whether it was down or not, and taking it
/// twice is taking it once.
pub proof fn law_key_up_idempotent(state: StateView, scan_code: u32)
    ensures
        key_up(key_up(state, scan_code), scan_code) == key_up(state, scan_code),
        scan_code_key(scan_code) matches Some(key_code) ==> !key_up(
            state,
            scan_code,
        ).down.contains(key_code),
{
    match scan_code_key(scan_code) {
        Some(key_code) => {
            let once = key_up(state, scan_code);
            let twice = key_up(once, scan_code);
            assert(twice.down =~= once.down);
            assert(twice.modifiers =~= once.modifiers);
        },
        None => {},
    }
}

/// No key-up event sends a hotkey.
pub proof fn law_release_sends_nothing(state: StateView, event: KeyEvent)
    requires
        event.transition == Transition::Up,
    ensures
        step(state, event).1 is None,
{
}

/// While a key is down and no event says that it went up, it stays down and
/// no hotkey is sent for it, however many key-down events come in for it.
pub proof fn law_held_key_sends_nothing(
    state: StateView,
    events: Seq<KeyEvent>,
    key_code: KeyCode,
)
    requires
        state.down.contains(key_code),
        forall|i: int| 0 <= i < events.len() ==> !releases(#[trigger] events[i], key_code),
    ensures
        state_after(state, events).down.contains(key_code),
        presses(sent(state, events), key_code) == 0,
    decreases events.len(),
{
    if events.len() > 0 {
        let (next, hotkey) = step(state, events[0]);
        let rest = events.skip(1);
        assert(!releases(events[0], key_code));
        assert(next.down.contains(key_code));
        assert forall|i: int| 0 <= i < rest.len() implies !releases(
            #[trigger] rest[i],
            key_code,
        ) by {
            assert(rest[i] == events[i + 1]);
        }
        law_held_key_sends_nothing(next, rest, key_code);
        match hotkey {
            Some(hotkey) => {
                assert(hotkey.key_code != key_code);
                let all = seq![hotkey].add(sent(next, rest));
                assert(all.skip(1) =~= sent(next, rest));
            },
            None => {},
        }
    }
}

/// A key that is up, goes down and is then held sends exactly one hotkey,
/// at once and with the modifiers held before, until an event says that it
/// went up: the events that follow its first key-down event add none.
pub proof fn law_one_hotkey_per_press(
    state: StateView,
    scan_code: u32,
    key_code: KeyCode,
    events: Seq<KeyEvent>,
)
    requires
        scan_code_key(scan_code) == Some(key_code),
        !state.down.contains(key_code),
        forall|i: int| 0 <= i < events.len() ==> !releases(#[trigger] events[i], key_code),
    ensures
        ({
            let first = KeyEvent { transition: Transition::Down, scan_code };
            let hotkey = Hotkey { key_code, modifiers: Modifiers::of(state.modifiers) };
            let all = sent(state, seq![first].add(events));
            &&& all.len() > 0
            &&& all[0] == hotkey
            &&& all.skip(1) == sent(key_down(state, scan_code).0, events)
            &&& presses(all, key_code) == 1
        }),
{
    let first = KeyEvent { transition: Transition::Down, scan_code };
    let hotkey = Hotkey { key_code, modifiers: Modifiers::of(state.modifiers) };
    let next = key_down(state, scan_code).0;
    let whole = seq![first].add(events);
    assert(whole[0] == first);
    assert(whole.skip(1) =~= events);
    law_held_key_sends_nothing(next, events, key_code);
    let all = sent(state, whole);
    assert(all == seq![hotkey].add(sent(next, events)));
    assert(all.skip(1) =~= sent(next, events));
}

/// One event keeps the modifiers in step with the keys that are down,
/// unless it lets go of one key of a modifier while the other is down.
pub proof fn law_modifiers_track_step(state: StateView, event: KeyEvent)
    requires
        tracks(state),
        !releases_half(state, event),
    ensures
        tracks(step(state, event).0),
{
    let next = step(state, event).0;
    assert forall|modifier: Modifier|
        next.modifiers.contains(modifier) <==> #[trigger] held(next.down, modifier) by {
        assert(state.modifiers.contains(modifier) <==> held(state.down, modifier));
    }
}

/// From the start on, the modifiers taken to be held are exactly those of
/// which a key is down, as long as no event lets go of one key of a modifier
/// while the other is down.
pub proof fn law_modifiers_track(events: Seq<KeyEvent>)
    requires
        !some_releases_half(initial(), events),
    ensures
        tracks(state_after(initial(), events)),
{
    assert(tracks(initial()));
    lemma_tracks_after(initial(), events);
}

proof fn lemma_tracks_after(state: StateView, events: Seq<KeyEvent>)
    requires
        tracks(state),
        !some_releases_half(state, events),
    ensures
        tracks(state_after(state, events)),
    decreases events.len(),
{
    if events.len() > 0 {
        law_modifiers_track_step(state, events[0]);
        lemma_tracks_after(step(state, events[0]).0, events.skip(1));
    }
}

/// A hotkey that is sent carries exactly the modifiers of which a key was
/// down before the event, where the modifiers were in step with the keys.
pub proof fn law_sent_modifiers_are_held(state: StateView, event: KeyEvent, modifier: Modifier)
    requires
        tracks(state),
        step(state, event).1 is Some,
    ensures
        step(state, event).1->0.modifiers@.contains(modifier) <==> held(state.down, modifier),
{
    lemma_of_view(state.modifiers);
}

} // verus!
