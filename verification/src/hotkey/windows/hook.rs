use vstd::prelude::*;
use std::collections::HashMap;
use std::collections::hash_map::Entry;
use crate::hotkey::{ConsumePreference, Hotkey, KeyCode, lemma_slot_injective};
use crate::hotkey::windows::scan_code::{key_scan_code, resolvable_scan_code};

verus! {

/// `char::from_u32` of std: the character with the given number, and `None`
/// for a number that is no Unicode scalar value (a surrogate, or a number
/// above 0x10FFFF).
pub assume_specification[ char::from_u32 ](i: u32) -> (r: Option<char>)
    ensures
        r == spec_char_of(i),
;

/// `to_string` of std on a `char`: the string made of that one character.
#[verifier::external_body]
fn char_to_string(c: char) -> (s: String)
    ensures
        s@ == seq![c],
{
    c.to_string()
}

/// The character with the number `i`, if `i` is a Unicode scalar value.
pub open spec fn spec_char_of(i: u32) -> Option<char> {
    if i <= 0xD7FF || (0xE000 <= i && i <= 0x10FFFF) {
        Some(i as char)
    } else {
        None
    }
}

/// Whether the platform's way of watching the keyboard can honour the
/// consume preference. It can only watch: a preference that demands that
/// events are taken away cannot be met.
pub open spec fn spec_supports(consume: ConsumePreference) -> bool {
    consume != ConsumePreference::MustConsume
}

/// Whether the platform's way of watching the keyboard can honour the
/// consume preference. This is to be asked before any thread is started.
pub fn supports(consume: ConsumePreference) -> (r: bool)
    ensures
        r == spec_supports(consume),
{
    !matches!(consume, ConsumePreference::MustConsume)
}

/// The result of making a hook, from the consume preference and from what
/// the one who started the hook thread heard of it: `None` if the thread
/// ended without an answer, else its answer, which is the identifier of the
/// thread or its error.
pub open spec fn spec_new(
    consume: ConsumePreference,
    answer: Option<Result<u32, crate::hotkey::Error>>,
) -> Result<u32, crate::hotkey::Error> {
    if !spec_supports(consume) {
        Err(crate::hotkey::Error::UnmatchedPreference)
    } else {
        match answer {
            None => Err(
                crate::hotkey::Error::Platform(crate::hotkey::windows::Error::ThreadStopped),
            ),
            Some(Err(error)) => Err(error),
            Some(Ok(thread_id)) => Ok(thread_id),
        }
    }
}

/// What registering does to the callbacks, and what it answers: a hotkey
/// that has a callback keeps it, and the call fails.
pub open spec fn spec_register<C>(callbacks: Map<Hotkey, C>, hotkey: Hotkey, callback: C) -> (
    Map<Hotkey, C>,
    Result<(), crate::hotkey::Error>,
) {
    if callbacks.contains_key(hotkey) {
        (callbacks, Err(crate::hotkey::Error::AlreadyRegistered))
    } else {
        (callbacks.insert(hotkey, callback), Ok(()))
    }
}

/// What unregistering does to the callbacks, and what it answers: for a
/// hotkey without a callback nothing changes, and the call fails.
pub open spec fn spec_unregister<C>(callbacks: Map<Hotkey, C>, hotkey: Hotkey) -> (
    Map<Hotkey, C>,
    Result<(), crate::hotkey::Error>,
) {
    if callbacks.contains_key(hotkey) {
        (callbacks.remove(hotkey), Ok(()))
    } else {
        (callbacks, Err(crate::hotkey::Error::NotRegistered))
    }
}

/// A question to the keyboard layout that is in use.
#[derive(Clone, Copy, Debug, PartialEq, Eq, Structural)]
pub enum Query {
    /// Which virtual key has this scan code?
    VirtualKey(u32),
    /// Which character does this virtual key produce?
    Character(u32),
}

/// Where the resolution of a key to the character it produces stands.
#[derive(Clone, Debug, PartialEq, Eq)]
pub enum Resolve {
    /// The keyboard layout has to be asked; its answer goes to
    /// [`resolve_next`], together with the question.
    Ask(Query),
    /// The resolution has ended, with the character as a string or without
    /// one.
    Done(Option<String>),
}

/// Where a resolution stands, as mathematics.
pub enum ResolveView {
    Ask(Query),
    Done(Option<Seq<char>>),
}

impl View for Resolve {
    type V = ResolveView;

    open spec fn view(&self) -> ResolveView {
        match self {
            Resolve::Ask(query) => ResolveView::Ask(*query),
            Resolve::Done(Some(text)) => ResolveView::Done(Some(text@)),
            Resolve::Done(None) => ResolveView::Done(None),
        }
    }
}

/// The bit of a character number by which the keyboard layout marks a dead
/// key; it is no part of the character.
pub const DEAD_KEY_BIT: u32 = 0x8000_0000;

/// The first step of resolving a key: the key has to be one that can produce
/// a character; the layout is then asked for the virtual key of its scan
/// code.
pub open spec fn spec_resolve_first(key_code: KeyCode) -> ResolveView {
    match key_scan_code(key_code) {
        Some(scan_code) => ResolveView::Ask(Query::VirtualKey(scan_code)),
        None => ResolveView::Done(None),
    }
}

/// The step of a resolution that follows an answer of the keyboard layout.
/// An answer of 0 says that the layout has nothing, and ends the resolution
/// without a character. A virtual key leads to the question for its
/// character. A character number gives the character, once the dead key bit
/// is taken off, if what remains is a character.
pub open spec fn spec_resolve_next(query: Query, answer: u32) -> ResolveView {
    if answer == 0 {
        ResolveView::Done(None)
    } else {
        match query {
            Query::VirtualKey(_) => ResolveView::Ask(Query::Character(answer)),
            Query::Character(_) => match spec_char_of(answer & !DEAD_KEY_BIT) {
                Some(c) => ResolveView::Done(Some(seq![c])),
                None => ResolveView::Done(None),
            },
        }
    }
}

/// Takes one answer of the keyboard layout to the question `query`, and says
/// how the resolution goes on.
pub fn resolve_next(query: Query, answer: u32) -> (r: Resolve)
    ensures
        r@ == spec_resolve_next(query, answer),
{
    if answer == 0 {
        return Resolve::Done(None);
    }
    match query {
        Query::VirtualKey(_) => Resolve::Ask(Query::Character(answer)),
        Query::Character(_) => {
            let number = answer & !DEAD_KEY_BIT;
            match char::from_u32(number) {
                Some(c) => Resolve::Done(Some(char_to_string(c))),
                None => Resolve::Done(None),
            }
        },
    }
}

/// The owner of the hotkeys: the callbacks by hotkey, and the thread that
/// serves the keyboard hook. Its view is the map from each hotkey that has a
/// callback to its callback.
pub struct Hook<C: FnMut()> {
    thread_id: u32,
    hotkeys: HashMap<u16, C>,
}

impl<C: FnMut()> View for Hook<C> {
    type V = Map<Hotkey, C>;

    closed spec fn view(&self) -> Map<Hotkey, C> {
        Map::new(
            |hotkey: Hotkey| self.hotkeys@.contains_key(hotkey.spec_slot()),
            |hotkey: Hotkey| self.hotkeys@[hotkey.spec_slot()],
        )
    }
}

impl<C: FnMut()> Hook<C> {
    /// Every callback can be called.
    pub closed spec fn wf(&self) -> bool {
        forall|slot: u16| #[trigger]
            self.hotkeys@.contains_key(slot) ==> call_requires(self.hotkeys@[slot], ())
    }

    /// The thread that serves the keyboard hook.
    pub closed spec fn spec_thread_id(&self) -> u32 {
        self.thread_id
    }

    /// Makes the hook, once the hook thread has answered or ended. The
    /// consume preference is looked at first: where it cannot be met, that
    /// is the error, whatever the thread said. A hook that is made has no
    /// callbacks yet.
    pub fn new(consume: ConsumePreference, answer: Option<Result<u32, crate::hotkey::Error>>) -> (r:
        Result<Self, crate::hotkey::Error>)
        ensures
            match spec_new(consume, answer) {
                Ok(thread_id) => r matches Ok(hook) && hook.wf() && hook.spec_thread_id()
                    == thread_id && hook@ == Map::<Hotkey, C>::empty(),
                Err(error) => r matches Err(e) && e == error,
            },
    {
        if !supports(consume) {
            return Err(crate::hotkey::Error::UnmatchedPreference);
        }
        let thread_id = match answer {
            None => {
                return Err(
                    crate::hotkey::Error::Platform(crate::hotkey::windows::Error::ThreadStopped),
                );
            },
            Some(Err(error)) => {
                return Err(error);
            },
            Some(Ok(thread_id)) => thread_id,
        };
        let hook = Hook { thread_id, hotkeys: HashMap::new() };
        assert(hook@ =~= Map::<Hotkey, C>::empty());
        Ok(hook)
    }

    /// The thread that serves the keyboard hook: the one to which the exit
    /// message goes when the hook is dropped.
    pub fn thread_id(&self) -> (r: u32)
        ensures
            r == self.spec_thread_id(),
    {
        self.thread_id
    }

    /// Gives `hotkey` the callback `callback`, unless it has one already.
    pub fn register(&mut self, hotkey: Hotkey, callback: C) -> (r: Result<(), crate::hotkey::Error>)
        requires
            old(self).wf(),
            call_requires(callback, ()),
        ensures
            final(self).wf(),
            final(self).spec_thread_id() == old(self).spec_thread_id(),
            final(self)@ == spec_register(old(self)@, hotkey, callback).0,
            r == spec_register(old(self)@, hotkey, callback).1,
    {
        let slot = hotkey.slot();
        let r = match self.hotkeys.entry(slot) {
            Entry::Vacant(vacant) => {
                vacant.insert(callback);
                Ok(())
            },
            Entry::Occupied(_) => Err(crate::hotkey::Error::AlreadyRegistered),
        };
        proof {
            let expected = spec_register(old(self)@, hotkey, callback).0;
            assert forall|other: Hotkey| #[trigger]
                self@.contains_key(other) == expected.contains_key(other) && (self@.contains_key(
                    other,
                ) ==> self@[other] == expected[other]) by {
                if other.spec_slot() == slot {
                    lemma_slot_injective(other, hotkey);
                }
            }
            assert(self@ =~= expected);
        }
        r
    }

    /// Takes the callback of `hotkey` away, if it has one.
    pub fn unregister(&mut self, hotkey: Hotkey) -> (r: Result<(), crate::hotkey::Error>)
        requires
            old(self).wf(),
        ensures
            final(self).wf(),
            final(self).spec_thread_id() == old(self).spec_thread_id(),
            final(self)@ == spec_unregister(old(self)@, hotkey).0,
            r == spec_unregister(old(self)@, hotkey).1,
    {
        let slot = hotkey.slot();
        let r = if self.hotkeys.remove(&slot).is_some() {
            Ok(())
        } else {
            Err(crate::hotkey::Error::NotRegistered)
        };
        proof {
            let expected = spec_unregister(old(self)@, hotkey).0;
            assert forall|other: Hotkey| #[trigger]
                self@.contains_key(other) == expected.contains_key(other) && (self@.contains_key(
                    other,
                ) ==> self@[other] == expected[other]) by {
                if other.spec_slot() == slot {
                    lemma_slot_injective(other, hotkey);
                }
            }
            assert(self@ =~= expected);
        }
        r
    }

    /// Whether `hotkey` has a callback.
    pub fn is_registered(&self, hotkey: Hotkey) -> (r: bool)
        ensures
            r == self@.contains_key(hotkey),
    {
        let slot = hotkey.slot();
        self.hotkeys.contains_key(&slot)
    }

    /// Takes one hotkey from the queue of the dispatcher: the callback of
    /// exactly this key and these modifiers is called, once, and has
    /// returned when this returns. A hotkey without a callback is passed
    /// over in silence. Which hotkeys have which callbacks stays as it was.
    /// Returns whether a callback was called.
    pub fn dispatch(&mut self, hotkey: Hotkey) -> (invoked: bool)
        requires
            old(self).wf(),
        ensures
            final(self).wf(),
            final(self).spec_thread_id() == old(self).spec_thread_id(),
            final(self)@ == old(self)@,
            invoked == old(self)@.contains_key(hotkey),
            invoked ==> call_ensures(old(self)@[hotkey], (), ()),
    {
        let slot = hotkey.slot();
        let invoked = match self.hotkeys.entry(slot) {
            Entry::Occupied(occupied) => {
                let callback = occupied.into_mut();
                callback();
                true
            },
            Entry::Vacant(_) => false,
        };
        assert(self@ =~= old(self)@);
        invoked
    }

    /// Starts to resolve the key to the character that it produces under the
    /// keyboard layout in use. A key that cannot produce a character ends the
    /// resolution at once; for any other, the layout is asked.
    pub fn try_resolve(&self, key_code: KeyCode) -> (r: Resolve)
        ensures
            r@ == spec_resolve_first(key_code),
    {
        match resolvable_scan_code(key_code) {
            Some(scan_code) => Resolve::Ask(Query::VirtualKey(scan_code)),
            None => Resolve::Done(None),
        }
    }
}

/// The character that a key produces under a keyboard layout, where
/// `layout` gives the answer of the layout to each question: nothing for a
/// key that cannot produce a character, nothing where the layout has no
/// virtual key for its scan code or no character for the virtual key, else
/// the character without the dead key bit, if that is a character.
pub open spec fn resolved(key_code: KeyCode, layout: spec_fn(Query) -> u32) -> Option<Seq<char>> {
    match key_scan_code(key_code) {
        None => None,
        Some(scan_code) => {
            let virtual_key = layout(Query::VirtualKey(scan_code));
            let character = layout(Query::Character(virtual_key));
            if virtual_key == 0 || character == 0 {
                None
            } else {
                match spec_char_of(character & !DEAD_KEY_BIT) {
                    Some(c) => Some(seq![c]),
                    None => None,
                }
            }
        },
    }
}

/// The step that follows a step of a resolution under a keyboard layout:
/// the question is answered by the layout; a resolution that is done stays
/// done.
pub open spec fn answered(step: ResolveView, layout: spec_fn(Query) -> u32) -> ResolveView {
    match step {
        ResolveView::Ask(query) => spec_resolve_next(query, layout(query)),
        ResolveView::Done(_) => step,
    }
}

/// A resolution is done after two questions at most, whatever the keyboard
/// layout answers, and what it ends with is the character that the key
/// produces under that layout.
pub proof fn law_resolution(key_code: KeyCode, layout: spec_fn(Query) -> u32)
    ensures
        answered(answered(spec_resolve_first(key_code), layout), layout) == ResolveView::Done(
            resolved(key_code, layout),
        ),
{
}

/// A second registration of a hotkey fails with `AlreadyRegistered`, whether
/// the first one succeeded or not, and leaves every callback as it was: the
/// hotkey keeps the callback it had.
pub proof fn law_register_twice<C>(callbacks: Map<Hotkey, C>, hotkey: Hotkey, first: C, second: C)
    ensures
        ({
            let (once, _) = spec_register(callbacks, hotkey, first);
            let (twice, answer) = spec_register(once, hotkey, second);
            &&& answer == Err::<(), crate::hotkey::Error>(
                crate::hotkey::Error::AlreadyRegistered,
            )
            &&& twice == once
            &&& twice.contains_key(hotkey)
            &&& !callbacks.contains_key(hotkey) ==> twice[hotkey] == first
            &&& callbacks.contains_key(hotkey) ==> twice[hotkey] == callbacks[hotkey]
        }),
{
}

/// Unregistering a hotkey that has no callback fails with `NotRegistered`
/// and changes nothing.
pub proof fn law_unregister_absent<C>(callbacks: Map<Hotkey, C>, hotkey: Hotkey)
    requires
        !callbacks.contains_key(hotkey),
    ensures
        spec_unregister(callbacks, hotkey) == (
            callbacks,
            Err::<(), crate::hotkey::Error>(crate::hotkey::Error::NotRegistered),
        ),
{
}

/// Registering a hotkey that had no callback and unregistering it again
/// gives back the callbacks as they were, and both calls succeed.
pub proof fn law_register_unregister<C>(callbacks: Map<Hotkey, C>, hotkey: Hotkey, callback: C)
    requires
        !callbacks.contains_key(hotkey),
    ensures
        ({
            let (with, first) = spec_register(callbacks, hotkey, callback);
            let (without, second) = spec_unregister(with, hotkey);
            &&& first is Ok
            &&& second is Ok
            &&& without == callbacks
        }),
{
    let (with, _) = spec_register(callbacks, hotkey, callback);
    assert(with.remove(hotkey) =~= callbacks);
}

/// Registering or unregistering one hotkey leaves the callback of every
/// other hotkey as it was.
pub proof fn law_other_hotkeys_untouched<C>(
    callbacks: Map<Hotkey, C>,
    hotkey: Hotkey,
    callback: C,
    other: Hotkey,
)
    requires
        other != hotkey,
    ensures
        spec_register(callbacks, hotkey, callback).0.contains_key(other) == callbacks.contains_key(
            other,
        ),
        spec_unregister(callbacks, hotkey).0.contains_key(other) == callbacks.contains_key(other),
        callbacks.contains_key(other) ==> spec_register(callbacks, hotkey, callback).0[other]
            == callbacks[other] && spec_unregister(callbacks, hotkey).0[other] == callbacks[other],
{
}

} // verus!
