//! Which keys the window takes to be down while it is handed events.

use vstd::prelude::*;

use crate::events::{button_of, Event, KeyEventKind, MouseEventKind, WindowEvent};
use crate::geometry::Geometry;
use crate::keys::{text_of, Key};
use crate::modifiers::{KeyModifiers, Modifier};
use crate::translate::{
    key_if, lemma_typed_push, modifier_keys, presses, reaction_to, releases, stroke, typed, wrapped,
    ReactionView,
};

verus! {

/// The keys, by their characters, that the window takes to be down after the given events, if the
/// keys in `before` were down at first.
pub open spec fn down_after(before: Set<char>, events: Seq<WindowEvent>) -> Set<char>
    decreases events.len(),
{
    if events.len() == 0 {
        before
    } else {
        let down = down_after(before, events.drop_last());
        match events.last() {
            WindowEvent::KeyPressed { text } => down.insert(text),
            WindowEvent::KeyPressRepeated { text } => down.insert(text),
            WindowEvent::KeyReleased { text } => down.remove(text),
            _ => down,
        }
    }
}

/// Whether one of the keys is known by the character `c`.
pub open spec fn has_code(keys: Seq<Key>, c: char) -> bool {
    exists|i: int| 0 <= i < keys.len() && #[trigger] keys[i].code() == c
}

/// Events can be handed over in two portions.
proof fn lemma_down_after_both(before: Set<char>, a: Seq<WindowEvent>, b: Seq<WindowEvent>)
    ensures
        down_after(before, a + b) == down_after(down_after(before, a), b),
    decreases b.len(),
{
    if b.len() == 0 {
        assert(a + b =~= a);
    } else {
        lemma_down_after_both(before, a, b.drop_last());
        assert((a + b).drop_last() =~= a + b.drop_last());
        assert((a + b).last() == b.last());
    }
}

/// Presses put exactly their keys down.
proof fn lemma_down_after_presses(before: Set<char>, keys: Seq<Key>, c: char)
    ensures
        down_after(before, presses(keys)).contains(c) <==> before.contains(c) || has_code(keys, c),
    decreases keys.len(),
{
    if keys.len() > 0 {
        let less = keys.drop_last();
        lemma_down_after_presses(before, less, c);
        assert(presses(keys).drop_last() =~= presses(less));
        assert(presses(keys).last() == WindowEvent::KeyPressed { text: keys.last().code() });
        if has_code(less, c) {
            let i = choose|i: int| 0 <= i < less.len() && #[trigger] less[i].code() == c;
            assert(keys[i].code() == c);
        }
        if has_code(keys, c) && keys.last().code() != c {
            let i = choose|i: int| 0 <= i < keys.len() && #[trigger] keys[i].code() == c;
            assert(less[i].code() == c);
        }
    }
}

/// Releases put exactly their keys up.
proof fn lemma_down_after_releases(before: Set<char>, keys: Seq<Key>, c: char)
    ensures
        down_after(before, releases(keys)).contains(c) <==> before.contains(c) && !has_code(
            keys,
            c,
        ),
    decreases keys.len(),
{
    if keys.len() > 0 {
        let rest = keys.drop_first();
        lemma_down_after_releases(before, rest, c);
        assert(releases(keys).drop_last() =~= releases(rest));
        assert(releases(keys).last() == WindowEvent::KeyReleased { text: keys[0].code() });
        if has_code(rest, c) {
            let i = choose|i: int| 0 <= i < rest.len() && #[trigger] rest[i].code() == c;
            assert(keys[i + 1].code() == c);
        }
        if has_code(keys, c) && keys[0].code() != c {
            let i = choose|i: int| 0 <= i < keys.len() && #[trigger] keys[i].code() == c;
            assert(rest[i - 1].code() == c);
        }
    }
}

/// A stroke leaves no key down that was up before it.
proof fn lemma_stroke_adds_nothing(before: Set<char>, kind: KeyEventKind, text: char)
    ensures
        down_after(before, stroke(kind, text)) == before.remove(text),
{
    let both = stroke(kind, text);
    let first = both.drop_last();
    assert(first.drop_last() =~= Seq::<WindowEvent>::empty());
    assert(down_after(before, first.drop_last()) == before);
    assert(first.last() == both[0]);
    assert(down_after(before, first) == before.insert(text));
    assert(before.insert(text).remove(text) =~= before.remove(text));
}

/// While the events inside [`wrapped`] reach the window, exactly the keys that were down before and
/// the modifier keys are down; afterwards no modifier key is.
pub proof fn modifiers_are_down_meanwhile(
    before: Set<char>,
    mods: KeyModifiers,
    include_shift: bool,
    events: Seq<WindowEvent>,
    c: char,
)
    ensures
        ({
            let keys = modifier_keys(mods, include_shift);
            let meanwhile = down_after(before, presses(keys));
            &&& meanwhile.contains(c) <==> before.contains(c) || has_code(keys, c)
            &&& down_after(before, wrapped(mods, include_shift, events)).contains(c)
                <==> down_after(meanwhile, events).contains(c) && !has_code(keys, c)
        }),
{
    let keys = modifier_keys(mods, include_shift);
    let meanwhile = down_after(before, presses(keys));
    lemma_down_after_presses(before, keys, c);
    lemma_down_after_both(before, presses(keys), events);
    lemma_down_after_both(before, presses(keys) + events, releases(keys));
    lemma_down_after_releases(down_after(meanwhile, events), keys, c);
}

/// The modifier keys that are pressed are those in `mods`, each once. Shift is among them only
/// where it is asked for, and super and meta share one key.
pub proof fn modifier_keys_are_those_held(mods: KeyModifiers, include_shift: bool)
    ensures
        ({
            let keys = modifier_keys(mods, include_shift);
            &&& keys.no_duplicates()
            &&& keys.contains(Key::Shift) <==> include_shift && mods.holds(Modifier::Shift)
            &&& keys.contains(Key::Control) <==> mods.holds(Modifier::Control)
            &&& keys.contains(Key::Alt) <==> mods.holds(Modifier::Alt)
            &&& keys.contains(Key::Meta) <==> mods.holds(Modifier::Super) || mods.holds(
                Modifier::Meta,
            )
            &&& forall|i: int|
                0 <= i < keys.len() ==> (#[trigger] keys[i] == Key::Shift || keys[i] == Key::Control
                    || keys[i] == Key::Alt || keys[i] == Key::Meta)
        }),
{
    let s = key_if(include_shift && mods.holds(Modifier::Shift), Key::Shift);
    let c = key_if(mods.holds(Modifier::Control), Key::Control);
    let a = key_if(mods.holds(Modifier::Alt), Key::Alt);
    let m = key_if(mods.holds(Modifier::Super) || mods.holds(Modifier::Meta), Key::Meta);
    let keys = modifier_keys(mods, include_shift);
    assert(keys == s + c + a + m);
    if s.len() > 0 {
        assert(keys[0] == Key::Shift);
    }
    if c.len() > 0 {
        assert(keys[s.len() as int] == Key::Control);
    }
    if a.len() > 0 {
        assert(keys[(s.len() + c.len()) as int] == Key::Alt);
    }
    if m.len() > 0 {
        assert(keys[(s.len() + c.len() + a.len()) as int] == Key::Meta);
    }
}

/// The modifier keys are released in the reverse of the order in which they were pressed, with the
/// events in between.
pub proof fn modifiers_are_released_in_reverse(
    mods: KeyModifiers,
    include_shift: bool,
    events: Seq<WindowEvent>,
)
    ensures
        ({
            let keys = modifier_keys(mods, include_shift);
            let all = wrapped(mods, include_shift, events);
            &&& all.len() == 2 * keys.len() + events.len()
            &&& all.subrange(keys.len() as int, all.len() - keys.len()) == events
            &&& forall|i: int|
                #![trigger keys[i]]
                0 <= i < keys.len() ==> {
                    &&& all[i] == WindowEvent::KeyPressed { text: keys[i].code() }
                    &&& all[all.len() - 1 - i] == WindowEvent::KeyReleased { text: keys[i].code() }
                }
        }),
{
    let keys = modifier_keys(mods, include_shift);
    let all = wrapped(mods, include_shift, events);
    assert(all.subrange(keys.len() as int, all.len() - keys.len()) =~= events);
    assert forall|i: int| #![trigger keys[i]] 0 <= i < keys.len() implies {
        &&& all[i] == WindowEvent::KeyPressed { text: keys[i].code() }
        &&& all[all.len() - 1 - i] == WindowEvent::KeyReleased { text: keys[i].code() }
    } by {
        assert(all[i] == presses(keys)[i]);
        assert(all[all.len() - 1 - i] == releases(keys)[keys.len() - 1 - i]);
        assert(keys.reverse()[keys.len() - 1 - i] == keys[i]);
    }
}

/// Whatever the terminal reports, the events handed to the window leave no key down that was up
/// before: every key that is pressed is released again.
pub proof fn no_key_stays_down(before: Set<char>, geometry: Geometry, event: Event)
    ensures
        reaction_to(geometry, event) matches ReactionView::Dispatch(events) ==> down_after(
            before,
            events,
        ).subset_of(before),
{
    if let ReactionView::Dispatch(events) = reaction_to(geometry, event) {
        match event {
            Event::Key(key) => {
                if let Some((text, is_char)) = text_of(key.code) {
                    if key.kind != KeyEventKind::Release {
                        let inner = stroke(key.kind, text);
                        let keys = modifier_keys(key.modifiers, !is_char);
                        let meanwhile = down_after(before, presses(keys));
                        lemma_stroke_adds_nothing(meanwhile, key.kind, text);
                        lemma_wrapped_adds_nothing(before, key.modifiers, !is_char, inner);
                    }
                }
            },
            Event::Mouse(mouse) => {
                let position = geometry.centre_of(mouse.column, mouse.row);
                match mouse.kind {
                    MouseEventKind::Down(button) => {
                        let e = WindowEvent::PointerPressed { position, button: button_of(button) };
                        lemma_pointer_event_alone(
                            down_after(before, presses(modifier_keys(mouse.modifiers, true))),
                            e,
                        );
                        lemma_wrapped_adds_nothing(before, mouse.modifiers, true, seq![e]);
                    },
                    MouseEventKind::Up(button) => {
                        let e = WindowEvent::PointerReleased { position, button: button_of(button) };
                        lemma_pointer_event_alone(
                            down_after(before, presses(modifier_keys(mouse.modifiers, true))),
                            e,
                        );
                        lemma_wrapped_adds_nothing(before, mouse.modifiers, true, seq![e]);
                    },
                    _ => {
                        lemma_pointer_event_alone(before, events[0]);
                        assert(events =~= seq![events[0]]);
                    },
                }
            },
            Event::FocusGained | Event::FocusLost => {
                lemma_pointer_event_alone(before, events[0]);
                assert(events =~= seq![events[0]]);
            },
            Event::Paste(text) => {
                lemma_typed_adds_nothing(before, text@);
            },
            Event::Resize(_, _) => {},
        }
    }
}

/// An event that is none of a key changes no key.
proof fn lemma_pointer_event_alone(before: Set<char>, event: WindowEvent)
    requires
        !(event is KeyPressed),
        !(event is KeyPressRepeated),
        !(event is KeyReleased),
    ensures
        down_after(before, seq![event]) == before,
{
    let one = seq![event];
    assert(one.drop_last() =~= Seq::<WindowEvent>::empty());
    assert(down_after(before, one.drop_last()) == before);
    assert(one.last() == event);
}

/// Wrapping events that leave no key down leaves no key down.
proof fn lemma_wrapped_adds_nothing(
    before: Set<char>,
    mods: KeyModifiers,
    include_shift: bool,
    events: Seq<WindowEvent>,
)
    requires
        ({
            let meanwhile = down_after(before, presses(modifier_keys(mods, include_shift)));
            down_after(meanwhile, events).subset_of(meanwhile)
        }),
    ensures
        down_after(before, wrapped(mods, include_shift, events)).subset_of(before),
{
    assert forall|c: char|
        down_after(before, wrapped(mods, include_shift, events)).contains(
            c,
        ) implies before.contains(c) by {
        modifiers_are_down_meanwhile(before, mods, include_shift, events, c);
    }
}

/// Typing leaves no key down.
proof fn lemma_typed_adds_nothing(before: Set<char>, text: Seq<char>)
    ensures
        down_after(before, typed(text)).subset_of(before),
    decreases text.len(),
{
    if text.len() == 0 {
        assert(typed(text) =~= Seq::<WindowEvent>::empty());
    } else {
        let (less, ch) = (text.drop_last(), text.last());
        lemma_typed_adds_nothing(before, less);
        lemma_typed_push(less, ch);
        assert(less.push(ch) =~= text);
        lemma_down_after_both(before, typed(less), stroke(KeyEventKind::Press, ch));
        lemma_stroke_adds_nothing(down_after(before, typed(less)), KeyEventKind::Press, ch);
    }
}

} // verus!
