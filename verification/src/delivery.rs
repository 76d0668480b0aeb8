//! What reaches the window of the keys and the mouse of the terminal.

use vstd::prelude::*;

use crate::events::{
    Event, KeyEvent, MouseButton, MouseEvent, MouseEventKind, PointerButton,
    WindowEvent,
};
use crate::geometry::{CellSize, CellSpan, Geometry, Position};
use crate::held::{modifier_keys_are_those_held, modifiers_are_released_in_reverse};
use crate::keys::{text_of, Key, KeyCode};
use crate::modifiers::{KeyModifiers, Modifier};
use crate::translate::{
    is_quit, key_events, key_if, modifier_keys, mouse_events, paste_keeps_the_text, reaction_to,
    typed, wrapped, Reaction, ReactionView,
};

verus! {

/// Whether a size is that of one of `cells` cells that share `pixels`, where no cells count as one.
pub open spec fn is_share(size: CellSize, pixels: u32, cells: u16) -> bool {
    &&& size.pixels == pixels
    &&& cells == 0 ==> size.cells == 1
    &&& cells != 0 ==> size.cells == cells
}

/// Whether a position is the middle of the cell in the given column and row.
pub open spec fn is_middle_of(
    position: Position,
    geometry: Geometry,
    column: u16,
    row: u16,
) -> bool {
    &&& position.x.cell == column
    &&& position.y.cell == row
    &&& is_share(position.x.size, geometry.width, geometry.cols)
    &&& is_share(position.y.size, geometry.full_height, geometry.rows)
}

/// Whether the first `k` events press, and the last `k` release in reverse, exactly the keys for the
/// modifiers in `bits`: shift, where `shift` asks for it, control, alt, and one key for super and
/// meta, in this order, which is that of their characters.
pub open spec fn framed_by_modifiers(
    events: Seq<WindowEvent>,
    bits: u8,
    shift: bool,
    k: int,
) -> bool {
    let pressed = events.take(k);
    &&& 0 <= k && 2 * k <= events.len()
    &&& forall|i: int|
        #![trigger events[i]]
        0 <= i < k ==> {
            &&& events[i] matches WindowEvent::KeyPressed { text }
            &&& events[events.len() - 1 - i] == WindowEvent::KeyReleased { text }
            &&& text == '\u{10}' || text == '\u{11}' || text == '\u{12}' || text == '\u{17}'
        }
    &&& forall|i: int, j: int|
        #![trigger events[i], events[j]]
        0 <= i < j < k ==> (events[i]->KeyPressed_text as u32) < (
        events[j]->KeyPressed_text as u32)
    &&& pressed.contains(WindowEvent::KeyPressed { text: '\u{10}' }) <==> shift && bits & 1 == 1
    &&& pressed.contains(WindowEvent::KeyPressed { text: '\u{11}' }) <==> bits & 2 == 2
    &&& pressed.contains(WindowEvent::KeyPressed { text: '\u{12}' }) <==> bits & 4 == 4
    &&& pressed.contains(WindowEvent::KeyPressed { text: '\u{17}' }) <==> bits & 8 == 8 || bits & 32
        == 32
}

/// A key is among the modifier keys exactly when its press is among the presses at the start.
proof fn lemma_pressed(mods: KeyModifiers, shift: bool, inner: Seq<WindowEvent>, key: Key)
    requires
        key == Key::Shift || key == Key::Control || key == Key::Alt || key == Key::Meta,
    ensures
        ({
            let keys = modifier_keys(mods, shift);
            wrapped(mods, shift, inner).take(keys.len() as int).contains(
                WindowEvent::KeyPressed { text: key.code() },
            ) <==> keys.contains(key)
        }),
{
    let keys = modifier_keys(mods, shift);
    let pressed = wrapped(mods, shift, inner).take(keys.len() as int);
    let press = WindowEvent::KeyPressed { text: key.code() };
    modifiers_are_released_in_reverse(mods, shift, inner);
    modifier_keys_are_those_held(mods, shift);
    if keys.contains(key) {
        let i = choose|i: int| 0 <= i < keys.len() && keys[i] == key;
        assert(pressed[i] == press);
    }
    if pressed.contains(press) {
        let i = choose|i: int| 0 <= i < pressed.len() && pressed[i] == press;
        assert(pressed[i] == WindowEvent::KeyPressed { text: keys[i].code() });
        assert(keys[i] == key);
    }
}

/// The modifier keys come in the order of their characters.
proof fn lemma_modifier_order(mods: KeyModifiers, shift: bool, i: int, j: int)
    requires
        0 <= i < j < modifier_keys(mods, shift).len(),
    ensures
        (modifier_keys(mods, shift)[i].code() as u32) < (modifier_keys(mods, shift)[j].code() as u32),
{
    let s = key_if(shift && mods.holds(Modifier::Shift), Key::Shift);
    let c = key_if(mods.holds(Modifier::Control), Key::Control);
    let a = key_if(mods.holds(Modifier::Alt), Key::Alt);
    let m = key_if(mods.holds(Modifier::Super) || mods.holds(Modifier::Meta), Key::Meta);
    let keys = modifier_keys(mods, shift);
    assert(keys == s + c + a + m);
    assert forall|n: int| 0 <= n < keys.len() implies #[trigger] keys[n] == (if n < s.len() {
        Key::Shift
    } else if n < s.len() + c.len() {
        Key::Control
    } else if n < s.len() + c.len() + a.len() {
        Key::Alt
    } else {
        Key::Meta
    }) by {}
    assert(keys[i] != keys[j]);
}

/// Whatever events are wrapped in modifiers reach the window unchanged and in order, between the
/// presses and the releases of the keys for the `k` modifiers held. Without modifiers nothing is
/// added to them.
pub proof fn wrapped_events_reach_the_window(
    mods: KeyModifiers,
    shift: bool,
    inner: Seq<WindowEvent>,
) -> (k: int)
    ensures
        framed_by_modifiers(wrapped(mods, shift, inner), mods.bits, shift, k),
        wrapped(mods, shift, inner).len() == 2 * k + inner.len(),
        forall|i: int|
            #![trigger inner[i]]
            0 <= i < inner.len() ==> wrapped(mods, shift, inner)[k + i] == inner[i],
        mods.bits == 0 ==> k == 0,
{
    let keys = modifier_keys(mods, shift);
    let all = wrapped(mods, shift, inner);
    let k = keys.len() as int;
    modifiers_are_released_in_reverse(mods, shift, inner);
    modifier_keys_are_those_held(mods, shift);
    lemma_pressed(mods, shift, inner, Key::Shift);
    lemma_pressed(mods, shift, inner, Key::Control);
    lemma_pressed(mods, shift, inner, Key::Alt);
    lemma_pressed(mods, shift, inner, Key::Meta);
    assert forall|i: int, j: int| #![trigger all[i], all[j]] 0 <= i < j < k implies (
    all[i]->KeyPressed_text as u32) < (all[j]->KeyPressed_text as u32) by {
        lemma_modifier_order(mods, shift, i, j);
        assert(all[i] == WindowEvent::KeyPressed { text: keys[i].code() });
        assert(all[j] == WindowEvent::KeyPressed { text: keys[j].code() });
    }
    assert forall|i: int| #![trigger all[i]] 0 <= i < k implies {
        &&& all[i] matches WindowEvent::KeyPressed { text }
        &&& all[all.len() - 1 - i] == WindowEvent::KeyReleased { text }
        &&& text == '\u{10}' || text == '\u{11}' || text == '\u{12}' || text == '\u{17}'
    } by {
        assert(all[i] == WindowEvent::KeyPressed { text: keys[i].code() });
    }
    assert forall|i: int| #![trigger inner[i]] 0 <= i < inner.len() implies all[k + i]
        == inner[i] by {
        assert(all.subrange(k, all.len() - k)[i] == all[k + i]);
    }
    if mods.bits == 0 {
        assert(0u8 & 1 == 0 && 0u8 & 2 == 0 && 0u8 & 4 == 0 && 0u8 & 8 == 0 && 0u8 & 32 == 0)
            by (bit_vector);
        if k > 0 {
            assert(keys.contains(keys[0]));
        }
    }
    k
}

/// A button of the mouse that goes down presses the pointer button of the same name, and one that
/// goes up releases it, in the middle of the cell that the mouse is in. No other event of the pointer
/// comes with it, only the keys for the modifiers around it; `k` of them are held.
pub proof fn buttons_reach_the_window(geometry: Geometry, mouse: MouseEvent) -> (k: int)
    requires
        mouse.kind is Down || mouse.kind is Up,
    ensures
        reaction_to(geometry, Event::Mouse(mouse)) == ReactionView::Dispatch(
            mouse_events(geometry, mouse),
        ),
        mouse_events(geometry, mouse).len() == 2 * k + 1,
        framed_by_modifiers(mouse_events(geometry, mouse), mouse.modifiers.bits, true, k),
        mouse.modifiers.bits == 0 ==> k == 0,
        mouse.kind is Down ==> {
            &&& mouse_events(geometry, mouse)[k] matches WindowEvent::PointerPressed {
                position,
                button,
            }
            &&& is_middle_of(position, geometry, mouse.column, mouse.row)
            &&& mouse.kind == MouseEventKind::Down(MouseButton::Left) <==> button
                == PointerButton::Left
            &&& mouse.kind == MouseEventKind::Down(MouseButton::Right) <==> button
                == PointerButton::Right
            &&& mouse.kind == MouseEventKind::Down(MouseButton::Middle) <==> button
                == PointerButton::Middle
        },
        mouse.kind is Up ==> {
            &&& mouse_events(geometry, mouse)[k] matches WindowEvent::PointerReleased {
                position,
                button,
            }
            &&& is_middle_of(position, geometry, mouse.column, mouse.row)
            &&& mouse.kind == MouseEventKind::Up(MouseButton::Left) <==> button
                == PointerButton::Left
            &&& mouse.kind == MouseEventKind::Up(MouseButton::Right) <==> button
                == PointerButton::Right
            &&& mouse.kind == MouseEventKind::Up(MouseButton::Middle) <==> button
                == PointerButton::Middle
        },
{
    let events = mouse_events(geometry, mouse);
    let position = geometry.centre_of(mouse.column, mouse.row);
    let button = match mouse.kind {
        MouseEventKind::Down(MouseButton::Left) => PointerButton::Left,
        MouseEventKind::Down(MouseButton::Right) => PointerButton::Right,
        MouseEventKind::Up(MouseButton::Left) => PointerButton::Left,
        MouseEventKind::Up(MouseButton::Right) => PointerButton::Right,
        _ => PointerButton::Middle,
    };
    let event = if mouse.kind is Down {
        WindowEvent::PointerPressed { position, button }
    } else {
        WindowEvent::PointerReleased { position, button }
    };
    assert(events == wrapped(mouse.modifiers, true, seq![event]));
    let k = wrapped_events_reach_the_window(mouse.modifiers, true, seq![event]);
    assert(seq![event][0] == event);
    assert(events[k + 0] == event);
    k
}

/// A mouse that moves, with a button down or not, moves the pointer to the middle of the cell that
/// it is in, whatever modifiers are held.
pub proof fn moves_reach_the_window(geometry: Geometry, mouse: MouseEvent)
    requires
        mouse.kind is Drag || mouse.kind is Moved,
    ensures
        reaction_to(geometry, Event::Mouse(mouse)) == ReactionView::Dispatch(
            mouse_events(geometry, mouse),
        ),
        mouse_events(geometry, mouse).len() == 1,
        mouse_events(geometry, mouse)[0] matches WindowEvent::PointerMoved { position }
            && is_middle_of(position, geometry, mouse.column, mouse.row),
{
}

/// Whether a distance is the given number of cells, of which `count` share `pixels`.
pub open spec fn is_span(span: CellSpan, cells: int, pixels: u32, count: u16) -> bool {
    span.cells == cells && is_share(span.size, pixels, count)
}

/// A turn of the wheel scrolls by three cells along one axis and not at all along the other: up and
/// left are positive, down and right negative. It does so in the middle of the cell that the mouse
/// is in, whatever modifiers are held.
pub proof fn turns_reach_the_window(geometry: Geometry, mouse: MouseEvent)
    requires
        mouse.kind is ScrollUp || mouse.kind is ScrollDown || mouse.kind is ScrollLeft
            || mouse.kind is ScrollRight,
    ensures
        reaction_to(geometry, Event::Mouse(mouse)) == ReactionView::Dispatch(
            mouse_events(geometry, mouse),
        ),
        mouse_events(geometry, mouse).len() == 1,
        mouse_events(geometry, mouse)[0] matches WindowEvent::PointerScrolled {
            position,
            delta_x,
            delta_y,
        } && {
            let (right, up): (int, int) = if mouse.kind is ScrollUp {
                (0, 3)
            } else if mouse.kind is ScrollDown {
                (0, -3)
            } else if mouse.kind is ScrollLeft {
                (3, 0)
            } else {
                (-3, 0)
            };
            &&& is_middle_of(position, geometry, mouse.column, mouse.row)
            &&& is_span(delta_x, right, geometry.width, geometry.cols)
            &&& is_span(delta_y, up, geometry.full_height, geometry.rows)
        },
{
}

/// Every key that goes down or repeats, has a character and does not quit is passed on, whatever
/// modifiers are held: as its press, or the repetition of it, and its release. Around these come only
/// the keys for the `k` modifiers held, shift among them unless the key is a printable character.
/// Without modifiers there are exactly two events.
pub proof fn keys_reach_the_window(geometry: Geometry, key: KeyEvent) -> (k: int)
    requires
        key.kind is Press || key.kind is Repeat,
        text_of(key.code) is Some,
        !(key.modifiers.bits & 2 == 2 && (key.code == KeyCode::Char('c') || key.code
            == KeyCode::Char('q'))),
    ensures
        reaction_to(geometry, Event::Key(key)) == ReactionView::Dispatch(key_events(key)),
        !is_quit(key),
        key_events(key).len() == 2 * k + 2,
        framed_by_modifiers(key_events(key), key.modifiers.bits, !(key.code is Char), k),
        ({
            let text = text_of(key.code)->Some_0.0;
            &&& key.kind is Press ==> key_events(key)[k] == WindowEvent::KeyPressed { text }
            &&& key.kind is Repeat ==> key_events(key)[k] == WindowEvent::KeyPressRepeated { text }
            &&& key_events(key)[k + 1] == WindowEvent::KeyReleased { text }
        }),
        key.modifiers.bits == 0 ==> k == 0 && key_events(key).len() == 2,
{
    let text = text_of(key.code)->Some_0.0;
    let first = if key.kind is Repeat {
        WindowEvent::KeyPressRepeated { text }
    } else {
        WindowEvent::KeyPressed { text }
    };
    let inner = seq![first, WindowEvent::KeyReleased { text }];
    assert(key_events(key) == wrapped(key.modifiers, !(key.code is Char), inner));
    let k = wrapped_events_reach_the_window(key.modifiers, !(key.code is Char), inner);
    assert(inner[0] == first && inner[1] == WindowEvent::KeyReleased { text });
    assert(key_events(key)[k + 0] == first);
    k
}

/// A key that goes up, and one that the window has no character for, is not passed on.
pub proof fn other_keys_do_nothing(geometry: Geometry, key: KeyEvent)
    requires
        key.kind is Release || text_of(key.code) is None,
    ensures
        reaction_to(geometry, Event::Key(key)) == ReactionView::Dispatch(Seq::empty()),
        key_events(key) == Seq::<WindowEvent>::empty(),
        !is_quit(key),
{
}

/// Control with `c` or `q` quits when the key goes down or repeats, whatever other modifiers are
/// held, and nothing else that the terminal reports does.
pub proof fn quitting_takes_control(geometry: Geometry, event: Event)
    ensures
        reaction_to(geometry, event) is Quit <==> {
            &&& event matches Event::Key(key)
            &&& key.kind is Press || key.kind is Repeat
            &&& key.modifiers.bits & 2 == 2
            &&& key.code == KeyCode::Char('c') || key.code == KeyCode::Char('q')
        },
        event matches Event::Key(key) ==> (is_quit(key) <==> reaction_to(geometry, event) is Quit),
{
}

/// The window learns when the terminal gains or loses focus; a new size makes the backend ask for
/// the size of the terminal, and nothing else does.
pub proof fn focus_and_size_are_noticed(geometry: Geometry, event: Event)
    ensures
        event is FocusGained ==> reaction_to(geometry, event) == ReactionView::Dispatch(
            seq![WindowEvent::WindowActiveChanged(true)],
        ),
        event is FocusLost ==> reaction_to(geometry, event) == ReactionView::Dispatch(
            seq![WindowEvent::WindowActiveChanged(false)],
        ),
        reaction_to(geometry, event) is SyncGeometry <==> event is Resize,
{
}

/// Pasted text reaches the window as a press and a release of each of its characters, in order, and
/// nothing else.
pub proof fn pasted_text_reaches_the_window(geometry: Geometry, event: Event)
    ensures
        event matches Event::Paste(text) ==> {
            &&& reaction_to(geometry, event) == ReactionView::Dispatch(typed(text@))
            &&& typed(text@).len() == 2 * text@.len()
            &&& forall|i: int|
                #![trigger text@[i]]
                0 <= i < text@.len() ==> {
                    &&& typed(text@)[2 * i] == WindowEvent::KeyPressed { text: text@[i] }
                    &&& typed(text@)[2 * i + 1] == WindowEvent::KeyReleased { text: text@[i] }
                }
        },
{
    if let Event::Paste(text) = event {
        paste_keeps_the_text(text@, Seq::empty());
    }
}

/// The view of a reaction shows which one it is and all of its events.
pub proof fn views_show_the_reaction(reaction: Reaction)
    ensures
        reaction is Quit <==> reaction@ is Quit,
        reaction is SyncGeometry <==> reaction@ is SyncGeometry,
        reaction matches Reaction::Dispatch(events) ==> reaction@ == ReactionView::Dispatch(
            events@,
        ),
{
}

} // verus!
