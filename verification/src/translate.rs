//! Translation of terminal events into window events.

use vstd::prelude::*;

use crate::events::{
    button_of, map_button, Event, KeyEvent, KeyEventKind, MouseEvent, MouseEventKind, WindowEvent,
};
use crate::geometry::{CellSpan, Geometry, Position};
use crate::keys::{key_text, keycode_to_text, text_of, Key, KeyCode};
use crate::modifiers::{KeyModifiers, Modifier};

verus! {

/// Number of cells that one turn of the wheel scrolls by.
pub const SCROLL_CELLS: i32 = 3;

/// What the backend does about a terminal event.
#[derive(PartialEq, Eq, Debug)]
pub enum Reaction {
    /// Stop the event loop.
    Quit,
    /// Ask the terminal for its size again, then do what
    /// [`after_resize`](crate::event_loop::after_resize) says.
    SyncGeometry,
    /// Hand these events to the window, in this order.
    Dispatch(Vec<WindowEvent>),
}

/// A [`Reaction`] with its events as a sequence.
#[verifier::ext_equal]
pub enum ReactionView {
    /// See [`Reaction::Quit`].
    Quit,
    /// See [`Reaction::SyncGeometry`].
    SyncGeometry,
    /// See [`Reaction::Dispatch`].
    Dispatch(Seq<WindowEvent>),
}

impl View for Reaction {
    type V = ReactionView;

    open spec fn view(&self) -> ReactionView {
        match *self {
            Reaction::Quit => ReactionView::Quit,
            Reaction::SyncGeometry => ReactionView::SyncGeometry,
            Reaction::Dispatch(events) => ReactionView::Dispatch(events@),
        }
    }
}

/// `key` alone if `wanted`, else nothing.
pub open spec fn key_if(wanted: bool, key: Key) -> Seq<Key> {
    if wanted { seq![key] } else { Seq::empty() }
}

/// The window's keys for the modifiers in `mods`, in the order in which they are pressed.
pub open spec fn modifier_keys(mods: KeyModifiers, include_shift: bool) -> Seq<Key> {
    key_if(include_shift && mods.holds(Modifier::Shift), Key::Shift)
        + key_if(mods.holds(Modifier::Control), Key::Control)
        + key_if(mods.holds(Modifier::Alt), Key::Alt)
        + key_if(mods.holds(Modifier::Super) || mods.holds(Modifier::Meta), Key::Meta)
}

/// Presses of the given keys, in order.
pub open spec fn presses(keys: Seq<Key>) -> Seq<WindowEvent> {
    keys.map_values(|key: Key| WindowEvent::KeyPressed { text: key.code() })
}

/// Releases of the given keys, last key first.
pub open spec fn releases(keys: Seq<Key>) -> Seq<WindowEvent> {
    keys.reverse().map_values(|key: Key| WindowEvent::KeyReleased { text: key.code() })
}

/// `events` between the presses and the releases of the modifiers in `mods`.
pub open spec fn wrapped(
    mods: KeyModifiers,
    include_shift: bool,
    events: Seq<WindowEvent>,
) -> Seq<WindowEvent> {
    presses(modifier_keys(mods, include_shift)) + events + releases(
        modifier_keys(mods, include_shift),
    )
}

/// Lists the window's keys for the modifiers in `mods`.
fn held_keys(mods: KeyModifiers, include_shift: bool) -> (held: Vec<Key>)
    ensures
        held@ == modifier_keys(mods, include_shift),
{
    let mut held: Vec<Key> = Vec::new();
    if include_shift && mods.contains(Modifier::Shift) {
        held.push(Key::Shift);
    }
    if mods.contains(Modifier::Control) {
        held.push(Key::Control);
    }
    if mods.contains(Modifier::Alt) {
        held.push(Key::Alt);
    }
    if mods.contains(Modifier::Super) || mods.contains(Modifier::Meta) {
        held.push(Key::Meta);
    }
    held
}

/// Presses the modifier keys in `mods`, lets `events` follow, then releases the keys in reverse, so
/// that the window sees a clean combination of modifiers and events. The window learns of modifiers
/// from key events alone: pointer events carry none.
pub fn with_modifiers(
    mods: KeyModifiers,
    include_shift: bool,
    events: Vec<WindowEvent>,
) -> (all: Vec<WindowEvent>)
    ensures
        all@ == wrapped(mods, include_shift, events@),
{
    let held: Vec<Key> = held_keys(mods, include_shift);
    let ghost keys = modifier_keys(mods, include_shift);
    let mut all: Vec<WindowEvent> = Vec::new();
    for i in 0..held.len()
        invariant
            held@ == keys,
            all@ == presses(keys.take(i as int)),
    {
        all.push(WindowEvent::KeyPressed { text: key_text(held[i]) });
        assert(all@ =~= presses(keys.take(i + 1)));
    }
    assert(keys.take(keys.len() as int) =~= keys);
    for i in 0..events.len()
        invariant
            all@ == presses(keys) + events@.take(i as int),
    {
        all.push(events[i]);
        assert(all@ =~= presses(keys) + events@.take(i + 1));
    }
    assert(events@.take(events@.len() as int) =~= events@);
    let mut left: usize = held.len();
    while left > 0
        invariant
            held@ == keys,
            left <= held.len(),
            all@ == presses(keys) + events@ + releases(keys.skip(left as int)),
        decreases left,
    {
        left = left - 1;
        all.push(WindowEvent::KeyReleased { text: key_text(held[left]) });
        assert(all@ =~= presses(keys) + events@ + releases(keys.skip(left as int)));
    }
    assert(keys.skip(0) =~= keys);
    all
}

/// Whether a key event asks to quit: control with `c` or `q`, pressed or repeated.
pub open spec fn is_quit(key: KeyEvent) -> bool {
    &&& key.kind != KeyEventKind::Release
    &&& key.modifiers.holds(Modifier::Control)
    &&& key.code == KeyCode::Char('c') || key.code == KeyCode::Char('q')
}

/// A press, or the repetition of a press, of the key `text`, and its release.
pub open spec fn stroke(kind: KeyEventKind, text: char) -> Seq<WindowEvent> {
    seq![
        if kind == KeyEventKind::Repeat {
            WindowEvent::KeyPressRepeated { text }
        } else {
            WindowEvent::KeyPressed { text }
        },
        WindowEvent::KeyReleased { text },
    ]
}

/// The events that a key event which does not quit is passed on as. A release is not passed on: the
/// window has seen the release right after the press. Shift is pressed for named keys only.
pub open spec fn key_events(key: KeyEvent) -> Seq<WindowEvent> {
    match text_of(key.code) {
        Some((text, is_char)) if key.kind != KeyEventKind::Release => wrapped(
            key.modifiers,
            !is_char,
            stroke(key.kind, text),
        ),
        _ => Seq::empty(),
    }
}

/// Scrolling at `position` by whole cells of the given geometry.
pub open spec fn scrolled(
    geometry: Geometry,
    position: Position,
    right: int,
    up: int,
) -> WindowEvent {
    WindowEvent::PointerScrolled {
        position,
        delta_x: CellSpan { cells: right as i32, size: geometry.cell_width() },
        delta_y: CellSpan { cells: up as i32, size: geometry.cell_height() },
    }
}

/// The events that a mouse event is passed on as. Only presses and releases of a button come with
/// the modifiers.
pub open spec fn mouse_events(geometry: Geometry, mouse: MouseEvent) -> Seq<WindowEvent> {
    let position = geometry.centre_of(mouse.column, mouse.row);
    match mouse.kind {
        MouseEventKind::Down(button) => wrapped(
            mouse.modifiers,
            true,
            seq![WindowEvent::PointerPressed { position, button: button_of(button) }],
        ),
        MouseEventKind::Up(button) => wrapped(
            mouse.modifiers,
            true,
            seq![WindowEvent::PointerReleased { position, button: button_of(button) }],
        ),
        MouseEventKind::Drag(_) | MouseEventKind::Moved => seq![
            WindowEvent::PointerMoved { position },
        ],
        MouseEventKind::ScrollUp => seq![scrolled(geometry, position, 0, SCROLL_CELLS as int)],
        MouseEventKind::ScrollDown => seq![scrolled(geometry, position, 0, -SCROLL_CELLS)],
        MouseEventKind::ScrollLeft => seq![scrolled(geometry, position, SCROLL_CELLS as int, 0)],
        MouseEventKind::ScrollRight => seq![scrolled(geometry, position, -SCROLL_CELLS, 0)],
    }
}

/// The event at place `i` when every character of `text` is pressed and released in turn.
pub open spec fn typed_event(text: Seq<char>, i: int) -> WindowEvent {
    if i % 2 == 0 {
        WindowEvent::KeyPressed { text: text[i / 2] }
    } else {
        WindowEvent::KeyReleased { text: text[i / 2] }
    }
}

/// Every character of `text` pressed and released in turn.
pub open spec fn typed(text: Seq<char>) -> Seq<WindowEvent> {
    Seq::new(2 * text.len(), |i: int| typed_event(text, i))
}

/// What the backend does about an event when the text area has the given geometry.
pub open spec fn reaction_to(geometry: Geometry, event: Event) -> ReactionView {
    match event {
        Event::Key(key) => if is_quit(key) {
            ReactionView::Quit
        } else {
            ReactionView::Dispatch(key_events(key))
        },
        Event::Mouse(mouse) => ReactionView::Dispatch(mouse_events(geometry, mouse)),
        Event::Resize(_, _) => ReactionView::SyncGeometry,
        Event::FocusGained => ReactionView::Dispatch(seq![WindowEvent::WindowActiveChanged(true)]),
        Event::FocusLost => ReactionView::Dispatch(seq![WindowEvent::WindowActiveChanged(false)]),
        Event::Paste(text) => ReactionView::Dispatch(typed(text@)),
    }
}

/// Appends a press, or the repetition of a press, and the release of a key.
fn push_stroke(events: &mut Vec<WindowEvent>, kind: KeyEventKind, text: char)
    ensures
        final(events)@ == old(events)@ + stroke(kind, text),
{
    if kind == KeyEventKind::Repeat {
        events.push(WindowEvent::KeyPressRepeated { text });
    } else {
        events.push(WindowEvent::KeyPressed { text });
    }
    events.push(WindowEvent::KeyReleased { text });
}

/// Translates a key event.
pub fn translate_key(key: KeyEvent) -> (reaction: Reaction)
    ensures
        reaction@ == (if is_quit(key) {
            ReactionView::Quit
        } else {
            ReactionView::Dispatch(key_events(key))
        }),
{
    if key.kind == KeyEventKind::Release {
        return Reaction::Dispatch(Vec::new());
    }
    if key.modifiers.contains(Modifier::Control) {
        if let KeyCode::Char(c) = key.code {
            if c == 'c' || c == 'q' {
                return Reaction::Quit;
            }
        }
    }
    let mut events: Vec<WindowEvent> = Vec::new();
    if let Some((text, is_char)) = keycode_to_text(key.code) {
        // The case of a printable character already tells the state of shift.
        push_stroke(&mut events, key.kind, text);
        assert(events@ =~= stroke(key.kind, text));
        events = with_modifiers(key.modifiers, !is_char, events);
    }
    Reaction::Dispatch(events)
}

/// Makes the event for scrolling by whole cells.
fn scroll(geometry: &Geometry, position: Position, right: i32, up: i32) -> (event: WindowEvent)
    ensures
        event == scrolled(*geometry, position, right as int, up as int),
{
    WindowEvent::PointerScrolled {
        position,
        delta_x: CellSpan { cells: right, size: geometry.cell_w() },
        delta_y: CellSpan { cells: up, size: geometry.cell_h() },
    }
}

/// Translates a mouse event. The pointer is put in the middle of the cell that it is in.
pub fn translate_mouse(geometry: &Geometry, mouse: MouseEvent) -> (events: Vec<WindowEvent>)
    ensures
        events@ == mouse_events(*geometry, mouse),
{
    let position: Position = geometry.cell_centre(mouse.column, mouse.row);
    let forth: i32 = SCROLL_CELLS;
    let back: i32 = -SCROLL_CELLS;
    match mouse.kind {
        MouseEventKind::Down(button) => {
            let event = WindowEvent::PointerPressed { position, button: map_button(button) };
            with_modifiers(mouse.modifiers, true, vec![event])
        },
        MouseEventKind::Up(button) => {
            let event = WindowEvent::PointerReleased { position, button: map_button(button) };
            with_modifiers(mouse.modifiers, true, vec![event])
        },
        MouseEventKind::Drag(_) | MouseEventKind::Moved => {
            vec![WindowEvent::PointerMoved { position }]
        },
        MouseEventKind::ScrollUp => vec![scroll(geometry, position, 0, forth)],
        MouseEventKind::ScrollDown => vec![scroll(geometry, position, 0, back)],
        MouseEventKind::ScrollLeft => vec![scroll(geometry, position, forth, 0)],
        MouseEventKind::ScrollRight => vec![scroll(geometry, position, back, 0)],
    }
}

/// Typing one more character adds one stroke.
pub proof fn lemma_typed_push(text: Seq<char>, ch: char)
    ensures
        typed(text.push(ch)) == typed(text) + stroke(KeyEventKind::Press, ch),
{
    let longer = typed(text.push(ch));
    let both = typed(text) + stroke(KeyEventKind::Press, ch);
    assert forall|i: int| 0 <= i < longer.len() implies longer[i] == both[i] by {
        assert(longer[i] == typed_event(text.push(ch), i));
        if i < 2 * text.len() {
            assert(text.push(ch)[i / 2] == text[i / 2]);
            assert(both[i] == typed_event(text, i));
        } else {
            assert(i / 2 == text.len());
        }
    }
    assert(longer =~= both);
}

/// Translates pasted text into key strokes, one for each character.
pub fn translate_paste(text: &str) -> (events: Vec<WindowEvent>)
    ensures
        events@ == typed(text@),
{
    let mut events: Vec<WindowEvent> = Vec::new();
    assert(typed(text@.take(0)) =~= Seq::empty());
    for ch in chars: text.chars()
        invariant
            chars.seq() == text@,
            events@ == typed(text@.take(chars.index())),
    {
        let ghost done = text@.take(chars.index() as int);
        push_stroke(&mut events, KeyEventKind::Press, ch);
        assert(text@.take(chars.index() + 1) =~= done.push(ch));
        proof {
            lemma_typed_push(done, ch);
        }
    }
    assert(text@.take(text@.len() as int) =~= text@);
    events
}

/// Translates one event of the terminal.
pub fn translate(geometry: &Geometry, event: Event) -> (reaction: Reaction)
    ensures
        reaction@ == reaction_to(*geometry, event),
{
    match event {
        Event::Key(key) => translate_key(key),
        Event::Mouse(mouse) => Reaction::Dispatch(translate_mouse(geometry, mouse)),
        Event::Resize(_, _) => Reaction::SyncGeometry,
        Event::FocusGained => Reaction::Dispatch(vec![WindowEvent::WindowActiveChanged(true)]),
        Event::FocusLost => Reaction::Dispatch(vec![WindowEvent::WindowActiveChanged(false)]),
        Event::Paste(text) => Reaction::Dispatch(translate_paste(text.as_str())),
    }
}

/// Control with `c` or `q` quits, whatever other modifiers are held, and nothing else does; only a
/// change of size makes the backend ask for the size of the terminal.
pub proof fn only_control_c_and_q_quit(geometry: Geometry, event: Event)
    ensures
        reaction_to(geometry, event) is Quit <==> (event matches Event::Key(key) && is_quit(key)),
        reaction_to(geometry, event) is SyncGeometry <==> event is Resize,
{
}

/// Pasted text arrives in order, each character as a press and a release, and pasting two texts one
/// after the other is pasting them together.
pub proof fn paste_keeps_the_text(a: Seq<char>, b: Seq<char>)
    ensures
        forall|i: int|
            #![trigger a[i]]
            0 <= i < a.len() ==> {
                &&& typed(a)[2 * i] == WindowEvent::KeyPressed { text: a[i] }
                &&& typed(a)[2 * i + 1] == WindowEvent::KeyReleased { text: a[i] }
            },
        typed(a).len() == 2 * a.len(),
        typed(a + b) == typed(a) + typed(b),
    decreases b.len(),
{
    assert forall|i: int| #![trigger a[i]] 0 <= i < a.len() implies {
        &&& typed(a)[2 * i] == WindowEvent::KeyPressed { text: a[i] }
        &&& typed(a)[2 * i + 1] == WindowEvent::KeyReleased { text: a[i] }
    } by {
        assert(typed(a)[2 * i] == typed_event(a, 2 * i));
        assert(typed(a)[2 * i + 1] == typed_event(a, 2 * i + 1));
    }
    if b.len() == 0 {
        assert(a + b =~= a);
        assert(typed(a) + typed(b) =~= typed(a));
    } else {
        let (less, ch) = (b.drop_last(), b.last());
        paste_keeps_the_text(a, less);
        lemma_typed_push(a + less, ch);
        lemma_typed_push(less, ch);
        assert((a + less).push(ch) =~= a + b);
        assert(less.push(ch) =~= b);
        assert(typed(a) + typed(b) =~= typed(a) + typed(less) + stroke(KeyEventKind::Press, ch));
    }
}

/// Opposite turns of the wheel at the same place scroll by opposite distances.
pub proof fn opposite_turns_cancel(
    geometry: Geometry,
    column: u16,
    row: u16,
    modifiers: KeyModifiers,
)
    ensures
        ({
            let turn = |kind: MouseEventKind|
                mouse_events(geometry, MouseEvent { kind, column, row, modifiers });
            let (up, down) = (turn(MouseEventKind::ScrollUp), turn(MouseEventKind::ScrollDown));
            let (left, right) = (turn(MouseEventKind::ScrollLeft), turn(MouseEventKind::ScrollRight));
            &&& up.len() == 1 && down.len() == 1 && left.len() == 1 && right.len() == 1
            &&& up[0]->delta_y.cells == -down[0]->delta_y.cells
            &&& up[0]->delta_y.size == down[0]->delta_y.size
            &&& left[0]->delta_x.cells == -right[0]->delta_x.cells
            &&& left[0]->delta_x.size == right[0]->delta_x.size
            &&& up[0]->delta_x.cells == 0 && down[0]->delta_x.cells == 0
            &&& left[0]->delta_y.cells == 0 && right[0]->delta_y.cells == 0
        }),
{
}

} // verus!
