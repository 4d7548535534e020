//! The input translator: host callbacks in, a toolkit-neutral batch out.
//!
//! One translator serves one window. Each host callback appends zero or more
//! events to the batch and updates the stored modifier snapshot; the frame
//! orchestrator drains the batch exactly once per frame. Insertion order is
//! preserved and significant: a Text event must stand immediately before its
//! paired Key event.

use crate::geometry::HostPoint;
use crate::geometry::LogicalPoint;
use crate::geometry::WindowGeometry;
use crate::geometry::host_to_logical;
use crate::geometry::host_to_logical_fits;
use crate::geometry::spec_host_to_logical;
use crate::keymap::Key;
use crate::keymap::KeyCode;
use crate::keymap::spec_key_mapping;
use crate::keymap::xplm_to_egui_key;
use vstd::prelude::*;

verus! {

/// The modifier-key snapshot the host supplies with keyboard input. The
/// host reports no separate platform command key, so `command` mirrors
/// `ctrl` and `mac_cmd` is never set.
#[derive(Clone, Copy, PartialEq, Eq, Structural, Debug)]
pub struct Modifiers {
    pub alt: bool,
    pub ctrl: bool,
    pub shift: bool,
    pub mac_cmd: bool,
    pub command: bool,
}

impl Modifiers {
    /// No modifier held.
    pub fn none() -> (m: Modifiers)
        ensures
            m == (Modifiers { alt: false, ctrl: false, shift: false, mac_cmd: false, command: false }),
    {
        Modifiers { alt: false, ctrl: false, shift: false, mac_cmd: false, command: false }
    }
}

/// What a key callback reports the key did.
#[derive(Clone, Copy, PartialEq, Eq, Structural, Debug)]
pub enum KeyAction {
    Press,
    Release,
}

/// What a mouse callback reports the primary button did.
#[derive(Clone, Copy, PartialEq, Eq, Structural, Debug)]
pub enum MouseAction {
    Down,
    Drag,
    Up,
}

/// A pointer button in toolkit terms. The host reports only the primary
/// button, so only `Primary` is ever produced.
#[derive(Clone, Copy, PartialEq, Eq, Structural, Debug)]
pub enum PointerButton {
    Primary,
    Secondary,
    Middle,
}

/// The cursor icon handed back to the host from a cursor query. No dynamic
/// cursor shaping is implemented: the host's standard cursor is always
/// requested.
#[derive(Clone, Copy, PartialEq, Eq, Structural, Debug)]
pub enum CursorIcon {
    HostDefault,
    Arrow,
    Hidden,
}

/// A toolkit-neutral input event, tagged over the closed set of event kinds
/// the bridge produces.
#[derive(Clone, Copy, PartialEq, Eq, Structural, Debug)]
pub enum Event {
    /// A printable character entered on a key press.
    Text { ch: char },
    /// A mapped key going down or up.
    Key { key: Key, pressed: bool, modifiers: Modifiers },
    /// The pointer standing at a logical position.
    PointerMoved { pos: LogicalPoint },
    /// A pointer button going down or up at a logical position.
    PointerButton { pos: LogicalPoint, button: PointerButton, pressed: bool, modifiers: Modifiers },
}

/// The toolkit's screen rectangle in logical points: from the origin to
/// `(width, height)`.
#[derive(Clone, Copy, PartialEq, Eq, Structural, Debug)]
pub struct ScreenSize {
    pub width: i32,
    pub height: i32,
}

/// The ordered event batch for one frame, with the modifier snapshot and
/// the current screen rectangle.
pub struct InputBatch {
    pub events: Vec<Event>,
    pub modifiers: Modifiers,
    pub screen_size: Option<ScreenSize>,
}

/// The Text event a keyboard callback appends: one, exactly when the key
/// went down carrying a character.
pub open spec fn spec_text_events(action: KeyAction, ch: Option<char>) -> Seq<Event> {
    match ch {
        Some(c) => {
            if action is Press {
                seq![Event::Text { ch: c }]
            } else {
                Seq::<Event>::empty()
            }
        },
        None => Seq::<Event>::empty(),
    }
}

/// The Key event a keyboard callback appends: one, exactly when the code is
/// in the mapping table. An unmapped code appends no Key event — a
/// documented no-op, not an error.
pub open spec fn spec_key_events(code: KeyCode, action: KeyAction, modifiers: Modifiers) -> Seq<
    Event,
> {
    match spec_key_mapping(code) {
        Some(key) => seq![Event::Key { key, pressed: action is Press, modifiers }],
        None => Seq::<Event>::empty(),
    }
}

/// Everything one keyboard callback appends: the Text event, if any,
/// immediately before the Key event, if any.
pub open spec fn spec_keyboard_events(
    code: KeyCode,
    action: KeyAction,
    ch: Option<char>,
    modifiers: Modifiers,
) -> Seq<Event> {
    spec_text_events(action, ch) + spec_key_events(code, action, modifiers)
}

/// The one event a mouse callback appends: a pointer move for a drag, a
/// button transition for down or up, at the host position converted to
/// logical space.
pub open spec fn spec_mouse_event(
    action: MouseAction,
    pos: HostPoint,
    geo: WindowGeometry,
    modifiers: Modifiers,
) -> Event {
    let lp = spec_host_to_logical(pos, geo);
    match action {
        MouseAction::Drag => Event::PointerMoved { pos: lp },
        MouseAction::Down => Event::PointerButton {
            pos: lp,
            button: PointerButton::Primary,
            pressed: true,
            modifiers,
        },
        MouseAction::Up => Event::PointerButton {
            pos: lp,
            button: PointerButton::Primary,
            pressed: false,
            modifiers,
        },
    }
}

/// The stateful translator: owns the batch until it is drained.
pub struct XplmInputState {
    pub batch: InputBatch,
}

impl XplmInputState {
    /// A translator with an empty batch, no modifiers held and no screen
    /// rectangle yet.
    pub fn new() -> (s: XplmInputState)
        ensures
            s.batch.events@ == Seq::<Event>::empty(),
            s.batch.modifiers == (Modifiers {
                alt: false,
                ctrl: false,
                shift: false,
                mac_cmd: false,
                command: false,
            }),
            s.batch.screen_size is None,
    {
        XplmInputState {
            batch: InputBatch {
                events: Vec::new(),
                modifiers: Modifiers::none(),
                screen_size: None,
            },
        }
    }

    /// Drain the batch for this frame: the accumulated events and screen
    /// rectangle go out, the stored batch is left empty — so a second drain
    /// before new events arrive returns an empty batch — and the modifier
    /// snapshot carries over.
    pub fn take_egui_input(&mut self) -> (batch: InputBatch)
        ensures
            batch.events@ == old(self).batch.events@,
            batch.modifiers == old(self).batch.modifiers,
            batch.screen_size == old(self).batch.screen_size,
            final(self).batch.events@ == Seq::<Event>::empty(),
            final(self).batch.modifiers == old(self).batch.modifiers,
            final(self).batch.screen_size is None,
    {
        let mods = self.batch.modifiers;
        let mut taken = InputBatch { events: Vec::new(), modifiers: mods, screen_size: None };
        core::mem::swap(&mut taken, &mut self.batch);
        taken
    }

    /// Translate one keyboard callback: store the modifier snapshot, then
    /// append a Text event for a press carrying a character, immediately
    /// followed by the mapped Key event when the code is in the table.
    pub fn keyboard_event(
        &mut self,
        code: KeyCode,
        action: KeyAction,
        ch: Option<char>,
        modifiers: Modifiers,
    )
        ensures
            final(self).batch.events@ == old(self).batch.events@ + spec_keyboard_events(
                code,
                action,
                ch,
                modifiers,
            ),
            final(self).batch.modifiers == modifiers,
            final(self).batch.screen_size == old(self).batch.screen_size,
    {
        self.batch.modifiers = modifiers;
        let pressed = match action {
            KeyAction::Press => true,
            KeyAction::Release => false,
        };
        let mut added: Vec<Event> = Vec::new();
        if pressed {
            if let Some(c) = ch {
                added.push(Event::Text { ch: c });
                proof {
                    assert(action == KeyAction::Press);
                    assert(added@ =~= spec_text_events(action, ch));
                }
            }
        }
        proof {
            assert(added@ =~= spec_text_events(action, ch));
        }
        if let Some(key) = xplm_to_egui_key(code) {
            added.push(Event::Key { key, pressed, modifiers });
        }
        proof {
            assert(added@ =~= spec_keyboard_events(code, action, ch, modifiers));
        }
        self.batch.events.append(&mut added);
        proof {
            assert(self.batch.events@ =~= old(self).batch.events@ + spec_keyboard_events(
                code,
                action,
                ch,
                modifiers,
            ));
        }
    }

    /// Translate one mouse callback: convert the host position against this
    /// frame's geometry and append the corresponding pointer event. Returns
    /// whether the event was consumed; current policy is to never consume,
    /// so the host keeps propagating the event.
    pub fn mouse_event(&mut self, action: MouseAction, pos: HostPoint, geo: WindowGeometry) -> (
        consumed: bool)
        requires
            host_to_logical_fits(pos, geo),
        ensures
            final(self).batch.events@ == old(self).batch.events@ + seq![
                spec_mouse_event(action, pos, geo, old(self).batch.modifiers),
            ],
            final(self).batch.modifiers == old(self).batch.modifiers,
            final(self).batch.screen_size == old(self).batch.screen_size,
            !consumed,
    {
        let lp = host_to_logical(pos, geo);
        let event = match action {
            MouseAction::Drag => Event::PointerMoved { pos: lp },
            MouseAction::Down => Event::PointerButton {
                pos: lp,
                button: PointerButton::Primary,
                pressed: true,
                modifiers: self.batch.modifiers,
            },
            MouseAction::Up => Event::PointerButton {
                pos: lp,
                button: PointerButton::Primary,
                pressed: false,
                modifiers: self.batch.modifiers,
            },
        };
        self.batch.events.push(event);
        proof {
            assert(self.batch.events@ =~= old(self).batch.events@ + seq![
                spec_mouse_event(action, pos, geo, old(self).batch.modifiers),
            ]);
        }
        false
    }

    /// A scroll callback: deliberately a no-op placeholder — scroll is not
    /// wired into the batch — that leaves the translator untouched and
    /// never consumes the event.
    pub fn scroll_event(&mut self, _pos: HostPoint, _scroll_x: i32, _scroll_y: i32) -> (consumed:
        bool)
        ensures
            *final(self) == *old(self),
            !consumed,
    {
        false
    }

    /// Answer a cursor query: refresh the logical screen rectangle from
    /// this frame's geometry, append a pointer move at the converted
    /// position, and request the host's standard cursor.
    pub fn cursor(&mut self, pos: HostPoint, geo: WindowGeometry) -> (icon: CursorIcon)
        requires
            host_to_logical_fits(pos, geo),
            geo.wf(),
        ensures
            final(self).batch.events@ == old(self).batch.events@ + seq![
                Event::PointerMoved { pos: spec_host_to_logical(pos, geo) },
            ],
            final(self).batch.modifiers == old(self).batch.modifiers,
            final(self).batch.screen_size == Some(
                ScreenSize {
                    width: (geo.right - geo.left) as i32,
                    height: (geo.top - geo.bottom) as i32,
                },
            ),
            icon == CursorIcon::HostDefault,
    {
        self.batch.screen_size = Some(
            ScreenSize { width: geo.right - geo.left, height: geo.top - geo.bottom },
        );
        let lp = host_to_logical(pos, geo);
        self.batch.events.push(Event::PointerMoved { pos: lp });
        proof {
            assert(self.batch.events@ =~= old(self).batch.events@ + seq![
                Event::PointerMoved { pos: spec_host_to_logical(pos, geo) },
            ]);
        }
        CursorIcon::HostDefault
    }
}

impl Default for XplmInputState {
    /// The same fresh translator `new` builds.
    fn default() -> (s: XplmInputState)
        ensures
            s.batch.events@ == Seq::<Event>::empty(),
            s.batch.modifiers == (Modifiers {
                alt: false,
                ctrl: false,
                shift: false,
                mac_cmd: false,
                command: false,
            }),
            s.batch.screen_size is None,
    {
        XplmInputState::new()
    }
}

/// For any key press carrying a printable character whose code the table
/// maps, the batch gains exactly a Text event immediately followed by the
/// corresponding Key event.
pub proof fn lemma_text_precedes_key(code: KeyCode, ch: char, modifiers: Modifiers)
    requires
        spec_key_mapping(code) is Some,
    ensures
        spec_keyboard_events(code, KeyAction::Press, Some(ch), modifiers).len() == 2,
        spec_keyboard_events(code, KeyAction::Press, Some(ch), modifiers)[0] == (Event::Text {
            ch,
        }),
        spec_keyboard_events(code, KeyAction::Press, Some(ch), modifiers)[1] == (Event::Key {
            key: spec_key_mapping(code)->0,
            pressed: true,
            modifiers,
        }),
{
}

/// A host code outside the mapping table produces zero Key events —
/// whatever the action, character and modifiers — and the callback still
/// succeeds as a no-op rather than raising an error: with a character the
/// batch gains at most the Text event, without one it gains nothing.
pub proof fn lemma_unmapped_code_no_key_event(
    code: KeyCode,
    action: KeyAction,
    c: char,
    modifiers: Modifiers,
)
    requires
        spec_key_mapping(code) is None,
    ensures
        forall|i: int|
            0 <= i < spec_keyboard_events(code, action, Some(c), modifiers).len() ==> !(
            #[trigger] spec_keyboard_events(code, action, Some(c), modifiers)[i] is Key),
        spec_keyboard_events(code, action, Some(c), modifiers).len() <= 1,
        spec_keyboard_events(code, action, None, modifiers) == Seq::<Event>::empty(),
{
    assert(spec_keyboard_events(code, action, None, modifiers) =~= Seq::<Event>::empty());
}

} // verus!
