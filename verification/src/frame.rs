//! The frame orchestrator's decisions: keyboard-focus handoff.
//!
//! Once per frame the orchestrator drains the input batch, runs the GUI
//! toolkit's pass, and must decide which focus calls to make on the host
//! window. The handoff is edge-triggered: a call goes out only when "wants
//! keyboard input" changed against the previous frame. On top of that, any
//! toolkit output event that reports a widget gaining focus triggers a focus
//! request of its own, whatever the edge state. The surrounding program
//! performs the calls in list order.

use vstd::prelude::*;

verus! {

/// A focus call to make on the host window.
#[derive(Clone, Copy, PartialEq, Eq, Structural, Debug)]
pub enum FocusCommand {
    /// Take keyboard focus from the host.
    Take,
    /// Hand keyboard focus back to the host.
    Release,
}

/// A toolkit output event, reduced to what the focus logic reads: whether
/// it reports a widget gaining focus.
#[derive(Clone, Copy, PartialEq, Eq, Structural, Debug)]
pub enum OutputEvent {
    FocusGained,
    Other,
}

/// The focus call an edge produces: a request on the false-to-true
/// transition of "wants keyboard input", a release on true-to-false, and
/// nothing at all in a steady state.
pub open spec fn spec_edge_commands(had_focus: bool, wants_keyboard: bool) -> Seq<FocusCommand> {
    if !had_focus && wants_keyboard {
        seq![FocusCommand::Take]
    } else if had_focus && !wants_keyboard {
        seq![FocusCommand::Release]
    } else {
        Seq::<FocusCommand>::empty()
    }
}

/// The focus calls the toolkit's output events produce: one request per
/// focus-gained event, in event order.
pub open spec fn spec_output_commands(events: Seq<OutputEvent>) -> Seq<FocusCommand>
    decreases events.len(),
{
    if events.len() == 0 {
        Seq::<FocusCommand>::empty()
    } else {
        (match events.first() {
            OutputEvent::FocusGained => seq![FocusCommand::Take],
            OutputEvent::Other => Seq::<FocusCommand>::empty(),
        }) + spec_output_commands(events.drop_first())
    }
}

/// Everything one frame's update decides about focus: the edge call first,
/// then the output-event calls.
pub open spec fn spec_focus_commands(
    had_focus: bool,
    wants_keyboard: bool,
    events: Seq<OutputEvent>,
) -> Seq<FocusCommand> {
    spec_edge_commands(had_focus, wants_keyboard) + spec_output_commands(events)
}

/// The per-window focus state the orchestrator carries between frames:
/// whether the toolkit wanted keyboard input on the previous frame.
pub struct FocusState {
    pub has_keyboard_focus: bool,
}

impl FocusState {
    /// At creation the toolkit holds no focus.
    pub fn new() -> (s: FocusState)
        ensures
            !s.has_keyboard_focus,
    {
        FocusState { has_keyboard_focus: false }
    }

    /// Decide this frame's focus calls from what the toolkit reported, and
    /// remember the new state for the next frame's edge comparison.
    pub fn update(&mut self, wants_keyboard: bool, output_events: &Vec<OutputEvent>) -> (cmds: Vec<
        FocusCommand,
    >)
        ensures
            cmds@ == spec_focus_commands(
                old(self).has_keyboard_focus,
                wants_keyboard,
                output_events@,
            ),
            final(self).has_keyboard_focus == wants_keyboard,
    {
        let mut cmds: Vec<FocusCommand> = Vec::new();
        if !self.has_keyboard_focus && wants_keyboard {
            cmds.push(FocusCommand::Take);
        }
        if self.has_keyboard_focus && !wants_keyboard {
            cmds.push(FocusCommand::Release);
        }
        let ghost edge = spec_edge_commands(self.has_keyboard_focus, wants_keyboard);
        proof {
            assert(cmds@ =~= edge);
        }
        let n = output_events.len();
        let mut i: usize = 0;
        while i < n
            invariant
                i <= n,
                n == output_events.len(),
                cmds@ == edge + spec_output_commands_upto(output_events@, i as int),
            decreases n - i,
        {
            match output_events[i] {
                OutputEvent::FocusGained => {
                    cmds.push(FocusCommand::Take);
                },
                OutputEvent::Other => {},
            }
            i = i + 1;
            proof {
                assert(cmds@ =~= edge + spec_output_commands_upto(output_events@, i as int));
            }
        }
        proof {
            lemma_output_commands_upto_all(output_events@);
        }
        self.has_keyboard_focus = wants_keyboard;
        cmds
    }
}

/// The focus calls of the first `upto` output events.
pub open spec fn spec_output_commands_upto(events: Seq<OutputEvent>, upto: int) -> Seq<
    FocusCommand,
>
    decreases upto,
{
    if upto <= 0 {
        Seq::<FocusCommand>::empty()
    } else {
        spec_output_commands_upto(events, upto - 1) + (match events[upto - 1] {
            OutputEvent::FocusGained => seq![FocusCommand::Take],
            OutputEvent::Other => Seq::<FocusCommand>::empty(),
        })
    }
}

/// Walking all events from the front or from the back yields the same
/// focus calls.
proof fn lemma_output_commands_upto_all(events: Seq<OutputEvent>)
    ensures
        spec_output_commands_upto(events, events.len() as int) == spec_output_commands(events),
    decreases events.len(),
{
    if events.len() > 0 {
        lemma_output_commands_prefix(events, events.len() as int);
        assert(events.subrange(0, events.len() as int) =~= events);
    }
}

/// Front-recursion over a prefix agrees with back-recursion over it.
proof fn lemma_output_commands_prefix(events: Seq<OutputEvent>, upto: int)
    requires
        0 <= upto <= events.len(),
    ensures
        spec_output_commands_upto(events, upto) == spec_output_commands(
            events.subrange(0, upto),
        ),
    decreases upto,
{
    if upto > 0 {
        lemma_output_commands_prefix(events, upto - 1);
        lemma_output_commands_snoc(events.subrange(0, upto - 1), events[upto - 1]);
        assert(events.subrange(0, upto - 1) =~= events.subrange(0, upto).drop_last());
        assert(events.subrange(0, upto) =~= events.subrange(0, upto - 1).push(events[upto - 1]));
    }
    if upto == events.len() {
        assert(events.subrange(0, upto) =~= events);
    }
}

/// Appending one event appends its focus calls.
proof fn lemma_output_commands_snoc(events: Seq<OutputEvent>, last: OutputEvent)
    ensures
        spec_output_commands(events.push(last)) == spec_output_commands(events) + (
        match last {
            OutputEvent::FocusGained => seq![FocusCommand::Take],
            OutputEvent::Other => Seq::<FocusCommand>::empty(),
        }),
    decreases events.len(),
{
    if events.len() == 0 {
        assert(events.push(last).drop_first() =~= events);
        assert(spec_output_commands(events.push(last)) =~= spec_output_commands(events) + (
        match last {
            OutputEvent::FocusGained => seq![FocusCommand::Take],
            OutputEvent::Other => Seq::<FocusCommand>::empty(),
        }));
    } else {
        assert(events.push(last).drop_first() =~= events.drop_first().push(last));
        lemma_output_commands_snoc(events.drop_first(), last);
        assert(spec_output_commands(events.push(last)) =~= spec_output_commands(events) + (
        match last {
            OutputEvent::FocusGained => seq![FocusCommand::Take],
            OutputEvent::Other => Seq::<FocusCommand>::empty(),
        }));
    }
}

/// Focus calls are edge-triggered: across two consecutive frames with no
/// focus-gained output events, a call goes out exactly when "wants keyboard
/// input" changed — a request on the false-to-true transition, a release on
/// true-to-false, and none at all during steady true/true or false/false
/// states.
pub proof fn lemma_focus_edge_triggered(
    had_focus: bool,
    wants_keyboard: bool,
    events: Seq<OutputEvent>,
)
    requires
        forall|i: int| 0 <= i < events.len() ==> (#[trigger] events[i]) is Other,
    ensures
        had_focus == wants_keyboard ==> spec_focus_commands(had_focus, wants_keyboard, events)
            == Seq::<FocusCommand>::empty(),
        !had_focus && wants_keyboard ==> spec_focus_commands(had_focus, wants_keyboard, events)
            == seq![FocusCommand::Take],
        had_focus && !wants_keyboard ==> spec_focus_commands(had_focus, wants_keyboard, events)
            == seq![FocusCommand::Release],
{
    lemma_output_commands_all_other(events);
    assert(spec_focus_commands(had_focus, wants_keyboard, events) =~= spec_edge_commands(
        had_focus,
        wants_keyboard,
    ));
}

/// Any output event reporting focus gained triggers a focus request,
/// whatever the edge state of the frame it arrives in.
pub proof fn lemma_focus_gained_requests_focus(
    had_focus: bool,
    wants_keyboard: bool,
    events: Seq<OutputEvent>,
    i: int,
)
    requires
        0 <= i < events.len(),
        events[i] is FocusGained,
    ensures
        spec_focus_commands(had_focus, wants_keyboard, events).contains(FocusCommand::Take),
{
    lemma_output_commands_contain_take(events, i);
    let cmds = spec_output_commands(events);
    let w = choose|w: int| 0 <= w < cmds.len() && cmds[w] == FocusCommand::Take;
    let edge = spec_edge_commands(had_focus, wants_keyboard);
    assert(spec_focus_commands(had_focus, wants_keyboard, events)[edge.len() + w]
        == FocusCommand::Take);
}

/// A focus-gained event somewhere in the list puts a request somewhere in
/// the calls.
proof fn lemma_output_commands_contain_take(events: Seq<OutputEvent>, i: int)
    requires
        0 <= i < events.len(),
        events[i] is FocusGained,
    ensures
        spec_output_commands(events).contains(FocusCommand::Take),
    decreases events.len(),
{
    if i == 0 {
        assert(spec_output_commands(events)[0] == FocusCommand::Take);
    } else {
        lemma_output_commands_contain_take(events.drop_first(), i - 1);
        let rest = spec_output_commands(events.drop_first());
        let w = choose|w: int| 0 <= w < rest.len() && rest[w] == FocusCommand::Take;
        let head = (match events.first() {
            OutputEvent::FocusGained => seq![FocusCommand::Take],
            OutputEvent::Other => Seq::<FocusCommand>::empty(),
        });
        assert(spec_output_commands(events)[head.len() + w] == FocusCommand::Take);
    }
}

/// Output events that gain no focus produce no focus calls.
proof fn lemma_output_commands_all_other(events: Seq<OutputEvent>)
    requires
        forall|i: int| 0 <= i < events.len() ==> (#[trigger] events[i]) is Other,
    ensures
        spec_output_commands(events) == Seq::<FocusCommand>::empty(),
    decreases events.len(),
{
    if events.len() > 0 {
        assert(events[0] is Other);
        lemma_output_commands_all_other(events.drop_first());
        assert(spec_output_commands(events) =~= Seq::<FocusCommand>::empty());
    }
}

} // verus!
