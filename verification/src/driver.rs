//! The message loop's decisions.
//!
//! A tick of the loop settles one message (dispatches it and every follow-up
//! until none remains) and then says what the loop has to do: present the
//! settled state and wait for one input event, wait without presenting, or
//! exit. Reading the event and drawing the state are the caller's part.

use crate::app::App;
use crate::app::initial_state;
use crate::app::AppView;
use crate::app::Mode;
use crate::audio::status_lines;
use crate::audio::AudioHostView;
use crate::context::ContextView;
use crate::msg::Msg;
use crate::msg::MsgView;
use crate::update::startup_line;
use crate::update::step;
use crate::update::transcriber_line;
use crate::update::update;
use vstd::prelude::*;

verus! {

/// What kind of key event it was.
#[derive(Debug, Clone, Copy, PartialEq, Eq, Structural)]
pub enum KeyEventKind {
    Press,
    Repeat,
    Release,
}

/// Which key it was: one that stands for a character, or any other.
#[derive(Debug, Clone, Copy, PartialEq, Eq, Structural)]
pub enum KeyCode {
    Char(char),
    Other,
}

/// A key event.
#[derive(Debug, Clone, Copy, PartialEq, Eq, Structural)]
pub struct KeyEvent {
    pub code: KeyCode,
    pub kind: KeyEventKind,
}

/// One external input event: a key event, or anything else the terminal reports.
#[derive(Debug, Clone, Copy, PartialEq, Eq, Structural)]
pub enum Event {
    Key(KeyEvent),
    Other,
}

/// What the loop has to do after a tick.
#[derive(Debug, Clone, Copy, PartialEq, Eq, Structural)]
pub enum Action {
    /// Render the settled state, then block for exactly one input event.
    Present,
    /// Block for one input event without rendering again.
    Wait,
    /// Leave the loop with success.
    Exit,
}

/// The message that an input event stands for: pressing `q` asks to quit,
/// pressing `t` toggles the transcriber, pressing `*` clears the log, and
/// every other event is inert.
pub open spec fn event_message(event: Event) -> MsgView {
    match event {
        Event::Key(key) => if key.kind == KeyEventKind::Press && key.code == KeyCode::Char('q') {
            MsgView::Stopping
        } else if key.kind == KeyEventKind::Press && key.code == KeyCode::Char('t') {
            MsgView::ToggleTranscriber
        } else if key.kind == KeyEventKind::Press && key.code == KeyCode::Char('*') {
            MsgView::ClearMessages
        } else {
            MsgView::NoOp
        },
        Event::Other => MsgView::NoOp,
    }
}

/// Maps an input event to its message.
pub fn message_for(event: Event) -> (msg: Msg)
    ensures
        msg@ == event_message(event),
{
    match event {
        Event::Key(key) => {
            let pressed = match key.kind {
                KeyEventKind::Press => true,
                _ => false,
            };
            match key.code {
                KeyCode::Char(c) => {
                    if pressed && c == 'q' {
                        Msg::Stopping
                    } else if pressed && c == 't' {
                        Msg::ToggleTranscriber
                    } else if pressed && c == '*' {
                        Msg::ClearMessages
                    } else {
                        Msg::NoOp
                    }
                },
                KeyCode::Other => Msg::NoOp,
            }
        },
        Event::Other => Msg::NoOp,
    }
}

/// How many follow-up messages a message can still set off, at most.
pub open spec fn cascade_rank(msg: MsgView) -> nat {
    if msg is Started {
        1
    } else {
        0
    }
}

/// The longest chain of dispatches that one message can start.
pub const MAX_CASCADE: usize = 2;

/// The state once a message and all its follow-ups have been dispatched.
pub open spec fn settled(state: AppView, msg: MsgView) -> AppView
    decreases cascade_rank(msg),
{
    let (next, follow_up) = step(state, msg);
    match follow_up {
        Some(then) => settled(next, then),
        None => next,
    }
}

/// The number of dispatches that it takes to settle a message.
pub open spec fn dispatches(state: AppView, msg: MsgView) -> nat
    decreases cascade_rank(msg),
{
    let (next, follow_up) = step(state, msg);
    match follow_up {
        Some(then) => 1 + dispatches(next, then),
        None => 1,
    }
}

/// A follow-up message always ranks below the message that raised it, so no
/// message can set itself off again, directly or through others.
pub proof fn lemma_follow_up_ranks_lower(state: AppView, msg: MsgView)
    ensures
        step(state, msg).1 matches Some(then) ==> cascade_rank(then) < cascade_rank(msg),
{
}

/// Every cascade ends within `MAX_CASCADE` dispatches: a message other than
/// `Started` settles in one, `Started` in two.
pub proof fn lemma_cascade_bounded(state: AppView, msg: MsgView)
    ensures
        1 <= dispatches(state, msg) <= MAX_CASCADE,
        dispatches(state, msg) == (if msg is Started {
            2nat
        } else {
            1nat
        }),
{
    reveal_with_fuel(dispatches, 3);
}

/// What settling comes to: `Started` is followed by `ToggleTranscriber` and
/// nothing more, and every other message settles in its own dispatch.
pub proof fn lemma_settled(state: AppView, msg: MsgView)
    ensures
        settled(state, msg) == (if msg is Started {
            step(step(state, msg).0, MsgView::ToggleTranscriber).0
        } else {
            step(state, msg).0
        }),
{
    reveal_with_fuel(settled, 3);
}

/// Settles a message: dispatches it, then each follow-up in turn, until no
/// follow-up remains. Returns the number of dispatches made.
pub fn settle(model: &mut App, msg: Msg) -> (count: usize)
    ensures
        final(model)@ == settled(old(model)@, msg@),
        count == dispatches(old(model)@, msg@),
        1 <= count <= MAX_CASCADE,
{
    proof {
        lemma_cascade_bounded(model@, msg@);
    }
    let mut current = msg;
    let mut count: usize = 0;
    loop
        invariant_except_break
            settled(model@, current@) == settled(old(model)@, msg@),
            count + dispatches(model@, current@) == dispatches(old(model)@, msg@),
        invariant
            dispatches(old(model)@, msg@) <= MAX_CASCADE,
        ensures
            model@ == settled(old(model)@, msg@),
            count == dispatches(old(model)@, msg@),
        decreases cascade_rank(current@),
    {
        let ghost before = model@;
        let ghost dispatched = current@;
        proof {
            lemma_follow_up_ranks_lower(before, dispatched);
            lemma_cascade_bounded(before, dispatched);
        }
        let follow_up = update(model, current);
        count = count + 1;
        match follow_up {
            Some(then) => {
                current = then;
            },
            None => {
                break ;
            },
        }
    }
    count
}

/// What the loop does once `msg` has settled into `state`: it exits when the
/// state asks for it, waits without rendering after an inert message, and
/// otherwise presents the state and waits.
pub open spec fn next_action(msg: MsgView, state: AppView) -> Action {
    if state.exit {
        Action::Exit
    } else if msg is NoOp {
        Action::Wait
    } else {
        Action::Present
    }
}

/// One tick of the loop for a given message: settles it and decides what the
/// loop does next.
pub fn tick(model: &mut App, msg: Msg) -> (action: Action)
    ensures
        final(model)@ == settled(old(model)@, msg@),
        action == next_action(msg@, final(model)@),
{
    let inert = match msg {
        Msg::NoOp => true,
        _ => false,
    };
    let _ = settle(model, msg);
    if model.exit {
        Action::Exit
    } else if inert {
        Action::Wait
    } else {
        Action::Present
    }
}

/// The first tick of a run: settles `Started`.
pub fn start(model: &mut App) -> (action: Action)
    ensures
        final(model)@ == settled(old(model)@, MsgView::Started),
        action == next_action(MsgView::Started, final(model)@),
{
    tick(model, Msg::Started)
}

/// The tick for one input event: settles the message that the event stands for.
pub fn on_event(model: &mut App, event: Event) -> (action: Action)
    ensures
        final(model)@ == settled(old(model)@, event_message(event)),
        action == next_action(event_message(event), final(model)@),
{
    tick(model, message_for(event))
}

/// Settling `Started` leaves the mode `Idle`, switches the transcriber over,
/// and appends to the log, in this order, the startup line, the status lines
/// of the audio devices and the line that states the transcriber's new value.
pub proof fn lemma_started_settles(state: AppView)
    ensures
        settled(state, MsgView::Started) == (AppView {
            mode: Mode::Idle,
            transcriber: !state.transcriber,
            messages: (state.messages.push(startup_line()) + status_lines(
                state.audio_host,
            )).push(transcriber_line(!state.transcriber)),
            ..state
        }),
        dispatches(state, MsgView::Started) == 2,
{
    lemma_settled(state, MsgView::Started);
    lemma_cascade_bounded(state, MsgView::Started);
}

/// From the state at process start, settling `Started` leaves the
/// transcriber on and the mode `Idle`, the loop presents the state, and the log
/// holds the startup line, the device status lines and the transcriber line.
pub proof fn lemma_first_tick(audio_host: Option<AudioHostView>)
    ensures
        settled(initial_state(audio_host), MsgView::Started).transcriber,
        settled(initial_state(audio_host), MsgView::Started).mode == Mode::Idle,
        settled(initial_state(audio_host), MsgView::Started).messages == seq![startup_line()]
            + status_lines(audio_host) + seq![transcriber_line(true)],
        next_action(MsgView::Started, settled(initial_state(audio_host), MsgView::Started))
            == Action::Present,
{
    lemma_started_settles(initial_state(audio_host));
    assert(settled(initial_state(audio_host), MsgView::Started).messages =~= seq![startup_line()]
        + status_lines(audio_host) + seq![transcriber_line(true)]);
}

/// Settling `Stopping` sets the exit flag and changes nothing else, and the
/// loop then exits: it neither presents nor waits again.
pub proof fn lemma_stopping_exits(state: AppView)
    ensures
        settled(state, MsgView::Stopping) == (AppView { exit: true, ..state }),
        next_action(MsgView::Stopping, settled(state, MsgView::Stopping)) == Action::Exit,
        next_action(event_message(Event::Key(KeyEvent {
            code: KeyCode::Char('q'),
            kind: KeyEventKind::Press,
        })), settled(state, MsgView::Stopping)) == Action::Exit,
{
    lemma_settled(state, MsgView::Stopping);
}

/// An event that stands for no message changes nothing.
pub proof fn lemma_inert_event(state: AppView, event: Event)
    requires
        event_message(event) is NoOp,
    ensures
        settled(state, event_message(event)) == state,
{
    lemma_settled(state, event_message(event));
}

/// The state after settling each message of a sequence in turn.
pub open spec fn settled_all(state: AppView, msgs: Seq<MsgView>) -> AppView
    decreases msgs.len(),
{
    if msgs.len() == 0 {
        state
    } else {
        settled(settled_all(state, msgs.drop_last()), msgs.last())
    }
}

/// Whether a message adds attributes to the context or removes some.
pub open spec fn is_context_message(msg: MsgView) -> bool {
    msg is ContextAdded || msg is ContextRemoved
}

/// Whatever sequence of `ContextAdded` and `ContextRemoved` messages is
/// settled, with whatever repetitions, only the attribute set of the current
/// context changes, and it remains a finite set: each pair of name and value
/// is in it once or not at all.
pub proof fn lemma_context_messages(state: AppView, msgs: Seq<MsgView>)
    requires
        state.current_context.attributes.finite(),
        forall|i: int| 0 <= i < msgs.len() ==> is_context_message(#[trigger] msgs[i]),
    ensures
        settled_all(state, msgs).current_context.attributes.finite(),
        settled_all(state, msgs) == (AppView {
            current_context: ContextView {
                name: state.current_context.name,
                attributes: settled_all(state, msgs).current_context.attributes,
            },
            ..state
        }),
    decreases msgs.len(),
{
    if msgs.len() > 0 {
        let before = settled_all(state, msgs.drop_last());
        assert forall|i: int| 0 <= i < msgs.drop_last().len() implies is_context_message(
            #[trigger] msgs.drop_last()[i],
        ) by {
            assert(msgs.drop_last()[i] == msgs[i]);
        }
        lemma_context_messages(state, msgs.drop_last());
        lemma_settled(before, msgs.last());
        match msgs.last() {
            MsgView::ContextAdded { attributes } => {
                vstd::seq_lib::seq_to_set_is_finite(attributes);
            },
            MsgView::ContextRemoved { attributes } => {
                vstd::seq_lib::seq_to_set_is_finite(attributes);
            },
            _ => {},
        }
    }
}

} // verus!
