//! The dispatcher: the one place where the application state changes.
//!
//! `step` is the reducer as a mathematical function from a state and a message
//! to the next state and an optional follow-up message; `update` is the code
//! that carries it out.

use crate::app::App;
use crate::app::AppView;
use crate::app::Mode;
use crate::audio::resolve;
use crate::audio::status_lines;
use crate::context::ContextView;
use crate::log::texts;
use crate::msg::follow_up_view;
use crate::msg::Msg;
use crate::msg::MsgView;
use vstd::prelude::*;
use vstd::string::StringExecFns;

verus! {

/// The line that the log gets when the run starts.
pub open spec fn startup_line() -> Seq<char> {
    "App started"@
}

/// The line that the log gets when the transcriber is switched: it states the new value.
pub open spec fn transcriber_line(enabled: bool) -> Seq<char> {
    "Transcriber is now "@ + (if enabled {
        "true"@
    } else {
        "false"@
    })
}

/// The reducer: the state after a message, and the message that must be
/// dispatched next, if any.
pub open spec fn step(state: AppView, msg: MsgView) -> (AppView, Option<MsgView>) {
    match msg {
        MsgView::NoOp => (state, None),
        MsgView::Started => (
            AppView {
                mode: Mode::Idle,
                messages: state.messages.push(startup_line()) + status_lines(state.audio_host),
                ..state
            },
            Some(MsgView::ToggleTranscriber),
        ),
        MsgView::Stopping => (AppView { exit: true, ..state }, None),
        MsgView::ContextAdded { attributes } => (
            AppView {
                current_context: ContextView {
                    name: state.current_context.name,
                    attributes: state.current_context.attributes.union(attributes.to_set()),
                },
                ..state
            },
            None,
        ),
        MsgView::ContextRemoved { attributes } => (
            AppView {
                current_context: ContextView {
                    name: state.current_context.name,
                    attributes: state.current_context.attributes.difference(attributes.to_set()),
                },
                ..state
            },
            None,
        ),
        MsgView::ClearMessages => (AppView { messages: Seq::empty(), ..state }, None),
        MsgView::ToggleTranscriber => (
            AppView {
                transcriber: !state.transcriber,
                messages: state.messages.push(transcriber_line(!state.transcriber)),
                ..state
            },
            None,
        ),
    }
}

/// Resolves the audio devices of the state's host and appends their status
/// lines to the log. Nothing else changes.
pub fn init_audio(model: &mut App)
    ensures
        final(model)@ == (AppView {
            messages: old(model)@.messages + status_lines(old(model)@.audio_host),
            ..old(model)@
        }),
{
    let mut lines = resolve(&model.audio_host);
    let ghost before = model.messages@;
    let ghost added = lines@;
    model.messages.append(&mut lines);
    proof {
        assert(texts(before + added) =~= texts(before) + texts(added));
    }
}

/// Dispatches one message: changes the state as the reducer says and returns
/// the follow-up message that the reducer asks for.
pub fn update(model: &mut App, msg: Msg) -> (follow_up: Option<Msg>)
    ensures
        (final(model)@, follow_up_view(follow_up)) == step(old(model)@, msg@),
{
    match msg {
        Msg::NoOp => {
            return None;
        },
        Msg::ClearMessages => {
            model.messages.clear();
            proof {
                assert(model@.messages =~= Seq::<Seq<char>>::empty());
            }
        },
        Msg::Started => {
            model.mode = Mode::Idle;
            let ghost before = model.messages@;
            let line = String::from_str("App started");
            model.messages.push(line);
            proof {
                assert(texts(before.push(line)) =~= texts(before).push(line@));
            }
            init_audio(model);
            return Some(Msg::ToggleTranscriber);
        },
        Msg::Stopping => {
            model.exit = true;
        },
        Msg::ContextAdded { attributes } => {
            model.current_context.add_attributes(attributes);
            proof {
                assert(model@.current_context =~= step(old(model)@, msg@).0.current_context);
            }
        },
        Msg::ContextRemoved { attributes } => {
            model.current_context.remove_attributes(attributes);
            proof {
                assert(model@.current_context =~= step(old(model)@, msg@).0.current_context);
            }
        },
        Msg::ToggleTranscriber => {
            model.transcriber = !model.transcriber;
            let ghost before = model.messages@;
            let line = String::from_str("Transcriber is now ").concat(
                if model.transcriber {
                    "true"
                } else {
                    "false"
                },
            );
            model.messages.push(line);
            proof {
                assert(texts(before.push(line)) =~= texts(before).push(line@));
            }
        },
    }
    None
}

/// Dispatching `Started` always leaves the mode `Idle` and asks for exactly
/// `ToggleTranscriber` next. It appends the startup line and then the status
/// lines of the audio devices, and changes nothing else.
pub proof fn lemma_started(state: AppView)
    ensures
        step(state, MsgView::Started).0.mode == Mode::Idle,
        step(state, MsgView::Started).1 == Some(MsgView::ToggleTranscriber),
        step(state, MsgView::Started).0 == (AppView {
            mode: Mode::Idle,
            messages: state.messages.push(startup_line()) + status_lines(state.audio_host),
            ..state
        }),
{
}

/// Dispatching `ClearMessages` leaves the log empty, whatever it held, asks
/// for nothing more and changes nothing else.
pub proof fn lemma_clear_messages(state: AppView)
    ensures
        step(state, MsgView::ClearMessages).0.messages == Seq::<Seq<char>>::empty(),
        step(state, MsgView::ClearMessages).1 is None,
        step(state, MsgView::ClearMessages).0 == (AppView { messages: Seq::empty(), ..state }),
{
}

/// Adding is idempotent: dispatching the same `ContextAdded` a second time
/// changes nothing, and an attribute that is named several times in one
/// message is in the set once, as if it had been named once.
pub proof fn lemma_context_added_twice(state: AppView, attributes: Seq<(Seq<char>, Seq<char>)>)
    ensures
        step(step(state, MsgView::ContextAdded { attributes }).0, MsgView::ContextAdded {
            attributes,
        }).0 == step(state, MsgView::ContextAdded { attributes }).0,
        step(state, MsgView::ContextAdded { attributes: attributes + attributes }).0 == step(
            state,
            MsgView::ContextAdded { attributes },
        ).0,
{
    let once = step(state, MsgView::ContextAdded { attributes }).0;
    let twice = step(once, MsgView::ContextAdded { attributes }).0;
    let doubled = step(state, MsgView::ContextAdded { attributes: attributes + attributes }).0;
    assert(twice.current_context.attributes =~= once.current_context.attributes);
    vstd::seq_lib::seq_to_set_distributes_over_add(attributes, attributes);
    assert(doubled.current_context.attributes =~= once.current_context.attributes);
}

/// Removing what is not there is safe: a `ContextRemoved` that names only
/// attributes outside the set leaves the whole state as it was.
pub proof fn lemma_context_removed_absent(
    state: AppView,
    attributes: Seq<(Seq<char>, Seq<char>)>,
)
    requires
        forall|i: int|
            0 <= i < attributes.len() ==> !state.current_context.attributes.contains(
                #[trigger] attributes[i],
            ),
    ensures
        step(state, MsgView::ContextRemoved { attributes }).0 == state,
        step(state, MsgView::ContextRemoved { attributes }).1 is None,
{
    let after = step(state, MsgView::ContextRemoved { attributes }).0;
    assert(after.current_context.attributes =~= state.current_context.attributes);
}

/// After `ContextAdded` every attribute it names is in the set; after
/// `ContextRemoved` none of them is; attributes that the message does not
/// name stay as they were.
pub proof fn lemma_context_membership(
    state: AppView,
    attributes: Seq<(Seq<char>, Seq<char>)>,
    pair: (Seq<char>, Seq<char>),
)
    ensures
        step(state, MsgView::ContextAdded { attributes }).0.current_context.attributes.contains(
            pair,
        ) <==> (state.current_context.attributes.contains(pair) || attributes.contains(pair)),
        step(
            state,
            MsgView::ContextRemoved { attributes },
        ).0.current_context.attributes.contains(pair) <==> (
        state.current_context.attributes.contains(pair) && !attributes.contains(pair)),
{
}

} // verus!
