//! The application state: the one value that the dispatcher changes.

use crate::audio::host_view;
use crate::audio::AudioHost;
use crate::audio::AudioHostView;
use crate::context::Context;
use crate::context::ContextView;
use crate::log::texts;
use crate::nodebug::NoDebug;
use vstd::prelude::*;

verus! {

/// The mode of the app determines what kinds of input the app is listening for.
#[derive(Debug, Clone, Copy, PartialEq, Eq, Structural)]
pub enum Mode {
    /// Locked mode, listening for a passphrase to unlock the assistant.
    Locked,
    /// Idle mode, listening for a wake word to switch to normal mode.
    Idle,
    /// Listening for commands or dictation.
    Normal,
    /// Dictating text with speech-to-text, with modal audio macros that are contextual.
    Dictating,
    /// Listening for a command to apply in a context, such as a command to
    /// apply to a selected text or the start of dictation.
    Command,
}

/// The top-level state of the assistant.
pub struct App {
    /// The one context that is current.
    pub current_context: Context,
    /// The log, oldest line first.
    pub messages: Vec<String>,
    /// The handle of the default audio host, where one was acquired.
    pub audio_host: Option<NoDebug<AudioHost>>,
    /// Whether the transcriber is switched on.
    pub transcriber: bool,
    /// The current listening mode.
    pub mode: Mode,
    /// Set once the user has asked to quit.
    pub exit: bool,
}

/// The application state, mathematically.
#[verifier::ext_equal]
pub struct AppView {
    pub current_context: ContextView,
    pub messages: Seq<Seq<char>>,
    pub audio_host: Option<AudioHostView>,
    pub transcriber: bool,
    pub mode: Mode,
    pub exit: bool,
}

impl View for App {
    type V = AppView;

    open spec fn view(&self) -> AppView {
        AppView {
            current_context: self.current_context@,
            messages: texts(self.messages@),
            audio_host: host_view(self.audio_host),
            transcriber: self.transcriber,
            mode: self.mode,
            exit: self.exit,
        }
    }
}

/// The state at process start, given the audio host that was acquired, if any:
/// the empty context named "default", an empty log, the transcriber off, mode
/// `Normal`, and no request to quit.
pub open spec fn initial_state(audio_host: Option<AudioHostView>) -> AppView {
    AppView {
        current_context: ContextView {
            name: "default"@,
            attributes: Set::<(Seq<char>, Seq<char>)>::empty(),
        },
        messages: Seq::<Seq<char>>::empty(),
        audio_host,
        transcriber: false,
        mode: Mode::Normal,
        exit: false,
    }
}

impl Default for App {
    /// The state at process start with no audio host.
    fn default() -> (app: Self)
        ensures
            app@ == initial_state(None),
    {
        let app = App {
            current_context: Context::default(),
            audio_host: None,
            mode: Mode::Normal,
            transcriber: false,
            messages: Vec::new(),
            exit: false,
        };
        assert(app@.messages =~= Seq::<Seq<char>>::empty());
        app
    }
}

impl App {
    /// The state at process start with the audio host that was acquired, if any.
    pub fn with_audio_host(audio_host: Option<AudioHost>) -> (app: Self)
        ensures
            app@ == initial_state(
                match audio_host {
                    Some(host) => Some(host@),
                    None => None,
                },
            ),
    {
        let handle = match audio_host {
            Some(host) => Some(NoDebug::from(host)),
            None => None,
        };
        let app = App {
            current_context: Context::default(),
            audio_host: handle,
            mode: Mode::Normal,
            transcriber: false,
            messages: Vec::new(),
            exit: false,
        };
        assert(app@.messages =~= Seq::<Seq<char>>::empty());
        app
    }
}

} // verus!
