//! The audio device resolver: turns what the default audio host reports of
//! its default input and output device into status lines for the log.
//!
//! A host and its devices are held as the plain values that the resolver
//! reads of them. Missing hardware and a name that cannot be read are statuses
//! like any other; nothing here fails.

use crate::log::texts;
use crate::nodebug::NoDebug;
use std::ops::Deref;
use vstd::prelude::*;
use vstd::string::StringExecFns;

verus! {

/// An audio device as far as the resolver looks at it: the name it reported,
/// or `None` where the lookup of the name failed.
#[derive(Debug)]
pub struct AudioDevice {
    pub name: Option<String>,
}

/// The default audio host as far as the resolver looks at it: its default
/// input device and its default output device, each of which may be missing.
#[derive(Debug)]
pub struct AudioHost {
    pub input: Option<AudioDevice>,
    pub output: Option<AudioDevice>,
}

/// A device, mathematically: the text of its name, if it has one to show.
pub struct AudioDeviceView {
    pub name: Option<Seq<char>>,
}

/// A host, mathematically: its two default devices.
pub struct AudioHostView {
    pub input: Option<AudioDeviceView>,
    pub output: Option<AudioDeviceView>,
}

impl View for AudioDevice {
    type V = AudioDeviceView;

    open spec fn view(&self) -> AudioDeviceView {
        AudioDeviceView {
            name: match self.name {
                Some(name) => Some(name@),
                None => None,
            },
        }
    }
}

impl View for AudioHost {
    type V = AudioHostView;

    open spec fn view(&self) -> AudioHostView {
        AudioHostView {
            input: match self.input {
                Some(device) => Some(device@),
                None => None,
            },
            output: match self.output {
                Some(device) => Some(device@),
                None => None,
            },
        }
    }
}

/// The status line for the default input device.
pub open spec fn input_status(device: Option<AudioDeviceView>) -> Seq<char> {
    match device {
        None => "No audio input device?"@,
        Some(device) => match device.name {
            Some(name) => "Default input device: "@ + name,
            None => "input device: name unavailable"@,
        },
    }
}

/// The status line for the default output device.
pub open spec fn output_status(device: Option<AudioDeviceView>) -> Seq<char> {
    match device {
        None => "No default output device?"@,
        Some(device) => match device.name {
            Some(name) => "Default output device: "@ + name,
            None => "output device: name unavailable"@,
        },
    }
}

/// The status lines of one resolution: with a host, the line of its input
/// device and then the line of its output device; without a host, a single
/// fallback line, and no device is asked for.
pub open spec fn status_lines(host: Option<AudioHostView>) -> Seq<Seq<char>> {
    match host {
        Some(host) => seq![input_status(host.input), output_status(host.output)],
        None => seq!["No audio host?"@],
    }
}

impl AudioDevice {
    /// The device's name, or `None` where it could not be read.
    pub fn name(&self) -> (name: Option<&String>)
        ensures
            match name {
                Some(text) => self@.name == Some(text@),
                None => self@.name is None,
            },
    {
        self.name.as_ref()
    }
}

impl AudioHost {
    /// The host's default input device, if there is one.
    pub fn default_input_device(&self) -> (device: Option<&AudioDevice>)
        ensures
            match device {
                Some(found) => self@.input == Some(found@),
                None => self@.input is None,
            },
    {
        self.input.as_ref()
    }

    /// The host's default output device, if there is one.
    pub fn default_output_device(&self) -> (device: Option<&AudioDevice>)
        ensures
            match device {
                Some(found) => self@.output == Some(found@),
                None => self@.output is None,
            },
    {
        self.output.as_ref()
    }

    /// The status line for this host's default input device.
    pub fn input_status_line(&self) -> (line: String)
        ensures
            line@ == input_status(self@.input),
    {
        match self.default_input_device() {
            Some(device) => match device.name() {
                Some(name) => String::from_str("Default input device: ").concat(name.as_str()),
                None => String::from_str("input device: name unavailable"),
            },
            None => String::from_str("No audio input device?"),
        }
    }

    /// The status line for this host's default output device.
    pub fn output_status_line(&self) -> (line: String)
        ensures
            line@ == output_status(self@.output),
    {
        match self.default_output_device() {
            Some(device) => match device.name() {
                Some(name) => String::from_str("Default output device: ").concat(name.as_str()),
                None => String::from_str("output device: name unavailable"),
            },
            None => String::from_str("No default output device?"),
        }
    }
}

/// What the state's host handle stands for, mathematically.
pub open spec fn host_view(host: Option<NoDebug<AudioHost>>) -> Option<AudioHostView> {
    match host {
        Some(handle) => Some(handle@@),
        None => None,
    }
}

/// Resolves the audio devices of the host, if there is one, into status lines.
pub fn resolve(host: &Option<NoDebug<AudioHost>>) -> (lines: Vec<String>)
    ensures
        texts(lines@) == status_lines(host_view(*host)),
{
    let mut lines: Vec<String> = Vec::new();
    match host {
        Some(handle) => {
            let host: &AudioHost = handle.deref();
            lines.push(host.input_status_line());
            lines.push(host.output_status_line());
        },
        None => {
            lines.push(String::from_str("No audio host?"));
        },
    }
    assert(texts(lines@) =~= status_lines(host_view(*host)));
    lines
}

} // verus!
