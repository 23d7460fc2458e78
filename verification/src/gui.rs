use vstd::prelude::*;
use vstd::string::StringExecFns;
use crate::config::RunConfig;
use crate::formats::{spec_supported_formats, supported_formats};

verus! {

/// The settings the interactive front end collects before it triggers a run.
/// Everything here is plain data; rendering widgets from it and reading events
/// back is the front end's concern.
#[derive(Debug, Clone)]
pub struct Gui {
    pub input_folder: String,
    pub output_folder: String,
    pub ffmpeg_path: String,
    pub threads: usize,
    pub formats: Vec<String>,
    pub format_index: usize,
    pub format_selected: String,
    pub overwrite: bool,
}

/// One change reported by the front end: a field edited, or `Start`, the
/// request to run a conversion with the current settings.
#[derive(Debug, Clone)]
pub enum GuiMessage {
    Start,
    InputFolder(String),
    OutputFolder(String),
    FfmpegPath(String),
    Format(usize, String),
    ThreadNumber(usize),
    Overwrite(bool),
}

/// Relies on num_cpus::get: the number of logical CPUs available to this
/// process, always at least one.
#[verifier::external_body]
fn detect_thread_count() -> (n: usize)
    ensures
        n >= 1,
{
    num_cpus::get()
}

impl Gui {
    /// The window title.
    pub fn title(&self) -> (t: String)
        ensures
            t@ == "rs-ffmpeg-wrapper GUI"@,
    {
        String::from_str("rs-ffmpeg-wrapper GUI")
    }

    /// The initial settings: default folders, the converter looked up on the
    /// search path, one worker per logical CPU, the full format list with the
    /// first format selected, no overwriting.
    pub fn new() -> (gui: Gui)
        ensures
            gui.input_folder@ == "./input"@,
            gui.output_folder@ == "./output"@,
            gui.ffmpeg_path@ == "ffmpeg"@,
            gui.threads >= 1,
            gui.formats@.len() == spec_supported_formats().len(),
            forall|i: int| 0 <= i < gui.formats@.len()
                ==> gui.formats@[i]@ == spec_supported_formats()[i],
            gui.format_index == 0,
            gui.format_selected@ == "mp3"@,
            !gui.overwrite,
    {
        Gui {
            input_folder: String::from_str("./input"),
            output_folder: String::from_str("./output"),
            ffmpeg_path: String::from_str("ffmpeg"),
            threads: detect_thread_count(),
            formats: supported_formats(),
            format_index: 0,
            format_selected: String::from_str("mp3"),
            overwrite: false,
        }
    }

    /// Apply one front-end message to the settings. Every message but `Start`
    /// updates exactly the field it names; `Start` changes nothing and returns
    /// true, telling the caller to run a conversion with the settings as they
    /// stand.
    pub fn update(&mut self, message: GuiMessage) -> (start: bool)
        ensures
            start == (message is Start),
            match message {
                GuiMessage::Start => *final(self) == *old(self),
                GuiMessage::InputFolder(v) => *final(self) == (Gui {
                    input_folder: v,
                    ..*old(self)
                }),
                GuiMessage::OutputFolder(v) => *final(self) == (Gui {
                    output_folder: v,
                    ..*old(self)
                }),
                GuiMessage::FfmpegPath(v) => *final(self) == (Gui { ffmpeg_path: v, ..*old(self) }),
                GuiMessage::Format(i, f) => *final(self) == (Gui {
                    format_index: i,
                    format_selected: f,
                    ..*old(self)
                }),
                GuiMessage::ThreadNumber(n) => *final(self) == (Gui { threads: n, ..*old(self) }),
                GuiMessage::Overwrite(b) => *final(self) == (Gui { overwrite: b, ..*old(self) }),
            },
    {
        match message {
            GuiMessage::Start => true,
            GuiMessage::InputFolder(v) => {
                self.input_folder = v;
                false
            },
            GuiMessage::OutputFolder(v) => {
                self.output_folder = v;
                false
            },
            GuiMessage::FfmpegPath(v) => {
                self.ffmpeg_path = v;
                false
            },
            GuiMessage::Format(i, f) => {
                self.format_index = i;
                self.format_selected = f;
                false
            },
            GuiMessage::ThreadNumber(n) => {
                self.threads = n;
                false
            },
            GuiMessage::Overwrite(b) => {
                self.overwrite = b;
                false
            },
        }
    }

    /// The immutable run configuration captured from the current settings.
    pub fn to_config(&self) -> (c: RunConfig)
        ensures
            c.input_folder == self.input_folder,
            c.output_folder == self.output_folder,
            c.program == self.ffmpeg_path,
            c.overwrite == self.overwrite,
            c.format == self.format_selected,
    {
        RunConfig {
            input_folder: self.input_folder.clone(),
            output_folder: self.output_folder.clone(),
            program: self.ffmpeg_path.clone(),
            overwrite: self.overwrite,
            format: self.format_selected.clone(),
        }
    }
}

} // verus!
