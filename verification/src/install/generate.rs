//! Running the command: what to do, step by step, to get the build
//! information that Conan generates.

use crate::build_info::{build_info_in, BuildInfo, BuildInfoView};
use crate::host::{find_program, Environment, EnvironmentView};
use crate::install::{InstallCommand, InstallCommandView};
use vstd::prelude::*;

verus! {


/// What happened outside the library, as the caller of
/// [`InstallCommand::generate`] reports it.
#[derive(Debug)]
pub enum GenerateEvent<'a> {
    /// Nothing has happened yet.
    Started,
    /// Conan was run. `exit_code` is the code that it exited with, and
    /// `None` where it could not be started or did not exit by itself.
    Exited { exit_code: Option<i32> },
    /// The build information file was read. `text` is what it holds, and
    /// `None` where it could not be read.
    FileRead { text: Option<&'a str> },
}

/// What the caller of [`InstallCommand::generate`] has to do next.
#[derive(Debug)]
pub enum GenerateAction {
    /// Run `program` with the arguments `args`, wait for it, and report how
    /// it exited.
    Run { program: String, args: Vec<String> },
    /// Read the file at `path` and report what it holds.
    Read { path: String },
    /// Nothing more: `info` is the build information, or `None` where
    /// there is none.
    Done { info: Option<BuildInfo> },
}

/// What a [`GenerateEvent`] holds.
pub enum GenerateEventView {
    Started,
    Exited { exit_code: Option<i32> },
    FileRead { text: Option<Seq<char>> },
}

/// What a [`GenerateAction`] holds.
pub enum GenerateActionView {
    Run { program: Seq<char>, args: Seq<Seq<char>> },
    Read { path: Seq<char> },
    Done { info: Option<BuildInfoView> },
}

impl<'a> View for GenerateEvent<'a> {
    type V = GenerateEventView;

    open spec fn view(&self) -> GenerateEventView {
        match self {
            GenerateEvent::Started => GenerateEventView::Started,
            GenerateEvent::Exited { exit_code } => GenerateEventView::Exited {
                exit_code: *exit_code,
            },
            GenerateEvent::FileRead { text } => GenerateEventView::FileRead {
                text: match text {
                    Some(text) => Some(text@),
                    None => None,
                },
            },
        }
    }
}

impl View for GenerateAction {
    type V = GenerateActionView;

    open spec fn view(&self) -> GenerateActionView {
        match self {
            GenerateAction::Run { program, args } => GenerateActionView::Run {
                program: program@,
                args: args.deep_view(),
            },
            GenerateAction::Read { path } => GenerateActionView::Read { path: path@ },
            GenerateAction::Done { info } => GenerateActionView::Done { info: info.deep_view() },
        }
    }
}

impl InstallCommandView {
    /// What is to be done after `event`.
    ///
    /// At the start Conan is run with the arguments of the command, where
    /// the host has an executable and the command has an output file. When
    /// Conan has exited with code 0, the output file is read. When the file
    /// has been read, what it holds is the result. In every other case
    /// there is nothing more to do and no result.
    pub open spec fn next_action(
        self,
        env: EnvironmentView,
        event: GenerateEventView,
    ) -> GenerateActionView {
        match event {
            GenerateEventView::Started => if env.program() is Some && self.output_file(env)
                is Some {
                GenerateActionView::Run { program: env.program()->0, args: self.args(env) }
            } else {
                GenerateActionView::Done { info: None }
            },
            GenerateEventView::Exited { exit_code } => if exit_code == Some(0i32)
                && self.output_file(env) is Some {
                GenerateActionView::Read { path: self.output_file(env)->0 }
            } else {
                GenerateActionView::Done { info: None }
            },
            GenerateEventView::FileRead { text } => GenerateActionView::Done {
                info: match text {
                    Some(text) => build_info_in(text),
                    None => None,
                },
            },
        }
    }
}

impl<'a> InstallCommand<'a> {
    /// Generates the build information, step by step: the library decides,
    /// and its caller runs Conan and reads the file. The caller starts with
    /// [`GenerateEvent::Started`], does what the action says, reports what
    /// came of it as the next event, and goes on until the action is
    /// [`GenerateAction::Done`]. Whatever goes wrong on the way (no
    /// executable, no output directory, Conan failing, an unreadable file)
    /// ends in `Done` without build information.
    pub fn generate(&self, env: &Environment, event: GenerateEvent) -> (action: GenerateAction)
        ensures
            action@ == self@.next_action(env@, event@),
    {
        match event {
            GenerateEvent::Started => {
                match (find_program(env), self.output_file(env)) {
                    (Some(program), Some(_)) => GenerateAction::Run {
                        program,
                        args: self.args(env),
                    },
                    _ => GenerateAction::Done { info: None },
                }
            },
            GenerateEvent::Exited { exit_code } => {
                let success = match exit_code {
                    Some(code) => code == 0,
                    None => false,
                };
                match self.output_file(env) {
                    Some(path) => if success {
                        GenerateAction::Read { path }
                    } else {
                        GenerateAction::Done { info: None }
                    },
                    None => GenerateAction::Done { info: None },
                }
            },
            GenerateEvent::FileRead { text } => GenerateAction::Done {
                info: match text {
                    Some(text) => BuildInfo::from_str(text),
                    None => None,
                },
            },
        }
    }
}

} // verus!
