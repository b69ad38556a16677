//! What the library needs to know of the host it runs on.

use crate::version::ConanVersion;
use vstd::prelude::*;

verus! {

/// What the host says of itself: the environment variables that the library
/// reads, the result of the search for the executable, and the working
/// directory. Whoever calls the library looks these up and hands them in.
#[derive(Debug)]
pub struct Environment {
    /// Value of the `CONAN` variable: the path of the executable, where the
    /// user names it.
    pub conan: Option<String>,
    /// The `conan` executable that a search of `PATH` found.
    pub conan_on_path: Option<String>,
    /// Value of the `OUT_DIR` variable: the output directory of a command
    /// that names none.
    pub out_dir: Option<String>,
    /// The current working directory.
    pub current_dir: Option<String>,
}

/// What an [`Environment`] holds.
pub struct EnvironmentView {
    pub conan: Option<Seq<char>>,
    pub conan_on_path: Option<Seq<char>>,
    pub out_dir: Option<Seq<char>>,
    pub current_dir: Option<Seq<char>>,
}

impl EnvironmentView {
    /// The executable to run: the one that `CONAN` names, else the one found
    /// on `PATH`.
    pub open spec fn program(self) -> Option<Seq<char>> {
        if self.conan is Some {
            self.conan
        } else {
            self.conan_on_path
        }
    }
}

impl View for Environment {
    type V = EnvironmentView;

    open spec fn view(&self) -> EnvironmentView {
        EnvironmentView {
            conan: self.conan.deep_view(),
            conan_on_path: self.conan_on_path.deep_view(),
            out_dir: self.out_dir.deep_view(),
            current_dir: self.current_dir.deep_view(),
        }
    }
}

/// Finds the Conan executable: the `CONAN` variable overrides the search of
/// `PATH`, and where neither gives a path there is none.
pub fn find_program(env: &Environment) -> (program: Option<String>)
    ensures
        program.deep_view() == env@.program(),
{
    match &env.conan {
        Some(conan) => Some(conan.clone()),
        None => match &env.conan_on_path {
            Some(conan) => Some(conan.clone()),
            None => None,
        },
    }
}

/// The version that the Conan executable of this host reported: the one
/// that `output` names, where `output` is what the executable printed when
/// it was run with `--version`. There is none where the host has no
/// executable, where there is no output, and where the output names none.
pub open spec fn spec_detect(env: EnvironmentView, output: Option<Seq<char>>) -> Option<
    ConanVersion,
> {
    match output {
        Some(output) => if env.program() is Some {
            ConanVersion::spec_query_from(output)
        } else {
            None
        },
        None => None,
    }
}

impl ConanVersion {
    /// Discovers the version of the Conan executable of this host from what
    /// the executable printed when it was run with `--version`: `None` for
    /// `output` where it could not be run. Without an executable there is no
    /// version, whatever the output.
    pub fn detect(env: &Environment, output: Option<&str>) -> (version: Option<ConanVersion>)
        ensures
            version == spec_detect(
                env@,
                match output {
                    Some(output) => Some(output@),
                    None => None,
                },
            ),
    {
        match output {
            Some(output) => match find_program(env) {
                Some(_) => ConanVersion::query_from(output),
                None => None,
            },
            None => None,
        }
    }
}

/// Finds the version of the Conan executable of this host, as text such as
/// `1.2.3`. The arguments are those of [`ConanVersion::detect`].
pub fn find_version(env: &Environment, output: Option<&str>) -> (version: Option<String>)
    ensures
        version.deep_view() == match spec_detect(
            env@,
            match output {
                Some(output) => Some(output@),
                None => None,
            },
        ) {
            Some(version) => Some(version.spec_text()),
            None => None,
        },
{
    match ConanVersion::detect(env, output) {
        Some(version) => Some(version.to_text()),
        None => None,
    }
}

} // verus!
