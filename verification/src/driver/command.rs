//! What the toolchain is asked.

use vstd::prelude::*;
use vstd::string::*;

use crate::driver::fields::{OutputType, Platform};
use crate::driver::verbosity::Verbosity;
use crate::driver::BuildError;
use crate::text::texts_view;

verus! {

/// What is to be built.
#[derive(Debug, PartialEq, Eq)]
pub struct BuildRequest {
    /// The platform to build for.
    pub platform: Platform,
    /// The type of file to leave behind.
    pub output_type: OutputType,
    /// Whether every package of the workspace is built.
    pub workspace: bool,
    /// The one package to build, if only one is.
    pub package: Option<String>,
    /// Arguments that are handed to the toolchain as they are.
    pub custom_options: Vec<String>,
}

/// What a [`BuildRequest`] stands for.
pub ghost struct BuildRequestView {
    pub platform: Platform,
    pub output_type: OutputType,
    pub workspace: bool,
    pub package: Option<Seq<char>>,
    pub custom_options: Seq<Seq<char>>,
}

impl View for BuildRequest {
    type V = BuildRequestView;

    open spec fn view(&self) -> BuildRequestView {
        BuildRequestView {
            platform: self.platform,
            output_type: self.output_type,
            workspace: self.workspace,
            package: match self.package {
                Some(package) => Some(package@),
                None => None,
            },
            custom_options: texts_view(self.custom_options@),
        }
    }
}

impl BuildRequestView {
    /// The path of the file that describes the platform, from the directory of
    /// the driver.
    pub open spec fn target_file(self) -> Seq<char> {
        "targets/"@ + self.platform.target_json()
    }

    /// The arguments of both runs of the toolchain: `build`, the package if one
    /// is named, `--workspace` if the workspace is built, the description of
    /// the platform, which is the file at `target_json`, and then the custom
    /// options in their order.
    pub open spec fn cargo_arguments(self, target_json: Seq<char>) -> Seq<Seq<char>> {
        seq!["build"@] + (match self.package {
            Some(package) => seq!["--package"@, package],
            None => Seq::empty(),
        }) + (if self.workspace {
            seq!["--workspace"@]
        } else {
            Seq::empty()
        }) + seq!["--target="@ + target_json] + self.custom_options
    }
}

/// The arguments of the run that the user watches: those of both runs, and
/// `--quiet` or `--verbose` where the verbosity is not the normal one.
pub open spec fn status_arguments_of(arguments: Seq<Seq<char>>, verbosity: Verbosity) -> Seq<
    Seq<char>,
> {
    match verbosity {
        Verbosity::Quiet => arguments.push("--quiet"@),
        Verbosity::Normal => arguments,
        Verbosity::Verbose => arguments.push("--verbose"@),
    }
}

/// The arguments of the run whose answer is read: those of both runs, the
/// demand for JSON and `--quiet`.
pub open spec fn output_arguments_of(arguments: Seq<Seq<char>>) -> Seq<Seq<char>> {
    arguments.push("-message-format=json"@).push("--quiet"@)
}

/// A copy of `texts`.
fn copy_texts(texts: &Vec<String>) -> (copy: Vec<String>)
    ensures
        texts_view(copy@) == texts_view(texts@),
{
    let mut copy: Vec<String> = Vec::new();
    let mut i: usize = 0;
    while i < texts.len()
        invariant
            i <= texts.len(),
            copy@.len() == i,
            forall|j: int| 0 <= j < i ==> (#[trigger] copy@[j])@ == texts@[j]@,
        decreases texts.len() - i,
    {
        copy.push(texts[i].clone());
        i = i + 1;
    }
    assert(texts_view(copy@) =~= texts_view(texts@));
    copy
}

impl BuildRequest {
    /// Whether the request can be met: the platform must have the type of
    /// output that is asked for.
    pub fn check(&self) -> (result: Result<(), BuildError>)
        ensures
            self.output_type.supports(self.platform) ==> result == Ok::<(), BuildError>(()),
            !self.output_type.supports(self.platform) ==> result == Err::<(), BuildError>(
                BuildError::UnsupportedOutput,
            ),
    {
        if self.output_type.supports_platform(self.platform) {
            Ok(())
        } else {
            Err(BuildError::UnsupportedOutput)
        }
    }

    /// The path of the file that describes the platform, from the directory of
    /// the driver.
    pub fn target_file(&self) -> (path: String)
        ensures
            path@ == self@.target_file(),
    {
        String::from_str("targets/").concat(self.platform.target_json_name())
    }

    /// The arguments of both runs of the toolchain.
    pub fn cargo_arguments(&self, target_json: &str) -> (arguments: Vec<String>)
        ensures
            texts_view(arguments@) == self@.cargo_arguments(target_json@),
    {
        let mut arguments: Vec<String> = Vec::new();
        arguments.push(String::from_str("build"));
        if let Some(package) = &self.package {
            arguments.push(String::from_str("--package"));
            arguments.push(package.clone());
        }
        if self.workspace {
            arguments.push(String::from_str("--workspace"));
        }
        arguments.push(String::from_str("--target=").concat(target_json));
        let ghost options = texts_view(self.custom_options@);
        let ghost fixed = texts_view(arguments@);
        assert(fixed + options == self@.cargo_arguments(target_json@));
        assert(fixed + options.take(0) == fixed);
        let mut i: usize = 0;
        while i < self.custom_options.len()
            invariant
                i <= self.custom_options.len(),
                options == texts_view(self.custom_options@),
                texts_view(arguments@) == fixed + options.take(i as int),
            decreases self.custom_options.len() - i,
        {
            let option = self.custom_options[i].clone();
            assert(texts_view(arguments@.push(option)) == texts_view(arguments@).push(option@));
            assert(options.take(i + 1) == options.take(i as int).push(option@));
            arguments.push(option);
            i = i + 1;
        }
        assert(options.take(i as int) == options);
        arguments
    }
}

impl Verbosity {
    /// The arguments of the run that the user watches.
    pub fn status_arguments(self, arguments: &Vec<String>) -> (status: Vec<String>)
        ensures
            texts_view(status@) == status_arguments_of(texts_view(arguments@), self),
    {
        let mut status = copy_texts(arguments);
        match self {
            Verbosity::Quiet => {
                status.push(String::from_str("--quiet"));
            },
            Verbosity::Normal => {},
            Verbosity::Verbose => {
                status.push(String::from_str("--verbose"));
            },
        }
        assert(texts_view(status@) =~= status_arguments_of(texts_view(arguments@), self));
        status
    }
}

/// The arguments of the run whose answer is read.
pub fn output_arguments(arguments: &Vec<String>) -> (output: Vec<String>)
    ensures
        texts_view(output@) == output_arguments_of(texts_view(arguments@)),
{
    let mut output = copy_texts(arguments);
    output.push(String::from_str("-message-format=json"));
    output.push(String::from_str("--quiet"));
    assert(texts_view(output@) =~= output_arguments_of(texts_view(arguments@)));
    output
}

} // verus!
