//! The client application: where it works, which image it opens and how
//! the interpreter is started for it.
use vstd::prelude::*;
use crate::platform::OperatingSystem;
use crate::paths::{parent, parent_of, file_name, file_name_of};
use crate::text::{copy_str, views};
use crate::bindings::parameters::{InterpreterParameters, ParametersModel, default_parameters, image_name_text};
use crate::bindings::configuration::{InterpreterConfiguration, ConfigurationModel};
use super::options::{AppOptions, runs_in_worker_thread};

verus! {

/// Why the application could not start.
#[derive(Debug, Clone)]
pub enum ApplicationError {
    /// The image named on the command line does not exist.
    ImageFileDoesNotExist(String),
    /// No image was given, found or picked.
    ImageFileNotFound,
    /// The path has no parent directory.
    NoParentDirectory(String),
    /// The path has no file name.
    FailedToGetFileName(String),
    /// The process has no arguments, so no executable.
    NoExecutableInArguments,
}

/// How many directories up from the executable the working directory is:
/// the executable is in `Contents/MacOS` of an app bundle on macOS, in
/// `bin` elsewhere.
pub open spec fn levels_up(os: OperatingSystem) -> nat {
    if os == OperatingSystem::MacOs { 4 } else { 2 }
}

/// The ancestor `n` levels up, if every level has a parent.
pub open spec fn ancestor(path: Seq<char>, n: nat) -> Option<Seq<char>>
    decreases n,
{
    if n == 0 {
        Some(path)
    } else {
        match parent_of(path) {
            Some(p) => ancestor(p, (n - 1) as nat),
            None => None,
        }
    }
}

/// The parent of the parent of a path.
pub open spec fn grandparent_of(path: Seq<char>) -> Option<Seq<char>> {
    match parent_of(path) {
        Some(p) => parent_of(p),
        None => None,
    }
}

/// The path four parents up.
pub open spec fn four_levels_up(path: Seq<char>) -> Option<Seq<char>> {
    match grandparent_of(path) {
        Some(g) => grandparent_of(g),
        None => None,
    }
}

/// The working directory of an executable is the parent of the directory
/// it is in (out of `bin`) on every system but macOS; on macOS it is four
/// directories up (out of `App.app/Contents/MacOS`).
pub proof fn law_working_directory_levels(executable: Seq<char>, os: OperatingSystem)
    ensures
        os != OperatingSystem::MacOs ==> ancestor(executable, levels_up(os)) == grandparent_of(executable),
        os == OperatingSystem::MacOs ==> ancestor(executable, levels_up(os)) == four_levels_up(executable),
{
    reveal_with_fuel(ancestor, 5);
}

/// The first path on the way up that has no parent, if any.
pub open spec fn missing_parent(path: Seq<char>, n: nat) -> Seq<char>
    decreases n,
{
    if n == 0 {
        path
    } else {
        match parent_of(path) {
            Some(p) => missing_parent(p, (n - 1) as nat),
            None => path,
        }
    }
}

/// The directory the application works in, given the path of its
/// executable: four levels up on macOS (out of `App.app/Contents/MacOS`),
/// two elsewhere (out of `bin`). Fails with the path that has no parent.
pub fn executable_working_directory(current_exe: &str, os: OperatingSystem) -> (result: Result<String, ApplicationError>)
    ensures
        match ancestor(current_exe@, levels_up(os)) {
            Some(d) => result matches Ok(r) && r@ == d,
            None => result matches Err(ApplicationError::NoParentDirectory(p)) && p@ == missing_parent(
                current_exe@,
                levels_up(os),
            ),
        },
        os != OperatingSystem::MacOs ==> (result matches Ok(r) ==> Some(r@) == grandparent_of(current_exe@)),
        os != OperatingSystem::MacOs && grandparent_of(current_exe@) is Some ==> result is Ok,
        os == OperatingSystem::MacOs ==> (result matches Ok(r) ==> Some(r@) == four_levels_up(current_exe@)),
        os == OperatingSystem::MacOs && four_levels_up(current_exe@) is Some ==> result is Ok,
{
    proof {
        law_working_directory_levels(current_exe@, os);
    }
    let levels: usize = if os == OperatingSystem::MacOs { 4 } else { 2 };
    let mut directory = copy_str(current_exe);
    let mut k: usize = 0;
    while k < levels
        invariant
            k <= levels,
            levels == levels_up(os),
            ancestor(current_exe@, levels_up(os)) == ancestor(directory@, (levels - k) as nat),
            missing_parent(current_exe@, levels_up(os)) == missing_parent(directory@, (levels - k) as nat),
        decreases levels - k,
    {
        match parent(directory.as_str()) {
            Some(p) => {
                directory = p;
            },
            None => {
                assert(ancestor(directory@, (levels - k) as nat) is None);
                proof {
                    law_working_directory_levels(current_exe@, os);
                }
                return Err(ApplicationError::NoParentDirectory(directory));
            },
        }
        k = k + 1;
    }
    Ok(directory)
}

/// The directories searched for an image when none is given: the current
/// directory, then the working directory of the executable.
pub fn image_search_directories(current_directory: String, executable_directory: String) -> (result: Vec<String>)
    ensures
        result@ == seq![current_directory, executable_directory],
{
    let result = vec![current_directory, executable_directory];
    assert(result@ =~= seq![current_directory, executable_directory]);
    result
}

/// The directory the image dialog opens in: the working directory of the
/// executable, or the current directory when the app was translocated.
pub fn dialog_directory(executable_directory: String, current_directory: String, translocated: bool) -> (result: String)
    ensures
        result == (if translocated { current_directory } else { executable_directory }),
{
    if translocated {
        current_directory
    } else {
        executable_directory
    }
}

/// The application with its options, image and working directory.
#[derive(Debug, Clone)]
pub struct Application {
    options: AppOptions,
    working_directory: String,
    image: String,
}

impl Application {
    pub closed spec fn options_view(&self) -> AppOptions {
        self.options
    }

    pub closed spec fn image_view(&self) -> Seq<char> {
        self.image@
    }

    pub closed spec fn working_directory_view(&self) -> Seq<char> {
        self.working_directory@
    }

    /// The application for the image named in the options, or else the
    /// one found (by searching the directories, or with the dialog). It
    /// works in the directory of the image.
    pub fn new(options: AppOptions, found_image: Option<String>) -> (result: Result<Self, ApplicationError>)
        ensures
            ({
                let image = match options.image {
                    Some(i) => Some(i@),
                    None => match found_image {
                        Some(f) => Some(f@),
                        None => None,
                    },
                };
                match image {
                    None => result matches Err(ApplicationError::ImageFileNotFound),
                    Some(i) => match parent_of(i) {
                        None => result matches Err(ApplicationError::NoParentDirectory(p)) && p@ == i,
                        Some(d) => result matches Ok(a) && a.image_view() == i && a.working_directory_view() == d
                            && a.options_view() == options,
                    },
                }
            }),
    {
        let image = match &options.image {
            Some(i) => i.clone(),
            None => match found_image {
                Some(f) => f,
                None => {
                    return Err(ApplicationError::ImageFileNotFound);
                },
            },
        };
        match parent(image.as_str()) {
            None => Err(ApplicationError::NoParentDirectory(image)),
            Some(working_directory) => Ok(Application { options, working_directory, image }),
        }
    }

    /// The directory the application works in.
    pub fn working_directory(&self) -> (result: &str)
        ensures
            result@ == self.working_directory_view(),
    {
        self.working_directory.as_str()
    }

    /// The image the application opens.
    pub fn image(&self) -> (result: &str)
        ensures
            result@ == self.image_view(),
    {
        self.image.as_str()
    }

    /// The name of the executable, given the first process argument.
    pub fn executable_name(&self, first_argument: Option<String>) -> (result: Result<String, ApplicationError>)
        ensures
            match first_argument {
                None => result matches Err(ApplicationError::NoExecutableInArguments),
                Some(a) => match file_name_of(a@) {
                    Some(n) => result matches Ok(r) && r@ == n,
                    None => result matches Err(ApplicationError::FailedToGetFileName(p)) && p@ == a@,
                },
            },
    {
        match first_argument {
            None => Err(ApplicationError::NoExecutableInArguments),
            Some(path) => match file_name(path.as_str()) {
                Some(name) => Ok(name),
                None => Err(ApplicationError::FailedToGetFileName(path)),
            },
        }
    }

    /// The parameters the interpreter is started with: the executable and
    /// the image as arguments, the image as image file, and an interactive
    /// session.
    pub fn interpreter_parameters(&self, executable_path: String) -> (result: InterpreterParameters)
        requires
            !executable_path@.contains('\0'),
            !self.image_view().contains('\0'),
        ensures
            result@ == (ParametersModel {
                arguments: seq![executable_path@, self.image_view()],
                environment: Seq::empty(),
                image_file_name: if self.image_view().len() == 0 { None } else { Some(self.image_view()) },
                is_interactive_session: true,
                ..default_parameters()
            }),
    {
        let ghost executable = executable_path@;
        let arguments = vec![executable_path, self.image.clone()];
        assert(views(arguments@) =~= seq![executable, self.image_view()]);
        let environment: Vec<String> = Vec::new();
        assert(views(environment@) =~= Seq::<Seq<char>>::empty());
        let mut parameters = InterpreterParameters::from_args(arguments, environment);
        assert(image_name_text(parameters@) =~= Seq::<char>::empty());
        let ghost after_arguments = parameters@;
        parameters.set_image_file_name(self.image.clone());
        let ghost after_image = parameters@;
        proof {
            if self.image_view().len() == 0 {
                assert(self.image_view() =~= Seq::<char>::empty());
                assert(after_image == after_arguments);
            } else {
                assert(after_image == (ParametersModel {
                    image_file_name: Some(self.image_view()),
                    is_default_image: false,
                    ..after_arguments
                }));
            }
        }
        parameters.set_is_interactive_session(true);
        parameters
    }

    /// The configuration the interpreter is started with: the image, an
    /// interactive session, no stack printing on signals, and the worker
    /// thread as the options decide on the platform.
    pub fn interpreter_configuration(&self, os: OperatingSystem) -> (result: InterpreterConfiguration)
        ensures
            result@ == (ConfigurationModel {
                image: self.image_view(),
                interactive_session: true,
                should_print_stack_on_signals: false,
                should_avoid_searching_segments_with_pinned_objects: false,
                worker_thread: runs_in_worker_thread(self.options_view().worker, os),
                arguments: Seq::empty(),
            }),
    {
        let mut configuration = InterpreterConfiguration::new(self.image.clone());
        configuration.set_interactive_session(true);
        configuration.set_should_print_stack_on_signals(false);
        configuration.set_is_worker_thread(self.options.should_run_in_worker_thread(os));
        configuration
    }
}

} // verus!
