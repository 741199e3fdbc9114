//! The options of the client application: the image to open and whether
//! the interpreter runs in a worker thread.
use vstd::prelude::*;
use crate::platform::OperatingSystem;
use crate::text::{copy_str, concat, str_eq};
use super::application::ApplicationError;

verus! {

/// Whether the interpreter runs in a worker thread, leaving the main thread
/// to the user interface.
#[derive(Debug, Clone, Copy, PartialEq, Eq, Structural)]
pub enum WorkerThreadMode {
    /// Run the interpreter in a worker thread.
    Yes,
    /// Run the interpreter on the main thread.
    No,
    /// Decide by the platform.
    Auto,
}

/// The name of each mode on the command line.
pub open spec fn mode_name(mode: WorkerThreadMode) -> Seq<char> {
    match mode {
        WorkerThreadMode::Yes => "yes"@,
        WorkerThreadMode::No => "no"@,
        WorkerThreadMode::Auto => "auto"@,
    }
}

/// The mode with exactly the given name.
pub open spec fn mode_named(s: Seq<char>) -> Option<WorkerThreadMode> {
    if s == "yes"@ {
        Some(WorkerThreadMode::Yes)
    } else if s == "no"@ {
        Some(WorkerThreadMode::No)
    } else if s == "auto"@ {
        Some(WorkerThreadMode::Auto)
    } else {
        None
    }
}

/// Whether a mode runs the interpreter in a worker thread: automatically
/// on macOS and Windows.
pub open spec fn runs_in_worker_thread(mode: WorkerThreadMode, os: OperatingSystem) -> bool {
    match mode {
        WorkerThreadMode::Yes => true,
        WorkerThreadMode::No => false,
        WorkerThreadMode::Auto => os == OperatingSystem::MacOs || os == OperatingSystem::Windows,
    }
}

impl WorkerThreadMode {
    /// Whether the interpreter runs in a worker thread on the given
    /// platform.
    pub fn should_run_in_worker_thread(&self, os: OperatingSystem) -> (result: bool)
        ensures
            result == runs_in_worker_thread(*self, os),
    {
        match self {
            WorkerThreadMode::Yes => true,
            WorkerThreadMode::No => false,
            WorkerThreadMode::Auto => match os {
                OperatingSystem::MacOs => true,
                OperatingSystem::Windows => true,
                _ => false,
            },
        }
    }

    /// The mode's name on the command line.
    pub fn name(&self) -> (result: &'static str)
        ensures
            result@ == mode_name(*self),
    {
        match self {
            WorkerThreadMode::Yes => "yes",
            WorkerThreadMode::No => "no",
            WorkerThreadMode::Auto => "auto",
        }
    }

    /// The mode with the given name, compared exactly; otherwise the error
    /// `Invalid variant: ` and the name.
    pub fn from_str(s: &str) -> (result: Result<WorkerThreadMode, String>)
        ensures
            match mode_named(s@) {
                Some(m) => result matches Ok(r) && r == m,
                None => result matches Err(e) && e@ == "Invalid variant: "@ + s@,
            },
    {
        if str_eq(s, "yes") {
            Ok(WorkerThreadMode::Yes)
        } else if str_eq(s, "no") {
            Ok(WorkerThreadMode::No)
        } else if str_eq(s, "auto") {
            Ok(WorkerThreadMode::Auto)
        } else {
            Err(concat("Invalid variant: ", s))
        }
    }
}

/// A mode's name reads back as that mode.
pub proof fn lemma_mode_name_round_trip(mode: WorkerThreadMode)
    ensures
        mode_named(mode_name(mode)) == Some(mode),
{
    reveal_strlit("yes");
    reveal_strlit("no");
    reveal_strlit("auto");
    assert("no"@ != "yes"@) by {
        assert("no"@.len() != "yes"@.len());
    }
    assert("auto"@ != "yes"@) by {
        assert("auto"@.len() != "yes"@.len());
    }
    assert("auto"@ != "no"@) by {
        assert("auto"@.len() != "no"@.len());
    }
}

/// The options of the application.
#[derive(Debug, Clone)]
pub struct AppOptions {
    /// The image to open instead of looking for one.
    pub image: Option<String>,
    /// Whether to run the interpreter in a worker thread.
    pub worker: WorkerThreadMode,
    /// Whether to print the version and stop.
    pub version: bool,
}

impl AppOptions {
    /// Options with the given image, mode and version flag.
    pub fn new(image: Option<String>, worker: WorkerThreadMode, version: bool) -> (result: Self)
        ensures
            result.image == image,
            result.worker == worker,
            result.version == version,
    {
        AppOptions { image, worker, version }
    }

    /// Makes the image given on the command line absolute: fails when it
    /// does not exist, otherwise it is replaced by its absolute form. Without
    /// an image nothing changes.
    pub fn canonicalize(&mut self, image_exists: bool, absolute_image: String) -> (result: Result<(), ApplicationError>)
        ensures
            match old(self).image {
                None => result is Ok && *final(self) == *old(self),
                Some(i) => if image_exists {
                    result is Ok && final(self).image == Some(absolute_image) && final(self).worker == old(self).worker
                        && final(self).version == old(self).version
                } else {
                    result matches Err(ApplicationError::ImageFileDoesNotExist(p)) && p == i && *final(self) == *old(self)
                },
            },
    {
        match &self.image {
            None => Ok(()),
            Some(image) => {
                if !image_exists {
                    return Err(ApplicationError::ImageFileDoesNotExist(image.clone()));
                }
                self.image = Some(absolute_image);
                Ok(())
            },
        }
    }

    /// The image given on the command line, if any.
    pub fn image(&self) -> (result: Option<&str>)
        ensures
            match self.image {
                Some(i) => result matches Some(r) && r@ == i@,
                None => result is None,
            },
    {
        match &self.image {
            Some(i) => Some(i.as_str()),
            None => None,
        }
    }

    /// Whether the interpreter runs in a worker thread on the given
    /// platform.
    pub fn should_run_in_worker_thread(&self, os: OperatingSystem) -> (result: bool)
        ensures
            result == runs_in_worker_thread(self.worker, os),
    {
        self.worker.should_run_in_worker_thread(os)
    }
}

} // verus!
