use vstd::prelude::*;
use vstd::string::*;

verus! {

/// Which directory was found missing while listing wallpapers.
#[derive(Debug)]
pub enum MissingDir {
    /// The platform exposes no pictures base directory at all.
    Pictures,
    /// The pictures directory exists but holds no wallpapers subdirectory.
    Wallpapers,
}

/// Which of the two daemon invocations a launch failure came from.
#[derive(Debug)]
pub enum SetStep {
    /// The `init` invocation that ensures the daemon is running.
    Init,
    /// The `img` invocation that applies the image.
    Img,
}

/// The closed set of failures either operation can report. Each variant is
/// flattened to a human-readable message only at the outermost boundary.
#[derive(Debug)]
pub enum ErrorKind {
    /// A directory the listing needs does not exist.
    DirectoryNotFound(MissingDir),
    /// The wallpapers directory could not be opened, or an entry could not be
    /// read mid-scan; the carried text is the operating system's error text.
    IoError(String),
    /// One of the two daemon processes could not be started at all; the
    /// carried text is the operating system's error text.
    ProcessLaunchFailed(SetStep, String),
    /// The `img` invocation ran but exited with a non-zero status.
    ToolReportedFailure,
}

impl ErrorKind {
    /// The human-readable message this error flattens to at the boundary.
    pub open spec fn message_spec(&self) -> Seq<char> {
        match self {
            ErrorKind::DirectoryNotFound(MissingDir::Pictures) => "Could not find Pictures directory"@,
            ErrorKind::DirectoryNotFound(MissingDir::Wallpapers) => "Wallpapers directory not found"@,
            ErrorKind::IoError(m) => m@,
            ErrorKind::ProcessLaunchFailed(SetStep::Init, m) => "Failed to run swww init: "@ + m@,
            ErrorKind::ProcessLaunchFailed(SetStep::Img, m) => "Failed to run swww img: "@ + m@,
            ErrorKind::ToolReportedFailure => "swww failed to set wallpaper"@,
        }
    }

    /// Flattens the error to its message string.
    pub fn message(&self) -> (r: String)
        ensures
            r@ == self.message_spec(),
    {
        match self {
            ErrorKind::DirectoryNotFound(MissingDir::Pictures) => String::from_str(
                "Could not find Pictures directory",
            ),
            ErrorKind::DirectoryNotFound(MissingDir::Wallpapers) => String::from_str(
                "Wallpapers directory not found",
            ),
            ErrorKind::IoError(m) => m.clone(),
            ErrorKind::ProcessLaunchFailed(SetStep::Init, m) => String::from_str(
                "Failed to run swww init: ",
            ).concat(m.as_str()),
            ErrorKind::ProcessLaunchFailed(SetStep::Img, m) => String::from_str(
                "Failed to run swww img: ",
            ).concat(m.as_str()),
            ErrorKind::ToolReportedFailure => String::from_str("swww failed to set wallpaper"),
        }
    }
}

} // verus!
