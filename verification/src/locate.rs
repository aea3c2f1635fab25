//! Where the engine's files are: the search for its executable, and the
//! paths that a launch needs.

use vstd::prelude::*;
use vstd::string::StringExecFns;
use crate::error::{CoreError, CoreErrorView, ErrorKind};
use crate::state::CoreType;

verus! {

/// What a look into one directory gave.
#[derive(Debug, PartialEq, Eq)]
pub enum Lookup {
    /// The directory itself could not be determined; the text says why.
    Unavailable(String),
    /// The directory holds no executable of the expected name.
    Absent,
    /// The directory holds the executable, at this path.
    Present(String),
}

pub enum LookupView {
    Unavailable(Seq<char>),
    Absent,
    Present(Seq<char>),
}

impl View for Lookup {
    type V = LookupView;

    open spec fn view(&self) -> LookupView {
        match self {
            Lookup::Unavailable(why) => LookupView::Unavailable(why@),
            Lookup::Absent => LookupView::Absent,
            Lookup::Present(path) => LookupView::Present(path@),
        }
    }
}

/// A text, or the reason why there is none, by their characters.
pub open spec fn text_result(r: Result<String, String>) -> Result<Seq<char>, Seq<char>> {
    match r {
        Ok(text) => Ok(text@),
        Err(why) => Err(why@),
    }
}

/// The view of a result that holds a path.
pub open spec fn path_result(r: Result<String, CoreError>) -> Result<Seq<char>, CoreErrorView> {
    match r {
        Ok(path) => Ok(path@),
        Err(e) => Err(e@),
    }
}

/// The executable that the search selects: the one in the data directory
/// before the one in the install directory. A directory that cannot be
/// determined ends the search with its reason; where neither directory holds
/// the executable, the error names it.
pub open spec fn spec_find_binary_path(
    exe_name: Seq<char>,
    data: LookupView,
    install: LookupView,
) -> Result<Seq<char>, CoreErrorView> {
    match data {
        LookupView::Unavailable(why) => Err(CoreErrorView { kind: ErrorKind::NotFound, message: why }),
        LookupView::Present(path) => Ok(path),
        LookupView::Absent => match install {
            LookupView::Unavailable(why) => Err(
                CoreErrorView { kind: ErrorKind::NotFound, message: why },
            ),
            LookupView::Present(path) => Ok(path),
            LookupView::Absent => Err(
                CoreErrorView { kind: ErrorKind::NotFound, message: exe_name + " not found"@ },
            ),
        },
    }
}

/// Searches the executable of the engine: data directory, then install
/// directory.
pub fn find_binary_path(exe_name: &str, data: &Lookup, install: &Lookup) -> (found: Result<
    String,
    CoreError,
>)
    ensures
        path_result(found) == spec_find_binary_path(exe_name@, data@, install@),
{
    match data {
        Lookup::Unavailable(why) => Err(CoreError::new(ErrorKind::NotFound, why.clone())),
        Lookup::Present(path) => Ok(path.clone()),
        Lookup::Absent => match install {
            Lookup::Unavailable(why) => Err(CoreError::new(ErrorKind::NotFound, why.clone())),
            Lookup::Present(path) => Ok(path.clone()),
            Lookup::Absent => {
                let message = String::from_str(exe_name).concat(" not found");
                Err(CoreError::new(ErrorKind::NotFound, message))
            },
        },
    }
}

/// What is read from the settings and the file system before an instance is
/// built.
#[derive(Debug, PartialEq, Eq)]
pub struct Environment {
    /// The variant that the settings name, if any.
    pub core_type: Option<CoreType>,
    /// The file name of the variant's executable.
    pub exe_name: String,
    /// The application's data directory, in which the engine works.
    pub data_dir: Result<String, String>,
    /// The look for the executable in the data directory.
    pub in_data_dir: Lookup,
    /// The look for the executable in the install directory.
    pub in_install_dir: Lookup,
    /// The generated configuration that the engine is to run.
    pub config_path: Result<String, String>,
    /// The file that marks the process id.
    pub pid_path: Result<String, String>,
}

pub struct EnvironmentView {
    pub core_type: Option<CoreType>,
    pub exe_name: Seq<char>,
    pub data_dir: Result<Seq<char>, Seq<char>>,
    pub in_data_dir: LookupView,
    pub in_install_dir: LookupView,
    pub config_path: Result<Seq<char>, Seq<char>>,
    pub pid_path: Result<Seq<char>, Seq<char>>,
}

impl View for Environment {
    type V = EnvironmentView;

    open spec fn view(&self) -> EnvironmentView {
        EnvironmentView {
            core_type: self.core_type,
            exe_name: self.exe_name@,
            data_dir: text_result(self.data_dir),
            in_data_dir: self.in_data_dir@,
            in_install_dir: self.in_install_dir@,
            config_path: text_result(self.config_path),
            pid_path: text_result(self.pid_path),
        }
    }
}

/// What a launch of the engine as a child process needs.
#[derive(Debug, PartialEq, Eq)]
pub struct Launch {
    pub core_type: CoreType,
    pub app_dir: String,
    pub binary_path: String,
    pub config_path: String,
    pub pid_path: String,
}

pub struct LaunchView {
    pub core_type: CoreType,
    pub app_dir: Seq<char>,
    pub binary_path: Seq<char>,
    pub config_path: Seq<char>,
    pub pid_path: Seq<char>,
}

impl View for Launch {
    type V = LaunchView;

    open spec fn view(&self) -> LaunchView {
        LaunchView {
            core_type: self.core_type,
            app_dir: self.app_dir@,
            binary_path: self.binary_path@,
            config_path: self.config_path@,
            pid_path: self.pid_path@,
        }
    }
}

impl Clone for Launch {
    fn clone(&self) -> (copy: Self)
        ensures
            copy@ == self@,
    {
        Launch {
            core_type: self.core_type,
            app_dir: self.app_dir.clone(),
            binary_path: self.binary_path.clone(),
            config_path: self.config_path.clone(),
            pid_path: self.pid_path.clone(),
        }
    }
}

/// The launch that an environment gives: the first of its failures, in the
/// order data directory, executable, configuration, process id file; else the
/// paths.
pub open spec fn spec_launch(env: EnvironmentView) -> Result<LaunchView, CoreErrorView> {
    match env.data_dir {
        Err(why) => Err(CoreErrorView { kind: ErrorKind::ConfigFailure, message: why }),
        Ok(app_dir) => match spec_find_binary_path(env.exe_name, env.in_data_dir, env.in_install_dir) {
            Err(e) => Err(e),
            Ok(binary_path) => match env.config_path {
                Err(why) => Err(CoreErrorView { kind: ErrorKind::ConfigFailure, message: why }),
                Ok(config_path) => match env.pid_path {
                    Err(why) => Err(CoreErrorView { kind: ErrorKind::ConfigFailure, message: why }),
                    Ok(pid_path) => Ok(
                        LaunchView {
                            core_type: CoreType::spec_or_default(env.core_type),
                            app_dir,
                            binary_path,
                            config_path,
                            pid_path,
                        },
                    ),
                },
            },
        },
    }
}

pub open spec fn launch_result(r: Result<Launch, CoreError>) -> Result<LaunchView, CoreErrorView> {
    match r {
        Ok(launch) => Ok(launch@),
        Err(e) => Err(e@),
    }
}

/// Gathers what a launch needs, or reports the first thing that is missing.
pub fn launch_of(env: &Environment) -> (launch: Result<Launch, CoreError>)
    ensures
        launch_result(launch) == spec_launch(env@),
{
    let app_dir = match &env.data_dir {
        Ok(dir) => dir.clone(),
        Err(why) => { return Err(CoreError::new(ErrorKind::ConfigFailure, why.clone())); },
    };
    let binary_path = match find_binary_path(
        env.exe_name.as_str(),
        &env.in_data_dir,
        &env.in_install_dir,
    ) {
        Ok(path) => path,
        Err(e) => { return Err(e); },
    };
    let config_path = match &env.config_path {
        Ok(path) => path.clone(),
        Err(why) => { return Err(CoreError::new(ErrorKind::ConfigFailure, why.clone())); },
    };
    let pid_path = match &env.pid_path {
        Ok(path) => path.clone(),
        Err(why) => { return Err(CoreError::new(ErrorKind::ConfigFailure, why.clone())); },
    };
    Ok(
        Launch {
            core_type: CoreType::or_default(env.core_type),
            app_dir,
            binary_path,
            config_path,
            pid_path,
        },
    )
}

} // verus!
