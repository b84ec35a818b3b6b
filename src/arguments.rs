//! The command-line arguments, and what the process does with them.

use vstd::prelude::*;

verus! {

/// Bing wallpaper application arguments.
#[derive(Debug, PartialEq, Eq)]
pub struct BingWallpaperArguments {
    /// Custom configuration file to use.
    pub config_file: Option<String>,
    /// Custom configuration file to initialize.
    pub init_config_file: Option<String>,
    /// If `true`, the wallpaper image must be downloaded but not applied.
    pub download_only: bool,
    /// If `true`, the application must keep looking for new images.
    pub must_loop: bool,
    /// If `true`, the console window is hidden (Windows).
    pub nowindow: bool,
    /// If `true`, the application shows its version and exits.
    pub show_version: bool,
}

/// What the process does.
#[derive(Debug, PartialEq, Eq)]
pub enum RunPlan {
    /// Print name, version, OS and architecture, then exit with success.
    ShowVersion,
    /// Write a new configuration file, then exit with success.
    InitConfigFile { file_name: Option<String> },
    /// Load the configuration and run cycles: once, or repeatedly on the
    /// configured interval; each cycle applies the wallpaper unless
    /// `download_only`.
    Run { config_file: Option<String>, must_loop: bool, download_only: bool },
}

impl BingWallpaperArguments {
    /// Returns what the process does with these arguments: showing the
    /// version comes first, then initializing a configuration file, then
    /// running.
    pub fn plan(self) -> (r: RunPlan)
        ensures
            self.show_version ==> r is ShowVersion,
            !self.show_version && self.init_config_file is Some ==> r == (RunPlan::InitConfigFile {
                file_name: self.init_config_file,
            }),
            !self.show_version && self.init_config_file is None ==> r == (RunPlan::Run {
                config_file: self.config_file,
                must_loop: self.must_loop,
                download_only: self.download_only,
            }),
    {
        if self.show_version {
            RunPlan::ShowVersion
        } else if self.init_config_file.is_some() {
            RunPlan::InitConfigFile { file_name: self.init_config_file }
        } else {
            RunPlan::Run {
                config_file: self.config_file,
                must_loop: self.must_loop,
                download_only: self.download_only,
            }
        }
    }
}

/// What the process does once a cycle is over.
#[derive(Debug, PartialEq, Eq)]
pub enum AfterCycle {
    /// Report `failure` if there is one, wait `seconds`, then run the next
    /// cycle.
    Wait { seconds: u64, failure: Option<String> },
    /// Exit with success.
    Stop,
    /// Abort with a failure status, reporting `message`.
    Fail { message: String },
}

/// How a failed cycle is reported: what failed, then why.
pub open spec fn failure_text(download_only: bool, error: Seq<char>) -> Seq<char> {
    if download_only {
        "Can't download wallpaper: "@ + error
    } else {
        "Can't change wallpaper: "@ + error
    }
}

/// Returns how a failed cycle is reported.
pub fn failure_message(download_only: bool, error: &str) -> (r: String)
    ensures
        r@ == failure_text(download_only, error@),
{
    let mut message = if download_only {
        String::from_str("Can't download wallpaper: ")
    } else {
        String::from_str("Can't change wallpaper: ")
    };
    message.append(error);
    message
}

/// Returns what to do after a cycle that ended with `result`. In loop mode
/// the process goes on after every cycle, `interval` seconds later, and a
/// failure is only reported; run once, it stops, and a failure aborts it.
pub fn after_cycle(must_loop: bool, download_only: bool, interval: u64, result: Result<
    (),
    String,
>) -> (r: AfterCycle)
    ensures
        must_loop ==> (r matches AfterCycle::Wait { seconds, failure } && seconds == interval
            && match result {
            Ok(()) => failure is None,
            Err(e) => failure is Some && failure->0@ == failure_text(download_only, e@),
        }),
        !must_loop ==> match result {
            Ok(()) => r is Stop,
            Err(e) => (r matches AfterCycle::Fail { message } && message@ == failure_text(
                download_only,
                e@,
            )),
        },
{
    match result {
        Ok(()) => if must_loop {
            AfterCycle::Wait { seconds: interval, failure: None }
        } else {
            AfterCycle::Stop
        },
        Err(e) => {
            let failure = failure_message(download_only, e.as_str());
            if must_loop {
                AfterCycle::Wait { seconds: interval, failure: Some(failure) }
            } else {
                AfterCycle::Fail { message: failure }
            }
        },
    }
}

} // verus!
