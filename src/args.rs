use vstd::prelude::*;

verus! {

/// Severity of a log message, and the threshold below which messages are dropped.
#[derive(Clone, Copy, Debug, PartialEq, Eq, Structural)]
pub enum LogLevel {
    Debug,
    Info,
    Warn,
    Error,
}

/// Position of a level in the order Debug < Info < Warn < Error.
pub open spec fn level_rank(l: LogLevel) -> int {
    match l {
        LogLevel::Debug => 0,
        LogLevel::Info => 1,
        LogLevel::Warn => 2,
        LogLevel::Error => 3,
    }
}

impl LogLevel {
    /// Whether a message of level `level` passes this threshold.
    pub fn admits(&self, level: LogLevel) -> (r: bool)
        ensures
            r == (level_rank(*self) <= level_rank(level)),
    {
        let a: u8 = match self {
            LogLevel::Debug => 0,
            LogLevel::Info => 1,
            LogLevel::Warn => 2,
            LogLevel::Error => 3,
        };
        let b: u8 = match level {
            LogLevel::Debug => 0,
            LogLevel::Info => 1,
            LogLevel::Warn => 2,
            LogLevel::Error => 3,
        };
        a <= b
    }
}

/// The run's configuration, as given on the command line.
#[derive(Clone, Debug)]
pub struct Args {
    /// Address of the remote collector that receives the frames.
    pub url: Option<String>,
    /// Capture file to replay instead of a live interface.
    pub read: Option<String>,
    /// Capture file that the frames are appended to.
    pub write: Option<String>,
    /// Lowest level of the messages that are logged.
    pub verbosity: LogLevel,
    /// File that the log is also written to.
    pub logfile: Option<String>,
    /// Interface to listen on instead of the default one.
    pub interface: Option<String>,
    /// File that holds the address blacklist.
    pub blacklist: Option<String>,
}

/// Where the frames come from.
#[derive(Clone, Debug)]
pub enum SourcePlan {
    /// A capture file, read in file order.
    Replay(String),
    /// A live interface: the one named, or the default one.
    Live(Option<String>),
}

/// A configuration that cannot be run.
#[derive(Clone, Copy, Debug, PartialEq, Eq, Structural)]
pub enum ConfigError {
    /// Both an input file and an interface were given.
    ConflictingSources,
}

impl Args {
    /// Chooses the capture source: an input file and an interface exclude each other.
    pub fn source(&self) -> (r: Result<SourcePlan, ConfigError>)
        ensures
            (self.read is Some && self.interface is Some) <==> r == Err::<SourcePlan, ConfigError>(
                ConfigError::ConflictingSources,
            ),
            r matches Ok(SourcePlan::Replay(p)) ==> self.read == Some(p),
            r matches Ok(SourcePlan::Live(i)) ==> self.read is None && self.interface == i,
            self.read is Some && self.interface is None ==> r matches Ok(SourcePlan::Replay(_)),
            self.read is None ==> r matches Ok(SourcePlan::Live(_)),
    {
        match (&self.read, &self.interface) {
            (Some(_), Some(_)) => Err(ConfigError::ConflictingSources),
            (Some(path), None) => Ok(SourcePlan::Replay(path.clone())),
            (None, dev) => Ok(SourcePlan::Live(dev.clone())),
        }
    }
}

} // verus!
