//! Data model of the splitter: operation modes, per-pipe configuration, and
//! the source/destination descriptions built from the configuration file.

use vstd::prelude::*;

verus! {

/// How a pipe is operated: reading or writing, text lines or raw bytes.
/// Only the text modes are exercised by the engine.
#[derive(Clone, Copy, Debug, PartialEq, Eq)]
pub enum OperationMode {
    StringRead,
    StringWrite,
    BytesRead,
    BytesWrite,
}

impl OperationMode {
    /// The two-letter code of this mode as it appears in configuration files.
    pub open spec fn code_spec(self) -> Seq<char> {
        match self {
            OperationMode::BytesRead => "rb"@,
            OperationMode::StringRead => "rt"@,
            OperationMode::StringWrite => "wt"@,
            OperationMode::BytesWrite => "wb"@,
        }
    }

    /// Two-letter code of the mode, as written in a configuration value.
    pub fn code(&self) -> (code: &'static str)
        ensures
            code@ == self.code_spec(),
    {
        let code = match self {
            OperationMode::BytesRead => "rb",
            OperationMode::StringRead => "rt",
            OperationMode::StringWrite => "wt",
            OperationMode::BytesWrite => "wb",
        };
        code
    }
}

/// Whether a pipe takes part at all, and in which mode it is meant to run.
#[derive(Clone, Copy, Debug, PartialEq, Eq)]
pub struct Config {
    pub enabled: bool,
    pub mode: Option<OperationMode>,
}

impl Config {
    /// The configuration a source pipe gets when its value is empty:
    /// enabled, text reading.
    pub fn default_read() -> (c: Config)
        ensures
            c == (Config { enabled: true, mode: Some(OperationMode::StringRead) }),
    {
        Config { enabled: true, mode: Some(OperationMode::StringRead) }
    }

    /// The configuration a destination pipe gets when its value is empty:
    /// enabled, text writing.
    pub fn default_write() -> (c: Config)
        ensures
            c == (Config { enabled: true, mode: Some(OperationMode::StringWrite) }),
    {
        Config { enabled: true, mode: Some(OperationMode::StringWrite) }
    }
}

/// One destination FIFO: its path and its configuration.
#[derive(Debug)]
pub struct SplitOut {
    pub pipe: String,
    pub configuration: Config,
}

impl Clone for SplitOut {
    fn clone(&self) -> (res: Self)
        ensures
            res == *self,
    {
        SplitOut { pipe: self.pipe.clone(), configuration: self.configuration }
    }
}

/// One source FIFO: its path, its configuration, and the destinations its
/// lines are replicated onto.
#[derive(Debug)]
pub struct SplitIn {
    pub configuration: Config,
    pub outputs: Vec<SplitOut>,
    pub pipe: String,
}

/// Everything a source description holds, as one spec value: its path, its
/// configuration and its destinations.
pub open spec fn in_view(x: SplitIn) -> (Seq<char>, Config, Seq<SplitOut>) {
    (x.pipe@, x.configuration, x.outputs@)
}

impl Clone for SplitIn {
    fn clone(&self) -> (res: Self)
        ensures
            in_view(res) == in_view(*self),
    {
        let mut outputs: Vec<SplitOut> = Vec::new();
        let mut i: usize = 0;
        while i < self.outputs.len()
            invariant
                i <= self.outputs@.len(),
                outputs@ =~= self.outputs@.take(i as int),
            decreases self.outputs@.len() - i,
        {
            outputs.push(self.outputs[i].clone());
            i = i + 1;
        }
        proof {
            assert(outputs@ =~= self.outputs@);
        }
        SplitIn { configuration: self.configuration, outputs, pipe: self.pipe.clone() }
    }
}

/// Whether a destination takes part in the fan-out.
pub open spec fn output_enabled(o: SplitOut) -> bool {
    o.configuration.enabled
}

/// The enabled destinations, in configuration order.
pub open spec fn enabled_outputs_seq(outputs: Seq<SplitOut>) -> Seq<SplitOut> {
    outputs.filter(|o: SplitOut| output_enabled(o))
}

impl SplitIn {
    /// Count of enabled outputs.
    pub fn enabled_outputs(&self) -> (n: usize)
        ensures
            n == enabled_outputs_seq(self.outputs@).len(),
    {
        let mut n: usize = 0;
        let mut i: usize = 0;
        while i < self.outputs.len()
            invariant
                i <= self.outputs@.len(),
                n == enabled_outputs_seq(self.outputs@.take(i as int)).len(),
            decreases self.outputs@.len() - i,
        {
            proof {
                reveal(Seq::filter);
                assert(self.outputs@.take(i + 1).drop_last() =~= self.outputs@.take(i as int));
            }
            if self.outputs[i].configuration.enabled {
                n = n + 1;
            }
            i = i + 1;
        }
        proof {
            assert(self.outputs@.take(self.outputs@.len() as int) =~= self.outputs@);
        }
        n
    }

    /// Whether this source gets a reader of its own: it must be enabled and
    /// have at least one enabled destination.
    pub fn wants_reader(&self) -> (b: bool)
        ensures
            b == (self.configuration.enabled && enabled_outputs_seq(self.outputs@).len() > 0),
    {
        if !self.configuration.enabled {
            return false;
        }
        self.enabled_outputs() > 0
    }
}

/// What went wrong while loading a configuration.
#[derive(Debug)]
pub enum Error {
    /// The INI document itself could not be read or parsed; the payload is
    /// the message reported by the INI reader.
    Ini(String),
    /// The document was read, but does not describe a valid splitting
    /// configuration.
    Configuration(String),
}

impl Error {
    /// The human-readable message this error carries.
    pub fn message(&self) -> (m: &String)
        ensures
            m == match self {
                Error::Ini(s) => s,
                Error::Configuration(s) => s,
            },
    {
        match self {
            Error::Ini(s) => s,
            Error::Configuration(s) => s,
        }
    }
}

} // verus!
