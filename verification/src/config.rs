//! The configuration of a worker.
use vstd::prelude::*;

use crate::features::{Folder, WasiNnConfig};

verus! {

/// The optional features of a worker.
#[derive(Debug)]
pub struct Features {
    /// Neural networks.
    pub wasi_nn: WasiNnConfig,
}

/// What the configuration file of a worker says.
#[derive(Debug)]
pub struct Config {
    /// The optional features.
    pub features: Features,
    /// The folders of the host that the worker sees.
    pub folders: Option<Vec<Folder>>,
}

impl Config {
    /// The folders that the worker sees, in the order they are listed.
    pub open spec fn mounted(self) -> Seq<Folder> {
        match self.folders {
            Some(folders) => folders@,
            None => Seq::empty(),
        }
    }

    /// No folders and no features.
    pub open spec fn is_default(self) -> bool {
        &&& self.folders is None
        &&& self.features.wasi_nn.allowed_backends@.len() == 0
    }
}

impl Default for Config {
    /// No folders and no features.
    fn default() -> (config: Self)
        ensures
            config.is_default(),
            config.folders is None,
            config.features.wasi_nn.allowed_backends@.len() == 0,
    {
        Config {
            features: Features { wasi_nn: WasiNnConfig { allowed_backends: Vec::new() } },
            folders: None,
        }
    }
}

/// What came of looking for the configuration file of a worker.
#[derive(Debug)]
pub enum ConfigFile {
    /// There is no such file.
    Missing,
    /// The file says this.
    Loaded(Config),
    /// The file is there but could not be loaded, for this reason.
    Broken(String),
}

impl ConfigFile {
    /// A worker for which this came of looking has the configuration `config`: that
    /// of the file, or the default where there is no usable file.
    pub open spec fn gives(self, config: Config) -> bool {
        match self {
            ConfigFile::Loaded(loaded) => config == loaded,
            _ => config.is_default(),
        }
    }
}

/// The line that tells why a configuration file could not be loaded.
pub fn broken_config_notice(reason: &str) -> (line: String)
    ensures
        line@ == "Error loading the worker configuration: "@ + reason@,
{
    let mut line = "Error loading the worker configuration: ".to_owned();
    line.append(reason);
    line
}

/// A configuration that was loaded is taken whole, with all its folders and backends;
/// without one there are no folders and no backends.
pub proof fn law_config_taken_whole(file: ConfigFile, config: Config)
    requires
        file.gives(config),
    ensures
        file matches ConfigFile::Loaded(loaded) ==> {
            &&& config == loaded
            &&& config.folders == loaded.folders
            &&& config.features.wasi_nn.allowed_backends
                == loaded.features.wasi_nn.allowed_backends
        },
        file is Missing || file is Broken ==> {
            &&& config.folders is None
            &&& config.features.wasi_nn.allowed_backends@.len() == 0
        },
{
}

/// Two files that say the same give the same configuration.
pub proof fn law_same_file_same_config(loaded: Config, one: Config, two: Config)
    requires
        ConfigFile::Loaded(loaded).gives(one),
        ConfigFile::Loaded(loaded).gives(two),
    ensures
        one == two,
        one == loaded,
{
}

/// The worker sees each folder that is listed, in the order they are listed, and no
/// other.
pub proof fn law_folders_all_mounted(config: Config)
    ensures
        config.folders matches Some(folders) ==> {
            &&& config.mounted().len() == folders@.len()
            &&& forall|i: int|
                0 <= i < folders@.len() ==> #[trigger] config.mounted()[i] == folders@[i]
        },
        config.folders is None ==> config.mounted().len() == 0,
{
}

} // verus!
