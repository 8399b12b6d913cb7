//! Configuration that the service is handed and keeps.

use vstd::prelude::*;

verus! {

/// Where the core and its files are.
#[derive(Debug, PartialEq, Eq)]
pub struct CoreConfig {
    pub core_path: String,
    pub core_ipc_path: String,
    pub config_path: String,
    pub config_dir: String,
}

/// How the core's log is written.
#[derive(Debug, PartialEq, Eq)]
pub struct WriterConfig {
    pub directory: String,
    pub max_log_size: u64,
    pub max_log_files: usize,
}

/// What it takes to start the core.
#[derive(Debug, PartialEq, Eq)]
pub struct ClashConfig {
    pub core_config: CoreConfig,
    pub log_config: WriterConfig,
}

impl Clone for CoreConfig {
    fn clone(&self) -> (copy: Self)
        ensures
            copy == *self,
    {
        CoreConfig {
            core_path: self.core_path.clone(),
            core_ipc_path: self.core_ipc_path.clone(),
            config_path: self.config_path.clone(),
            config_dir: self.config_dir.clone(),
        }
    }
}

impl Clone for WriterConfig {
    fn clone(&self) -> (copy: Self)
        ensures
            copy == *self,
    {
        WriterConfig {
            directory: self.directory.clone(),
            max_log_size: self.max_log_size,
            max_log_files: self.max_log_files,
        }
    }
}

impl Clone for ClashConfig {
    fn clone(&self) -> (copy: Self)
        ensures
            copy == *self,
    {
        ClashConfig { core_config: self.core_config.clone(), log_config: self.log_config.clone() }
    }
}

impl Default for CoreConfig {
    /// Empty paths.
    fn default() -> (config: Self)
        ensures
            config.core_path@ == Seq::<char>::empty(),
            config.core_ipc_path@ == Seq::<char>::empty(),
            config.config_path@ == Seq::<char>::empty(),
            config.config_dir@ == Seq::<char>::empty(),
    {
        CoreConfig {
            core_path: String::new(),
            core_ipc_path: String::new(),
            config_path: String::new(),
            config_dir: String::new(),
        }
    }
}

impl Default for WriterConfig {
    /// An empty directory and no limits set.
    fn default() -> (config: Self)
        ensures
            config.directory@ == Seq::<char>::empty(),
            config.max_log_size == 0,
            config.max_log_files == 0,
    {
        WriterConfig { directory: String::new(), max_log_size: 0, max_log_files: 0 }
    }
}

} // verus!
