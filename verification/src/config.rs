//! Configuration values and the decisions taken when they are resolved.
//!
//! Reading files and the environment is the caller's work. What is decided
//! here is which of the values found wins.

use vstd::prelude::*;
use vstd::string::*;
use crate::persona::opt_text;

verus! {

/// Where the memory server is reached.
#[derive(Debug)]
pub struct BerryConfig {
    pub server_url: String,
}

impl Default for BerryConfig {
    fn default() -> (c: Self)
        ensures
            c.server_url@ == "http://localhost:4114"@,
    {
        BerryConfig { server_url: String::from_str("http://localhost:4114") }
    }
}

impl Clone for BerryConfig {
    fn clone(&self) -> (c: Self)
        ensures
            c.server_url@ == self.server_url@,
    {
        BerryConfig { server_url: self.server_url.clone() }
    }
}

/// General settings: the name of the window's theme.
#[derive(Debug)]
pub struct GeneralConfig {
    pub theme: String,
}

impl Default for GeneralConfig {
    fn default() -> (c: Self)
        ensures
            c.theme@ == "Kanagawa Wave"@,
    {
        GeneralConfig { theme: String::from_str("Kanagawa Wave") }
    }
}

impl Clone for GeneralConfig {
    fn clone(&self) -> (c: Self)
        ensures
            c.theme@ == self.theme@,
    {
        GeneralConfig { theme: self.theme.clone() }
    }
}

/// Where the persona files are: a directory, as path text.
#[derive(Debug)]
pub struct PersonasConfig {
    pub directory: String,
}

impl Clone for PersonasConfig {
    fn clone(&self) -> (c: Self)
        ensures
            c.directory@ == self.directory@,
    {
        PersonasConfig { directory: self.directory.clone() }
    }
}

/// The directory that is used where none was found.
pub open spec fn or_text(found: Option<String>, fallback: Seq<char>) -> Seq<char> {
    match found {
        Some(p) => p@,
        None => fallback,
    }
}

impl PersonasConfig {
    /// The default directory of persona files: the local one where the
    /// caller found one while running from the source tree, else the one
    /// below the data directory, else `personas`.
    pub fn resolve(local: Option<String>, in_data_dir: Option<String>) -> (c: Self)
        ensures
            c.directory@ == match local {
                Some(p) => p@,
                None => or_text(in_data_dir, "personas"@),
            },
    {
        let directory = match local {
            Some(p) => p,
            None => match in_data_dir {
                Some(p) => p,
                None => String::from_str("personas"),
            },
        };
        PersonasConfig { directory }
    }
}

/// Whether the application runs from its source tree: the environment says
/// so, or the current directory holds both the package manifest and the
/// agent's configuration directory.
pub fn is_dev_mode(env_set: bool, has_manifest: bool, has_agent_dir: bool) -> (dev: bool)
    ensures
        dev == (env_set || (has_manifest && has_agent_dir)),
{
    env_set || (has_manifest && has_agent_dir)
}

/// The directory agent processes are started in: the current directory when
/// running from the source tree, the data directory otherwise, and `.` where
/// the one asked for could not be had.
pub fn working_dir(dev_mode: bool, current_dir: Option<String>, data_dir: Option<String>) -> (dir:
    String)
    ensures
        dir@ == if dev_mode {
            or_text(current_dir, "."@)
        } else {
            or_text(data_dir, "."@)
        },
{
    let chosen = if dev_mode {
        current_dir
    } else {
        data_dir
    };
    match chosen {
        Some(p) => p,
        None => String::from_str("."),
    }
}

/// Whether the data directory has to be filled from the bundled resources:
/// the agent's configuration or the personas are missing.
pub fn needs_bootstrap(has_agent_dir: bool, has_personas_dir: bool) -> (needed: bool)
    ensures
        needed == (!has_agent_dir || !has_personas_dir),
{
    !has_agent_dir || !has_personas_dir
}

/// A place where bundled resources may be, and whether the caller found it there.
#[derive(Debug)]
pub struct Candidate {
    pub path: String,
    pub exists: bool,
}

/// The first position of `candidates` whose place exists.
pub open spec fn first_existing(candidates: Seq<Candidate>) -> Option<int> {
    if exists|i: int| 0 <= i < candidates.len() && candidates[i].exists {
        Some(
            choose|i: int|
                0 <= i < candidates.len() && candidates[i].exists && forall|j: int|
                    0 <= j < i ==> !candidates[j].exists,
        )
    } else {
        None
    }
}

/// The bundled resources: the first of the candidate places, in the order
/// given, that exists.
pub fn bundled_resources_dir(candidates: &Vec<Candidate>) -> (dir: Option<String>)
    ensures
        match first_existing(candidates@) {
            Some(i) => opt_text(dir) == Some(candidates@[i].path@),
            None => dir is None,
        },
        match dir {
            Some(p) => exists|i: int|
                0 <= i < candidates@.len() && candidates@[i].exists && candidates@[i].path@ == p@
                    && forall|j: int| 0 <= j < i ==> !candidates@[j].exists,
            None => forall|i: int| 0 <= i < candidates@.len() ==> !candidates@[i].exists,
        },
{
    let n = candidates.len();
    let mut i: usize = 0;
    while i < n
        invariant
            i <= n,
            n == candidates@.len(),
            forall|j: int| 0 <= j < i ==> !candidates@[j].exists,
        decreases n - i,
    {
        if candidates[i].exists {
            proof {
                let k = choose|k: int|
                    0 <= k < candidates@.len() && candidates@[k].exists && forall|j: int|
                        0 <= j < k ==> !candidates@[j].exists;
                assert(k == i);
            }
            return Some(candidates[i].path.clone());
        }
        i += 1;
    }
    None
}

/// The settings the application starts with.
#[derive(Debug)]
pub struct AppConfig {
    pub personas_dir: String,
    pub berry_server_url: String,
}

impl AppConfig {
    /// Settings with the given directory of persona files and server address.
    pub fn new(personas_dir: String, berry_server_url: String) -> (c: Self)
        ensures
            c.personas_dir@ == personas_dir@,
            c.berry_server_url@ == berry_server_url@,
    {
        AppConfig { personas_dir, berry_server_url }
    }

    /// The same settings with another directory of persona files.
    pub fn with_personas_dir(self, dir: String) -> (c: Self)
        ensures
            c.personas_dir@ == dir@,
            c.berry_server_url@ == self.berry_server_url@,
    {
        AppConfig { personas_dir: dir, berry_server_url: self.berry_server_url }
    }

    /// The same settings with another server address.
    pub fn with_berry_server_url(self, url: String) -> (c: Self)
        ensures
            c.berry_server_url@ == url@,
            c.personas_dir@ == self.personas_dir@,
    {
        AppConfig { personas_dir: self.personas_dir, berry_server_url: url }
    }

    /// The settings with what the environment overrides: the server
    /// address and the directory of persona files, each where it is set.
    pub fn with_overrides(self, berry_server_url: Option<String>, personas_dir: Option<String>) -> (c:
        Self)
        ensures
            c.berry_server_url@ == or_text(berry_server_url, self.berry_server_url@),
            c.personas_dir@ == or_text(personas_dir, self.personas_dir@),
    {
        let url = match berry_server_url {
            Some(u) => u,
            None => self.berry_server_url,
        };
        let dir = match personas_dir {
            Some(d) => d,
            None => self.personas_dir,
        };
        AppConfig { personas_dir: dir, berry_server_url: url }
    }

    /// The server address.
    pub fn berry_server_url(&self) -> (url: &str)
        ensures
            url@ == self.berry_server_url@,
    {
        self.berry_server_url.as_str()
    }

    /// The directory of persona files.
    pub fn personas_dir(&self) -> (dir: &String)
        ensures
            dir@ == self.personas_dir@,
    {
        &self.personas_dir
    }
}

} // verus!
