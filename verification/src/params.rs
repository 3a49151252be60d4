//! The parameters of one command in their plain form: a record with public
//! limits, filled in place.

use crate::context::UNLIMITED_STACK;
use crate::mount::MountPoint;
use vstd::prelude::*;

verus! {

/// The parameters of one command.
#[derive(Debug)]
pub struct CatBoxParams {
    /// Time limit, in milliseconds
    pub time_limit: u64,
    /// Memory limit, in KiB
    pub memory_limit: u64,
    pub program: String,
    pub arguments: Vec<String>,
    pub process: u64,
    pub stack_size: u64,
    pub chroot: bool,
    pub mounts: Vec<MountPoint>,
    pub env: Vec<(String, String)>,
    pub stdin: String,
    pub stdout: String,
    pub stderr: String,
}

impl CatBoxParams {
    /// The parameters that a command starts with: one second, 256 MiB, one
    /// process, no jail, and all three standard streams on `/dev/null`.
    pub fn new(program: String, arguments: Vec<String>) -> (params: Self)
        ensures
            params.time_limit == 1000,
            params.memory_limit == 262144,
            params.program == program,
            params.arguments == arguments,
            params.process == 1,
            params.stack_size == UNLIMITED_STACK,
            !params.chroot,
            params.mounts@.len() == 0,
            params.env@.len() == 0,
            params.stdin@ == "/dev/null"@,
            params.stdout@ == "/dev/null"@,
            params.stderr@ == "/dev/null"@,
    {
        CatBoxParams {
            time_limit: 1000,
            memory_limit: 262144,
            program,
            arguments,
            process: 1,
            stack_size: UNLIMITED_STACK,
            chroot: false,
            mounts: Vec::new(),
            env: Vec::new(),
            stdin: "/dev/null".to_owned(),
            stdout: "/dev/null".to_owned(),
            stderr: "/dev/null".to_owned(),
        }
    }

    /// Sets the file that the command reads its standard input from.
    pub fn stdin(&mut self, path: String) -> (chain: &mut Self)
        ensures
            *chain == (CatBoxParams { stdin: path, ..*old(self) }),
            *final(self) == *final(chain),
    {
        self.stdin = path;
        self
    }

    /// Sets the file that the command writes its standard output to.
    pub fn stdout(&mut self, path: String) -> (chain: &mut Self)
        ensures
            *chain == (CatBoxParams { stdout: path, ..*old(self) }),
            *final(self) == *final(chain),
    {
        self.stdout = path;
        self
    }

    /// Sets the file that the command writes its standard error to.
    pub fn stderr(&mut self, path: String) -> (chain: &mut Self)
        ensures
            *chain == (CatBoxParams { stderr: path, ..*old(self) }),
            *final(self) == *final(chain),
    {
        self.stderr = path;
        self
    }

    /// Switches the jail on or off.
    pub fn chroot(&mut self, flag: bool) -> (chain: &mut Self)
        ensures
            *chain == (CatBoxParams { chroot: flag, ..*old(self) }),
            *final(self) == *final(chain),
    {
        self.chroot = flag;
        self
    }

    /// Adds a variable to the environment of the command.
    pub fn env(&mut self, key: String, value: String) -> (chain: &mut Self)
        ensures
            chain.env@ == old(self).env@.push((key, value)),
            *chain == (CatBoxParams { env: chain.env, ..*old(self) }),
            *final(self) == *final(chain),
    {
        self.env.push((key, value));
        self
    }
}

} // verus!
