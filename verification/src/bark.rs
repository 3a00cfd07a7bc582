//! The test-harness handle of the `bark` command-line wallet client.
//!
//! The harness drives one wallet instance by spawning its binary once per
//! command.  Spawning, capturing output and writing log files are process
//! I/O and live outside the library; modeled here are the handle's own
//! state — its name, its connection configuration, the per-command counter
//! that names each command's artifact directory — and the argument list
//! every invocation is built from.

use vstd::prelude::*;
use vstd::string::StringExecFns;

verus! {

/// Connection settings a wallet instance is created with.
pub struct BarkConfig {
    pub datadir: String,
    pub asp_url: String,
    pub network: String,
    pub bitcoind_url: String,
    pub bitcoind_cookie: String,
}

/// One wallet instance under the harness's control.
pub struct Bark {
    pub name: String,
    pub config: BarkConfig,
    pub counter: u64,
    pub timeout_ms: u64,
}

impl Bark {
    /// A fresh handle: the command counter starts at zero and commands
    /// time out after ten seconds, the harness default.
    pub fn new(name: String, config: BarkConfig) -> (r: Bark)
        ensures
            r.name == name,
            r.config == config,
            r.counter == 0,
            r.timeout_ms == 10_000,
    {
        Bark { name, config, counter: 0, timeout_ms: 10_000 }
    }

    /// The instance's name.
    pub fn name(&self) -> (r: &str)
        ensures
            r@ == self.name@,
    {
        self.name.as_str()
    }

    /// How long a spawned command may run before it is failed.
    pub fn timeout_ms(&self) -> (r: u64)
        ensures
            r == self.timeout_ms,
    {
        self.timeout_ms
    }

    /// The connection settings this instance was created with.
    pub fn config(&self) -> (r: &BarkConfig)
        ensures
            *r == self.config,
    {
        &self.config
    }

    /// Reserves the index under which the next command's artifacts are
    /// stored; every command gets a fresh one.
    pub fn next_command_index(&mut self) -> (r: u64)
        requires
            old(self).counter < u64::MAX,
        ensures
            r == old(self).counter,
            final(self).counter == old(self).counter + 1,
            final(self).name == old(self).name,
            final(self).config == old(self).config,
            final(self).timeout_ms == old(self).timeout_ms,
    {
        let c = self.counter;
        self.counter = c + 1;
        c
    }

    /// The argument vector every invocation starts with: the data-directory
    /// flag and this handle's data directory, then the command's own
    /// arguments in order.
    pub fn command_args(&self, args: Vec<String>) -> (r: Vec<String>)
        ensures
            r@.len() == 2 + args@.len(),
            r@[0]@ == "--datadir"@,
            r@[1]@ == self.config.datadir@,
            forall|i: int| 0 <= i < args@.len() ==> #[trigger] r@[2 + i] == args@[i],
    {
        let mut out: Vec<String> = Vec::new();
        out.push(String::from_str("--datadir"));
        out.push(String::from_str(self.config.datadir.as_str()));
        let ghost argsv = args@;
        let n_args = args.len();
        proof {
            assert(argsv.len() == n_args);
        }
        let mut rest = args;
        let mut i: usize = 0;
        while rest.len() > 0
            invariant
                argsv.len() <= usize::MAX,
                i + rest@.len() == argsv.len(),
                rest@ == argsv.subrange(i as int, argsv.len() as int),
                out@.len() == 2 + i,
                out@[0]@ == "--datadir"@,
                out@[1]@ == self.config.datadir@,
                forall|j: int| 0 <= j < i ==> #[trigger] out@[2 + j] == argsv[j],
            decreases rest@.len(),
    {
            let first = rest.remove(0);
            proof {
                assert(first == argsv[i as int]);
                assert(rest@ =~= argsv.subrange(i as int + 1, argsv.len() as int));
            }
            out.push(first);
            i = i + 1;
        }
        out
    }
}

} // verus!
