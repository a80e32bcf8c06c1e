//! Run parameters, and the command line as plain values.
use vstd::prelude::*;

verus! {

/// Wordlists at least this large are split among workers by default.
pub const DEFAULT_PARTITION_THRESHOLD: u64 = 2_000_000;

/// Unclassified online failures tolerated by default before giving up.
pub const DEFAULT_MAX_TRANSPORT_FAILURES: usize = 5;

/// Immutable parameters of one run.
#[derive(Clone, Debug, PartialEq, Eq)]
pub struct Config {
    /// The salt put in front of every candidate; `None` when no salt was
    /// asked for, which is not the same request as an empty salt.
    pub salt: Option<Vec<u8>>,
    pub verbose: bool,
    /// Wordlists of at least this many bytes are split among workers.
    pub partition_threshold: u64,
}

impl Config {
    /// The bytes put in front of every candidate: the salt, or nothing.
    pub fn salt_prefix(&self) -> (r: Vec<u8>)
        ensures
            r@ == match self.salt {
                Some(s) => s@,
                None => Seq::<u8>::empty(),
            },
    {
        match &self.salt {
            Some(s) => s.clone(),
            None => Vec::new(),
        }
    }

    /// Whether a wordlist of `file_size` bytes is split among workers rather
    /// than read in one pass.
    pub fn partitions(&self, file_size: u64) -> (r: bool)
        ensures
            r == (file_size >= self.partition_threshold),
    {
        file_size >= self.partition_threshold
    }
}

/// The parsed command line.
#[derive(Clone, Debug, PartialEq, Eq)]
pub struct Args {
    pub command: Option<Commands>,
    /// List the available digest algorithms.
    pub list: bool,
}

/// The modes of the program.
#[derive(Clone, Debug, PartialEq, Eq)]
pub enum Commands {
    /// Enumerate every string of a length.
    Bruteforce {
        cyphertext_path: String,
        thread_count: u8,
        min_length: usize,
        algorithm: String,
        salt: String,
        verbose: bool,
    },
    /// Try the lines of a wordlist.
    Wordlist {
        cyphertext_path: String,
        wordlist_path: String,
        algorithm: String,
        salt: String,
        thread_count: u8,
        verbose: bool,
    },
    /// Print the fingerprint of a plaintext.
    Generate { plaintext: String, algorithm: String, output_path: Option<String> },
    /// Time a full wordlist pass for each thread count.
    Benchmark { wordlist_path: String, algorithm: String },
    /// Try the lines of a wordlist against an SSH login.
    Ssh {
        server: String,
        port: u16,
        wordlist_path: String,
        user: String,
        thread_count: u8,
        salt: String,
        verbose: bool,
    },
}

} // verus!
