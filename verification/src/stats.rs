//! What a chat has downloaded so far.

use vstd::prelude::*;
use crate::text::{append_decimal, decimal};

verus! {

/// Totals of one chat. They live on disk between runs.
#[derive(Clone, Copy, Debug, PartialEq, Eq, Structural)]
pub struct Statistics {
    pub total_downloaded_count: u64,
    pub total_downloaded_bytes: u64,
}

/// The name of the file that holds the statistics of a chat.
pub open spec fn stats_file(chat_id: int) -> Seq<char> {
    "stats_"@ + decimal(chat_id) + ".json"@
}

impl Statistics {
    /// Whether one more file of this size can be counted.
    pub open spec fn can_record(self, size: nat) -> bool {
        &&& self.total_downloaded_count < u64::MAX
        &&& self.total_downloaded_bytes + size <= u64::MAX
    }

    /// The totals after one more file of this size.
    pub open spec fn recorded(self, size: nat) -> Statistics {
        Statistics {
            total_downloaded_count: (self.total_downloaded_count + 1) as u64,
            total_downloaded_bytes: (self.total_downloaded_bytes + size) as u64,
        }
    }

    /// Nothing downloaded yet.
    pub fn new() -> (s: Statistics)
        ensures
            s.total_downloaded_count == 0,
            s.total_downloaded_bytes == 0,
    {
        Statistics { total_downloaded_count: 0, total_downloaded_bytes: 0 }
    }

    /// The statistics to begin with, given what the file of the chat held: without a file, or
    /// with one that does not parse, the count starts anew.
    pub fn load(saved: Option<Statistics>) -> (s: Statistics)
        ensures
            saved matches Some(v) ==> s == v,
            saved is None ==> s.total_downloaded_count == 0 && s.total_downloaded_bytes == 0,
    {
        match saved {
            Some(s) => s,
            None => Statistics::new(),
        }
    }

    /// The name of the file to load from and to save to.
    pub fn file_name(chat_id: i64) -> (r: String)
        ensures
            r@ == stats_file(chat_id as int),
    {
        let mut r: String = String::new();
        r.append("stats_");
        append_decimal(&mut r, chat_id);
        r.append(".json");
        assert(r@ =~= stats_file(chat_id as int));
        r
    }

    /// Tells whether `record` may be called.
    pub fn has_room(&self, size: u32) -> (r: bool)
        ensures
            r == self.can_record(size as nat),
    {
        self.total_downloaded_count < u64::MAX && self.total_downloaded_bytes <= u64::MAX
            - size as u64
    }

    /// Counts one more file.
    pub fn record(&mut self, size: u32)
        requires
            old(self).can_record(size as nat),
        ensures
            *final(self) == old(self).recorded(size as nat),
    {
        self.total_downloaded_count = self.total_downloaded_count + 1;
        self.total_downloaded_bytes = self.total_downloaded_bytes + size as u64;
    }
}

/// One more file adds one to the count and its size to the bytes, and there is room for it as long
/// as both sums fit.
pub proof fn law_a_file_adds_one_and_its_size(stats: Statistics, size: u32)
    ensures
        stats.can_record(size as nat) <==> stats.total_downloaded_count + 1 <= u64::MAX
            && stats.total_downloaded_bytes + size <= u64::MAX,
        stats.can_record(size as nat) ==> {
            let after = stats.recorded(size as nat);
            &&& after.total_downloaded_count == stats.total_downloaded_count + 1
            &&& after.total_downloaded_bytes == stats.total_downloaded_bytes + size
        },
{
}

/// The file of a chat carries the id of the chat between `stats_` and `.json`.
pub proof fn law_statistics_file_names_the_chat(chat_id: int)
    ensures
        stats_file(chat_id) == "stats_"@ + decimal(chat_id) + ".json"@,
{
}

} // verus!
