//! Arguments for the stream downloader that fetches a playable input.

use vstd::prelude::*;
use vstd::string::StringExecFns;

verus! {

/// The downloader flags asking for the best audio-only stream.
pub fn best_audio_args() -> (r: Vec<String>)
    ensures
        r@.len() == 2,
        r@[0]@ == "-f"@,
        r@[1]@ == "bestaudio"@,
{
    let mut args: Vec<String> = Vec::new();
    args.push(String::from_str("-f"));
    args.push(String::from_str("bestaudio"));
    args
}

} // verus!
