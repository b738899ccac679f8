//! Process configuration: the credentials the adapters need. Reading them
//! from the environment is the caller's concern; the library only carries
//! the values.

use vstd::prelude::*;

verus! {

pub struct Config {
    pub discord_token: String,
    pub spotify_client_id: String,
    pub spotify_client_secret: String,
    pub youtube_api_key: String,
}

} // verus!
