//! The requests made to the Nexus Mods API.
use vstd::prelude::*;
use vstd::string::*;
use crate::error::ModManagerError;
use crate::text::{concat2, copy_string};

verus! {

/// The address of the Nexus Mods API used when none is configured.
pub open spec fn default_api_base() -> Seq<char> {
    "https://api.nexusmods.com/v3"@
}

/// The character of a decimal digit.
pub open spec fn digit_char(d: nat) -> char {
    if d == 0 { '0' } else if d == 1 { '1' } else if d == 2 { '2' } else if d == 3 { '3' } else if d == 4 {
        '4'
    } else if d == 5 { '5' } else if d == 6 { '6' } else if d == 7 { '7' } else if d == 8 { '8' } else { '9' }
}

/// The decimal notation of a number, without leading zeros.
pub open spec fn decimal(n: nat) -> Seq<char>
    decreases n,
{
    if n < 10 {
        seq![digit_char(n)]
    } else {
        decimal(n / 10).push(digit_char(n % 10))
    }
}

fn digit_string(d: u64) -> (r: String)
    requires
        d < 10,
    ensures
        r@ == seq![digit_char(d as nat)],
{
    let s = if d == 0 { "0" } else if d == 1 { "1" } else if d == 2 { "2" } else if d == 3 { "3" } else if d == 4 {
        "4"
    } else if d == 5 { "5" } else if d == 6 { "6" } else if d == 7 { "7" } else if d == 8 { "8" } else { "9" };
    proof {
        reveal_strlit("0");
        reveal_strlit("1");
        reveal_strlit("2");
        reveal_strlit("3");
        reveal_strlit("4");
        reveal_strlit("5");
        reveal_strlit("6");
        reveal_strlit("7");
        reveal_strlit("8");
        reveal_strlit("9");
    }
    let r = String::from_str(s);
    assert(r@ =~= seq![digit_char(d as nat)]);
    r
}

/// The decimal notation of a number.
pub fn u64_to_decimal(n: u64) -> (r: String)
    ensures
        r@ == decimal(n as nat),
    decreases n,
{
    if n < 10 {
        digit_string(n)
    } else {
        let mut s = u64_to_decimal(n / 10);
        let d = digit_string(n % 10);
        let ghost before = s@;
        s.append(d.as_str());
        assert(s@ =~= before.push(digit_char((n % 10) as nat)));
        s
    }
}

/// The API address to use: the configured one when there is one, else the default.
pub fn nexus_api_base(configured: Option<String>) -> (r: String)
    ensures
        r@ == match configured {
            Some(s) => s@,
            None => default_api_base(),
        },
{
    match configured {
        Some(s) => s,
        None => String::from_str("https://api.nexusmods.com/v3"),
    }
}

/// What the API tells of a mod.
#[derive(Clone, Debug)]
pub struct NexusModInfo {
    pub id: String,
    pub game_scoped_id: String,
    pub game_id: String,
    pub name: Option<String>,
}

/// What the API tells of one file of a mod.
#[derive(Clone, Debug)]
pub struct NexusFileInfo {
    pub file_id: u64,
    pub name: String,
    pub category: String,
}

/// A GET request to the API, authenticated by its key.
#[derive(Clone, Debug)]
pub struct ApiRequest {
    pub url: String,
    pub api_key: String,
}

/// The address of the information on a mod.
pub open spec fn mod_info_url(base: Seq<char>, game_domain: Seq<char>, mod_id: nat) -> Seq<char> {
    base + "/games/"@ + game_domain + "/mods/"@ + decimal(mod_id)
}

/// The address that a file of a mod is downloaded from.
pub open spec fn download_url(base: Seq<char>, game_domain: Seq<char>, mod_id: nat, file_id: nat) -> Seq<char> {
    base + "/games/"@ + game_domain + "/mods/"@ + decimal(mod_id) + "files/"@ + decimal(file_id)
}

/// A client of the Nexus Mods API: its key and the address it talks to.
pub struct NexusClient {
    api_key: String,
    api_base: String,
}

impl NexusClient {
    /// A client with the key `api_key` for the API at `api_base`.
    pub fn new(api_key: String, api_base: String) -> (r: NexusClient)
        ensures
            r.spec_api_key() == api_key@,
            r.spec_api_base() == api_base@,
    {
        NexusClient { api_key, api_base }
    }

    /// The key the client authenticates with.
    pub closed spec fn spec_api_key(&self) -> Seq<char> {
        self.api_key@
    }

    /// The address the client talks to.
    pub closed spec fn spec_api_base(&self) -> Seq<char> {
        self.api_base@
    }

    /// Whether the client has a key.
    pub fn has_api_key(&self) -> (r: bool)
        ensures
            r == (self.spec_api_key().len() > 0),
    {
        self.api_key.unicode_len() > 0
    }

    /// Searching mods is not offered yet: it always fails.
    pub fn search_mods(&self, game_domain: &str, query: &str) -> (r: Result<Vec<NexusModInfo>, ModManagerError>)
        ensures
            r matches Err(ModManagerError::NexusApiError(m)) && m@ == "Search not yet implemented"@,
    {
        Err(ModManagerError::NexusApiError(String::from_str("Search not yet implemented")))
    }

    /// Listing the files of a mod is not offered yet: it always fails.
    pub fn get_mod_files(&self, game_domain: &str, mod_id: u64) -> (r: Result<Vec<NexusFileInfo>, ModManagerError>)
        ensures
            r matches Err(ModManagerError::NexusApiError(m)) && m@ == "Get mod files not yet implemented"@,
    {
        Err(ModManagerError::NexusApiError(String::from_str("Get mod files not yet implemented")))
    }

    /// The request that fetches the information on a mod.
    pub fn get_mod_info(&self, game_domain: &str, mod_id: u64) -> (r: ApiRequest)
        ensures
            r.url@ == mod_info_url(self.spec_api_base(), game_domain@, mod_id as nat),
            r.api_key@ == self.spec_api_key(),
    {
        let mut url = concat2(self.api_base.as_str(), "/games/");
        url.append(game_domain);
        url.append("/mods/");
        let id = u64_to_decimal(mod_id);
        url.append(id.as_str());
        ApiRequest { url, api_key: copy_string(&self.api_key) }
    }

    /// The request that downloads a file of a mod.
    pub fn download_mod(&self, game_domain: &str, mod_id: u64, file_id: u64) -> (r: ApiRequest)
        ensures
            r.url@ == download_url(self.spec_api_base(), game_domain@, mod_id as nat, file_id as nat),
            r.api_key@ == self.spec_api_key(),
    {
        let mut url = concat2(self.api_base.as_str(), "/games/");
        url.append(game_domain);
        url.append("/mods/");
        let id = u64_to_decimal(mod_id);
        url.append(id.as_str());
        url.append("files/");
        let fid = u64_to_decimal(file_id);
        url.append(fid.as_str());
        ApiRequest { url, api_key: copy_string(&self.api_key) }
    }
}

} // verus!
