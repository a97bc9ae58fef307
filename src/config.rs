use crate::text::{parse_u16, parsed_in_range, spec_split, spec_starts_with, split_on, starts_with, views};
use vstd::prelude::*;

verus! {

/// Address on which the server listens unless configured otherwise.
pub const ADDRESS: &'static str = "http://localhost:8080";

/// Port of the default address.
pub const PORT: u16 = 8080;

/// Worker threads unless configured otherwise.
pub const MAX_BLOCKING_THREADS: usize = 2;

/// Seconds of inactivity after which a locally handled session expires,
/// unless configured otherwise.
pub const SESSION_EXPIRATION_TIME: u32 = 300;

/// Where the server listens.
pub struct Url {
    pub scheme: String,
    pub address: String,
    pub port: Option<u16>,
}

impl Default for Url {
    fn default() -> (r: Url)
        ensures
            r.scheme@ == "http"@,
            r.address@ == "localhost"@,
            r.port is None,
    {
        Url { scheme: "http".to_owned(), address: "localhost".to_owned(), port: None }
    }
}

/// Persistent configuration of the server.
#[derive(Clone)]
pub struct Data {
    /// The configuration file.
    pub file_data_path: String,
    /// The directory that holds the configuration and the per-account files.
    pub dir_path: String,
    /// Address on which the server listens.
    pub address: String,
    /// The configuration changed and must be stored again.
    pub update: bool,
    pub max_threads: usize,
    /// Seconds of inactivity after which a locally handled session expires.
    pub session_expiration_time: u32,
}

/// `s` with every leading "//" removed.
pub open spec fn trim_leading_double_slashes(s: Seq<char>) -> Seq<char>
    decreases s.len(),
{
    if s.len() >= 2 && s[0] == '/' && s[1] == '/' {
        trim_leading_double_slashes(s.subrange(2, s.len() as int))
    } else {
        s
    }
}

/// Removes every leading "//" of `s`.
fn trim_start_double_slashes(s: &str) -> (r: String)
    ensures
        r@ == trim_leading_double_slashes(s@),
{
    let n = s.unicode_len();
    let mut i: usize = 0;
    assert(s@.subrange(0, n as int) =~= s@);
    while n - i >= 2 && s.get_char(i) == '/' && s.get_char(i + 1) == '/'
        invariant
            n == s@.len(),
            i <= n,
            trim_leading_double_slashes(s@) == trim_leading_double_slashes(s@.subrange(i as int, n as int)),
        decreases n - i,
    {
        let ghost rest = s@.subrange(i as int, n as int);
        assert(rest.subrange(2, rest.len() as int) =~= s@.subrange(i + 2, n as int));
        i = i + 2;
    }
    s.substring_char(i, n).to_owned()
}

/// The parts of a server address: scheme, host and optional port.
pub open spec fn spec_url(address: Seq<char>) -> Result<(Seq<char>, Seq<char>, Option<u16>), Seq<char>> {
    let scheme = if spec_starts_with(address, "http://"@) {
        Some("http"@)
    } else if spec_starts_with(address, "https://"@) {
        Some("https"@)
    } else {
        None
    };
    let slices = spec_split(address, ':');
    if scheme is None {
        Err("Invalid scheme"@)
    } else if slices.len() == 0 || slices.len() > 3 {
        Err("Invalid address format"@)
    } else if slices.len() == 3 {
        match parsed_in_range(slices[2], false, 0, u16::MAX as int) {
            Some(p) => Ok((scheme->0, trim_leading_double_slashes(slices[1]), Some(p as u16))),
            None => Err("Invalid port"@),
        }
    } else {
        Ok((scheme->0, trim_leading_double_slashes(slices[1]), None))
    }
}

impl Data {
    /// Reads scheme, host and port out of the configured address, which
    /// must start with "http://" or "https://" and may end in ":port".
    pub fn get_url(&self) -> (r: Result<Url, &'static str>)
        ensures
            match (r, spec_url(self.address@)) {
                (Ok(url), Ok((scheme, host, port))) => url.scheme@ == scheme && url.address@ == host && url.port == port,
                (Err(e), Err(se)) => e@ == se,
                _ => false,
            },
    {
        let mut ret = Url::default();
        if starts_with(self.address.as_str(), "http://") {
            ret.scheme = "http".to_owned();
        } else if starts_with(self.address.as_str(), "https://") {
            ret.scheme = "https".to_owned();
        } else {
            return Err("Invalid scheme");
        }
        let slices = split_on(self.address.as_str(), ':');
        proof {
            assert(views(slices@).len() == slices@.len());
            reveal_strlit("http://");
            reveal_strlit("https://");
            assert(spec_split(self.address@, ':').len() >= 2) by {
                lemma_scheme_has_colon(self.address@);
            }
        }
        if slices.len() == 0 || slices.len() > 3 {
            return Err("Invalid address format");
        }
        proof {
            assert(views(slices@)[1] == slices@[1]@);
        }
        ret.address = trim_start_double_slashes(slices[1].as_str());
        if slices.len() == 3 {
            proof {
                assert(views(slices@)[2] == slices@[2]@);
            }
            match parse_u16(slices[2].as_str()) {
                Some(port) => {
                    ret.port = Some(port);
                },
                None => {
                    return Err("Invalid port");
                },
            }
        }
        Ok(ret)
    }
}

/// An address that starts with "http://" or "https://" has a colon, so
/// splits into at least two pieces.
proof fn lemma_scheme_has_colon(address: Seq<char>)
    requires
        spec_starts_with(address, "http://"@) || spec_starts_with(address, "https://"@),
    ensures
        spec_split(address, ':').len() >= 2,
{
    reveal_strlit("http://");
    reveal_strlit("https://");
    let k: int = if spec_starts_with(address, "http://"@) { 4 } else { 5 };
    assert(address[k] == ':') by {
        if k == 4 {
            assert(address.subrange(0, 7)[4] == ':');
        } else {
            assert(address.subrange(0, 8)[5] == ':');
        }
    }
    lemma_split_grows(address, ':', k);
}

/// Splitting a string at a separator that it holds at `k` gives at least
/// two pieces.
proof fn lemma_split_grows(s: Seq<char>, sep: char, k: int)
    requires
        0 <= k < s.len(),
        s[k] == sep,
    ensures
        spec_split(s, sep).len() >= 2,
    decreases s.len(),
{
    lemma_split_len_monotone(s, sep);
    if k == s.len() - 1 {
        lemma_split_at_least_one(s.drop_last(), sep);
    } else {
        assert(s.drop_last()[k] == sep);
        lemma_split_grows(s.drop_last(), sep, k);
    }
}

/// The split of a string has at least one piece.
proof fn lemma_split_at_least_one(s: Seq<char>, sep: char)
    ensures
        spec_split(s, sep).len() >= 1,
    decreases s.len(),
{
    if s.len() > 0 {
        lemma_split_at_least_one(s.drop_last(), sep);
    }
}

/// Adding a character never removes a piece.
proof fn lemma_split_len_monotone(s: Seq<char>, sep: char)
    requires
        s.len() > 0,
    ensures
        spec_split(s, sep).len() >= spec_split(s.drop_last(), sep).len(),
{
    lemma_split_at_least_one(s.drop_last(), sep);
}

/// Command-line settings, each overriding the stored configuration when
/// given.
pub struct Cli {
    pub address: Option<String>,
    pub max_threads: Option<usize>,
    pub session_expiration_time: Option<u32>,
}

/// The configuration after the command-line settings are applied.
pub open spec fn spec_apply_cli(cli: Cli, data: Data, address_is_ipv4: bool) -> (Seq<char>, usize, u32, bool) {
    let (address, a_changed) = match cli.address {
        Some(a) => if address_is_ipv4 && data.address@ != a@ {
            (a@, true)
        } else {
            (data.address@, false)
        },
        None => (data.address@, false),
    };
    let (threads, t_changed) = match cli.max_threads {
        Some(t) => if t != data.max_threads {
            (t, true)
        } else {
            (data.max_threads, false)
        },
        None => (data.max_threads, false),
    };
    let (expiration, e_changed) = match cli.session_expiration_time {
        Some(e) => if e != data.session_expiration_time {
            (e, true)
        } else {
            (data.session_expiration_time, false)
        },
        None => (data.session_expiration_time, false),
    };
    (address, threads, expiration, data.update || a_changed || t_changed || e_changed)
}

impl Cli {
    /// Applies the settings to `data`: an address only where it is an IPv4
    /// address (`address_is_ipv4`), and each setting only where it differs,
    /// marking `data` for storing when anything changed.
    pub fn update(&self, data: &mut Data, address_is_ipv4: bool)
        ensures
            ({
                let (address, threads, expiration, update) = spec_apply_cli(*self, *old(data), address_is_ipv4);
                &&& final(data).address@ == address
                &&& final(data).max_threads == threads
                &&& final(data).session_expiration_time == expiration
                &&& final(data).update == update
                &&& final(data).dir_path == old(data).dir_path
                &&& final(data).file_data_path == old(data).file_data_path
            }),
    {
        if let Some(address) = &self.address {
            if address_is_ipv4 && data.address != *address {
                data.address = address.clone();
                data.update = true;
            }
        }
        if let Some(max_threads) = self.max_threads {
            if data.max_threads != max_threads {
                data.max_threads = max_threads;
                data.update = true;
            }
        }
        if let Some(session_expiration_time) = self.session_expiration_time {
            if data.session_expiration_time != session_expiration_time {
                data.session_expiration_time = session_expiration_time;
                data.update = true;
            }
        }
    }
}

} // verus!
