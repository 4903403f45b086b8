use vstd::prelude::*;

use crate::text::{text_of, trim_chars, trimmed};

verus! {

/// Where the VPN container's control API listens, and how long a restart
/// waits for each state change.
#[derive(Debug, Clone)]
pub struct GluetunConfig {
    pub base_url: String,
    pub poll_attempts: u8,
    pub poll_interval_secs: u64,
}

pub open spec fn starts_with(s: Seq<char>, p: Seq<char>) -> bool {
    s.len() >= p.len() && s.take(p.len() as int) == p
}

/// Base URL named by the control-address setting: the trimmed value, with
/// `http://` put in front unless it already names http or https; none when
/// the setting is absent or blank.
pub open spec fn base_url_of(setting: Option<Seq<char>>) -> Option<Seq<char>> {
    match setting {
        None => None,
        Some(s) => {
            let a = trimmed(s);
            if a.len() == 0 {
                None
            } else if starts_with(a, "http://"@) || starts_with(a, "https://"@) {
                Some(a)
            } else {
                Some("http://"@ + a)
            }
        },
    }
}

fn has_prefix(v: &Vec<char>, p: &str) -> (r: bool)
    ensures
        r == starts_with(v@, p@),
{
    let n = p.unicode_len();
    if v.len() < n {
        return false;
    }
    let mut i: usize = 0;
    while i < n
        invariant
            n == p@.len(),
            n <= v@.len(),
            i <= n,
            forall|j: int| 0 <= j < i ==> v@[j] == p@[j],
        decreases n - i,
    {
        if v[i] != p.get_char(i) {
            assert(v@.take(n as int)[i as int] != p@[i as int]);
            return false;
        }
        i = i + 1;
    }
    assert(v@.take(n as int) =~= p@);
    true
}

impl GluetunConfig {
    /// Configuration from the control-address setting; none when the VPN
    /// integration is not configured.
    pub fn from_setting(setting: Option<&str>) -> (r: Option<GluetunConfig>)
        ensures
            match base_url_of(crate::text::str_opt_view(setting)) {
                None => r is None,
                Some(u) => r matches Some(c) && c.base_url@ == u && c.poll_attempts == 5
                    && c.poll_interval_secs == 1,
            },
    {
        let s = match setting {
            Some(s) => s,
            None => return None,
        };
        let a = trim_chars(s);
        if a.len() == 0 {
            return None;
        }
        let base_url = if has_prefix(&a, "http://") || has_prefix(&a, "https://") {
            text_of(&a)
        } else {
            let mut u = String::from_str("http://");
            u.append(text_of(&a).as_str());
            u
        };
        Some(GluetunConfig { base_url, poll_attempts: 5, poll_interval_secs: 1 })
    }

    /// URL of the VPN status resource.
    pub fn status_url(&self) -> (r: String)
        ensures
            r@ == self.base_url@ + "/v1/vpn/status"@,
    {
        let mut u = self.base_url.clone();
        u.append("/v1/vpn/status");
        u
    }
}

} // verus!
