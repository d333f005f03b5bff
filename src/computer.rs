use vstd::prelude::*;

verus! {

/// A character that may stand in a host address: an ASCII letter or digit,
/// `.`, `-` or `:` (host names, IPv4 and IPv6 addresses).
pub open spec fn is_host_char(c: char) -> bool {
    ('a' <= c && c <= 'z') || ('A' <= c && c <= 'Z') || ('0' <= c && c <= '9') || c == '.'
        || c == '-' || c == ':'
}

/// A well-formed host address: non-empty and made of host characters only.
/// Keeping `_` out of addresses is what lets `_` separate the parts of a report
/// file name without two reports ever sharing a name.
pub open spec fn is_host_address(s: Seq<char>) -> bool {
    s.len() > 0 && forall|i: int| 0 <= i < s.len() ==> is_host_char(#[trigger] s[i])
}

/// Copies an optional string, keeping its value.
pub fn clone_opt(o: &Option<String>) -> (r: Option<String>)
    ensures
        r == *o,
{
    match o {
        None => None,
        Some(s) => Some(s.clone()),
    }
}

/// One remote machine and the credentials used to reach it.
pub struct Computer {
    pub address: String,
    pub username: String,
    pub password: Option<String>,
    pub domain: Option<String>,
}

impl Computer {
    /// The target identity invariant: the address is a well-formed host address.
    pub open spec fn wf(&self) -> bool {
        is_host_address(self.address@)
    }

    /// Checks that `address` is a well-formed host address.
    pub fn is_valid_address(address: &String) -> (r: bool)
        ensures
            r == is_host_address(address@),
    {
        let s = address.as_str();
        let n = s.unicode_len();
        if n == 0 {
            return false;
        }
        let mut i: usize = 0;
        while i < n
            invariant
                n == s@.len(),
                s@ == address@,
                0 <= i <= n,
                forall|j: int| 0 <= j < i ==> is_host_char(#[trigger] s@[j]),
            decreases n - i,
        {
            let c = s.get_char(i);
            let ok = ('a' <= c && c <= 'z') || ('A' <= c && c <= 'Z') || ('0' <= c && c <= '9')
                || c == '.' || c == '-' || c == ':';
            if !ok {
                return false;
            }
            i = i + 1;
        }
        true
    }

    /// Builds a target identity; `None` when the address is not a well-formed host address.
    pub fn new(
        address: String,
        username: String,
        password: Option<String>,
        domain: Option<String>,
    ) -> (r: Option<Computer>)
        ensures
            r.is_some() == is_host_address(address@),
            r.is_some() ==> r.unwrap() == (Computer { address, username, password, domain }),
            r.is_some() ==> r.unwrap().wf(),
    {
        if Computer::is_valid_address(&address) {
            Some(Computer { address, username, password, domain })
        } else {
            None
        }
    }

    /// A copy of this identity.
    pub fn duplicate(&self) -> (r: Computer)
        ensures
            r == *self,
    {
        Computer {
            address: self.address.clone(),
            username: self.username.clone(),
            password: clone_opt(&self.password),
            domain: clone_opt(&self.domain),
        }
    }
}

} // verus!
