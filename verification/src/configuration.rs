use vstd::prelude::*;
use vstd::string::StrSliceExecFns;

use crate::address::IpAddress;

verus! {

/// An account allowed to authenticate: a user name and the hash of its password.
pub struct User {
    username: String,
    password_hash: String,
}

/// The mathematical form of a [`User`].
pub struct UserView {
    pub username: Seq<char>,
    pub password_hash: Seq<char>,
}

impl View for User {
    type V = UserView;

    closed spec fn view(&self) -> UserView {
        UserView { username: self.username@, password_hash: self.password_hash@ }
    }
}

/// The proxy's settings.
pub struct Configuration {
    /// The addresses of clients that are let in.
    pub whitelisted_ips: Vec<IpAddress>,
    /// The accounts that may authenticate.
    pub user_accounts: Vec<User>,
    /// The address the proxy listens on.
    pub listen_ip: String,
    /// The port the proxy listens on.
    pub listen_port: u16,
}

/// The port the proxy listens on unless told otherwise.
pub const DEFAULT_LISTEN_PORT: u16 = 1080;

/// The index of the first `:` in `s` at or after `from`, or the length of `s`
/// when there is none.
pub open spec fn colon_from(s: Seq<char>, from: int) -> int
    decreases s.len() - from,
{
    if from < 0 || from >= s.len() {
        s.len() as int
    } else if s[from] == ':' {
        from
    } else {
        colon_from(s, from + 1)
    }
}

/// The account that a `user:hash` line describes: the text before the first
/// `:`, and the text between it and the next `:` (or the end of the line).
pub open spec fn account_of(line: Seq<char>) -> UserView {
    let first = colon_from(line, 0);
    UserView {
        username: line.subrange(0, first),
        password_hash: line.subrange(first + 1, colon_from(line, first + 1)),
    }
}

proof fn lemma_colon_from_bounds(s: Seq<char>, from: int)
    requires
        0 <= from <= s.len(),
    ensures
        from <= colon_from(s, from) <= s.len(),
        colon_from(s, from) < s.len() ==> s[colon_from(s, from)] == ':',
        forall|j: int| from <= j < colon_from(s, from) ==> s[j] != ':',
    decreases s.len() - from,
{
    if from < s.len() && s[from] != ':' {
        lemma_colon_from_bounds(s, from + 1);
    }
}

proof fn lemma_colon_found(s: Seq<char>, from: int, at: int)
    requires
        0 <= from <= at < s.len(),
        s[at] == ':',
    ensures
        colon_from(s, from) <= at,
    decreases at - from,
{
    if s[from] != ':' {
        lemma_colon_found(s, from + 1, at);
    }
}

/// The index of the first `:` in `line` at or after `from`, or its length.
fn find_colon(line: &str, len: usize, from: usize) -> (i: usize)
    requires
        len == line@.len(),
        from <= len,
    ensures
        i == colon_from(line@, from as int),
{
    let mut i = from;
    while i < len
        invariant
            from <= i <= len,
            len == line@.len(),
            colon_from(line@, from as int) == colon_from(line@, i as int),
        decreases len - i,
    {
        if line.get_char(i) == ':' {
            return i;
        }
        i += 1;
    }
    i
}

impl User {
    /// The account described by a `user:hash` line (see [`account_of`]).
    pub fn parse_account(line: &str) -> (u: User)
        requires
            line@.contains(':'),
        ensures
            u@ == account_of(line@),
    {
        let len = line.unicode_len();
        proof {
            let at = choose|k: int| 0 <= k < line@.len() && line@[k] == ':';
            lemma_colon_found(line@, 0, at);
            lemma_colon_from_bounds(line@, 0);
        }
        let first = find_colon(line, len, 0);
        let second = find_colon(line, len, first + 1);
        proof {
            lemma_colon_from_bounds(line@, first as int + 1);
        }
        let username = line.substring_char(0, first).to_owned();
        let password_hash = line.substring_char(first + 1, second).to_owned();
        User { username, password_hash }
    }

    /// The user name.
    pub fn username(&self) -> (s: &str)
        ensures
            s@ == self@.username,
    {
        self.username.as_str()
    }

    /// The password hash.
    pub fn password_hash(&self) -> (s: &str)
        ensures
            s@ == self@.password_hash,
    {
        self.password_hash.as_str()
    }
}

/// Every line describes an account: it holds a `:`.
pub open spec fn all_accounts(lines: Seq<String>) -> bool {
    forall|i: int| 0 <= i < lines.len() ==> #[trigger] lines[i]@.contains(':')
}

/// `ips` is the longest run of addresses at the start of `entries`: the
/// entries before the first one that is not an address.
pub open spec fn leading_addresses(entries: Seq<Option<IpAddress>>, ips: Seq<IpAddress>) -> bool {
    &&& ips.len() <= entries.len()
    &&& forall|i: int| 0 <= i < ips.len() ==> entries[i] == Some(#[trigger] ips[i])
    &&& ips.len() == entries.len() || entries[ips.len() as int] is None
}

impl Configuration {
    /// Takes one parsed line of the whitelist into `ips`: an address is
    /// appended and reading goes on (`true`); a line that is not an address
    /// ends the whitelist (`false`).
    pub fn accept_whitelist_entry(ips: &mut Vec<IpAddress>, entry: Option<IpAddress>) -> (more: bool)
        ensures
            more == entry is Some,
            entry matches Some(ip) ==> final(ips)@ == old(ips)@.push(ip),
            entry is None ==> final(ips)@ == old(ips)@,
    {
        match entry {
            Some(ip) => {
                ips.push(ip);
                true
            },
            None => false,
        }
    }

    /// The whitelist from its parsed lines, in order: the addresses up to the
    /// first line that is not one.
    pub fn get_whitelisted_ips(entries: &Vec<Option<IpAddress>>) -> (ips: Vec<IpAddress>)
        ensures
            leading_addresses(entries@, ips@),
    {
        let mut ips: Vec<IpAddress> = Vec::new();
        let mut i: usize = 0;
        while i < entries.len()
            invariant
                i <= entries@.len(),
                ips@.len() == i,
                forall|j: int| 0 <= j < i ==> entries@[j] == Some(#[trigger] ips@[j]),
            decreases entries@.len() - i,
        {
            if !Self::accept_whitelist_entry(&mut ips, entries[i]) {
                return ips;
            }
            i += 1;
        }
        ips
    }

    /// The accounts that the lines describe, in order.
    pub fn get_accounts(lines: &Vec<String>) -> (accounts: Vec<User>)
        requires
            all_accounts(lines@),
        ensures
            accounts@.len() == lines@.len(),
            forall|i: int| 0 <= i < lines@.len() ==> (#[trigger] accounts@[i])@ == account_of(lines@[i]@),
    {
        let mut accounts: Vec<User> = Vec::new();
        let mut i: usize = 0;
        while i < lines.len()
            invariant
                i <= lines@.len(),
                all_accounts(lines@),
                accounts@.len() == i,
                forall|j: int| 0 <= j < i ==> (#[trigger] accounts@[j])@ == account_of(lines@[j]@),
            decreases lines@.len() - i,
        {
            assert(lines@[i as int]@.contains(':'));
            accounts.push(User::parse_account(lines[i].as_str()));
            i += 1;
        }
        accounts
    }

    /// The settings made of the two lists, listening on 127.0.0.1:1080.
    pub fn parse_configuration(whitelisted_ips: Vec<IpAddress>, user_accounts: Vec<User>) -> (r: Result<Configuration, String>)
        ensures
            r matches Ok(c) && c.whitelisted_ips@ == whitelisted_ips@ && c.user_accounts@
                == user_accounts@ && c.listen_ip@ == "127.0.0.1"@ && c.listen_port == 1080,
    {
        Ok(Configuration {
            whitelisted_ips,
            user_accounts,
            listen_ip: "127.0.0.1".to_owned(),
            listen_port: DEFAULT_LISTEN_PORT,
        })
    }

    /// The settings that were read, or, when reading failed, none whitelisted,
    /// no accounts, listening on 127.0.0.1:1080.
    pub fn new(parsed: Result<Configuration, String>) -> (c: Configuration)
        ensures
            parsed matches Ok(p) ==> c == p,
            parsed is Err ==> c.whitelisted_ips@.len() == 0 && c.user_accounts@.len() == 0
                && c.listen_ip@ == "127.0.0.1"@ && c.listen_port == 1080,
    {
        match parsed {
            Ok(f) => f,
            _ => Configuration {
                whitelisted_ips: Vec::new(),
                user_accounts: Vec::new(),
                listen_ip: "127.0.0.1".to_owned(),
                listen_port: DEFAULT_LISTEN_PORT,
            },
        }
    }
}

proof fn lemma_colon_exact(s: Seq<char>, from: int, at: int)
    requires
        0 <= from <= at <= s.len(),
        forall|j: int| from <= j < at ==> s[j] != ':',
        at < s.len() ==> s[at] == ':',
    ensures
        colon_from(s, from) == at,
    decreases at - from,
{
    if from < at {
        lemma_colon_exact(s, from + 1, at);
    }
}

/// A line `user:hash`, where neither part holds a `:`, gives the account
/// with exactly that user name and exactly that hash, whatever their lengths;
/// anything after a second `:` is ignored.
pub proof fn lemma_account_line(user: Seq<char>, hash: Seq<char>, rest: Seq<char>)
    requires
        !user.contains(':'),
        !hash.contains(':'),
    ensures
        account_of(user + seq![':'] + hash) == (UserView { username: user, password_hash: hash }),
        account_of(user + seq![':'] + hash + seq![':'] + rest) == (UserView {
            username: user,
            password_hash: hash,
        }),
{
    let s = user + seq![':'] + hash;
    let t = user + seq![':'] + hash + seq![':'] + rest;
    let n = user.len() as int;
    let m = hash.len() as int;
    assert forall|j: int| 0 <= j < n implies s[j] != ':' && t[j] != ':' by {
        assert(s[j] == user[j]);
        assert(t[j] == user[j]);
        if user[j] == ':' {
            assert(user.contains(':'));
        }
    }
    assert forall|j: int| n + 1 <= j < n + 1 + m implies s[j] != ':' && t[j] != ':' by {
        assert(s[j] == hash[j - n - 1]);
        assert(t[j] == hash[j - n - 1]);
        if hash[j - n - 1] == ':' {
            assert(hash.contains(':'));
        }
    }
    lemma_colon_exact(s, 0, n);
    lemma_colon_exact(t, 0, n);
    lemma_colon_exact(s, n + 1, n + 1 + m);
    lemma_colon_exact(t, n + 1, n + 1 + m);
    assert(s.subrange(0, n) =~= user);
    assert(t.subrange(0, n) =~= user);
    assert(s.subrange(n + 1, n + 1 + m) =~= hash);
    assert(t.subrange(n + 1, n + 1 + m) =~= hash);
}

} // verus!
