//! Remote-session decisions: connection state, the order in which
//! authentication methods are tried, and the strings built from the
//! user, host and port.

use vstd::prelude::*;

verus! {

/// Connection state of an SSH terminal.
#[derive(Clone, Copy, Debug, PartialEq, Eq, Structural)]
pub enum ConnectionState {
    Connecting,
    Connected,
    Disconnected,
    Error,
}

/// The state after the connection attempt finished: connected on
/// success, failed otherwise.
pub fn connection_outcome(succeeded: bool) -> (s: ConnectionState)
    ensures
        s == if succeeded { ConnectionState::Connected } else { ConnectionState::Error },
{
    if succeeded {
        ConnectionState::Connected
    } else {
        ConnectionState::Error
    }
}

/// Columns of the pseudo-terminal requested before the first resize.
pub const DEFAULT_COLS: usize = 80;

/// Lines of the pseudo-terminal requested before the first resize.
pub const DEFAULT_ROWS: usize = 24;

/// Number of default key files tried (`id_ed25519`, `id_ecdsa`, `id_rsa`).
pub const DEFAULT_KEY_COUNT: usize = 3;

/// An authentication method.
#[derive(Clone, Copy, Debug, PartialEq, Eq, Structural)]
pub enum AuthMethod {
    /// The `none` method.
    NoAuth,
    /// Every identity offered by the SSH agent.
    Agent,
    /// Default key file number `i` under `~/.ssh`.
    DefaultKey(usize),
    /// The identity file given by the caller.
    IdentityFile,
    /// The password given by the caller.
    Password,
}

/// The method tried after `previous` failed (the first one when
/// `previous` is None): none, agent, the default keys in order, the
/// identity file if given, the password if given; None when every method
/// has been tried.
pub open spec fn spec_next_auth(previous: Option<AuthMethod>, has_identity: bool, has_password: bool) -> Option<
    AuthMethod,
> {
    let after_keys = if has_identity {
        Some(AuthMethod::IdentityFile)
    } else if has_password {
        Some(AuthMethod::Password)
    } else {
        None
    };
    match previous {
        None => Some(AuthMethod::NoAuth),
        Some(AuthMethod::NoAuth) => Some(AuthMethod::Agent),
        Some(AuthMethod::Agent) => Some(AuthMethod::DefaultKey(0)),
        Some(AuthMethod::DefaultKey(i)) => if i + 1 < DEFAULT_KEY_COUNT {
            Some(AuthMethod::DefaultKey((i + 1) as usize))
        } else {
            after_keys
        },
        Some(AuthMethod::IdentityFile) => if has_password {
            Some(AuthMethod::Password)
        } else {
            None
        },
        Some(AuthMethod::Password) => None,
    }
}

/// The next authentication method to try.
pub fn next_auth_method(previous: Option<AuthMethod>, has_identity: bool, has_password: bool) -> (r:
    Option<AuthMethod>)
    ensures
        r == spec_next_auth(previous, has_identity, has_password),
{
    let after_keys = if has_identity {
        Some(AuthMethod::IdentityFile)
    } else if has_password {
        Some(AuthMethod::Password)
    } else {
        None
    };
    match previous {
        None => Some(AuthMethod::NoAuth),
        Some(AuthMethod::NoAuth) => Some(AuthMethod::Agent),
        Some(AuthMethod::Agent) => Some(AuthMethod::DefaultKey(0)),
        Some(AuthMethod::DefaultKey(i)) => {
            if i < DEFAULT_KEY_COUNT - 1 {
                Some(AuthMethod::DefaultKey(i + 1))
            } else {
                after_keys
            }
        },
        Some(AuthMethod::IdentityFile) => {
            if has_password {
                Some(AuthMethod::Password)
            } else {
                None
            }
        },
        Some(AuthMethod::Password) => None,
    }
}

/// The ASCII digits of `n` as characters.
pub open spec fn decimal_chars(n: nat) -> Seq<char>
    decreases n,
{
    if n < 10 {
        seq![((48 + n) as u32) as char]
    } else {
        decimal_chars(n / 10).push(((48 + n % 10) as u32) as char)
    }
}

fn append_digit(s: &mut String, d: u64)
    requires
        d < 10,
    ensures
        final(s)@ == old(s)@.push(((48 + d) as u32) as char),
{
    proof {
        reveal_strlit("0");
        reveal_strlit("1");
        reveal_strlit("2");
        reveal_strlit("3");
        reveal_strlit("4");
        reveal_strlit("5");
        reveal_strlit("6");
        reveal_strlit("7");
        reveal_strlit("8");
        reveal_strlit("9");
    }
    let digit = match d {
        0 => "0",
        1 => "1",
        2 => "2",
        3 => "3",
        4 => "4",
        5 => "5",
        6 => "6",
        7 => "7",
        8 => "8",
        _ => "9",
    };
    s.append(digit);
    assert(final(s)@ =~= old(s)@.push(((48 + d) as u32) as char));
}

fn append_decimal(s: &mut String, n: u64)
    ensures
        final(s)@ == old(s)@ + decimal_chars(n as nat),
    decreases n,
{
    if n >= 10 {
        append_decimal(s, n / 10);
    }
    append_digit(s, n % 10);
    proof {
        if n >= 10 {
            assert(decimal_chars(n as nat) == decimal_chars((n / 10) as nat).push(
                ((48 + n % 10) as u32) as char,
            ));
        }
    }
    assert(final(s)@ =~= old(s)@ + decimal_chars(n as nat));
}

/// The address to connect to: `host:port`.
pub fn ssh_address(host: &str, port: u16) -> (r: String)
    ensures
        r@ == host@ + ":"@ + decimal_chars(port as nat),
{
    let mut s = String::from_str(host);
    s.append(":");
    append_decimal(&mut s, port as u64);
    s
}

/// The initial title of a session: `user@host`.
pub fn session_title(user: &str, host: &str) -> (r: String)
    ensures
        r@ == user@ + "@"@ + host@,
{
    let mut s = String::from_str(user);
    s.append("@");
    s.append(host);
    s
}

/// The file name of default key `index`.
pub open spec fn spec_default_key_name(index: nat) -> Seq<char> {
    if index == 0 {
        "id_ed25519"@
    } else if index == 1 {
        "id_ecdsa"@
    } else {
        "id_rsa"@
    }
}

/// Path of default key `index` under the home directory:
/// `<home>/.ssh/<name>`.
pub fn default_key_path(home: &str, index: usize) -> (r: String)
    requires
        index < DEFAULT_KEY_COUNT,
    ensures
        r@ == home@ + "/.ssh/"@ + spec_default_key_name(index as nat),
{
    let mut s = String::from_str(home);
    s.append("/.ssh/");
    if index == 0 {
        s.append("id_ed25519");
    } else if index == 1 {
        s.append("id_ecdsa");
    } else {
        s.append("id_rsa");
    }
    s
}

/// The error reported when authentication does not succeed: a rejected
/// password ends the attempt with its own message, otherwise every
/// method was exhausted.
pub fn auth_error_message(user: &str, host: &str, port: u16, password_rejected: bool) -> (r: String)
    ensures
        password_rejected ==> r@ == "SSH authentication failed"@,
        !password_rejected ==> r@ == "No authentication method succeeded for "@ + user@ + "@"@
            + host@ + ":"@ + decimal_chars(port as nat),
{
    if password_rejected {
        return String::from_str("SSH authentication failed");
    }
    let mut s = String::from_str("No authentication method succeeded for ");
    s.append(user);
    s.append("@");
    s.append(host);
    s.append(":");
    append_decimal(&mut s, port as u64);
    s
}

/// The number of lines reported for a session: at least the default
/// screen height.
pub fn session_total_lines(core_total: usize) -> (r: usize)
    ensures
        r == if core_total < DEFAULT_ROWS { DEFAULT_ROWS } else { core_total },
{
    if core_total < DEFAULT_ROWS {
        DEFAULT_ROWS
    } else {
        core_total
    }
}

/// Every authentication method is tried at most once and the plan ends:
/// from any step, at most six further methods follow.
pub open spec fn auth_steps_left(m: Option<AuthMethod>) -> nat {
    match m {
        None => 7,
        Some(AuthMethod::NoAuth) => 6,
        Some(AuthMethod::Agent) => 5,
        Some(AuthMethod::DefaultKey(i)) => if i < 3 { (4 - i) as nat } else { 2 },
        Some(AuthMethod::IdentityFile) => 1,
        Some(AuthMethod::Password) => 0,
    }
}

/// The authentication plan strictly progresses, so it terminates.
pub proof fn law_auth_plan_terminates(previous: Option<AuthMethod>, has_identity: bool, has_password: bool)
    requires
        previous matches Some(AuthMethod::DefaultKey(i)) ==> i < DEFAULT_KEY_COUNT,
    ensures
        spec_next_auth(previous, has_identity, has_password) matches Some(m) ==> auth_steps_left(Some(m))
            < auth_steps_left(previous) && (m matches AuthMethod::DefaultKey(i) ==> i < DEFAULT_KEY_COUNT),
{
}

/// The `k`-th method tried (from 0), None once the plan is exhausted.
pub open spec fn attempt(has_identity: bool, has_password: bool, k: nat) -> Option<AuthMethod>
    decreases k,
{
    if k == 0 {
        spec_next_auth(None, has_identity, has_password)
    } else {
        match attempt(has_identity, has_password, (k - 1) as nat) {
            Some(m) => spec_next_auth(Some(m), has_identity, has_password),
            None => None,
        }
    }
}

/// The methods are tried in this order: none, the agent, the three
/// default keys, then the identity file when one is given, then the
/// password when one is given, and then the plan ends. In particular a
/// given identity file is always tried right after the last default key,
/// whether or not a password is given, and a given password is always
/// tried last.
pub proof fn law_auth_order(has_identity: bool, has_password: bool)
    ensures
        attempt(has_identity, has_password, 0) == Some(AuthMethod::NoAuth),
        attempt(has_identity, has_password, 1) == Some(AuthMethod::Agent),
        attempt(has_identity, has_password, 2) == Some(AuthMethod::DefaultKey(0)),
        attempt(has_identity, has_password, 3) == Some(AuthMethod::DefaultKey(1)),
        attempt(has_identity, has_password, 4) == Some(AuthMethod::DefaultKey(2)),
        has_identity ==> attempt(has_identity, has_password, 5) == Some(AuthMethod::IdentityFile),
        has_identity && has_password ==> attempt(has_identity, has_password, 6) == Some(
            AuthMethod::Password,
        ) && attempt(has_identity, has_password, 7) is None,
        has_identity && !has_password ==> attempt(has_identity, has_password, 6) is None,
        !has_identity && has_password ==> attempt(has_identity, has_password, 5) == Some(
            AuthMethod::Password,
        ) && attempt(has_identity, has_password, 6) is None,
        !has_identity && !has_password ==> attempt(has_identity, has_password, 5) is None,
        has_identity ==> spec_next_auth(
            Some(AuthMethod::DefaultKey((DEFAULT_KEY_COUNT - 1) as usize)),
            has_identity,
            has_password,
        ) == Some(AuthMethod::IdentityFile),
{
    reveal_with_fuel(attempt, 9);
}

} // verus!
