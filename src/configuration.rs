//! The parts of the configuration that the library decides: the runtime
//! environment and the application's listening address.
use vstd::prelude::*;

verus! {

/// The environment the application runs in.
#[derive(PartialEq, Eq, Structural, Clone, Copy, Debug)]
pub enum Environment {
    Local,
    Production,
}

/// The lowercase form of a string, as Unicode defines it.
pub uninterp spec fn lowercase_of(s: Seq<char>) -> Seq<char>;

/// Relies on `str::to_lowercase`: the result depends on the characters alone.
#[verifier::external_body]
fn to_lowercase(s: &str) -> (r: String)
    ensures
        r@ == lowercase_of(s@),
{
    s.to_lowercase()
}

impl Environment {
    pub open spec fn name(&self) -> Seq<char> {
        match self {
            Environment::Local => "local"@,
            Environment::Production => "production"@,
        }
    }

    /// The name of the environment, as its configuration file is named.
    pub fn as_str(&self) -> (r: &'static str)
        ensures
            r@ == self.name(),
    {
        match self {
            Environment::Local => "local",
            Environment::Production => "production",
        }
    }

    /// The environment that `s`, already lowercase, names.
    pub open spec fn named(s: Seq<char>) -> Option<Environment> {
        if s == "local"@ {
            Some(Environment::Local)
        } else if s == "production"@ {
            Some(Environment::Production)
        } else {
            None
        }
    }

    pub open spec fn unsupported_message(s: Seq<char>) -> Seq<char> {
        s + " is not supported environment. Use either 'local' or 'production'."@
    }

    /// Reads a lowercase environment name.
    pub fn from_lowercase(s: &String) -> (r: Result<Environment, String>)
        ensures
            match r {
                Ok(e) => Environment::named(s@) == Some(e),
                Err(m) => Environment::named(s@) is None && m@ == Environment::unsupported_message(
                    s@,
                ),
            },
    {
        if *s == "local".to_owned() {
            Ok(Environment::Local)
        } else if *s == "production".to_owned() {
            Ok(Environment::Production)
        } else {
            let mut message = s.clone();
            message.append(" is not supported environment. Use either 'local' or 'production'.");
            Err(message)
        }
    }

    /// Reads an environment name in any letter case.
    pub fn try_from(s: String) -> (r: Result<Environment, String>)
        ensures
            match r {
                Ok(e) => Environment::named(lowercase_of(s@)) == Some(e),
                Err(m) => Environment::named(lowercase_of(s@)) is None && m@
                    == Environment::unsupported_message(lowercase_of(s@)),
            },
    {
        let lowered = to_lowercase(s.as_str());
        Environment::from_lowercase(&lowered)
    }
}

/// The decimal text of a digit.
pub open spec fn digit_text(d: nat) -> Seq<char> {
    if d == 0 {
        "0"@
    } else if d == 1 {
        "1"@
    } else if d == 2 {
        "2"@
    } else if d == 3 {
        "3"@
    } else if d == 4 {
        "4"@
    } else if d == 5 {
        "5"@
    } else if d == 6 {
        "6"@
    } else if d == 7 {
        "7"@
    } else if d == 8 {
        "8"@
    } else {
        "9"@
    }
}

/// The decimal text of `n`, without leading zeros.
pub open spec fn decimal(n: nat) -> Seq<char>
    decreases n,
{
    if n < 10 {
        digit_text(n)
    } else {
        decimal(n / 10) + digit_text(n % 10)
    }
}

fn digit_str(d: u16) -> (r: &'static str)
    requires
        d < 10,
    ensures
        r@ == digit_text(d as nat),
{
    if d == 0 {
        "0"
    } else if d == 1 {
        "1"
    } else if d == 2 {
        "2"
    } else if d == 3 {
        "3"
    } else if d == 4 {
        "4"
    } else if d == 5 {
        "5"
    } else if d == 6 {
        "6"
    } else if d == 7 {
        "7"
    } else if d == 8 {
        "8"
    } else {
        "9"
    }
}

/// Appends the decimal text of `n` to `s`.
fn append_decimal(s: &mut String, n: u16)
    ensures
        final(s)@ == old(s)@ + decimal(n as nat),
    decreases n,
{
    if n >= 10 {
        append_decimal(s, n / 10);
    }
    s.append(digit_str(n % 10));
    proof {
        if n >= 10 {
            assert(old(s)@ + decimal(n as nat / 10) + digit_text(n as nat % 10) =~= old(s)@ + (
            decimal(n as nat / 10) + digit_text(n as nat % 10)));
        }
    }
}

/// Where the application listens and how it is reached from outside.
pub struct ApplicationSettings {
    pub port: u16,
    pub host: String,
    pub base_url: String,
}

impl ApplicationSettings {
    /// The `host:port` address to bind.
    pub fn address(&self) -> (r: String)
        ensures
            r@ == self.host@ + ":"@ + decimal(self.port as nat),
    {
        let mut address = self.host.clone();
        address.append(":");
        append_decimal(&mut address, self.port);
        address
    }
}

/// The public base URL that confirmation links start with.
pub struct ApplicationBaseUrl(pub String);

} // verus!
