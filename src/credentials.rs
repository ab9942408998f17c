use vstd::prelude::*;
use vstd::string::*;
use crate::outcome::OutcomeSymbol;

verus! {

/// The default private key under a home directory.
pub open spec fn default_key_path_of(home: Seq<char>) -> Seq<char> {
    home + "/.ssh/id_rsa"@
}

/// What the transport needs to authenticate with an SSH key.
#[derive(Clone, Debug)]
pub struct SshKeyCredential {
    pub username: String,
    pub public_key_path: Option<String>,
    pub private_key_path: String,
    pub passphrase: Option<String>,
}

/// Resolves credentials for remote transfers from a home directory fixed at
/// construction, rather than from the process environment.
#[derive(Clone, Debug)]
pub struct CredentialResolver {
    pub home: Option<String>,
}

/// `<home>/.ssh/id_rsa`.
pub fn default_key_path(home: &str) -> (r: String)
    ensures
        r@ == default_key_path_of(home@),
{
    let mut r = home.to_owned();
    r.append("/.ssh/id_rsa");
    r
}

impl CredentialResolver {
    /// A resolver over the given home directory, or over none.
    pub fn new(home: Option<String>) -> (r: CredentialResolver)
        ensures
            r.home == home,
    {
        CredentialResolver { home }
    }

    /// The credential for a transfer: the user named in the remote URL, with the
    /// default key under the home directory and no passphrase. Without a home
    /// directory or a user name there is none, and authentication fails.
    pub fn resolve(&self, _url: &str, username_hint: Option<&str>) -> (r: Result<
        SshKeyCredential,
        OutcomeSymbol,
    >)
        ensures
            r is Ok <==> (self.home is Some && username_hint is Some),
            r is Err ==> r->Err_0 == OutcomeSymbol::Auth,
            r matches Ok(c) ==> {
                &&& c.username@ == username_hint->0@
                &&& c.private_key_path@ == default_key_path_of(self.home->0@)
                &&& c.public_key_path is None
                &&& c.passphrase is None
            },
    {
        match (&self.home, username_hint) {
            (Some(home), Some(user)) => Ok(
                SshKeyCredential {
                    username: user.to_owned(),
                    public_key_path: None,
                    private_key_path: default_key_path(home.as_str()),
                    passphrase: None,
                },
            ),
            _ => Err(OutcomeSymbol::Auth),
        }
    }
}

} // verus!
