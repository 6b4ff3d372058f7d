use vstd::prelude::*;

use crate::streq::str_eq;
use crate::template::Template;

verus! {

/// The closed catalog of supported hosting services. Each variant pairs a
/// hosting site with an access protocol; the set is fixed at build time and
/// each variant's name is a stable public identifier.
#[derive(Clone, Copy, PartialEq, Eq, Structural, Debug)]
pub enum Service {
    BitbucketHG,
    BitbucketHTTPS,
    BitbucketSSH,
    GitHubHTTPS,
    GitHubSSH,
    GitLabHTTPS,
    GitLabSSH,
    PikacodeHTTPS,
    PikacodeSSH,
}

/// The error of a lookup whose name matches no registered service.
#[derive(Clone, Copy, PartialEq, Eq, Structural, Debug)]
pub struct UnknownService;

impl Service {
    /// The canonical name of the service, as a character sequence.
    pub open spec fn spec_name(self) -> Seq<char> {
        match self {
            Service::BitbucketHG => "bitbucket-hg"@,
            Service::BitbucketHTTPS => "bitbucket-https"@,
            Service::BitbucketSSH => "bitbucket-ssh"@,
            Service::GitHubHTTPS => "github-https"@,
            Service::GitHubSSH => "github-ssh"@,
            Service::GitLabHTTPS => "gitlab-https"@,
            Service::GitLabSSH => "gitlab-ssh"@,
            Service::PikacodeHTTPS => "pikacode-https"@,
            Service::PikacodeSSH => "pikacode-ssh"@,
        }
    }

    /// The fragment that precedes the user name in the service's URLs.
    pub open spec fn spec_prefix(self) -> Seq<char> {
        match self {
            Service::BitbucketHG => "ssh://hg@bitbucket.org/"@,
            Service::BitbucketHTTPS => "https://bitbucket.org/"@,
            Service::BitbucketSSH => "git@bitbucket.org:"@,
            Service::GitHubHTTPS => "https://github.com/"@,
            Service::GitHubSSH => "git@github.com:"@,
            Service::GitLabHTTPS => "https://gitlab.com/"@,
            Service::GitLabSSH => "git@gitlab.com:"@,
            Service::PikacodeHTTPS => "https://v2.pikacode.com/"@,
            Service::PikacodeSSH => "git@v2.pikacode.com:"@,
        }
    }

    /// The fragment that separates the user name from the project name:
    /// a single slash for every service in the catalog.
    pub open spec fn spec_infix(self) -> Seq<char> {
        "/"@
    }

    /// The fragment that follows the project name in the service's URLs.
    pub open spec fn spec_postfix(self) -> Seq<char> {
        match self {
            Service::BitbucketHG => ""@,
            Service::BitbucketHTTPS => ".git"@,
            Service::BitbucketSSH => ".git"@,
            Service::GitHubHTTPS => ".git"@,
            Service::GitHubSSH => ".git"@,
            Service::GitLabHTTPS => ".git"@,
            Service::GitLabSSH => ".git"@,
            Service::PikacodeHTTPS => ".git"@,
            Service::PikacodeSSH => ".git"@,
        }
    }

    /// The service whose name is `name`, or `None` when no registered
    /// service has that name. Matching is a case-sensitive exact comparison.
    pub open spec fn spec_from_name(name: Seq<char>) -> Option<Service> {
        if name == Service::BitbucketHG.spec_name() {
            Some(Service::BitbucketHG)
        } else if name == Service::BitbucketHTTPS.spec_name() {
            Some(Service::BitbucketHTTPS)
        } else if name == Service::BitbucketSSH.spec_name() {
            Some(Service::BitbucketSSH)
        } else if name == Service::GitHubHTTPS.spec_name() {
            Some(Service::GitHubHTTPS)
        } else if name == Service::GitHubSSH.spec_name() {
            Some(Service::GitHubSSH)
        } else if name == Service::GitLabHTTPS.spec_name() {
            Some(Service::GitLabHTTPS)
        } else if name == Service::GitLabSSH.spec_name() {
            Some(Service::GitLabSSH)
        } else if name == Service::PikacodeHTTPS.spec_name() {
            Some(Service::PikacodeHTTPS)
        } else if name == Service::PikacodeSSH.spec_name() {
            Some(Service::PikacodeSSH)
        } else {
            None
        }
    }

    /// The canonical name of the service.
    pub fn name(self) -> (r: &'static str)
        ensures
            r@ == self.spec_name(),
    {
        match self {
            Service::BitbucketHG => "bitbucket-hg",
            Service::BitbucketHTTPS => "bitbucket-https",
            Service::BitbucketSSH => "bitbucket-ssh",
            Service::GitHubHTTPS => "github-https",
            Service::GitHubSSH => "github-ssh",
            Service::GitLabHTTPS => "gitlab-https",
            Service::GitLabSSH => "gitlab-ssh",
            Service::PikacodeHTTPS => "pikacode-https",
            Service::PikacodeSSH => "pikacode-ssh",
        }
    }

    /// Find the service with the given name; `None` when the name is not in
    /// the catalog.
    pub fn from_name(name: &str) -> (r: Option<Service>)
        ensures
            r == Service::spec_from_name(name@),
    {
        if str_eq(name, "bitbucket-hg") {
            Some(Service::BitbucketHG)
        } else if str_eq(name, "bitbucket-https") {
            Some(Service::BitbucketHTTPS)
        } else if str_eq(name, "bitbucket-ssh") {
            Some(Service::BitbucketSSH)
        } else if str_eq(name, "github-https") {
            Some(Service::GitHubHTTPS)
        } else if str_eq(name, "github-ssh") {
            Some(Service::GitHubSSH)
        } else if str_eq(name, "gitlab-https") {
            Some(Service::GitLabHTTPS)
        } else if str_eq(name, "gitlab-ssh") {
            Some(Service::GitLabSSH)
        } else if str_eq(name, "pikacode-https") {
            Some(Service::PikacodeHTTPS)
        } else if str_eq(name, "pikacode-ssh") {
            Some(Service::PikacodeSSH)
        } else {
            None
        }
    }

    /// The service's URL template. Total: every variant has exactly one.
    pub fn template(self) -> (t: Template)
        ensures
            t.prefix@ == self.spec_prefix(),
            t.infix@ == self.spec_infix(),
            t.postfix@ == self.spec_postfix(),
    {
        match self {
            Service::BitbucketHG => Template::new("ssh://hg@bitbucket.org/", "/", ""),
            Service::BitbucketHTTPS => Template::new("https://bitbucket.org/", "/", ".git"),
            Service::BitbucketSSH => Template::new("git@bitbucket.org:", "/", ".git"),
            Service::GitHubHTTPS => Template::new("https://github.com/", "/", ".git"),
            Service::GitHubSSH => Template::new("git@github.com:", "/", ".git"),
            Service::GitLabHTTPS => Template::new("https://gitlab.com/", "/", ".git"),
            Service::GitLabSSH => Template::new("git@gitlab.com:", "/", ".git"),
            Service::PikacodeHTTPS => Template::new("https://v2.pikacode.com/", "/", ".git"),
            Service::PikacodeSSH => Template::new("git@v2.pikacode.com:", "/", ".git"),
        }
    }
}

/// The outcome of looking up `name` in the registry: the service with that
/// name, or `UnknownService` when there is none.
pub open spec fn spec_lookup(name: Seq<char>) -> Result<Service, UnknownService> {
    match Service::spec_from_name(name) {
        Some(s) => Ok(s),
        None => Err(UnknownService),
    }
}

/// Look up a service by name; fails with [`UnknownService`] exactly when the
/// name matches no registered service.
pub fn lookup(name: &str) -> (r: Result<Service, UnknownService>)
    ensures
        r == spec_lookup(name@),
{
    match Service::from_name(name) {
        Some(s) => Ok(s),
        None => Err(UnknownService),
    }
}

/// Registry round trip: looking up a registered service's own name succeeds
/// and yields exactly that service.
pub proof fn lemma_lookup_round_trip(s: Service)
    ensures
        Service::spec_from_name(s.spec_name()) == Some(s),
        spec_lookup(s.spec_name()) == Ok::<Service, UnknownService>(s),
{
    reveal_strlit("bitbucket-hg");
    reveal_strlit("bitbucket-https");
    reveal_strlit("bitbucket-ssh");
    reveal_strlit("github-https");
    reveal_strlit("github-ssh");
    reveal_strlit("gitlab-https");
    reveal_strlit("gitlab-ssh");
    reveal_strlit("pikacode-https");
    reveal_strlit("pikacode-ssh");
    // The nine names are pairwise distinct: most differ in length, and the
    // equal-length ones differ at character 0 or 3.
    assert("bitbucket-hg"@.len() == 12);
    assert("bitbucket-https"@.len() == 15);
    assert("bitbucket-ssh"@.len() == 13);
    assert("github-https"@.len() == 12);
    assert("github-ssh"@.len() == 10);
    assert("gitlab-https"@.len() == 12);
    assert("gitlab-ssh"@.len() == 10);
    assert("pikacode-https"@.len() == 14);
    assert("pikacode-ssh"@.len() == 12);
    assert("bitbucket-hg"@[0] == 'b');
    assert("github-https"@[0] == 'g');
    assert("gitlab-https"@[0] == 'g');
    assert("pikacode-ssh"@[0] == 'p');
    assert("github-https"@[3] == 'h');
    assert("gitlab-https"@[3] == 'l');
    assert("github-ssh"@[0] == 'g');
    assert("gitlab-ssh"@[0] == 'g');
    assert("github-ssh"@[3] == 'h');
    assert("gitlab-ssh"@[3] == 'l');
    match s {
        Service::BitbucketHG => assert(Service::spec_from_name(s.spec_name()) == Some(s)),
        Service::BitbucketHTTPS => assert(Service::spec_from_name(s.spec_name()) == Some(s)),
        Service::BitbucketSSH => assert(Service::spec_from_name(s.spec_name()) == Some(s)),
        Service::GitHubHTTPS => assert(Service::spec_from_name(s.spec_name()) == Some(s)),
        Service::GitHubSSH => assert(Service::spec_from_name(s.spec_name()) == Some(s)),
        Service::GitLabHTTPS => assert(Service::spec_from_name(s.spec_name()) == Some(s)),
        Service::GitLabSSH => assert(Service::spec_from_name(s.spec_name()) == Some(s)),
        Service::PikacodeHTTPS => assert(Service::spec_from_name(s.spec_name()) == Some(s)),
        Service::PikacodeSSH => assert(Service::spec_from_name(s.spec_name()) == Some(s)),
    }
}

/// A name that equals no registered service's name is not found: the lookup
/// fails with [`UnknownService`].
pub proof fn lemma_unknown_name(name: Seq<char>)
    requires
        forall|s: Service| name != #[trigger] s.spec_name(),
    ensures
        Service::spec_from_name(name) is None,
        spec_lookup(name) == Err::<Service, UnknownService>(UnknownService),
{
    assert(name != Service::BitbucketHG.spec_name());
    assert(name != Service::BitbucketHTTPS.spec_name());
    assert(name != Service::BitbucketSSH.spec_name());
    assert(name != Service::GitHubHTTPS.spec_name());
    assert(name != Service::GitHubSSH.spec_name());
    assert(name != Service::GitLabHTTPS.spec_name());
    assert(name != Service::GitLabSSH.spec_name());
    assert(name != Service::PikacodeHTTPS.spec_name());
    assert(name != Service::PikacodeSSH.spec_name());
}

/// Every service, in the registry's fixed display order.
pub open spec fn spec_all_services() -> Seq<Service> {
    seq![
        Service::BitbucketHG,
        Service::BitbucketHTTPS,
        Service::BitbucketSSH,
        Service::GitHubHTTPS,
        Service::GitHubSSH,
        Service::GitLabHTTPS,
        Service::GitLabSSH,
        Service::PikacodeHTTPS,
        Service::PikacodeSSH,
    ]
}

/// Every registered service name, in the registry's fixed display order.
pub fn all_names() -> (r: Vec<&'static str>)
    ensures
        r@.len() == spec_all_services().len(),
        forall|i: int| 0 <= i < r@.len() ==> r@[i]@ == spec_all_services()[i].spec_name(),
{
    let mut names: Vec<&'static str> = Vec::new();
    names.push(Service::BitbucketHG.name());
    names.push(Service::BitbucketHTTPS.name());
    names.push(Service::BitbucketSSH.name());
    names.push(Service::GitHubHTTPS.name());
    names.push(Service::GitHubSSH.name());
    names.push(Service::GitLabHTTPS.name());
    names.push(Service::GitLabSSH.name());
    names.push(Service::PikacodeHTTPS.name());
    names.push(Service::PikacodeSSH.name());
    names
}

} // verus!
