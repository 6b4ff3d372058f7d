//! Build repository remote URLs from a fixed catalog of hosting services.
//!
//! A service is identified by a stable name such as `github-ssh`; each service
//! carries a three-part URL template. Given a service name, a user and a
//! project, [`generate`] resolves the service and substitutes the user and the
//! project into its template, yielding the complete clone URL.

use vstd::prelude::*;

mod registry;
mod streq;
mod template;

pub use registry::Service;
pub use registry::UnknownService;
pub use registry::all_names;
pub use registry::lemma_lookup_round_trip;
pub use registry::lemma_unknown_name;
pub use registry::lookup;
pub use registry::spec_all_services;
pub use registry::spec_lookup;
pub use streq::str_eq;
pub use template::Template;
pub use template::lemma_instantiate_injective;
pub use template::spec_instantiate;

verus! {

/// The complete URL for service `s`, user `user` and project `project`: the
/// service's template instantiated with the two values.
pub open spec fn spec_url(s: Service, user: Seq<char>, project: Seq<char>) -> Seq<char> {
    spec_instantiate(s.spec_prefix(), s.spec_infix(), s.spec_postfix(), user, project)
}

/// For any one service, distinct (user, project) pairs in which neither user
/// value contains a slash produce distinct URLs: the slash infix is the only
/// delimiter, so nothing about the inputs is hidden or normalized away.
pub proof fn lemma_url_injective(
    s: Service,
    user1: Seq<char>,
    project1: Seq<char>,
    user2: Seq<char>,
    project2: Seq<char>,
)
    requires
        forall|i: int| 0 <= i < user1.len() ==> user1[i] != '/',
        forall|i: int| 0 <= i < user2.len() ==> user2[i] != '/',
        spec_url(s, user1, project1) == spec_url(s, user2, project2),
    ensures
        user1 == user2,
        project1 == project2,
{
    reveal_strlit("/");
    assert(s.spec_infix().len() == 1);
    assert(s.spec_infix()[0] == '/');
    template::lemma_instantiate_injective(
        s.spec_prefix(),
        s.spec_infix(),
        s.spec_postfix(),
        user1,
        project1,
        user2,
        project2,
    );
}

/// Resolve `service_name` in the registry and substitute `user` and `project`
/// into the resolved service's template. Fails with [`UnknownService`] exactly
/// when `service_name` matches no registered service; `user` and `project` are
/// inserted verbatim, with no validation or escaping.
///
/// The result is a function of the three argument strings alone, so two calls
/// with identical arguments return byte-identical strings.
pub fn generate(service_name: &str, user: &str, project: &str) -> (r: Result<
    String,
    UnknownService,
>)
    ensures
        Service::spec_from_name(service_name@) matches Some(s) ==> r matches Ok(url)
            && url@ == spec_url(s, user@, project@),
        Service::spec_from_name(service_name@) is None ==> r == Err::<String, UnknownService>(
            UnknownService,
        ),
{
    match lookup(service_name) {
        Ok(service) => Ok(service.template().instantiate(user, project)),
        Err(e) => Err(e),
    }
}

} // verus!
