use vstd::prelude::*;

verus! {

/// A URL shape with two substitution slots: the fixed fragments `prefix`,
/// `infix` and `postfix`, to be interleaved with a user and a project name.
#[derive(Clone, Copy)]
pub struct Template {
    pub prefix: &'static str,
    pub infix: &'static str,
    pub postfix: &'static str,
}

/// The string produced by substituting `user` and `project` into the template
/// whose fragments are `prefix`, `infix` and `postfix`: the five pieces
/// concatenated in order, with no escaping or normalization.
pub open spec fn spec_instantiate(
    prefix: Seq<char>,
    infix: Seq<char>,
    postfix: Seq<char>,
    user: Seq<char>,
    project: Seq<char>,
) -> Seq<char> {
    prefix + user + infix + project + postfix
}

impl Template {
    pub fn new(prefix: &'static str, infix: &'static str, postfix: &'static str) -> (t: Template)
        ensures
            t.prefix == prefix,
            t.infix == infix,
            t.postfix == postfix,
    {
        Template { prefix, infix, postfix }
    }

    /// Substitute `user` and `project` into the template's two slots:
    /// the result is exactly `prefix + user + infix + project + postfix`.
    pub fn instantiate(self, user: &str, project: &str) -> (r: String)
        ensures
            r@ == spec_instantiate(self.prefix@, self.infix@, self.postfix@, user@, project@),
    {
        let mut url = String::new();
        url.append(self.prefix);
        url.append(user);
        url.append(self.infix);
        url.append(project);
        url.append(self.postfix);
        proof {
            assert(url@ =~= spec_instantiate(
                self.prefix@,
                self.infix@,
                self.postfix@,
                user@,
                project@,
            ));
        }
        url
    }
}

/// Instantiation is injective in the two substituted values: for a fixed
/// template whose infix is a single character that occurs in neither user
/// value, equal instantiated strings can only come from equal (user, project)
/// pairs. No normalization hides a difference between inputs.
pub proof fn lemma_instantiate_injective(
    prefix: Seq<char>,
    infix: Seq<char>,
    postfix: Seq<char>,
    user1: Seq<char>,
    project1: Seq<char>,
    user2: Seq<char>,
    project2: Seq<char>,
)
    requires
        infix.len() == 1,
        forall|i: int| 0 <= i < user1.len() ==> user1[i] != infix[0],
        forall|i: int| 0 <= i < user2.len() ==> user2[i] != infix[0],
        spec_instantiate(prefix, infix, postfix, user1, project1) == spec_instantiate(
            prefix,
            infix,
            postfix,
            user2,
            project2,
        ),
    ensures
        user1 == user2,
        project1 == project2,
{
    let m1 = user1 + infix + project1;
    let m2 = user2 + infix + project2;
    assert(spec_instantiate(prefix, infix, postfix, user1, project1) =~= prefix + m1 + postfix);
    assert(spec_instantiate(prefix, infix, postfix, user2, project2) =~= prefix + m2 + postfix);
    assert(m1.len() == m2.len());
    assert(m1 =~= (prefix + m1 + postfix).subrange(
        prefix.len() as int,
        (prefix.len() + m1.len()) as int,
    ));
    assert(m2 =~= (prefix + m2 + postfix).subrange(
        prefix.len() as int,
        (prefix.len() + m2.len()) as int,
    ));
    assert(m1 == m2);
    if user1.len() < user2.len() {
        assert(m1[user1.len() as int] == infix[0]);
        assert(m2[user1.len() as int] == user2[user1.len() as int]);
        assert(false);
    }
    if user2.len() < user1.len() {
        assert(m2[user2.len() as int] == infix[0]);
        assert(m1[user2.len() as int] == user1[user2.len() as int]);
        assert(false);
    }
    assert forall|i: int| 0 <= i < user1.len() implies user1[i] == user2[i] by {
        assert(m1[i] == user1[i]);
        assert(m2[i] == user2[i]);
    }
    assert(user1 =~= user2);
    assert forall|j: int| 0 <= j < project1.len() implies project1[j] == project2[j] by {
        assert(m1[user1.len() + 1 + j] == project1[j]);
        assert(m2[user2.len() + 1 + j] == project2[j]);
    }
    assert(project1 =~= project2);
}

} // verus!
