use remote::{all_names, generate, lookup, Service, Template, UnknownService};

fn url(service: &str, user: &str, project: &str) -> String {
    generate(service, user, project).expect("service should be registered")
}

#[test]
fn bitbucket_hg() {
    assert_eq!(url("bitbucket-hg", "casey", "remote"), "ssh://hg@bitbucket.org/casey/remote");
}

#[test]
fn bitbucket_https() {
    assert_eq!(url("bitbucket-https", "casey", "remote"), "https://bitbucket.org/casey/remote.git");
}

#[test]
fn bitbucket_ssh() {
    assert_eq!(url("bitbucket-ssh", "rodarmor", "server"), "git@bitbucket.org:rodarmor/server.git");
}

#[test]
fn github_https() {
    assert_eq!(url("github-https", "casey", "just"), "https://github.com/casey/just.git");
}

#[test]
fn github_ssh() {
    assert_eq!(url("github-ssh", "casey", "remote"), "git@github.com:casey/remote.git");
}

#[test]
fn gitlab_https() {
    assert_eq!(url("gitlab-https", "whim", "menagerie"), "https://gitlab.com/whim/menagerie.git");
}

#[test]
fn gitlab_ssh() {
    assert_eq!(url("gitlab-ssh", "whim", "menagerie"), "git@gitlab.com:whim/menagerie.git");
}

#[test]
fn pikacode_https() {
    assert_eq!(url("pikacode-https", "Stinky", "Orgfiler"), "https://v2.pikacode.com/Stinky/Orgfiler.git");
}

#[test]
fn pikacode_ssh() {
    assert_eq!(
        url("pikacode-ssh", "pararaum", "cbmbasicVariableDumper"),
        "git@v2.pikacode.com:pararaum/cbmbasicVariableDumper.git"
    );
}

#[test]
fn unknown_service_fails() {
    assert_eq!(generate("not-a-service", "a", "b"), Err(UnknownService));
}

#[test]
fn lookup_round_trips_every_registered_name() {
    let names = all_names();
    assert_eq!(names.len(), 9);
    for name in names {
        let service = lookup(name).expect("every listed name should be found");
        assert_eq!(service.name(), name);
    }
}

#[test]
fn lookup_unknown_names_fail() {
    for name in ["", "github", "ssh", "github_ssh", "github-ssh ", " github-ssh", "not-a-service"] {
        assert_eq!(lookup(name), Err(UnknownService));
    }
}

#[test]
fn lookup_is_case_sensitive() {
    assert_eq!(lookup("GitHub-SSH"), Err(UnknownService));
    assert_eq!(lookup("GITHUB-SSH"), Err(UnknownService));
    assert_eq!(lookup("github-ssh"), Ok(Service::GitHubSSH));
}

#[test]
fn all_names_lists_the_catalog_in_order() {
    assert_eq!(
        all_names(),
        vec![
            "bitbucket-hg",
            "bitbucket-https",
            "bitbucket-ssh",
            "github-https",
            "github-ssh",
            "gitlab-https",
            "gitlab-ssh",
            "pikacode-https",
            "pikacode-ssh",
        ]
    );
}

#[test]
fn all_names_is_stable_across_calls() {
    assert_eq!(all_names(), all_names());
}

#[test]
fn template_instantiate_concatenates_in_order() {
    let template = Template::new("host:", "/", ".git");
    assert_eq!(template.instantiate("user", "project"), "host:user/project.git");
}

#[test]
fn instantiate_accepts_empty_values() {
    assert_eq!(url("github-ssh", "", ""), "git@github.com:/.git");
    assert_eq!(url("bitbucket-hg", "", ""), "ssh://hg@bitbucket.org//");
}

#[test]
fn instantiate_passes_values_through_verbatim() {
    assert_eq!(
        url("github-https", "a user", "pro$ject;"),
        "https://github.com/a user/pro$ject;.git"
    );
}

#[test]
fn instantiate_distinct_inputs_give_distinct_urls() {
    let template = Template::new("git@github.com:", "/", ".git");
    let a = template.instantiate("casey", "remote");
    let b = template.instantiate("case", "yremote");
    let c = template.instantiate("casey", "remot");
    assert_ne!(a, b);
    assert_ne!(a, c);
    assert_ne!(b, c);
}

#[test]
fn generate_is_deterministic() {
    let first = generate("gitlab-https", "whim", "menagerie");
    let second = generate("gitlab-https", "whim", "menagerie");
    assert_eq!(first, second);
}

#[test]
fn str_eq_matches_string_equality() {
    assert!(remote::str_eq("github-ssh", "github-ssh"));
    assert!(!remote::str_eq("github-ssh", "gitlab-ssh"));
    assert!(!remote::str_eq("github-ssh", "github-ss"));
    assert!(remote::str_eq("", ""));
    assert!(remote::str_eq("héllo→", "héllo→"));
    assert!(!remote::str_eq("héllo", "hello"));
}

#[test]
fn service_template_matches_catalog() {
    let template = Service::BitbucketHG.template();
    assert_eq!(template.prefix, "ssh://hg@bitbucket.org/");
    assert_eq!(template.infix, "/");
    assert_eq!(template.postfix, "");
    let template = Service::PikacodeSSH.template();
    assert_eq!(template.prefix, "git@v2.pikacode.com:");
    assert_eq!(template.infix, "/");
    assert_eq!(template.postfix, ".git");
}

#[test]
fn from_name_finds_each_service() {
    assert_eq!(Service::from_name("bitbucket-hg"), Some(Service::BitbucketHG));
    assert_eq!(Service::from_name("bitbucket-https"), Some(Service::BitbucketHTTPS));
    assert_eq!(Service::from_name("bitbucket-ssh"), Some(Service::BitbucketSSH));
    assert_eq!(Service::from_name("github-https"), Some(Service::GitHubHTTPS));
    assert_eq!(Service::from_name("github-ssh"), Some(Service::GitHubSSH));
    assert_eq!(Service::from_name("gitlab-https"), Some(Service::GitLabHTTPS));
    assert_eq!(Service::from_name("gitlab-ssh"), Some(Service::GitLabSSH));
    assert_eq!(Service::from_name("pikacode-https"), Some(Service::PikacodeHTTPS));
    assert_eq!(Service::from_name("pikacode-ssh"), Some(Service::PikacodeSSH));
    assert_eq!(Service::from_name("sourcehut-ssh"), None);
}
