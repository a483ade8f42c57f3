use vstd::prelude::*;

verus! {

/// A GitHub user or organisation account.
#[derive(Clone, Debug)]
pub struct Account {
    pub login: String,
    pub id: usize,
    pub node_id: String,
    pub avatar_url: String,
    pub gravatar_id: String,
    pub url: String,
    pub html_url: String,
    pub followers_url: String,
    pub following_url: String,
    pub gists_url: String,
    pub starred_url: String,
    pub subscriptions_url: String,
    pub organizations_url: String,
    pub repos_url: String,
    pub events_url: String,
    pub received_events_url: String,
    pub user_type: String,
    pub site_admin: bool,
}

/// A team of an organisation, possibly nested under a parent team.
#[derive(Debug)]
pub struct Team {
    pub id: usize,
    pub node_id: String,
    pub url: String,
    pub name: String,
    pub slug: String,
    pub description: String,
    pub privacy: String,
    pub permission: String,
    pub members_url: String,
    pub repositories_url: String,
    pub parent: Option<Box<Team>>,
}

} // verus!
