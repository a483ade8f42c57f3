use vstd::prelude::*;

use crate::text::{append, replace, replace_all};

verus! {

/// The state of a commit status.
#[derive(Debug, Clone, Copy, PartialEq, Eq, Structural)]
pub enum State {
    Error,
    Failure,
    Pending,
    Success,
}

/// A commit status of a pull request's head commit.
#[derive(Debug)]
pub struct Status {
    pub state: State,
    pub target_url: String,
    pub description: String,
    pub context: String,
}

/// Whether a pull request is open or closed.
#[derive(Debug, Clone, Copy, PartialEq, Eq, Structural)]
pub enum PullRequestState {
    Open,
    Closed,
}

/// The context a status has when the API gives none.
pub fn default_context() -> (r: String)
    ensures
        r@ == "default"@,
{
    let mut s = String::new();
    append(&mut s, "default");
    s
}

/// The first of `statuses`, in the order given, whose context is `context`.
pub fn last_status_for_context(statuses: Vec<Status>, context: &str) -> (r: Option<Status>)
    ensures
        r matches Some(s) ==> exists|i: int|
            0 <= i < statuses@.len() && s == #[trigger] statuses@[i] && s.context@ == context@
                && forall|j: int| 0 <= j < i ==> (#[trigger] statuses@[j]).context@ != context@,
        r is None ==> forall|j: int|
            0 <= j < statuses@.len() ==> (#[trigger] statuses@[j]).context@ != context@,
{
    let wanted = context.to_owned();
    let mut list = statuses;
    let ghost all = list@;
    let mut i: usize = 0;
    while i < list.len()
        invariant
            list@ == all,
            all == statuses@,
            wanted@ == context@,
            0 <= i <= all.len(),
            forall|j: int| 0 <= j < i ==> (#[trigger] all[j]).context@ != context@,
        decreases all.len() - i,
    {
        if list[i].context == wanted {
            let found = list.remove(i);
            assert(found == all[i as int]);
            return Some(found);
        }
        i = i + 1;
    }
    None
}

/// The query that selects pull requests in `state`, or in any state.
pub open spec fn state_query(state: Option<PullRequestState>) -> Seq<char> {
    match state {
        Some(PullRequestState::Open) => "&state=open"@,
        Some(PullRequestState::Closed) => "&state=closed"@,
        None => "&state=all"@,
    }
}

/// The URL listing a repository's pull requests in `state`, from the
/// repository's `pulls_url` template.
pub fn pull_requests_url(pulls_url: &str, state: Option<PullRequestState>) -> (r: String)
    ensures
        r@ == replace_all(pulls_url@, "{/number}"@, ""@) + "?"@ + state_query(state),
{
    proof {
        reveal_strlit("{/number}");
    }
    let mut s = replace(pulls_url, "{/number}", "");
    append(&mut s, "?");
    match state {
        Some(PullRequestState::Open) => append(&mut s, "&state=open"),
        Some(PullRequestState::Closed) => append(&mut s, "&state=closed"),
        None => append(&mut s, "&state=all"),
    }
    s
}

} // verus!
