use vstd::prelude::*;
use crate::client::EssError;
use crate::serverless::Project;

verus! {

/// Milliseconds to wait before each refetch.
pub const POLL_INTERVAL_MS: u64 = 300;

/// Refetches allowed by default before giving up (five minutes at the poll
/// interval).
pub const DEFAULT_MAX_REFETCHES: u64 = 1000;

/// Whether all three endpoints of a project are known.
pub open spec fn endpoints_ready(p: Project) -> bool {
    &&& p.endpoints.apm@.len() > 0
    &&& p.endpoints.elasticsearch@.len() > 0
    &&& p.endpoints.kibana@.len() > 0
}

/// What the caller does after showing the poller a fetched project.
#[derive(Debug)]
pub enum PollAction {
    /// The project has all its endpoints: hand it on.
    Ready(Project),
    /// Wait `delay_ms`, fetch project `id` again and show the poller the result.
    Refetch { id: String, delay_ms: u64 },
}

/// Waits for a freshly created project to get its endpoints: shown the
/// creation response and then each refetched version of the project, it
/// says whether the project is ready or must be fetched again, and fails
/// once it has run out of refetches.
#[derive(Debug, Clone, Copy)]
pub struct CreationPoller {
    pub max_refetches: u64,
    pub refetches: u64,
}

impl CreationPoller {
    /// A poller that allows `max_refetches` refetches.
    pub fn new(max_refetches: u64) -> (r: CreationPoller)
        ensures
            r.max_refetches == max_refetches,
            r.refetches == 0,
    {
        CreationPoller { max_refetches, refetches: 0 }
    }

    /// The next state and the action for a fetched project.
    pub open spec fn next(self, fetched: Project) -> (CreationPoller, Result<PollAction, EssError>) {
        if endpoints_ready(fetched) {
            (self, Ok(PollAction::Ready(fetched)))
        } else if self.refetches < self.max_refetches {
            (
                CreationPoller { refetches: (self.refetches + 1) as u64, ..self },
                Ok(PollAction::Refetch { id: fetched.id, delay_ms: POLL_INTERVAL_MS }),
            )
        } else {
            (self, Err(EssError::PollTimeout { refetches: self.refetches }))
        }
    }

    /// Takes in a fetched project and says what to do next.
    pub fn step(&mut self, fetched: Project) -> (r: Result<PollAction, EssError>)
        ensures
            (*final(self), r) == old(self).next(fetched),
    {
        if !fetched.endpoints.apm.as_str().is_empty() && !fetched.endpoints.elasticsearch.as_str().is_empty()
            && !fetched.endpoints.kibana.as_str().is_empty() {
            Ok(PollAction::Ready(fetched))
        } else if self.refetches < self.max_refetches {
            self.refetches = self.refetches + 1;
            Ok(PollAction::Refetch { id: fetched.id, delay_ms: POLL_INTERVAL_MS })
        } else {
            Err(EssError::PollTimeout { refetches: self.refetches })
        }
    }

    /// Showing the poller the projects of `fetched` in turn, for as long as it
    /// asks for refetches: how many refetches it asked for, and what it ended
    /// with (`None` where the projects ran out first).
    pub open spec fn run(self, fetched: Seq<Project>) -> (nat, Option<Result<PollAction, EssError>>)
        decreases fetched.len(),
    {
        if fetched.len() == 0 {
            (0, None)
        } else {
            let (after, action) = self.next(fetched[0]);
            match action {
                Ok(PollAction::Refetch { .. }) => {
                    let (n, last) = after.run(fetched.drop_first());
                    (n + 1, last)
                },
                _ => (0, Some(action)),
            }
        }
    }
}

/// The poller becomes ready exactly at the first project with all three
/// endpoints: given the creation response and refetched versions where the
/// first `k` lack an endpoint and the next has all three, and a bound that
/// allows `k` more refetches, it asks for exactly `k` refetches and then
/// hands on that project.
pub proof fn lemma_ready_after_refetches(p: CreationPoller, fetched: Seq<Project>, k: int)
    requires
        0 <= k < fetched.len(),
        forall|i: int| 0 <= i < k ==> !endpoints_ready(#[trigger] fetched[i]),
        endpoints_ready(fetched[k]),
        p.refetches + k <= p.max_refetches,
    ensures
        p.run(fetched) == (k as nat, Some(Ok::<PollAction, EssError>(PollAction::Ready(fetched[k])))),
    decreases k,
{
    if k > 0 {
        let after = CreationPoller { refetches: (p.refetches + 1) as u64, ..p };
        assert(p.next(fetched[0]).0 == after);
        let rest = fetched.drop_first();
        assert forall|i: int| 0 <= i < k - 1 implies !endpoints_ready(#[trigger] rest[i]) by {
            assert(rest[i] == fetched[i + 1]);
        }
        assert(rest[k - 1] == fetched[k]);
        lemma_ready_after_refetches(after, rest, k - 1);
    }
}

/// The poller never waits without bound: where none of the projects shown
/// has all three endpoints, it fails with a timeout after using its
/// remaining refetches.
pub proof fn lemma_times_out_when_never_ready(p: CreationPoller, fetched: Seq<Project>)
    requires
        p.refetches <= p.max_refetches,
        fetched.len() > p.max_refetches - p.refetches,
        forall|i: int| 0 <= i < fetched.len() ==> !endpoints_ready(#[trigger] fetched[i]),
    ensures
        p.run(fetched) == ((p.max_refetches - p.refetches) as nat, Some(
            Err::<PollAction, EssError>(EssError::PollTimeout { refetches: p.max_refetches }),
        )),
    decreases p.max_refetches - p.refetches,
{
    if p.refetches < p.max_refetches {
        let after = CreationPoller { refetches: (p.refetches + 1) as u64, ..p };
        let rest = fetched.drop_first();
        assert forall|i: int| 0 <= i < rest.len() implies !endpoints_ready(#[trigger] rest[i]) by {
            assert(rest[i] == fetched[i + 1]);
        }
        lemma_times_out_when_never_ready(after, rest);
    }
}

} // verus!
