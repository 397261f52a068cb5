//! Where the roadmap is kept, and what is checked on its way in and out.
use vstd::prelude::*;
use crate::clock::{rfc3339_utc, utc_now_rfc3339};
use crate::state::roadmap::{refusal, RoadmapError, RoadmapState, RoadmapView};

verus! {

/// `b` is `a` with another time stamp.
pub open spec fn restamped(a: RoadmapView, b: RoadmapView) -> bool {
    b == RoadmapView { updated_at: b.updated_at, ..a }
}

/// The location of the roadmap file.
pub struct RoadmapStore {
    path: String,
}

impl RoadmapStore {
    /// The path of the roadmap file.
    pub closed spec fn path_view(&self) -> Seq<char> {
        self.path@
    }

    /// A store for the roadmap file at `path`.
    pub fn new(path: &str) -> (r: Self)
        ensures
            r.path_view() == path@,
    {
        RoadmapStore { path: path.to_owned() }
    }

    /// The path of the roadmap file.
    pub fn path(&self) -> (r: &str)
        ensures
            r@ == self.path_view(),
    {
        self.path.as_str()
    }

    /// The roadmap that loading gives: a fresh one when no file exists, else
    /// the stored one, provided it is valid.
    pub fn accept_loaded(&self, stored: Option<RoadmapState>) -> (r: Result<
        RoadmapState,
        RoadmapError,
    >)
        ensures
            stored is None ==> (r matches Ok(s) && s@.version == "1.0.0"@ && s@.workflow == "init"@
                && s@.current_phase is None && !s@.doc_ready && s@.phrases.len() == 0
                && rfc3339_utc(s@.updated_at)),
            stored matches Some(s) ==> (r is Ok <==> s@.is_valid()),
            stored matches Some(s) ==> (r matches Ok(x) ==> x@ == s@),
            stored matches Some(s) ==> (r matches Err(e) ==> refusal(s@, e)),
    {
        match stored {
            None => Ok(RoadmapState::new()),
            Some(s) => match s.validate() {
                Ok(()) => Ok(s),
                Err(e) => Err(e),
            },
        }
    }

    /// The roadmap that saving writes: a copy stamped with the current time,
    /// provided it is valid.
    pub fn prepare_save(&self, state: &RoadmapState) -> (r: Result<RoadmapState, RoadmapError>)
        ensures
            r is Ok <==> state@.is_valid(),
            r matches Ok(s) ==> restamped(state@, s@) && rfc3339_utc(s@.updated_at),
            r matches Err(e) ==> refusal(state@, e),
    {
        let mut s = state.duplicate();
        s.updated_at = utc_now_rfc3339();
        assert(restamped(state@, s@));
        assert(s@.workflow == state@.workflow && s@.phrases == state@.phrases);
        match s.validate() {
            Ok(()) => Ok(s),
            Err(e) => Err(e),
        }
    }
}

} // verus!
