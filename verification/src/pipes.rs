//! The census of the local service's pipes: which of them are enabled.

use crate::properties::{PropMap, PropValue, PropValueView, Properties};
use crate::text::join;
use vstd::prelude::*;
use vstd::string::*;

verus! {

/// One pipe of the local service, as its listing describes it.
#[derive(Debug, PartialEq, Eq)]
pub struct PipeInfo {
    /// The pipe's identifier.
    pub id: String,
    /// Whether the pipe is switched on.
    pub enabled: bool,
}

/// The identifiers of the enabled pipes, in the order of the listing.
pub open spec fn enabled_ids(pipes: Seq<PipeInfo>) -> Seq<Seq<char>> {
    pipes.filter(|pipe: PipeInfo| pipe.enabled).map_values(|pipe: PipeInfo| pipe.id@)
}

/// Reading one more pipe of a listing appends its identifier if the pipe is
/// enabled and changes nothing otherwise.
pub proof fn lemma_enabled_ids_step(pipes: Seq<PipeInfo>, n: int)
    requires
        0 <= n < pipes.len(),
    ensures
        enabled_ids(pipes.take(n + 1)) == if pipes[n].enabled {
            enabled_ids(pipes.take(n)).push(pipes[n].id@)
        } else {
            enabled_ids(pipes.take(n))
        },
{
    reveal(Seq::filter);
    let chosen = |pipe: PipeInfo| pipe.enabled;
    let before = pipes.take(n);
    let after = pipes.take(n + 1);
    assert(after.drop_last() == before);
    assert(after.last() == pipes[n]);
    if pipes[n].enabled {
        assert(after.filter(chosen) == before.filter(chosen).push(pipes[n]));
        assert(enabled_ids(after) =~= enabled_ids(before).push(pipes[n].id@));
    } else {
        assert(after.filter(chosen) == before.filter(chosen));
    }
}

/// An identifier is in the census exactly when the listing holds an enabled
/// pipe with that identifier, and the census is no longer than the listing.
pub proof fn lemma_enabled_ids_members(pipes: Seq<PipeInfo>)
    ensures
        enabled_ids(pipes).len() <= pipes.len(),
        forall|id: Seq<char>|
            enabled_ids(pipes).contains(id) <==> exists|i: int|
                0 <= i < pipes.len() && (#[trigger] pipes[i]).enabled && pipes[i].id@ == id,
    decreases pipes.len(),
{
    reveal(Seq::filter);
    if pipes.len() == 0 {
        assert(enabled_ids(pipes) =~= Seq::<Seq<char>>::empty());
    } else {
        let n = pipes.len() - 1;
        let front = pipes.take(n);
        assert(pipes.take(n + 1) == pipes);
        lemma_enabled_ids_step(pipes, n);
        lemma_enabled_ids_members(front);
        assert forall|id: Seq<char>|
            enabled_ids(pipes).contains(id) <==> exists|i: int|
                0 <= i < pipes.len() && (#[trigger] pipes[i]).enabled && pipes[i].id@ == id by {
            if enabled_ids(pipes).contains(id) {
                let at = choose|at: int|
                    0 <= at < enabled_ids(pipes).len() && enabled_ids(pipes)[at] == id;
                if pipes[n].enabled && at == enabled_ids(front).len() {
                    assert(pipes[n].enabled && pipes[n].id@ == id);
                } else {
                    assert(enabled_ids(front)[at] == id);
                    assert(enabled_ids(front).contains(id));
                    let i = choose|i: int|
                        0 <= i < front.len() && (#[trigger] front[i]).enabled && front[i].id@ == id;
                    assert(pipes[i].enabled && pipes[i].id@ == id);
                }
            }
            if exists|i: int|
                0 <= i < pipes.len() && (#[trigger] pipes[i]).enabled && pipes[i].id@ == id {
                let i = choose|i: int|
                    0 <= i < pipes.len() && (#[trigger] pipes[i]).enabled && pipes[i].id@ == id;
                if i == n {
                    assert(enabled_ids(pipes)[enabled_ids(front).len() as int] == id);
                } else {
                    assert(front[i].enabled && front[i].id@ == id);
                    assert(enabled_ids(front).contains(id));
                    let at = choose|at: int|
                        0 <= at < enabled_ids(front).len() && enabled_ids(front)[at] == id;
                    assert(enabled_ids(pipes)[at] == id);
                }
            }
        }
    }
}

/// The mathematical value of a [`PipeCensus`].
pub struct CensusView {
    pub enabled_pipes: Seq<Seq<char>>,
    pub enabled_pipe_count: nat,
}

/// The census of a listing.
pub open spec fn census_of(pipes: Seq<PipeInfo>) -> CensusView {
    CensusView { enabled_pipes: enabled_ids(pipes), enabled_pipe_count: enabled_ids(pipes).len() }
}

/// The enabled pipes of the local service and their number.
#[derive(Debug)]
pub struct PipeCensus {
    enabled_pipes: Vec<String>,
    enabled_pipe_count: usize,
}

impl View for PipeCensus {
    type V = CensusView;

    closed spec fn view(&self) -> CensusView {
        CensusView {
            enabled_pipes: self.enabled_pipes.deep_view(),
            enabled_pipe_count: self.enabled_pipe_count as nat,
        }
    }
}

/// The properties by which an event reports a census.
pub open spec fn census_properties(census: CensusView) -> PropMap {
    PropMap::empty().insert(
        "enabled_pipes"@,
        PropValueView::TextList(census.enabled_pipes),
    ).insert("enabled_pipe_count"@, PropValueView::Count(census.enabled_pipe_count as u64))
}

impl PipeCensus {
    #[verifier::type_invariant]
    spec fn count_agrees(&self) -> bool {
        self.enabled_pipe_count == self.enabled_pipes@.len()
    }

    /// Takes the census of a listing: the identifiers of the pipes that are
    /// enabled, in the order of the listing, and how many they are.
    pub fn of(pipes: &Vec<PipeInfo>) -> (census: PipeCensus)
        ensures
            census@ == census_of(pipes@),
    {
        let mut ids: Vec<String> = Vec::new();
        let mut i: usize = 0;
        proof {
            reveal(Seq::filter);
            assert(pipes@.take(0) == Seq::<PipeInfo>::empty());
            assert(enabled_ids(pipes@.take(0)) =~= Seq::<Seq<char>>::empty());
        }
        while i < pipes.len()
            invariant
                i <= pipes@.len(),
                ids.deep_view() =~= enabled_ids(pipes@.take(i as int)),
            decreases pipes@.len() - i,
        {
            proof {
                lemma_enabled_ids_step(pipes@, i as int);
            }
            if pipes[i].enabled {
                ids.push(pipes[i].id.clone());
            }
            i += 1;
        }
        assert(pipes@.take(i as int) == pipes@);
        let count = ids.len();
        PipeCensus { enabled_pipes: ids, enabled_pipe_count: count }
    }

    /// The identifiers of the enabled pipes.
    pub fn enabled_pipes(&self) -> (ids: &Vec<String>)
        ensures
            ids.deep_view() == self@.enabled_pipes,
    {
        &self.enabled_pipes
    }

    /// The number of enabled pipes.
    pub fn enabled_pipe_count(&self) -> (count: usize)
        ensures
            count == self@.enabled_pipe_count,
            count == self@.enabled_pipes.len(),
    {
        proof {
            use_type_invariant(self);
        }
        self.enabled_pipe_count
    }

    /// The census as event properties.
    pub fn to_properties(&self) -> (props: Properties)
        ensures
            props@ == census_properties(self@),
    {
        let mut props = Properties::new();
        props.insert(
            String::from_str("enabled_pipes"),
            PropValue::TextList(self.enabled_pipes.clone()),
        );
        props.insert(
            String::from_str("enabled_pipe_count"),
            PropValue::Count(self.enabled_pipe_count as u64),
        );
        props
    }
}

/// Why the pipes of the local service could not be listed.
#[derive(Debug, PartialEq, Eq)]
pub enum PipeCensusError {
    /// The request to the service could not be carried out.
    Transport(String),
    /// The service answered, but not with a listing.
    Undecodable(String),
}

/// The mathematical value of a [`PipeCensusError`].
pub enum PipeCensusErrorView {
    Transport(Seq<char>),
    Undecodable(Seq<char>),
}

impl View for PipeCensusError {
    type V = PipeCensusErrorView;

    open spec fn view(&self) -> PipeCensusErrorView {
        match self {
            PipeCensusError::Transport(reason) => PipeCensusErrorView::Transport(reason@),
            PipeCensusError::Undecodable(reason) => PipeCensusErrorView::Undecodable(reason@),
        }
    }
}

/// The text that describes a census error.
pub open spec fn census_error_text(error: PipeCensusErrorView) -> Seq<char> {
    match error {
        PipeCensusErrorView::Transport(reason) => reason,
        PipeCensusErrorView::Undecodable(reason) => "error decoding response body: "@ + reason,
    }
}

impl PipeCensusError {
    /// The error as text.
    pub fn message(&self) -> (text: String)
        ensures
            text@ == census_error_text(self@),
    {
        match self {
            PipeCensusError::Transport(reason) => reason.clone(),
            PipeCensusError::Undecodable(reason) => join(
                "error decoding response body: ",
                reason.as_str(),
            ),
        }
    }
}

} // verus!
