use vstd::prelude::*;

verus! {

/// What went wrong while talking to the statistics site or reading its pages.
#[derive(Debug, PartialEq, Eq)]
pub enum HaloWaypointError {
    Http(String),
    MissingGame,
    UnknownGame(String),
    MissingMissionId,
    InvalidMissionId(String),
    MissingDifficulty,
    UnknownDifficulty(String),
    MissingCampaignMode,
    UnknownCampaignMode(String),
    MissingTime,
    InvalidTime(String),
    MissingScore,
    InvalidScore(String),
}

/// The mathematical value of a [`HaloWaypointError`].
pub enum HaloWaypointErrorView {
    Http(Seq<char>),
    MissingGame,
    UnknownGame(Seq<char>),
    MissingMissionId,
    InvalidMissionId(Seq<char>),
    MissingDifficulty,
    UnknownDifficulty(Seq<char>),
    MissingCampaignMode,
    UnknownCampaignMode(Seq<char>),
    MissingTime,
    InvalidTime(Seq<char>),
    MissingScore,
    InvalidScore(Seq<char>),
}

impl View for HaloWaypointError {
    type V = HaloWaypointErrorView;

    open spec fn view(&self) -> HaloWaypointErrorView {
        match self {
            HaloWaypointError::Http(body) => HaloWaypointErrorView::Http(body@),
            HaloWaypointError::MissingGame => HaloWaypointErrorView::MissingGame,
            HaloWaypointError::UnknownGame(raw) => HaloWaypointErrorView::UnknownGame(raw@),
            HaloWaypointError::MissingMissionId => HaloWaypointErrorView::MissingMissionId,
            HaloWaypointError::InvalidMissionId(raw) => HaloWaypointErrorView::InvalidMissionId(raw@),
            HaloWaypointError::MissingDifficulty => HaloWaypointErrorView::MissingDifficulty,
            HaloWaypointError::UnknownDifficulty(raw) => HaloWaypointErrorView::UnknownDifficulty(raw@),
            HaloWaypointError::MissingCampaignMode => HaloWaypointErrorView::MissingCampaignMode,
            HaloWaypointError::UnknownCampaignMode(raw) => HaloWaypointErrorView::UnknownCampaignMode(raw@),
            HaloWaypointError::MissingTime => HaloWaypointErrorView::MissingTime,
            HaloWaypointError::InvalidTime(raw) => HaloWaypointErrorView::InvalidTime(raw@),
            HaloWaypointError::MissingScore => HaloWaypointErrorView::MissingScore,
            HaloWaypointError::InvalidScore(raw) => HaloWaypointErrorView::InvalidScore(raw@),
        }
    }
}

impl Clone for HaloWaypointError {
    fn clone(&self) -> (copy: Self)
        ensures
            copy@ == self@,
    {
        match self {
            HaloWaypointError::Http(body) => HaloWaypointError::Http(body.clone()),
            HaloWaypointError::MissingGame => HaloWaypointError::MissingGame,
            HaloWaypointError::UnknownGame(raw) => HaloWaypointError::UnknownGame(raw.clone()),
            HaloWaypointError::MissingMissionId => HaloWaypointError::MissingMissionId,
            HaloWaypointError::InvalidMissionId(raw) => HaloWaypointError::InvalidMissionId(raw.clone()),
            HaloWaypointError::MissingDifficulty => HaloWaypointError::MissingDifficulty,
            HaloWaypointError::UnknownDifficulty(raw) => HaloWaypointError::UnknownDifficulty(raw.clone()),
            HaloWaypointError::MissingCampaignMode => HaloWaypointError::MissingCampaignMode,
            HaloWaypointError::UnknownCampaignMode(raw) => HaloWaypointError::UnknownCampaignMode(raw.clone()),
            HaloWaypointError::MissingTime => HaloWaypointError::MissingTime,
            HaloWaypointError::InvalidTime(raw) => HaloWaypointError::InvalidTime(raw.clone()),
            HaloWaypointError::MissingScore => HaloWaypointError::MissingScore,
            HaloWaypointError::InvalidScore(raw) => HaloWaypointError::InvalidScore(raw.clone()),
        }
    }
}

/// Every failure the library reports.
#[derive(Debug, PartialEq, Eq)]
pub enum Error {
    Hyper(String),
    HaloWaypoint(HaloWaypointError),
    List(Vec<Error>),
}

/// The mathematical value of an [`Error`].
pub enum ErrorView {
    Hyper(Seq<char>),
    HaloWaypoint(HaloWaypointErrorView),
    List(Seq<ErrorView>),
}

impl View for Error {
    type V = ErrorView;

    open spec fn view(&self) -> ErrorView
        decreases self,
    {
        match self {
            Error::Hyper(text) => ErrorView::Hyper(text@),
            Error::HaloWaypoint(inner) => ErrorView::HaloWaypoint(inner@),
            Error::List(errors) => ErrorView::List(
                Seq::new(
                    errors@.len(),
                    |i: int|
                        if 0 <= i < errors@.len() {
                            errors@[i].view()
                        } else {
                            ErrorView::List(Seq::empty())
                        },
                ),
            ),
        }
    }
}

/// The outcome `outcome` with its error, if it holds one, as a mathematical value.
pub open spec fn result_view<T>(outcome: Result<T, Error>) -> Result<T, ErrorView> {
    match outcome {
        Ok(value) => Ok(value),
        Err(error) => Err(error@),
    }
}

/// The outcome `outcome` with what it holds, value or error, as a mathematical
/// value.
pub open spec fn outcome_view<T: View>(outcome: Result<T, Error>) -> Result<T::V, ErrorView> {
    match outcome {
        Ok(value) => Ok(value@),
        Err(error) => Err(error@),
    }
}

/// The mathematical value of a list of errors.
pub open spec fn error_views(errors: Seq<Error>) -> Seq<ErrorView> {
    Seq::new(errors.len(), |i: int| errors[i]@)
}

/// An error about the statistics site, as the general error that wraps it.
pub open spec fn site_error(inner: HaloWaypointErrorView) -> ErrorView {
    ErrorView::HaloWaypoint(inner)
}

impl Error {
    /// The error that wraps `inner`.
    pub fn site(inner: HaloWaypointError) -> (error: Self)
        ensures
            error@ == site_error(inner@),
    {
        Error::HaloWaypoint(inner)
    }

    /// The error that holds `errors`, in their order.
    pub fn list(errors: Vec<Error>) -> (error: Self)
        ensures
            error@ == ErrorView::List(error_views(errors@)),
    {
        let error = Error::List(errors);
        assert(error@->List_0 =~= error_views(errors@));
        error
    }
}

impl Clone for Error {
    fn clone(&self) -> (copy: Self)
        ensures
            copy@ == self@,
        decreases self,
    {
        match self {
            Error::Hyper(text) => Error::Hyper(text.clone()),
            Error::HaloWaypoint(inner) => Error::HaloWaypoint(inner.clone()),
            Error::List(errors) => {
                let mut copies: Vec<Error> = Vec::new();
                let mut i: usize = 0;
                while i < errors.len()
                    invariant
                        i <= errors.len(),
                        copies.len() == i,
                        forall|j: int| 0 <= j < i ==> copies@[j]@ == errors@[j]@,
                        *self == Error::List(*errors),
                    decreases errors.len() - i,
                {
                    assert(decreases_to!(*self => self->List_0));
                    copies.push(errors[i].clone());
                    i += 1;
                }
                let copy = Error::List(copies);
                assert(copy@ == self@) by {
                    assert(copy@->List_0 =~= self@->List_0);
                }
                copy
            }
        }
    }
}

} // verus!
