//! What can go wrong, and how it is reported.
use crate::json::{json_contents, Json};
use crate::types::option_view;
use vstd::prelude::*;

verus! {

/// A fault in one entry of a VLAN trunk list.
#[derive(Clone, Copy, Debug, PartialEq, Eq, Structural)]
pub enum VlanError {
    /// The lower bound of a range is not a VLAN ID.
    IncorrectMinID,
    /// The upper bound of a range is not a VLAN ID.
    IncorrectMaxID,
    /// The bounds of a range are the wrong way round.
    MinGreaterThanMax,
    /// A range has an upper bound alone.
    MissingMinID,
    /// A range has a lower bound alone.
    MissingMaxID,
    /// A single ID is not a VLAN ID.
    IncorrectTrunkID,
}

/// A configuration that cannot be used.
#[derive(Debug)]
pub enum CniError {
    /// The configuration did not survive its way into or out of JSON.
    Json(serde_json::Error),
    /// A field has a value that is not allowed there.
    InvalidField { field: &'static str, expected: &'static str, value: serde_json::Value },
}

/// What a `CniError` says.
pub enum CniErrorView {
    Json(serde_json::Error),
    InvalidField { field: Seq<char>, expected: Seq<char>, value: Json },
}

impl View for CniError {
    type V = CniErrorView;

    open spec fn view(&self) -> CniErrorView {
        match *self {
            CniError::Json(error) => CniErrorView::Json(error),
            CniError::InvalidField { field, expected, value } => CniErrorView::InvalidField {
                field: field@,
                expected: expected@,
                value: json_contents(value),
            },
        }
    }
}

/// Everything the plugin can fail with.
#[derive(Debug)]
pub enum AppError {
    /// The configuration cannot be used.
    Cni(CniError),
    /// The VLAN trunk list cannot be used.
    Vlan(VlanError),
    /// The bridge could not be added, or what bears its name is no bridge.
    NetlinkError(String),
    /// A link could not be looked up or changed.
    LinkError(String),
    /// The configuration contradicts itself.
    InvalidConfig(String),
    /// A network namespace could not be opened.
    NetnsError(String),
    /// The veth pair could not be set up or described.
    VethError(String),
    /// Any other failure of the host, as it described itself.
    Host(String),
}

/// What an `AppError` says.
pub enum AppErrorView {
    Cni(CniErrorView),
    Vlan(VlanError),
    NetlinkError(Seq<char>),
    LinkError(Seq<char>),
    InvalidConfig(Seq<char>),
    NetnsError(Seq<char>),
    VethError(Seq<char>),
    Host(Seq<char>),
}

impl View for AppError {
    type V = AppErrorView;

    open spec fn view(&self) -> AppErrorView {
        match *self {
            AppError::Cni(error) => AppErrorView::Cni(error@),
            AppError::Vlan(error) => AppErrorView::Vlan(error),
            AppError::NetlinkError(text) => AppErrorView::NetlinkError(text@),
            AppError::LinkError(text) => AppErrorView::LinkError(text@),
            AppError::InvalidConfig(text) => AppErrorView::InvalidConfig(text@),
            AppError::NetnsError(text) => AppErrorView::NetnsError(text@),
            AppError::VethError(text) => AppErrorView::VethError(text@),
            AppError::Host(text) => AppErrorView::Host(text@),
        }
    }
}

/// The words of a failure that consists of words, without the kind of failure; none where the failure
/// is told by its parts.
pub open spec fn failure_words(error: AppErrorView) -> Option<Seq<char>> {
    match error {
        AppErrorView::NetlinkError(text) => Some(text),
        AppErrorView::LinkError(text) => Some(text),
        AppErrorView::InvalidConfig(text) => Some(text),
        AppErrorView::NetnsError(text) => Some(text),
        AppErrorView::VethError(text) => Some(text),
        AppErrorView::Host(text) => Some(text),
        AppErrorView::Cni(_) => None,
        AppErrorView::Vlan(_) => None,
    }
}

impl AppError {
    /// The words of a failure that consists of words.
    pub fn words(&self) -> (words: Option<&str>)
        ensures
            option_view(words) == failure_words(self@),
    {
        match self {
            AppError::NetlinkError(text) => Some(text.as_str()),
            AppError::LinkError(text) => Some(text.as_str()),
            AppError::InvalidConfig(text) => Some(text.as_str()),
            AppError::NetnsError(text) => Some(text.as_str()),
            AppError::VethError(text) => Some(text.as_str()),
            AppError::Host(text) => Some(text.as_str()),
            AppError::Cni(_) => None,
            AppError::Vlan(_) => None,
        }
    }
}

impl From<VlanError> for AppError {
    fn from(error: VlanError) -> (converted: AppError) {
        AppError::Vlan(error)
    }
}

impl vstd::std_specs::convert::FromSpecImpl<VlanError> for AppError {
    open spec fn obeys_from_spec() -> bool {
        true
    }

    open spec fn from_spec(error: VlanError) -> AppError {
        AppError::Vlan(error)
    }
}

impl From<CniError> for AppError {
    fn from(error: CniError) -> (converted: AppError) {
        AppError::Cni(error)
    }
}

impl vstd::std_specs::convert::FromSpecImpl<CniError> for AppError {
    open spec fn obeys_from_spec() -> bool {
        true
    }

    open spec fn from_spec(error: CniError) -> AppError {
        AppError::Cni(error)
    }
}

} // verus!
