//! What can go wrong while metrics are collected or shown.

use vstd::prelude::*;
use vstd::string::*;

verus! {

/// A failure of the monitor.
#[derive(Debug)]
pub enum LiteMonError {
    /// Reading from the host or writing to the terminal failed.
    Io(String),
    /// The host gave no usable system information.
    SysInfo(String),
    /// The terminal interface could not be driven.
    Ui(String),
    /// The host has no graphics device that can be queried.
    NoGpuFound,
    /// The provider had nothing to report for this category at this tick.
    CategoryUnavailable,
}

/// A failure with its text as a sequence of characters.
pub enum LiteMonErrorView {
    Io(Seq<char>),
    SysInfo(Seq<char>),
    Ui(Seq<char>),
    NoGpuFound,
    CategoryUnavailable,
}

impl LiteMonErrorView {
    /// The line that describes the failure to a reader.
    pub open spec fn message(self) -> Seq<char> {
        match self {
            LiteMonErrorView::Io(detail) => "IO error: "@ + detail,
            LiteMonErrorView::SysInfo(detail) => "System info error: "@ + detail,
            LiteMonErrorView::Ui(detail) => "Terminal UI error: "@ + detail,
            LiteMonErrorView::NoGpuFound => "No GPU found"@,
            LiteMonErrorView::CategoryUnavailable => "Category unavailable"@,
        }
    }
}

impl View for LiteMonError {
    type V = LiteMonErrorView;

    open spec fn view(&self) -> LiteMonErrorView {
        match self {
            LiteMonError::Io(detail) => LiteMonErrorView::Io(detail@),
            LiteMonError::SysInfo(detail) => LiteMonErrorView::SysInfo(detail@),
            LiteMonError::Ui(detail) => LiteMonErrorView::Ui(detail@),
            LiteMonError::NoGpuFound => LiteMonErrorView::NoGpuFound,
            LiteMonError::CategoryUnavailable => LiteMonErrorView::CategoryUnavailable,
        }
    }
}

impl Clone for LiteMonError {
    fn clone(&self) -> (copy: Self)
        ensures
            copy@ == self@,
    {
        match self {
            LiteMonError::Io(detail) => LiteMonError::Io(detail.clone()),
            LiteMonError::SysInfo(detail) => LiteMonError::SysInfo(detail.clone()),
            LiteMonError::Ui(detail) => LiteMonError::Ui(detail.clone()),
            LiteMonError::NoGpuFound => LiteMonError::NoGpuFound,
            LiteMonError::CategoryUnavailable => LiteMonError::CategoryUnavailable,
        }
    }
}

impl LiteMonError {
    /// The line that describes the failure to a reader.
    pub fn message(&self) -> (text: String)
        ensures
            text@ == self@.message(),
    {
        match self {
            LiteMonError::Io(detail) => String::from_str("IO error: ").concat(detail.as_str()),
            LiteMonError::SysInfo(detail) => String::from_str("System info error: ").concat(
                detail.as_str(),
            ),
            LiteMonError::Ui(detail) => String::from_str("Terminal UI error: ").concat(
                detail.as_str(),
            ),
            LiteMonError::NoGpuFound => String::from_str("No GPU found"),
            LiteMonError::CategoryUnavailable => String::from_str("Category unavailable"),
        }
    }
}

} // verus!
