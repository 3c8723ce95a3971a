//! Data model for the approval service's responses, and their classification
//! into a tri-state decision.

use vstd::prelude::*;
use crate::text::str_eq;

verus! {

/// Service-level status carried inside a response body, distinct from the
/// transport-level HTTP status.
#[derive(Debug)]
pub struct StatusInfo {
    pub status_code: u16,
}

/// One approval record for the queried job.
#[derive(Debug)]
pub struct DataItem {
    /// Lifecycle marker for the approval request itself.
    pub status: String,
    /// Meaningful only when `status` is `"complete"`.
    pub is_approved: bool,
}

/// A decoded response from the approval-status endpoint.
#[derive(Debug)]
pub struct Response {
    pub status_info: StatusInfo,
    pub data: Vec<DataItem>,
}

pub struct DataItemView {
    pub status: Seq<char>,
    pub is_approved: bool,
}

pub struct ResponseView {
    pub status_code: u16,
    pub data: Seq<DataItemView>,
}

impl View for DataItem {
    type V = DataItemView;

    open spec fn view(&self) -> DataItemView {
        DataItemView { status: self.status@, is_approved: self.is_approved }
    }
}

/// The views of a sequence of records, element by element.
pub open spec fn record_views(v: Seq<DataItem>) -> Seq<DataItemView> {
    Seq::new(v.len(), |i: int| v[i]@)
}

impl View for Response {
    type V = ResponseView;

    open spec fn view(&self) -> ResponseView {
        ResponseView { status_code: self.status_info.status_code, data: record_views(self.data@) }
    }
}

/// Tri-state outcome of classifying one response, with the separate fatal
/// channel for a service-level credential rejection.
#[derive(Debug, Clone, Copy, PartialEq, Eq, Structural)]
pub enum Decision {
    Approved,
    Canceled,
    Pending,
    AuthRejected,
}

/// The response a failed decode is folded into: service status zero and no
/// records, which classifies as pending.
pub open spec fn zero_response() -> ResponseView {
    ResponseView { status_code: 0, data: Seq::empty() }
}

/// What a response means: a credential rejection when the service-level
/// status is 401; pending when the status is any other non-200 value, when
/// there are no records, or when the first record is not complete; otherwise
/// the first record's approval flag decides.
pub open spec fn classify(r: ResponseView) -> Decision {
    if r.status_code == 401 {
        Decision::AuthRejected
    } else if r.status_code != 200 {
        Decision::Pending
    } else if r.data.len() == 0 {
        Decision::Pending
    } else if r.data[0].status != "complete"@ {
        Decision::Pending
    } else if r.data[0].is_approved {
        Decision::Approved
    } else {
        Decision::Canceled
    }
}

impl Response {
    /// A zero-valued response: what a body that cannot be decoded stands for.
    pub fn zero() -> (r: Response)
        ensures
            r@ == zero_response(),
    {
        let r = Response { status_info: StatusInfo { status_code: 0 }, data: Vec::new() };
        proof {
            assert(r@.data =~= zero_response().data);
            assert(r@ =~= zero_response());
        }
        r
    }

    /// Whether the service reported a successful retrieval.
    pub fn is_status_ok(&self) -> (r: bool)
        ensures
            r == (self@.status_code == 200),
    {
        self.status_info.status_code == 200
    }

    /// Whether the service rejected the credential at the application level.
    pub fn is_unauthorized(&self) -> (r: bool)
        ensures
            r == (self@.status_code == 401),
    {
        self.status_info.status_code == 401
    }

    /// Whether the response carries no usable record: no records at all, or a
    /// first record whose lifecycle is not complete.
    pub fn is_nodata(&self) -> (r: bool)
        ensures
            r == (self@.data.len() == 0 || self@.data[0].status != "complete"@),
    {
        if self.data.len() == 0 {
            return true;
        }
        if !str_eq(self.data[0].status.as_str(), "complete") {
            return true;
        }
        false
    }

    /// Whether the first record is complete and approved.
    pub fn is_approved(&self) -> (r: bool)
        ensures
            r == (self@.data.len() > 0 && self@.data[0].status == "complete"@
                && self@.data[0].is_approved),
    {
        if self.is_nodata() {
            return false;
        }
        self.data[0].is_approved
    }

    /// Classifies this response, exactly as [`classify`] states.
    pub fn decision(&self) -> (d: Decision)
        ensures
            d == classify(self@),
    {
        if self.is_unauthorized() {
            return Decision::AuthRejected;
        }
        if !self.is_status_ok() {
            return Decision::Pending;
        }
        if self.is_nodata() {
            return Decision::Pending;
        }
        if self.is_approved() {
            Decision::Approved
        } else {
            Decision::Canceled
        }
    }
}

/// A response whose service status is 200 and whose first record is complete
/// is decided by that record's approval flag alone.
pub proof fn lemma_complete_record_decides(r: ResponseView)
    requires
        r.status_code == 200,
        r.data.len() > 0,
        r.data[0].status == "complete"@,
    ensures
        classify(r) == if r.data[0].is_approved {
            Decision::Approved
        } else {
            Decision::Canceled
        },
{
}

/// A response with no records, or with a service status that is neither 200
/// nor the credential-rejection value 401, is pending whatever else it holds.
pub proof fn lemma_empty_or_not_ok_is_pending(r: ResponseView)
    requires
        r.status_code != 401,
        r.data.len() == 0 || r.status_code != 200,
    ensures
        classify(r) == Decision::Pending,
{
}

/// The zero-valued response — what every undecodable body is folded into —
/// classifies as pending, so a malformed body never decides the outcome.
pub proof fn lemma_zero_response_is_pending()
    ensures
        classify(zero_response()) == Decision::Pending,
{
}

} // verus!
