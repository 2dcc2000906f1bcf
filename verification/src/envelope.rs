//! Requests and responses of the three operations, and the status envelope
//! that tells a served request from a malformed one.

use vstd::prelude::*;
use crate::catalog::{Data, DataView};

verus! {

/// The status that every response carries.
#[derive(Debug, PartialEq, Eq)]
pub struct ApiResponse {
    pub code: String,
    pub header: String,
    pub description: String,
}

/// Mathematical value of an [`ApiResponse`].
pub struct ApiResponseView {
    pub code: Seq<char>,
    pub header: Seq<char>,
    pub description: Seq<char>,
}

impl View for ApiResponse {
    type V = ApiResponseView;

    open spec fn view(&self) -> ApiResponseView {
        ApiResponseView { code: self.code@, header: self.header@, description: self.description@ }
    }
}

impl DeepView for ApiResponse {
    type V = ApiResponseView;

    open spec fn deep_view(&self) -> ApiResponseView {
        self@
    }
}

/// The status of a request that was served: code `0000`, no header.
pub open spec fn success_status() -> ApiResponseView {
    ApiResponseView { code: "0000"@, header: Seq::empty(), description: "Success"@ }
}

/// The status of a request whose body could not be read: code `8000`.
pub open spec fn bad_request_status() -> ApiResponseView {
    ApiResponseView {
        code: "8000"@,
        header: "Bad request"@,
        description: "The server could not understand the request due to invalid syntax or missing mandatory field"@,
    }
}

/// The payload of an update response: the text `null`.
pub open spec fn no_payload() -> Seq<char> {
    "null"@
}

/// The two statuses can be told apart by their code.
pub proof fn lemma_status_codes_differ()
    ensures
        success_status().code != bad_request_status().code,
        success_status() != bad_request_status(),
{
    reveal_strlit("0000");
    reveal_strlit("8000");
    assert("8000"@[0] == '8');
}

impl ApiResponse {
    /// The status of a request that was served.
    pub fn success() -> (status: ApiResponse)
        ensures
            status@ == success_status(),
    {
        ApiResponse {
            code: "0000".to_owned(),
            header: String::new(),
            description: "Success".to_owned(),
        }
    }

    /// The status of a request whose body could not be read.
    pub fn bad_request() -> (status: ApiResponse)
        ensures
            status@ == bad_request_status(),
    {
        ApiResponse {
            code: "8000".to_owned(),
            header: "Bad request".to_owned(),
            description: "The server could not understand the request due to invalid syntax or missing mandatory field".to_owned(),
        }
    }
}

/// An inquiry: the categories that the caller asks for. The answer does not
/// depend on them: the whole catalog is returned.
#[derive(Debug, PartialEq, Eq)]
pub struct PostFeaturesTogglesRequest {
    pub feature_category: Vec<String>,
}

/// A catalog under a status: the answer to an inquiry, and the body of a
/// request to replace the catalog.
#[derive(Debug, PartialEq, Eq)]
pub struct PostFeaturesTogglesResponse {
    pub status: ApiResponse,
    pub data: Data,
}

/// Mathematical value of a [`PostFeaturesTogglesResponse`].
pub struct PostFeaturesTogglesResponseView {
    pub status: ApiResponseView,
    pub data: DataView,
}

impl View for PostFeaturesTogglesResponse {
    type V = PostFeaturesTogglesResponseView;

    open spec fn view(&self) -> PostFeaturesTogglesResponseView {
        PostFeaturesTogglesResponseView { status: self.status@, data: self.data@ }
    }
}

/// One feature and the state it is to be switched to.
#[derive(Debug, PartialEq, Eq)]
pub struct FeatureRequest {
    pub feature_id: String,
    pub is_active: bool,
}

/// Mathematical value of a [`FeatureRequest`].
pub struct FeatureRequestView {
    pub feature_id: Seq<char>,
    pub is_active: bool,
}

impl View for FeatureRequest {
    type V = FeatureRequestView;

    open spec fn view(&self) -> FeatureRequestView {
        FeatureRequestView { feature_id: self.feature_id@, is_active: self.is_active }
    }
}

impl DeepView for FeatureRequest {
    type V = FeatureRequestView;

    open spec fn deep_view(&self) -> FeatureRequestView {
        self@
    }
}

/// An update: the features to switch, in the order in which to switch them.
#[derive(Debug, PartialEq, Eq)]
pub struct PatchFeaturesTogglesRequest {
    pub feature_list: Vec<FeatureRequest>,
}

/// The answer to an update: a status and no payload.
#[derive(Debug, PartialEq, Eq)]
pub struct PatchFeaturesTogglesResponse {
    pub status: ApiResponse,
    pub data: String,
}

/// Mathematical value of a [`PatchFeaturesTogglesResponse`].
pub struct PatchFeaturesTogglesResponseView {
    pub status: ApiResponseView,
    pub data: Seq<char>,
}

impl View for PatchFeaturesTogglesResponse {
    type V = PatchFeaturesTogglesResponseView;

    open spec fn view(&self) -> PatchFeaturesTogglesResponseView {
        PatchFeaturesTogglesResponseView { status: self.status@, data: self.data@ }
    }
}

impl PatchFeaturesTogglesResponse {
    /// The answer to an update that was applied.
    pub fn success() -> (response: PatchFeaturesTogglesResponse)
        ensures
            response@ == (PatchFeaturesTogglesResponseView {
                status: success_status(),
                data: no_payload(),
            }),
    {
        PatchFeaturesTogglesResponse { status: ApiResponse::success(), data: "null".to_owned() }
    }

    /// The answer to an update whose body could not be read.
    pub fn bad_request() -> (response: PatchFeaturesTogglesResponse)
        ensures
            response@ == (PatchFeaturesTogglesResponseView {
                status: bad_request_status(),
                data: no_payload(),
            }),
    {
        PatchFeaturesTogglesResponse { status: ApiResponse::bad_request(), data: "null".to_owned() }
    }
}

impl PostFeaturesTogglesResponse {
    /// The catalog `data` under the status of a served request.
    pub fn success(data: Data) -> (response: PostFeaturesTogglesResponse)
        ensures
            response@ == (PostFeaturesTogglesResponseView { status: success_status(), data: data@ }),
    {
        PostFeaturesTogglesResponse { status: ApiResponse::success(), data }
    }
}

} // verus!
