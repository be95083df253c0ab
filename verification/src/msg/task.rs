//! Backend tasks: the build and test settings that an OCR comment requests,
//! in the `Key: value` format (see [`crate::colon_fields`]).

use vstd::prelude::*;
use crate::colon_fields::{
    field_value, get_list, get_opt_list, get_opt_text, get_text, list_value, one_key,
    opt_list_value, text_value, two_keys,
};
use crate::config_env::{ConfigEnv, get_backend_api_token, xt_doc_url};
use crate::events::msg::task::{
    aba_list_keys, bin_source_branch_keys, build_no_keys, build_type_keys, flag_keys,
    memory_mode_keys, mstr_search_keys, platform_keys, product_string_branch_keys,
    project_ids_keys, server_branch_keys, test_type_keys, touched_components_keys,
    xyati_infrastructure_keys, yati_branch_keys,
};
use crate::text::{chars_of, opt_list_view, opt_view};

verus! {

broadcast use vstd::string::group_string_axioms;

/// The message of a backend task request without a build number.
pub open spec fn build_number_required_message(doc: Seq<char>) -> Seq<char> {
    "\r\n Build number is required.\r\n Please read the "@ + doc
}

/// The settings of an OCR request.
#[allow(non_snake_case)]
pub struct OCRBody {
    pub BuildNo: String,
    pub ServerBranch: String,
    pub ProductStringBranch: String,
    pub BinSourceBranch: String,
    pub ABAList: Vec<String>,
    pub ProjectIDs: Vec<String>,
    pub YatiBranch: String,
    pub MSTRSearch: String,
    pub TestType: String,
    pub MemoryMode: String,
    pub BuildType: String,
    pub TouchedComponents: Vec<String>,
    pub XYatiInfrastructure: String,
    pub Platform: Option<String>,
    pub Flag: Option<Vec<String>>,
}

impl OCRBody {
    /// Every setting is the field of `s` with its keys.
    pub open spec fn settings_from(&self, s: Seq<char>) -> bool {
        &&& self.BuildNo@ == text_value(s, build_no_keys())
        &&& self.ServerBranch@ == text_value(s, server_branch_keys())
        &&& self.ProductStringBranch@ == text_value(s, product_string_branch_keys())
        &&& self.BinSourceBranch@ == text_value(s, bin_source_branch_keys())
        &&& self.ABAList.deep_view() == list_value(s, aba_list_keys())
        &&& self.ProjectIDs.deep_view() == list_value(s, project_ids_keys())
        &&& self.YatiBranch@ == text_value(s, yati_branch_keys())
        &&& self.MSTRSearch@ == text_value(s, mstr_search_keys())
        &&& self.TestType@ == text_value(s, test_type_keys())
        &&& self.MemoryMode@ == text_value(s, memory_mode_keys())
        &&& self.BuildType@ == text_value(s, build_type_keys())
        &&& self.TouchedComponents.deep_view() == list_value(s, touched_components_keys())
        &&& self.XYatiInfrastructure@ == text_value(s, xyati_infrastructure_keys())
        &&& opt_view(self.Platform) == field_value(s, platform_keys())
        &&& opt_list_view(self.Flag) == opt_list_value(s, flag_keys())
    }

    /// Reads every setting from the `Key: value` fields of `s`.
    pub fn from_str(s: &str) -> (r: OCRBody)
        ensures
            r.settings_from(s@),
    {
        let v = chars_of(s);
        OCRBody {
            BuildNo: get_text(&v, &one_key("BN")),
            ServerBranch: get_text(&v, &one_key("SB")),
            ProductStringBranch: get_text(&v, &one_key("PS")),
            BinSourceBranch: get_text(&v, &one_key("BS")),
            ABAList: get_list(&v, &two_keys("XT ABAs", "XT I'm running ABAs")),
            ProjectIDs: get_list(&v, &one_key("ProjectIDs")),
            YatiBranch: get_text(&v, &one_key("YB")),
            MSTRSearch: get_text(&v, &one_key("MS")),
            TestType: get_text(&v, &one_key("TestType")),
            MemoryMode: get_text(&v, &one_key("MemoryMode")),
            BuildType: get_text(&v, &one_key("BuildType")),
            TouchedComponents: get_list(&v, &two_keys("TC", "TouchedComponents")),
            XYatiInfrastructure: get_text(&v, &one_key("XY")),
            Platform: get_opt_text(&v, &one_key("Platform")),
            Flag: get_opt_list(&v, &one_key("Flag")),
        }
    }
}

/// A task for the validation backend.
#[allow(non_snake_case)]
pub struct BackendTask {
    pub APIToken: Option<String>,
    pub PR: u64,
    pub RepoName: String,
    pub Member: String,
    pub body: OCRBody,
}

/// Why a comment does not make a backend task.
pub enum BackendTaskError {
    /// The comment has no build number; the message says so and points to
    /// the documentation.
    BuildNumberRequired(String),
}

impl BackendTaskError {
    /// The message that explains the error.
    pub fn message(&self) -> (r: &str)
        ensures
            match self {
                BackendTaskError::BuildNumberRequired(m) => r@ == m@,
            },
    {
        match self {
            BackendTaskError::BuildNumberRequired(m) => m.as_str(),
        }
    }
}

impl BackendTask {
    /// The build number the task is for.
    pub fn get_build_number(&self) -> (r: &str)
        ensures
            r@ == self.body.BuildNo@,
    {
        self.body.BuildNo.as_str()
    }
}

/// `t` is the backend task that the comment `s` on pull request `pr` of
/// `repo` requests for `member` under `config`.
pub open spec fn requested_backend_task(
    t: BackendTask,
    s: Seq<char>,
    repo: Seq<char>,
    pr: u64,
    member: Seq<char>,
    config: ConfigEnv,
) -> bool {
    &&& t.PR == pr
    &&& t.RepoName@ == repo
    &&& t.Member@ == member
    &&& t.APIToken == config.backend_api_token
    &&& t.body.settings_from(s)
}

/// Builds the backend task that the comment `s` on pull request `pr_number`
/// of `repo` requests for `member`.  A comment without a build number is
/// refused; otherwise the task carries the configured backend token.
pub fn get_backend_task_from_str(
    s: &str,
    repo: String,
    pr_number: u64,
    member: String,
    config: &ConfigEnv,
) -> (r: Result<BackendTask, BackendTaskError>)
    ensures
        r is Err <==> text_value(s@, build_no_keys()).len() == 0,
        r matches Err(BackendTaskError::BuildNumberRequired(m)) ==> m@
            == build_number_required_message(config.xt_doc_url@),
        r matches Ok(t) ==> requested_backend_task(t, s@, repo@, pr_number, member@, *config),
{
    let body = OCRBody::from_str(s);
    if body.BuildNo.as_str().is_empty() {
        let mut m = "\r\n Build number is required.\r\n Please read the ".to_string();
        m.append(xt_doc_url(config));
        return Err(BackendTaskError::BuildNumberRequired(m));
    }
    Ok(
        BackendTask {
            APIToken: get_backend_api_token(config),
            PR: pr_number,
            Member: member,
            body,
            RepoName: repo,
        },
    )
}

} // verus!
