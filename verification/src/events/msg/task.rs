//! OCR tasks: the build and test settings that a comment requests, in the
//! `Key: value` format (see [`crate::colon_fields`]).

use vstd::prelude::*;
use crate::colon_fields::{
    get_list, get_opt_list, get_opt_text, get_text, list_value, one_key,
    opt_list_value, text_value, field_value, two_keys,
};
use crate::config_env::{
    backend_api_enabled, get_backend_api_token, is_backend_api_enable, xt_doc_url, ConfigEnv,
};
use crate::text::{chars_of, opt_list_view, opt_view};

verus! {

broadcast use vstd::string::group_string_axioms;

// ---------------------------------------------------------------------------
// The keys of the fields.
// ---------------------------------------------------------------------------

pub open spec fn build_no_keys() -> Seq<Seq<char>> { seq!["BN"@] }
pub open spec fn server_branch_keys() -> Seq<Seq<char>> { seq!["SB"@] }
pub open spec fn product_string_branch_keys() -> Seq<Seq<char>> { seq!["PS"@] }
pub open spec fn bin_source_branch_keys() -> Seq<Seq<char>> { seq!["BS"@] }
pub open spec fn aba_list_keys() -> Seq<Seq<char>> { seq!["XT ABAs"@, "XT I'm running ABAs"@] }
pub open spec fn project_ids_keys() -> Seq<Seq<char>> { seq!["ProjectIDs"@] }
pub open spec fn yati_branch_keys() -> Seq<Seq<char>> { seq!["YB"@] }
pub open spec fn mstr_search_keys() -> Seq<Seq<char>> { seq!["MS"@] }
pub open spec fn test_type_keys() -> Seq<Seq<char>> { seq!["TestType"@] }
pub open spec fn memory_mode_keys() -> Seq<Seq<char>> { seq!["MemoryMode"@] }
pub open spec fn build_type_keys() -> Seq<Seq<char>> { seq!["BuildType"@] }
pub open spec fn touched_components_keys() -> Seq<Seq<char>> { seq!["TC"@, "TouchedComponents"@] }
pub open spec fn xyati_infrastructure_keys() -> Seq<Seq<char>> { seq!["XY"@] }
pub open spec fn platform_keys() -> Seq<Seq<char>> { seq!["Platform"@] }
pub open spec fn flag_keys() -> Seq<Seq<char>> { seq!["Flag"@] }
pub open spec fn comment_keys() -> Seq<Seq<char>> { seq!["comment"@] }

/// The message of a task request without a build number.
pub open spec fn build_number_required_message(doc: Seq<char>) -> Seq<char> {
    "\r\n Build number is **required**.\r\n Please read the "@ + doc
}

// ---------------------------------------------------------------------------
// The task body.
// ---------------------------------------------------------------------------

/// The settings of an OCR request.
#[allow(non_snake_case)]
pub struct OCRBody {
    pub BuildNo: String,
    pub ServerBranch: String,
    pub ProductStringBranch: String,
    pub BinSourceBranch: String,
    pub ABAList: Vec<String>,
    pub ProjectIDs: Vec<String>,
    pub YatiBranch: String,
    pub MSTRSearch: String,
    pub TestType: String,
    pub MemoryMode: String,
    pub BuildType: String,
    pub TouchedComponents: Vec<String>,
    pub XYatiInfrastructure: String,
    pub Platform: Option<String>,
    pub Flag: Option<Vec<String>>,
    pub comment: Option<String>,
}

impl OCRBody {
    /// Every setting but `comment` is the field of `s` with its keys.
    pub open spec fn settings_from(&self, s: Seq<char>) -> bool {
        &&& self.BuildNo@ == text_value(s, build_no_keys())
        &&& self.ServerBranch@ == text_value(s, server_branch_keys())
        &&& self.ProductStringBranch@ == text_value(s, product_string_branch_keys())
        &&& self.BinSourceBranch@ == text_value(s, bin_source_branch_keys())
        &&& self.ABAList.deep_view() == list_value(s, aba_list_keys())
        &&& self.ProjectIDs.deep_view() == list_value(s, project_ids_keys())
        &&& self.YatiBranch@ == text_value(s, yati_branch_keys())
        &&& self.MSTRSearch@ == text_value(s, mstr_search_keys())
        &&& self.TestType@ == text_value(s, test_type_keys())
        &&& self.MemoryMode@ == text_value(s, memory_mode_keys())
        &&& self.BuildType@ == text_value(s, build_type_keys())
        &&& self.TouchedComponents.deep_view() == list_value(s, touched_components_keys())
        &&& self.XYatiInfrastructure@ == text_value(s, xyati_infrastructure_keys())
        &&& opt_view(self.Platform) == field_value(s, platform_keys())
        &&& opt_list_view(self.Flag) == opt_list_value(s, flag_keys())
    }

    /// Reads every setting from the `Key: value` fields of `s`.
    pub fn from_str(s: &str) -> (r: OCRBody)
        ensures
            r.settings_from(s@),
            opt_view(r.comment) == field_value(s@, comment_keys()),
    {
        let v = chars_of(s);
        let platform = get_opt_text(&v, &one_key("Platform"));
        let comment = get_opt_text(&v, &one_key("comment"));
        OCRBody {
            BuildNo: get_text(&v, &one_key("BN")),
            ServerBranch: get_text(&v, &one_key("SB")),
            ProductStringBranch: get_text(&v, &one_key("PS")),
            BinSourceBranch: get_text(&v, &one_key("BS")),
            ABAList: get_list(&v, &two_keys("XT ABAs", "XT I'm running ABAs")),
            ProjectIDs: get_list(&v, &one_key("ProjectIDs")),
            YatiBranch: get_text(&v, &one_key("YB")),
            MSTRSearch: get_text(&v, &one_key("MS")),
            TestType: get_text(&v, &one_key("TestType")),
            MemoryMode: get_text(&v, &one_key("MemoryMode")),
            BuildType: get_text(&v, &one_key("BuildType")),
            TouchedComponents: get_list(&v, &two_keys("TC", "TouchedComponents")),
            XYatiInfrastructure: get_text(&v, &one_key("XY")),
            Platform: platform,
            Flag: get_opt_list(&v, &one_key("Flag")),
            comment,
        }
    }
}

// ---------------------------------------------------------------------------
// Tasks.
// ---------------------------------------------------------------------------

/// A task for the validation backend.
#[allow(non_snake_case)]
pub struct Task {
    pub APIToken: Option<String>,
    pub PR: u64,
    pub RepoName: String,
    pub Member: String,
    pub body: OCRBody,
}

/// Why a comment does not make a task.
pub enum TaskError {
    /// The comment has no build number; the message says so and points to
    /// the documentation.
    BuildNumberRequired(String),
}

impl TaskError {
    /// The message that explains the error.
    pub fn message(&self) -> (r: &str)
        ensures
            match self {
                TaskError::BuildNumberRequired(m) => r@ == m@,
            },
    {
        match self {
            TaskError::BuildNumberRequired(m) => m.as_str(),
        }
    }
}

impl Task {
    /// The build number the task is for.
    pub fn get_build_number(&self) -> (r: &str)
        ensures
            r@ == self.body.BuildNo@,
    {
        self.body.BuildNo.as_str()
    }
}

/// `t` is the task that the comment `s` on pull request `pr` of `repo`
/// requests for `member` under `config`.
pub open spec fn requested_task(
    t: Task,
    s: Seq<char>,
    repo: Seq<char>,
    pr: u64,
    member: Seq<char>,
    config: ConfigEnv,
) -> bool {
    &&& t.PR == pr
    &&& t.RepoName@ == repo
    &&& t.Member@ == member
    &&& t.APIToken == config.backend_api_token
    &&& t.body.settings_from(s)
    &&& opt_view(t.body.comment) == Some(s)
}

/// Builds the task that the comment `s` on pull request `pr_number` of `repo`
/// requests for `member`.  A comment without a build number is refused;
/// otherwise the task carries the configured backend token, and the whole
/// comment in `comment`.
pub fn get_task_from_str(s: &str, repo: String, pr_number: u64, member: String, config: &ConfigEnv)
    -> (r: Result<Task, TaskError>)
    ensures
        r is Err <==> text_value(s@, build_no_keys()).len() == 0,
        r matches Err(TaskError::BuildNumberRequired(m)) ==> m@ == build_number_required_message(
            config.xt_doc_url@,
        ),
        r matches Ok(t) ==> requested_task(t, s@, repo@, pr_number, member@, *config),
{
    let mut body = OCRBody::from_str(s);
    if body.BuildNo.as_str().is_empty() {
        proof {
            assert(body.BuildNo@.len() == 0);
        }
        let mut m = "\r\n Build number is **required**.\r\n Please read the ".to_string();
        m.append(xt_doc_url(config));
        return Err(TaskError::BuildNumberRequired(m));
    }
    body.comment = Some(s.to_string());
    Ok(Task { APIToken: get_backend_api_token(config), PR: pr_number, Member: member, body, RepoName: repo })
}

/// How the consumer dispatches a task: always to the task topic, under the
/// pull-request number; also to the backend API when that is enabled.
pub struct TaskDispatch {
    pub kafka_key: u64,
    pub to_backend: bool,
}

/// How the consumer dispatches `task` under `config`.
pub fn handle_task(task: &Task, config: &ConfigEnv) -> (r: TaskDispatch)
    ensures
        r.kafka_key == task.PR,
        r.to_backend == backend_api_enabled(config),
{
    TaskDispatch { kafka_key: task.PR, to_backend: is_backend_api_enable(config) }
}

/// The `code` field of the backend's JSON reply.
pub enum CodeField {
    Missing,
    NotU64,
    Code(u64),
}

/// The backend's verdict on a task it was sent.
#[derive(PartialEq, Eq, Structural)]
pub enum BackendReply {
    /// The HTTP status was not 200.
    BadStatus,
    /// The reply has no `code`.
    NoCode,
    /// The reply's `code` is not an unsigned integer.
    CodeNotU64,
    /// The task was accepted (`code` below 400).
    Accepted,
    /// The task was refused (`code` 400 or more).
    Refused,
}

/// The backend's verdict, from the HTTP status of its reply and the `code`
/// field of its JSON body (which is only read when the status is 200).
pub fn post_sending_task(status: u16, code: CodeField) -> (r: BackendReply)
    ensures
        status != 200 ==> r == BackendReply::BadStatus,
        status == 200 ==> r == match code {
            CodeField::Missing => BackendReply::NoCode,
            CodeField::NotU64 => BackendReply::CodeNotU64,
            CodeField::Code(c) => if c < 400 {
                BackendReply::Accepted
            } else {
                BackendReply::Refused
            },
        },
{
    if status != 200 {
        return BackendReply::BadStatus;
    }
    match code {
        CodeField::Missing => BackendReply::NoCode,
        CodeField::NotU64 => BackendReply::CodeNotU64,
        CodeField::Code(c) => if c < 400 {
            BackendReply::Accepted
        } else {
            BackendReply::Refused
        },
    }
}

} // verus!
