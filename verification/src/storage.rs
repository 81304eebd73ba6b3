use vstd::prelude::*;
use crate::errors::AppError;
use crate::models::ResponseData;
use crate::models::ResponseDataView;
use crate::text::push_char;
use crate::text::str_last_segment;
use crate::text::str_trim_end_slashes;
use crate::text::str_trim_start_slashes;
use crate::text::last_segment;
use crate::text::trim_end_slashes;
use crate::text::trim_start_slashes;

verus! {

/// Remote object-storage settings. `bucket` names where uploads go;
/// either of the two optional public bases, when present, switches file
/// retrieval to redirect mode instead of proxying bytes.
#[derive(Clone, Debug)]
pub struct S3Config {
    pub bucket: String,
    pub bucket_url: Option<String>,
    pub cloudfront_domain: Option<String>,
}

/// Spec-level image of the remote storage settings.
#[verifier::ext_equal]
pub struct S3ConfigView {
    pub bucket: Seq<char>,
    pub bucket_url: Option<Seq<char>>,
    pub cloudfront_domain: Option<Seq<char>>,
}

impl View for S3Config {
    type V = S3ConfigView;

    open spec fn view(&self) -> S3ConfigView {
        S3ConfigView {
            bucket: self.bucket@,
            bucket_url: match self.bucket_url {
                Some(u) => Some(u@),
                None => None,
            },
            cloudfront_domain: match self.cloudfront_domain {
                Some(d) => Some(d@),
                None => None,
            },
        }
    }
}

/// The image of an optional remote backend.
pub open spec fn opt_cfg_view(cfg: Option<S3Config>) -> Option<S3ConfigView> {
    match cfg {
        Some(c) => Some(c@),
        None => None,
    }
}

/// The characters a storage token is made of: lowercase hex or `-`.
pub open spec fn is_token_char(c: char) -> bool {
    ('0' <= c && c <= '9') || ('a' <= c && c <= 'f') || c == '-'
}

/// Relies on uuid's `Uuid::new_v4` and its `Display` form: a fresh random
/// identifier printed as thirty-six characters of lowercase hexadecimal
/// in five hyphen-separated groups. The token is random: no two calls are
/// related, and only this shape is known of any outcome.
#[verifier::external_body]
pub fn fresh_token() -> (r: String)
    ensures
        r@.len() == 36,
        forall|i: int| 0 <= i < r@.len() ==> is_token_char(#[trigger] r@[i]),
{
    uuid::Uuid::new_v4().to_string()
}

/// The collision-resistant stored name: the token, `_`, then the
/// client's suggested filename kept as a readable suffix.
pub open spec fn storage_name(token: Seq<char>, filename: Seq<char>) -> Seq<char> {
    token + seq!['_'] + filename
}

pub fn make_storage_name(token: &str, filename: &str) -> (r: String)
    ensures
        r@ == storage_name(token@, filename@),
{
    let mut r = token.to_owned();
    push_char(&mut r, '_');
    r.append(filename);
    assert(r@ =~= storage_name(token@, filename@));
    r
}

/// Where a locally stored upload lives.
pub open spec fn local_upload_path(name: Seq<char>) -> Seq<char> {
    "src/uploads/"@ + name
}

pub fn make_local_upload_path(name: &str) -> (r: String)
    ensures
        r@ == local_upload_path(name@),
{
    let mut r: String = String::from_str("src/uploads/");
    r.append(name);
    r
}

/// The single outside write the ingest path asks for next.
#[derive(Clone, Debug)]
pub enum IngestStep {
    UploadRemote { bucket: String, key: String },
    WriteLocal { path: String },
}

/// Spec-level image of an ingest step.
#[verifier::ext_equal]
pub enum IngestStepView {
    UploadRemote { bucket: Seq<char>, key: Seq<char> },
    WriteLocal { path: Seq<char> },
}

impl View for IngestStep {
    type V = IngestStepView;

    open spec fn view(&self) -> IngestStepView {
        match self {
            IngestStep::UploadRemote { bucket, key } => IngestStepView::UploadRemote {
                bucket: bucket@,
                key: key@,
            },
            IngestStep::WriteLocal { path } => IngestStepView::WriteLocal { path: path@ },
        }
    }
}

/// Where ingestion starts: with a remote backend configured the bytes go
/// there first; with none they go to local disk. Both sides use the same
/// token-prefixed naming scheme.
pub open spec fn spec_ingest_start(
    cfg: Option<S3ConfigView>,
    token: Seq<char>,
    filename: Seq<char>,
) -> IngestStepView {
    match cfg {
        Some(c) => IngestStepView::UploadRemote {
            bucket: c.bucket,
            key: storage_name(token, filename),
        },
        None => IngestStepView::WriteLocal {
            path: local_upload_path(storage_name(token, filename)),
        },
    }
}

pub fn ingest_start(cfg: &Option<S3Config>, token: &str, filename: &str) -> (step: IngestStep)
    ensures
        step@ == spec_ingest_start(opt_cfg_view(*cfg), token@, filename@),
{
    let name = make_storage_name(token, filename);
    match cfg {
        Some(c) => IngestStep::UploadRemote { bucket: c.bucket.clone(), key: name },
        None => IngestStep::WriteLocal { path: make_local_upload_path(name.as_str()) },
    }
}

/// What ingestion decides once the remote upload has an outcome.
#[derive(Clone, Debug)]
pub enum IngestNext {
    Stored(ResponseData),
    WriteLocal { path: String },
}

/// Spec-level image of that decision.
#[verifier::ext_equal]
pub enum IngestNextView {
    Stored(ResponseDataView),
    WriteLocal { path: Seq<char> },
}

impl View for IngestNext {
    type V = IngestNextView;

    open spec fn view(&self) -> IngestNextView {
        match self {
            IngestNext::Stored(d) => IngestNextView::Stored(d@),
            IngestNext::WriteLocal { path } => IngestNextView::WriteLocal { path: path@ },
        }
    }
}

/// A successful remote upload fixes the remote locator. Any upload
/// failure falls back to a local write under a fresh token and never
/// surfaces to the caller.
pub fn ingest_after_remote(
    ok: bool,
    bucket: String,
    key: String,
    fallback_token: &str,
    filename: &str,
) -> (r: IngestNext)
    ensures
        ok ==> r@ == IngestNextView::Stored(ResponseDataView::FileRemote(bucket@, key@)),
        !ok ==> r@ == (IngestNextView::WriteLocal {
            path: local_upload_path(storage_name(fallback_token@, filename@)),
        }),
{
    if ok {
        IngestNext::Stored(ResponseData::FileRemote(bucket, key))
    } else {
        let name = make_storage_name(fallback_token, filename);
        IngestNext::WriteLocal { path: make_local_upload_path(name.as_str()) }
    }
}

/// A successful local write fixes the local locator; a failed one is the
/// single error the write path surfaces.
pub fn ingest_after_local(ok: bool, path: String) -> (r: Result<ResponseData, AppError>)
    ensures
        match r {
            Ok(d) => ok && d@ == ResponseDataView::FileLocal(path@),
            Err(e) => !ok && e == AppError::Internal,
        },
{
    if ok {
        Ok(ResponseData::FileLocal(path))
    } else {
        Err(AppError::Internal)
    }
}

/// The read-path decision for a file payload.
#[derive(Clone, Debug)]
pub enum RetrievalPlan {
    Redirect { url: String },
    FetchRemote { bucket: String, key: String },
    ReadLocal { path: String },
    Unavailable,
}

/// Spec-level image of a read plan.
#[verifier::ext_equal]
pub enum RetrievalPlanView {
    Redirect { url: Seq<char> },
    FetchRemote { bucket: Seq<char>, key: Seq<char> },
    ReadLocal { path: Seq<char> },
    Unavailable,
}

impl View for RetrievalPlan {
    type V = RetrievalPlanView;

    open spec fn view(&self) -> RetrievalPlanView {
        match self {
            RetrievalPlan::Redirect { url } => RetrievalPlanView::Redirect { url: url@ },
            RetrievalPlan::FetchRemote { bucket, key } => RetrievalPlanView::FetchRemote {
                bucket: bucket@,
                key: key@,
            },
            RetrievalPlan::ReadLocal { path } => RetrievalPlanView::ReadLocal { path: path@ },
            RetrievalPlan::Unavailable => RetrievalPlanView::Unavailable,
        }
    }
}

/// The redirect target: base and key joined by one slash, the base
/// trimmed of trailing and the key of leading slashes.
pub open spec fn joined_url(base: Seq<char>, key: Seq<char>) -> Seq<char> {
    trim_end_slashes(base) + seq!['/'] + trim_start_slashes(key)
}

pub fn join_url(base: &str, key: &str) -> (r: String)
    ensures
        r@ == joined_url(base@, key@),
{
    let mut r = str_trim_end_slashes(base);
    push_char(&mut r, '/');
    let tail = str_trim_start_slashes(key);
    r.append(tail.as_str());
    assert(r@ =~= joined_url(base@, key@));
    r
}

/// How a file payload is retrieved. A remote locator redirects when a
/// CDN domain is configured (scheme added), else when a public bucket
/// base URL is (taken as already carrying its scheme), else the object
/// is fetched through the backend; without a remote backend configured a
/// remote locator cannot be served at all. A local locator, or a text
/// payload standing for a path, is read from disk; any other payload
/// reads as an empty path and so comes back missing.
pub open spec fn spec_plan_retrieval(
    data: ResponseDataView,
    cfg: Option<S3ConfigView>,
) -> RetrievalPlanView {
    match data {
        ResponseDataView::FileRemote(b, k) => match cfg {
            Some(c) => match c.cloudfront_domain {
                Some(d) => RetrievalPlanView::Redirect { url: "https://"@ + joined_url(d, k) },
                None => match c.bucket_url {
                    Some(u) => RetrievalPlanView::Redirect { url: joined_url(u, k) },
                    None => RetrievalPlanView::FetchRemote { bucket: b, key: k },
                },
            },
            None => RetrievalPlanView::Unavailable,
        },
        ResponseDataView::FileLocal(p) => RetrievalPlanView::ReadLocal { path: p },
        ResponseDataView::Text(s) => RetrievalPlanView::ReadLocal { path: s },
        ResponseDataView::Json(_) => RetrievalPlanView::ReadLocal { path: Seq::<char>::empty() },
    }
}

pub fn plan_retrieval(data: &ResponseData, cfg: &Option<S3Config>) -> (plan: RetrievalPlan)
    ensures
        plan@ == spec_plan_retrieval(data@, opt_cfg_view(*cfg)),
{
    match data {
        ResponseData::FileRemote(b, k) => match cfg {
            Some(c) => {
                if let Some(d) = &c.cloudfront_domain {
                    let mut url: String = String::from_str("https://");
                    let joined = join_url(d.as_str(), k.as_str());
                    url.append(joined.as_str());
                    RetrievalPlan::Redirect { url }
                } else if let Some(u) = &c.bucket_url {
                    RetrievalPlan::Redirect { url: join_url(u.as_str(), k.as_str()) }
                } else {
                    RetrievalPlan::FetchRemote { bucket: b.clone(), key: k.clone() }
                }
            },
            None => RetrievalPlan::Unavailable,
        },
        ResponseData::FileLocal(p) => RetrievalPlan::ReadLocal { path: p.clone() },
        ResponseData::Text(s) => RetrievalPlan::ReadLocal { path: s.clone() },
        ResponseData::Json(_) => RetrievalPlan::ReadLocal { path: String::new() },
    }
}

/// Why a planned read failed, as the performer classified it: the object
/// or file was absent, or anything else went wrong.
#[derive(Clone, Copy, Debug, PartialEq, Eq, Structural)]
pub enum ReadError {
    Missing,
    Other,
}

/// What retrieval hands the dispatcher.
#[derive(Debug)]
pub enum RetrievalOutcome {
    Stream { bytes: Vec<u8>, download_name: String },
    Missing,
    ReadFailure,
}

/// Spec-level image of a retrieval outcome.
#[verifier::ext_equal]
pub enum RetrievalOutcomeView {
    Stream { bytes: Seq<u8>, download_name: Seq<char> },
    Missing,
    ReadFailure,
}

impl View for RetrievalOutcome {
    type V = RetrievalOutcomeView;

    open spec fn view(&self) -> RetrievalOutcomeView {
        match self {
            RetrievalOutcome::Stream { bytes, download_name } => RetrievalOutcomeView::Stream {
                bytes: bytes@,
                download_name: download_name@,
            },
            RetrievalOutcome::Missing => RetrievalOutcomeView::Missing,
            RetrievalOutcome::ReadFailure => RetrievalOutcomeView::ReadFailure,
        }
    }
}

/// The name a streamed download is served under: the final path segment
/// of the locator the bytes came from, or `download` when that segment
/// is empty.
pub open spec fn download_name_of(source: Seq<char>) -> Seq<char> {
    if last_segment(source).len() == 0 {
        "download"@
    } else {
        last_segment(source)
    }
}

pub fn settle_retrieval(res: Result<Vec<u8>, ReadError>, source: &str) -> (r: RetrievalOutcome)
    ensures
        match res {
            Ok(bytes) => r@ == RetrievalOutcomeView::Stream {
                bytes: bytes@,
                download_name: download_name_of(source@),
            },
            Err(e) => r@ == if e == ReadError::Missing {
                RetrievalOutcomeView::Missing
            } else {
                RetrievalOutcomeView::ReadFailure
            },
        },
{
    match res {
        Ok(bytes) => {
            let seg = str_last_segment(source);
            let download_name = if seg.as_str().unicode_len() == 0 {
                String::from_str("download")
            } else {
                seg
            };
            RetrievalOutcome::Stream { bytes, download_name }
        },
        Err(ReadError::Missing) => RetrievalOutcome::Missing,
        Err(ReadError::Other) => RetrievalOutcome::ReadFailure,
    }
}

} // verus!
