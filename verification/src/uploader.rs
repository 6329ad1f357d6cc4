use vstd::prelude::*;

verus! {

/// How uploading a template binary can fail. I/O and HTTP failures from
/// the transport are carried as their rendered messages; `UploadFailed` is
/// the upload service's own refusal.
#[derive(Debug, PartialEq, Eq)]
pub enum UploaderError {
    Io { message: String },
    Http { message: String },
    UploadFailed { message: String },
}

/// Template binary uploader for a locally running swarm: holds the swarm's
/// web upload endpoint. The HTTP call itself is the embedder's; its parsed
/// response is judged by [`upload_outcome`].
pub struct LocalSwarmUploader {
    swarm_web_upload_endpoint: String,
}

impl View for LocalSwarmUploader {
    type V = Seq<char>;

    closed spec fn view(&self) -> Seq<char> {
        self.swarm_web_upload_endpoint@
    }
}

impl LocalSwarmUploader {
    pub fn new(swarm_web_upload_endpoint: String) -> (r: Self)
        ensures
            r@ == swarm_web_upload_endpoint@,
    {
        Self { swarm_web_upload_endpoint }
    }

    /// The endpoint uploads go to.
    pub fn endpoint(&self) -> (r: &String)
        ensures
            r@ == self@,
    {
        &self.swarm_web_upload_endpoint
    }
}

/// The upload's verdict from the service's response fields: a reported
/// failure surfaces the service's error text, success without a template
/// URL is refused rather than defaulted, and otherwise the URL comes back.
pub fn upload_outcome(success: bool, template_url: Option<String>, error: String) -> (r: Result<
    String,
    UploaderError,
>)
    ensures
        !success ==> r == Err::<String, UploaderError>(
            UploaderError::UploadFailed { message: error },
        ),
        success && template_url is None ==> (r matches Err(e)
            && e matches UploaderError::UploadFailed { message } && message@
            == "Missing template URL in response!"@),
        success ==> (template_url matches Some(url) ==> r == Ok::<String, UploaderError>(url)),
{
    if !success {
        return Err(UploaderError::UploadFailed { message: error });
    }
    match template_url {
        None => Err(
            UploaderError::UploadFailed {
                message: "Missing template URL in response!".to_owned(),
            },
        ),
        Some(url) => Ok(url),
    }
}

} // verus!
