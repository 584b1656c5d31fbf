use vstd::prelude::*;
use vstd::string::StringExecFns;
use crate::cipher::MAX_PLAINTEXT_LEN;
use crate::error::HttpClass;
use crate::error::TransferError;
use crate::identifier::is_canonical_identifier;
use crate::key::parse_key;
use crate::key::SecretKey;
use crate::transfer::download_with_key;
use crate::transfer::start_delete;
use crate::transfer::upload_with_key;
use crate::transfer::DownloadJob;
use crate::transfer::UploadJob;

verus! {

/// What a buffered upload brings: the file's bytes, the name it was sent
/// under, and the key in hexadecimal.
pub struct UploadForm {
    pub file: Vec<u8>,
    pub file_name: String,
    pub secret_key: String,
}

/// The query of a download: the identifier and the key in hexadecimal. It
/// cannot be printed, so that the key does not find its way into a log.
pub struct FileQuery {
    pub id: String,
    pub secret_key: String,
}

/// The query of a removal: the identifier alone.
#[derive(Debug)]
pub struct FileQueryWithoutKey {
    pub id: String,
}

/// The body of an answer.
pub enum HttpBody {
    Empty,
    Text(String),
    /// Raw bytes, sent as `application/octet-stream` with the attachment
    /// name given as a hint.
    Attachment { file_name: String, bytes: Vec<u8> },
}

/// An answer on the buffered channel.
pub struct HttpReply {
    pub status: u16,
    pub body: HttpBody,
}

/// The status code of a class of failures.
pub open spec fn status_code_of(class: HttpClass) -> u16 {
    match class {
        HttpClass::BadRequest => 400,
        HttpClass::NotFound => 404,
        HttpClass::UnprocessableEntity => 422,
        HttpClass::InternalServerError => 500,
    }
}

impl HttpReply {
    /// Whether this answer has the status given and the text given as body.
    pub open spec fn is_text(&self, status: u16, text: Seq<char>) -> bool {
        self.status == status && self.body is Text && self.body->Text_0@ == text
    }

    /// Whether this answer is the one that reports `reason`.
    pub open spec fn reports(&self, reason: TransferError) -> bool {
        self.is_text(status_code_of(reason.http_class_of()), reason.message_of())
    }

    /// An answer with a status and a text.
    pub fn text(status: u16, text: &str) -> (reply: HttpReply)
        ensures
            reply.is_text(status, text@),
    {
        HttpReply { status, body: HttpBody::Text(String::from_str(text)) }
    }

    /// The answer that reports `reason`: the status of its class, and its
    /// fixed message.
    pub fn failure(reason: TransferError) -> (reply: HttpReply)
        ensures
            reply.reports(reason),
    {
        let status: u16 = match reason.http_class() {
            HttpClass::BadRequest => 400,
            HttpClass::NotFound => 404,
            HttpClass::UnprocessableEntity => 422,
            HttpClass::InternalServerError => 500,
        };
        HttpReply::text(status, reason.message())
    }
}

/// What the buffered channel makes of a key on the wire: the key's bytes, or
/// the status and the text of the refusal. An empty key is a bad request; a
/// key that does not decode, or decodes to another length, cannot be
/// processed.
pub open spec fn key_admitted(hex_key: Seq<char>) -> Result<Seq<u8>, (u16, Seq<char>)> {
    if hex_key.len() == 0 {
        Err((400u16, "Secret key is empty"@))
    } else {
        match parse_key(hex_key) {
            Err(reason) => Err((422u16, reason.message_of())),
            Ok(key) => Ok(key),
        }
    }
}

/// Reads the key of a request as the buffered channel does.
fn admit_key(hex_key: &str) -> (key: Result<SecretKey, HttpReply>)
    ensures
        match key_admitted(hex_key@) {
            Err(refusal) => key is Err && key->Err_0.is_text(refusal.0, refusal.1),
            Ok(bytes) => key is Ok && key->Ok_0@ == bytes,
        },
{
    if hex_key.is_empty() {
        return Err(HttpReply::text(400, "Secret key is empty"));
    }
    match SecretKey::from_hex(hex_key) {
        Err(reason) => Err(HttpReply::text(422, reason.message())),
        Ok(key) => Ok(key),
    }
}

/// Begins a buffered upload of the form's file under the form's key. The
/// key is looked at first; then a file too long to be sealed is refused as
/// `InvalidInput`.
pub fn upload(form: UploadForm) -> (job: Result<UploadJob, HttpReply>)
    ensures
        match key_admitted(form.secret_key@) {
            Err(refusal) => job is Err && job->Err_0.is_text(refusal.0, refusal.1),
            Ok(key) => if form.file@.len() > MAX_PLAINTEXT_LEN {
                job is Err && job->Err_0.reports(TransferError::InvalidInput)
            } else {
                job is Ok && job->Ok_0.key() == key && job->Ok_0.plaintext() == form.file@
                    && job->Ok_0.collisions() == 0 && is_canonical_identifier(
                    job->Ok_0.candidate(),
                )
            },
        },
{
    let UploadForm { file, secret_key, .. } = form;
    match admit_key(secret_key.as_str()) {
        Err(reply) => Err(reply),
        Ok(key) => match upload_with_key(file, key) {
            Err(reason) => Err(HttpReply::failure(reason)),
            Ok(job) => Ok(job),
        },
    }
}

/// Ends a buffered upload: the identifier as text with status 200, or the
/// answer that reports the failure.
pub fn upload_reply(outcome: Result<String, TransferError>) -> (reply: HttpReply)
    ensures
        match outcome {
            Ok(id) => reply.is_text(200, id@),
            Err(reason) => reply.reports(reason),
        },
{
    match outcome {
        Ok(id) => HttpReply { status: 200, body: HttpBody::Text(id) },
        Err(reason) => HttpReply::failure(reason),
    }
}

/// Begins a buffered download. An empty identifier is refused first, then
/// the key is looked at.
pub fn download_file(params: &FileQuery) -> (job: Result<DownloadJob, HttpReply>)
    ensures
        if params.id@.len() == 0 {
            job is Err && job->Err_0.is_text(400, "File id is empty"@)
        } else {
            match key_admitted(params.secret_key@) {
                Err(refusal) => job is Err && job->Err_0.is_text(refusal.0, refusal.1),
                Ok(key) => job is Ok && job->Ok_0.id() == params.id@ && job->Ok_0.key() == key,
            }
        },
{
    if params.id.as_str().is_empty() {
        return Err(HttpReply::text(400, "File id is empty"));
    }
    match admit_key(params.secret_key.as_str()) {
        Err(reply) => Err(reply),
        Ok(key) => match download_with_key(params.id.as_str(), key) {
            Err(reason) => Err(HttpReply::failure(reason)),
            Ok(job) => Ok(job),
        },
    }
}

/// Ends a buffered download: the plaintext as an attachment named after the
/// identifier with status 200, or the answer that reports the failure.
pub fn download_reply(id: &str, outcome: Result<Vec<u8>, TransferError>) -> (reply: HttpReply)
    ensures
        match outcome {
            Ok(plaintext) => reply.status == 200 && reply.body is Attachment
                && reply.body->Attachment_file_name@ == id@ && reply.body->Attachment_bytes@
                == plaintext@,
            Err(reason) => reply.reports(reason),
        },
{
    match outcome {
        Ok(plaintext) => HttpReply {
            status: 200,
            body: HttpBody::Attachment { file_name: id.to_owned(), bytes: plaintext },
        },
        Err(reason) => HttpReply::failure(reason),
    }
}

/// Begins a buffered removal: the identifier to remove, unless it is empty.
pub fn delete_file(params: &FileQueryWithoutKey) -> (target: Result<String, HttpReply>)
    ensures
        params.id@.len() == 0 ==> target is Err && target->Err_0.is_text(400, "File id is empty"@),
        params.id@.len() > 0 ==> target is Ok && target->Ok_0@ == params.id@,
{
    match start_delete(params.id.as_str()) {
        Err(_) => Err(HttpReply::text(400, "File id is empty")),
        Ok(id) => Ok(id),
    }
}

/// Ends a buffered removal: status 200 with no body, or the answer that
/// reports the failure.
pub fn delete_reply(outcome: Result<(), TransferError>) -> (reply: HttpReply)
    ensures
        match outcome {
            Ok(_) => reply.status == 200 && reply.body is Empty,
            Err(reason) => reply.reports(reason),
        },
{
    match outcome {
        Ok(_) => HttpReply { status: 200, body: HttpBody::Empty },
        Err(reason) => HttpReply::failure(reason),
    }
}

} // verus!
