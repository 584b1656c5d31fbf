use vstd::prelude::*;
use vstd::string::StringExecFns;
use crate::error::TransferError;

verus! {

/// Where the object store is and how to sign in. It is made once at startup
/// and handed to whatever talks to the store.
pub struct BackendConfig {
    pub protocol: String,
    pub user: String,
    pub password: String,
    pub host: String,
    pub port: u16,
    pub bucket: String,
}

/// The text that reports a setting missing from the environment.
pub fn var_not_defined(var: &str) -> (text: String)
    ensures
        text@ == var@ + " is not defined in the environment"@,
{
    let mut text = String::from_str(var);
    text.append(" is not defined in the environment");
    text
}

/// What came back from one request to the object store: a status with the
/// body that came with it, or no answer at all.
pub enum BackendReply {
    Status { code: u16, body: Vec<u8> },
    TransportFailure,
}

/// The status that the object store gives for a missing object.
pub const STATUS_NOT_FOUND: u16 = 404;

/// Success is any status from 200 to 299.
pub open spec fn is_success(code: u16) -> bool {
    200 <= code && code < 300
}

/// One decimal digit as text.
pub open spec fn digit_text(digit: nat) -> Seq<char> {
    if digit == 0 {
        "0"@
    } else if digit == 1 {
        "1"@
    } else if digit == 2 {
        "2"@
    } else if digit == 3 {
        "3"@
    } else if digit == 4 {
        "4"@
    } else if digit == 5 {
        "5"@
    } else if digit == 6 {
        "6"@
    } else if digit == 7 {
        "7"@
    } else if digit == 8 {
        "8"@
    } else {
        "9"@
    }
}

/// A number in decimal, without leading zeros.
pub open spec fn decimal(n: nat) -> Seq<char>
    decreases n,
{
    if n < 10 {
        digit_text(n)
    } else {
        decimal(n / 10) + digit_text(n % 10)
    }
}

/// The address of the object `id`:
/// `<protocol>://<user>:<password>@<host>:<port>/api/worker/object/<id>?bucket=<bucket>`.
pub open spec fn object_url_of(config: BackendConfig, id: Seq<char>) -> Seq<char> {
    config.protocol@ + "://"@ + config.user@ + ":"@ + config.password@ + "@"@ + config.host@ + ":"@
        + decimal(config.port as nat) + "/api/worker/object/"@ + id + "?bucket="@
        + config.bucket@
}

fn digit_str(digit: u16) -> (text: &'static str)
    requires
        digit < 10,
    ensures
        text@ == digit_text(digit as nat),
{
    if digit == 0 {
        "0"
    } else if digit == 1 {
        "1"
    } else if digit == 2 {
        "2"
    } else if digit == 3 {
        "3"
    } else if digit == 4 {
        "4"
    } else if digit == 5 {
        "5"
    } else if digit == 6 {
        "6"
    } else if digit == 7 {
        "7"
    } else if digit == 8 {
        "8"
    } else {
        "9"
    }
}

/// Appends `n` in decimal to `text`.
fn append_decimal(text: &mut String, n: u16)
    ensures
        final(text)@ == old(text)@ + decimal(n as nat),
    decreases n,
{
    if n >= 10 {
        append_decimal(text, n / 10);
    }
    text.append(digit_str(n % 10));
    proof {
        if n >= 10 {
            assert(old(text)@ + decimal((n / 10) as nat) + digit_text((n % 10) as nat) =~= old(
                text,
            )@ + (decimal((n / 10) as nat) + digit_text((n % 10) as nat)));
        }
    }
}

/// The address under which the object store keeps the object `id`.
pub fn object_url(config: &BackendConfig, id: &str) -> (url: String)
    ensures
        url@ == object_url_of(*config, id@),
{
    let mut url = String::new();
    url.append(config.protocol.as_str());
    url.append("://");
    url.append(config.user.as_str());
    url.append(":");
    url.append(config.password.as_str());
    url.append("@");
    url.append(config.host.as_str());
    url.append(":");
    append_decimal(&mut url, config.port);
    url.append("/api/worker/object/");
    url.append(id);
    url.append("?bucket=");
    url.append(config.bucket.as_str());
    assert(url@ =~= object_url_of(*config, id@));
    url
}

/// The four things the gateway asks of the object store.
#[derive(Clone, Copy, Debug, PartialEq, Eq, Structural)]
pub enum Method {
    Head,
    Get,
    Put,
    Delete,
}

/// One request to the object store.
pub struct BackendRequest {
    pub method: Method,
    pub url: String,
    pub body: Vec<u8>,
}

impl BackendRequest {
    /// Whether this is the request with the method and the body given for
    /// the object `id`.
    pub open spec fn asks(
        &self,
        method: Method,
        config: BackendConfig,
        id: Seq<char>,
        body: Seq<u8>,
    ) -> bool {
        self.method == method && self.url@ == object_url_of(config, id) && self.body@ == body
    }
}

/// The metadata probe for the object `id`.
pub fn exists_request(config: &BackendConfig, id: &str) -> (request: BackendRequest)
    ensures
        request.asks(Method::Head, *config, id@, Seq::empty()),
{
    BackendRequest { method: Method::Head, url: object_url(config, id), body: Vec::new() }
}

/// The fetch of the object `id`.
pub fn fetch_request(config: &BackendConfig, id: &str) -> (request: BackendRequest)
    ensures
        request.asks(Method::Get, *config, id@, Seq::empty()),
{
    BackendRequest { method: Method::Get, url: object_url(config, id), body: Vec::new() }
}

/// The write of `envelope` as the object `id`, over whatever is there.
pub fn store_request(config: &BackendConfig, id: &str, envelope: Vec<u8>) -> (request:
    BackendRequest)
    ensures
        request.asks(Method::Put, *config, id@, envelope@),
{
    BackendRequest { method: Method::Put, url: object_url(config, id), body: envelope }
}

/// The removal of the object `id`.
pub fn remove_request(config: &BackendConfig, id: &str) -> (request: BackendRequest)
    ensures
        request.asks(Method::Delete, *config, id@, Seq::empty()),
{
    BackendRequest { method: Method::Delete, url: object_url(config, id), body: Vec::new() }
}

/// What a probe says: whether an object exists, or that the store could not
/// be asked.
pub open spec fn exists_of(reply: BackendReply) -> Result<bool, TransferError> {
    match reply {
        BackendReply::Status { code, .. } => Ok(is_success(code)),
        BackendReply::TransportFailure => Err(TransferError::BackendUnavailable),
    }
}

/// What a fetch brings: the body on success, `NotFound` for a missing
/// object, `BackendUnavailable` for anything else.
pub open spec fn fetched_of(reply: BackendReply) -> Result<Seq<u8>, TransferError> {
    match reply {
        BackendReply::Status { code, body } => if is_success(code) {
            Ok(body@)
        } else if code == STATUS_NOT_FOUND {
            Err(TransferError::NotFound)
        } else {
            Err(TransferError::BackendUnavailable)
        },
        BackendReply::TransportFailure => Err(TransferError::BackendUnavailable),
    }
}

/// Whether a write was taken: any failure to store is `BackendUnavailable`.
pub open spec fn stored_of(reply: BackendReply) -> Result<(), TransferError> {
    match reply {
        BackendReply::Status { code, .. } => if is_success(code) {
            Ok(())
        } else {
            Err(TransferError::BackendUnavailable)
        },
        BackendReply::TransportFailure => Err(TransferError::BackendUnavailable),
    }
}

/// Whether an object was removed. A missing object is reported as
/// `NotFound`, not passed over.
pub open spec fn removed_of(reply: BackendReply) -> Result<(), TransferError> {
    match reply {
        BackendReply::Status { code, .. } => if is_success(code) {
            Ok(())
        } else if code == STATUS_NOT_FOUND {
            Err(TransferError::NotFound)
        } else {
            Err(TransferError::BackendUnavailable)
        },
        BackendReply::TransportFailure => Err(TransferError::BackendUnavailable),
    }
}

/// Reads the reply to a metadata probe (`HEAD`): `true` exactly on a success
/// status; a missing object is `false`, not an error. A probe that got no
/// answer is `BackendUnavailable`.
pub fn check_if_exists(reply: &BackendReply) -> (present: Result<bool, TransferError>)
    ensures
        present == exists_of(*reply),
{
    match reply {
        BackendReply::Status { code, .. } => Ok(200 <= *code && *code < 300),
        BackendReply::TransportFailure => Err(TransferError::BackendUnavailable),
    }
}

/// Reads the reply to a fetch (`GET`) and hands out the object's body.
pub fn download(reply: BackendReply) -> (object: Result<Vec<u8>, TransferError>)
    ensures
        match fetched_of(reply) {
            Ok(bytes) => object is Ok && object->Ok_0@ == bytes,
            Err(reason) => object == Err::<Vec<u8>, TransferError>(reason),
        },
{
    match reply {
        BackendReply::Status { code, body } => {
            if 200 <= code && code < 300 {
                Ok(body)
            } else if code == STATUS_NOT_FOUND {
                Err(TransferError::NotFound)
            } else {
                Err(TransferError::BackendUnavailable)
            }
        },
        BackendReply::TransportFailure => Err(TransferError::BackendUnavailable),
    }
}

/// Reads the reply to a write (`PUT`).
pub fn upload(reply: &BackendReply) -> (written: Result<(), TransferError>)
    ensures
        written == stored_of(*reply),
{
    match reply {
        BackendReply::Status { code, .. } => {
            if 200 <= *code && *code < 300 {
                Ok(())
            } else {
                Err(TransferError::BackendUnavailable)
            }
        },
        BackendReply::TransportFailure => Err(TransferError::BackendUnavailable),
    }
}

/// Reads the reply to a removal (`DELETE`).
pub fn delete(reply: &BackendReply) -> (removed: Result<(), TransferError>)
    ensures
        removed == removed_of(*reply),
{
    match reply {
        BackendReply::Status { code, .. } => {
            if 200 <= *code && *code < 300 {
                Ok(())
            } else if *code == STATUS_NOT_FOUND {
                Err(TransferError::NotFound)
            } else {
                Err(TransferError::BackendUnavailable)
            }
        },
        BackendReply::TransportFailure => Err(TransferError::BackendUnavailable),
    }
}

} // verus!
