use vstd::prelude::*;
use vstd::string::StringExecFns;
use crate::error::RpcClass;
use crate::error::TransferError;
use crate::identifier::is_canonical_identifier;
use crate::stream::all_delivered;
use crate::stream::delivered;
use crate::stream::joined;
use crate::stream::tells_first_failure;
use crate::stream::Delivery;
use crate::stream::StreamFailure;
use crate::stream::Fragmenter;
use crate::stream::Reassembler;
use crate::stream::CHUNK_SIZE;
use crate::transfer::download_admitted;
use crate::transfer::start_delete;
use crate::transfer::start_download;
use crate::transfer::start_update;
use crate::transfer::start_upload;
use crate::transfer::update_admitted;
use crate::transfer::upload_admitted;
use crate::transfer::DownloadJob;
use crate::transfer::StoreRequest;
use crate::transfer::UploadJob;

verus! {

/// The status that ends a call on the streamed channel without success.
pub struct RpcStatus {
    pub class: RpcClass,
    pub message: String,
}

impl RpcStatus {
    /// Whether this status has the class and the message given.
    pub open spec fn has(&self, class: RpcClass, message: Seq<char>) -> bool {
        self.class == class && self.message@ == message
    }

    /// Whether this status is the one that reports `reason`.
    pub open spec fn reports(&self, reason: TransferError) -> bool {
        self.has(reason.rpc_class_of(), reason.message_of())
    }

    /// A status of the class and with the message given.
    pub fn new(class: RpcClass, message: &str) -> (status: RpcStatus)
        ensures
            status.has(class, message@),
    {
        RpcStatus { class, message: String::from_str(message) }
    }

    /// Whether this status reports that the inbound stream of `deliveries`
    /// broke: it has the class of `StreamAborted` and carries the words of
    /// the first failure.
    pub open spec fn reports_abort(&self, deliveries: Seq<Delivery>) -> bool {
        self.class == TransferError::StreamAborted.rpc_class_of() && exists|position: int|
            crate::stream::is_first_failure(deliveries, position) && self.message@
                == (#[trigger] deliveries[position])->Failure_0@
    }

    /// The status that reports a broken inbound stream, in the words of the
    /// failure.
    pub fn aborted(failure: StreamFailure) -> (status: RpcStatus)
        ensures
            status.has(TransferError::StreamAborted.rpc_class_of(), failure.message@),
    {
        RpcStatus { class: failure.reason().rpc_class(), message: failure.message }
    }

    /// The status that reports `reason`.
    pub fn failure(reason: TransferError) -> (status: RpcStatus)
        ensures
            status.reports(reason),
    {
        RpcStatus { class: reason.rpc_class(), message: String::from_str(reason.message()) }
    }
}

/// What the presence check makes of the credential that came with a call.
pub open spec fn auth_refusal(authorization: Option<Seq<char>>) -> Option<Seq<char>> {
    match authorization {
        None => Some("No authorization metadata found"@),
        Some(token) => if token.len() == 0 {
            Some("No valid auth token"@)
        } else {
            None
        },
    }
}

/// The view of an optional credential.
pub open spec fn token_of(authorization: Option<&str>) -> Option<Seq<char>> {
    match authorization {
        None => None,
        Some(token) => Some(token@),
    }
}

/// Checks that a call carries a credential: it must be there and not empty.
/// What it holds is not looked at.
pub fn check_auth(authorization: Option<&str>) -> (verdict: Result<(), RpcStatus>)
    ensures
        match auth_refusal(token_of(authorization)) {
            None => verdict is Ok,
            Some(message) => verdict is Err && verdict->Err_0.has(
                RpcClass::Unauthenticated,
                message,
            ),
        },
{
    match authorization {
        None => Err(RpcStatus::new(RpcClass::Unauthenticated, "No authorization metadata found")),
        Some(token) => {
            if token.is_empty() {
                Err(RpcStatus::new(RpcClass::Unauthenticated, "No valid auth token"))
            } else {
                Ok(())
            }
        },
    }
}

/// The streamed face of the gateway: each method takes what a call brought
/// and begins the transfer, or refuses the call.
#[derive(Debug, Default)]
pub struct FileSvc {}

impl FileSvc {
    /// Begins a streamed upload on what has arrived of the inbound stream: the
    /// chunks joined in arrival order. A failed delivery aborts the call in
    /// the words of the first failure, before anything else is looked at.
    pub fn upload_file(&self, stream: Reassembler, hex_key: &str) -> (job: Result<
        UploadJob,
        RpcStatus,
    >)
        requires
            stream.wf(),
        ensures
            !all_delivered(stream.seen()) ==> job is Err && job->Err_0.reports_abort(
                stream.seen(),
            ),
            all_delivered(stream.seen()) ==> match upload_admitted(
                hex_key@,
                joined(delivered(stream.seen())).len(),
            ) {
                Err(reason) => job is Err && job->Err_0.reports(reason),
                Ok(key) => job is Ok && job->Ok_0.key() == key && job->Ok_0.plaintext() == joined(
                    delivered(stream.seen()),
                ) && job->Ok_0.collisions() == 0 && is_canonical_identifier(
                    job->Ok_0.candidate(),
                ),
            },
    {
        let ghost deliveries = stream.seen();
        match stream.finish() {
            Err(failure) => {
                assert(tells_first_failure(deliveries, failure));
                Err(RpcStatus::aborted(failure))
            },
            Ok(plaintext) => match start_upload(plaintext, hex_key) {
                Err(reason) => Err(RpcStatus::failure(reason)),
                Ok(job) => Ok(job),
            },
        }
    }

    /// Begins a streamed replacement of the object `uuid` on what has arrived
    /// of the inbound stream.
    pub fn update_file(&self, uuid: &str, stream: Reassembler, hex_key: &str) -> (request: Result<
        StoreRequest,
        RpcStatus,
    >)
        requires
            stream.wf(),
        ensures
            !all_delivered(stream.seen()) ==> request is Err && request->Err_0.reports_abort(
                stream.seen(),
            ),
            all_delivered(stream.seen()) ==> match update_admitted(
                uuid@,
                hex_key@,
                joined(delivered(stream.seen())).len(),
            ) {
                Err(reason) => request is Err && request->Err_0.reports(reason),
                Ok(key) => request is Ok && request->Ok_0.id() == uuid@ && request->Ok_0.seals(
                    key,
                    joined(delivered(stream.seen())),
                ),
            },
    {
        let ghost deliveries = stream.seen();
        match stream.finish() {
            Err(failure) => {
                assert(tells_first_failure(deliveries, failure));
                Err(RpcStatus::aborted(failure))
            },
            Ok(plaintext) => match start_update(uuid, plaintext, hex_key) {
                Err(reason) => Err(RpcStatus::failure(reason)),
                Ok(request) => Ok(request),
            },
        }
    }

    /// Begins a streamed download of the object `path`.
    pub fn get_file(&self, path: &str, hex_key: &str) -> (job: Result<DownloadJob, RpcStatus>)
        ensures
            match download_admitted(path@, hex_key@) {
                Err(reason) => job is Err && job->Err_0.reports(reason),
                Ok(key) => job is Ok && job->Ok_0.id() == path@ && job->Ok_0.key() == key,
            },
    {
        match start_download(path, hex_key) {
            Err(reason) => Err(RpcStatus::failure(reason)),
            Ok(job) => Ok(job),
        }
    }

    /// Ends a streamed download: the plaintext ready to be handed out in
    /// chunks of `CHUNK_SIZE` bytes, or the status that reports the failure.
    pub fn stream_file(&self, outcome: Result<Vec<u8>, TransferError>) -> (stream: Result<
        Fragmenter,
        RpcStatus,
    >)
        ensures
            match outcome {
                Err(reason) => stream is Err && stream->Err_0.reports(reason),
                Ok(plaintext) => stream is Ok && stream->Ok_0.wf() && stream->Ok_0.buffer()
                    == plaintext@ && stream->Ok_0.offset() == 0 && stream->Ok_0.size()
                    == CHUNK_SIZE,
            },
    {
        match outcome {
            Err(reason) => Err(RpcStatus::failure(reason)),
            Ok(plaintext) => Ok(Fragmenter::new(plaintext, CHUNK_SIZE)),
        }
    }

    /// Begins the removal of the object `uuid`.
    pub fn delete_file(&self, uuid: &str) -> (target: Result<String, RpcStatus>)
        ensures
            uuid@.len() == 0 ==> target is Err && target->Err_0.reports(
                TransferError::InvalidInput,
            ),
            uuid@.len() > 0 ==> target is Ok && target->Ok_0@ == uuid@,
    {
        match start_delete(uuid) {
            Err(reason) => Err(RpcStatus::failure(reason)),
            Ok(id) => Ok(id),
        }
    }
}

} // verus!
