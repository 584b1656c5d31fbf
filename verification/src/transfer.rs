use vstd::prelude::*;
use crate::backend::delete;
use crate::backend::download;
use crate::backend::exists_of;
use crate::backend::fetched_of;
use crate::backend::is_success;
use crate::backend::removed_of;
use crate::backend::stored_of;
use crate::backend::upload;
use crate::backend::BackendReply;
use crate::cipher::envelope_of;
use crate::cipher::open;
use crate::cipher::opened;
use crate::cipher::seal;
use crate::cipher::MAX_PLAINTEXT_LEN;
use crate::cipher::NONCE_LEN;
use crate::cipher::TAG_LEN;
use crate::error::TransferError;
use crate::identifier::generate_uuid;
use crate::identifier::is_canonical_identifier;
use crate::identifier::Allocation;
use crate::identifier::Allocator;
use crate::identifier::MAX_PROBES;
use crate::key::parse_key;
use crate::key::SecretKey;

verus! {

/// An upload that waits for the reply to a probe: the payload, the key it
/// will be sealed under, and the allocation of its identifier.
pub struct UploadJob {
    allocator: Allocator,
    key: SecretKey,
    plaintext: Vec<u8>,
}

/// A sealed object that is ready to be written to the object store.
pub struct StoreRequest {
    id: String,
    envelope: Vec<u8>,
}

/// What an upload asks of its caller next.
pub enum UploadStep {
    /// Probe the object store for the job's candidate and hand the reply to
    /// `on_probe`.
    Probe(UploadJob),
    /// Write the envelope under the identifier and hand the reply to
    /// `on_stored`.
    Store(StoreRequest),
    /// The upload failed before anything was written.
    Failed(TransferError),
}

/// What `start_upload` makes of a key on the wire and a payload's length:
/// the key's bytes, or the reason for which the upload is refused.
pub open spec fn upload_admitted(hex_key: Seq<char>, length: nat) -> Result<
    Seq<u8>,
    TransferError,
> {
    match parse_key(hex_key) {
        Err(reason) => Err(reason),
        Ok(key) => if length > MAX_PLAINTEXT_LEN {
            Err(TransferError::InvalidInput)
        } else {
            Ok(key)
        },
    }
}

/// Begins an upload under a key that has been parsed. A payload too long to
/// be sealed is `InvalidInput`; otherwise the job holds a first candidate
/// identifier to probe.
pub fn upload_with_key(plaintext: Vec<u8>, key: SecretKey) -> (job: Result<
    UploadJob,
    TransferError,
>)
    ensures
        plaintext@.len() > MAX_PLAINTEXT_LEN ==> job == Err::<UploadJob, TransferError>(
            TransferError::InvalidInput,
        ),
        plaintext@.len() <= MAX_PLAINTEXT_LEN ==> job is Ok && job->Ok_0.key() == key@
            && job->Ok_0.plaintext() == plaintext@ && job->Ok_0.collisions() == 0
            && is_canonical_identifier(job->Ok_0.candidate()),
{
    if plaintext.len() as u64 > MAX_PLAINTEXT_LEN {
        Err(TransferError::InvalidInput)
    } else {
        Ok(UploadJob { allocator: generate_uuid(), key, plaintext })
    }
}

/// Begins an upload. A key that does not parse and a payload too long to be
/// sealed are refused at once, before the object store is touched; otherwise
/// the job holds a first candidate identifier to probe.
pub fn start_upload(plaintext: Vec<u8>, hex_key: &str) -> (job: Result<UploadJob, TransferError>)
    ensures
        match upload_admitted(hex_key@, plaintext@.len()) {
            Err(reason) => job == Err::<UploadJob, TransferError>(reason),
            Ok(key) => job is Ok && job->Ok_0.key() == key && job->Ok_0.plaintext() == plaintext@
                && job->Ok_0.collisions() == 0 && is_canonical_identifier(job->Ok_0.candidate()),
        },
{
    match SecretKey::from_hex(hex_key) {
        Err(reason) => Err(reason),
        Ok(key) => upload_with_key(plaintext, key),
    }
}

/// What `start_update` makes of its arguments: the key's bytes, or the reason
/// for which the update is refused.
pub open spec fn update_admitted(id: Seq<char>, hex_key: Seq<char>, length: nat) -> Result<
    Seq<u8>,
    TransferError,
> {
    if id.len() == 0 {
        Err(TransferError::InvalidInput)
    } else {
        upload_admitted(hex_key, length)
    }
}

/// Begins the replacement of an object under an identifier that the caller
/// names. The identifier is not probed: whatever it holds is overwritten.
pub fn start_update(id: &str, plaintext: Vec<u8>, hex_key: &str) -> (request: Result<
    StoreRequest,
    TransferError,
>)
    ensures
        match update_admitted(id@, hex_key@, plaintext@.len()) {
            Err(reason) => request == Err::<StoreRequest, TransferError>(reason),
            Ok(key) => request is Ok && request->Ok_0.id() == id@ && request->Ok_0.seals(
                key,
                plaintext@,
            ),
        },
{
    if id.is_empty() {
        return Err(TransferError::InvalidInput);
    }
    match SecretKey::from_hex(hex_key) {
        Err(reason) => Err(reason),
        Ok(key) => {
            if plaintext.len() as u64 > MAX_PLAINTEXT_LEN {
                Err(TransferError::InvalidInput)
            } else {
                let envelope = seal(&plaintext, &key);
                Ok(StoreRequest { id: id.to_owned(), envelope })
            }
        },
    }
}

impl UploadJob {
    #[verifier::type_invariant]
    spec fn well_formed(&self) -> bool {
        self.plaintext@.len() <= MAX_PLAINTEXT_LEN
    }

    /// The bytes of the key.
    pub closed spec fn key(&self) -> Seq<u8> {
        self.key@
    }

    /// The payload.
    pub closed spec fn plaintext(&self) -> Seq<u8> {
        self.plaintext@
    }

    /// The candidate identifier to probe.
    pub closed spec fn candidate(&self) -> Seq<char> {
        self.allocator.candidate()
    }

    /// How many candidates were found in use.
    pub closed spec fn collisions(&self) -> nat {
        self.allocator.collisions()
    }

    /// The candidate identifier to probe.
    pub fn candidate_id(&self) -> (id: &String)
        ensures
            id@ == self.candidate(),
    {
        self.allocator.candidate_id()
    }

    /// How many candidates were found in use.
    pub fn collision_count(&self) -> (count: u32)
        ensures
            count == self.collisions(),
    {
        self.allocator.collision_count()
    }

    /// Takes the reply to the probe for the candidate. Only a candidate that
    /// the reply shows to be free becomes the identifier, and the payload is
    /// then sealed for it; a candidate in use is replaced by another to
    /// probe; a probe without an answer fails the upload.
    pub fn on_probe(self, reply: &BackendReply) -> (step: UploadStep)
        ensures
            match exists_of(*reply) {
                Err(reason) => step == UploadStep::Failed(reason),
                Ok(false) => step is Store && step->Store_0.id() == self.candidate()
                    && step->Store_0.seals(self.key(), self.plaintext()),
                Ok(true) => if self.collisions() + 1 == MAX_PROBES {
                    step == UploadStep::Failed(TransferError::AllocationExhausted)
                } else {
                    step is Probe && step->Probe_0.key() == self.key()
                        && step->Probe_0.plaintext() == self.plaintext()
                        && step->Probe_0.collisions() == self.collisions() + 1
                        && is_canonical_identifier(step->Probe_0.candidate())
                },
            },
    {
        proof {
            use_type_invariant(&self);
        }
        let UploadJob { allocator, key, plaintext } = self;
        match allocator.on_probe(reply) {
            Allocation::Failed(reason) => UploadStep::Failed(reason),
            Allocation::Allocated(id) => {
                let envelope = seal(&plaintext, &key);
                UploadStep::Store(StoreRequest { id, envelope })
            },
            Allocation::Probe(next) => UploadStep::Probe(
                UploadJob { allocator: next, key, plaintext },
            ),
        }
    }
}

impl StoreRequest {
    /// The identifier to write under.
    pub closed spec fn id(&self) -> Seq<char> {
        self.id@
    }

    /// The envelope to write.
    pub closed spec fn envelope(&self) -> Seq<u8> {
        self.envelope@
    }

    /// The envelope is a sealing of `plaintext` under `key`: a nonce, the
    /// ciphertext and the tag, which opens to `plaintext` under `key`.
    pub open spec fn seals(&self, key: Seq<u8>, plaintext: Seq<u8>) -> bool {
        self.envelope().len() == NONCE_LEN + plaintext.len() + TAG_LEN && self.envelope()
            == envelope_of(key, self.envelope().subrange(0, NONCE_LEN as int), plaintext)
            && opened(key, self.envelope()) == Ok::<Seq<u8>, TransferError>(plaintext)
    }

    /// The identifier to write under.
    pub fn identifier(&self) -> (id: &String)
        ensures
            id@ == self.id(),
    {
        &self.id
    }

    /// The envelope to write.
    pub fn body(&self) -> (envelope: &Vec<u8>)
        ensures
            envelope@ == self.envelope(),
    {
        &self.envelope
    }

    /// Takes the reply to the write. The identifier is handed out only if the
    /// object store took the envelope.
    pub fn on_stored(self, reply: &BackendReply) -> (id: Result<String, TransferError>)
        ensures
            match stored_of(*reply) {
                Ok(_) => id is Ok && id->Ok_0@ == self.id(),
                Err(reason) => id == Err::<String, TransferError>(reason),
            },
    {
        match upload(reply) {
            Ok(_) => Ok(self.id),
            Err(reason) => Err(reason),
        }
    }
}

/// A download that waits for the object: the identifier to fetch and the key
/// to open the envelope with.
pub struct DownloadJob {
    id: String,
    key: SecretKey,
}

/// What `start_download` makes of its arguments: the key's bytes, or the
/// reason for which the download is refused.
pub open spec fn download_admitted(id: Seq<char>, hex_key: Seq<char>) -> Result<
    Seq<u8>,
    TransferError,
> {
    if id.len() == 0 {
        Err(TransferError::InvalidInput)
    } else {
        parse_key(hex_key)
    }
}

/// What a download ends with, given the key and the reply to the fetch: a
/// failure of the fetch as it is, else what opening the body gives.
pub open spec fn download_outcome(key: Seq<u8>, reply: BackendReply) -> Result<
    Seq<u8>,
    TransferError,
> {
    match fetched_of(reply) {
        Err(reason) => Err(reason),
        Ok(envelope) => opened(key, envelope),
    }
}

/// Begins a download under a key that has been parsed. An empty identifier
/// is `InvalidInput`.
pub fn download_with_key(id: &str, key: SecretKey) -> (job: Result<DownloadJob, TransferError>)
    ensures
        id@.len() == 0 ==> job == Err::<DownloadJob, TransferError>(TransferError::InvalidInput),
        id@.len() > 0 ==> job is Ok && job->Ok_0.id() == id@ && job->Ok_0.key() == key@,
{
    if id.is_empty() {
        Err(TransferError::InvalidInput)
    } else {
        Ok(DownloadJob { id: id.to_owned(), key })
    }
}

/// Begins a download. An empty identifier and a key that does not parse are
/// refused at once, before the object store is touched.
pub fn start_download(id: &str, hex_key: &str) -> (job: Result<DownloadJob, TransferError>)
    ensures
        match download_admitted(id@, hex_key@) {
            Err(reason) => job == Err::<DownloadJob, TransferError>(reason),
            Ok(key) => job is Ok && job->Ok_0.id() == id@ && job->Ok_0.key() == key,
        },
{
    if id.is_empty() {
        return Err(TransferError::InvalidInput);
    }
    match SecretKey::from_hex(hex_key) {
        Err(reason) => Err(reason),
        Ok(key) => download_with_key(id, key),
    }
}

impl DownloadJob {
    /// The identifier to fetch.
    pub closed spec fn id(&self) -> Seq<char> {
        self.id@
    }

    /// The bytes of the key.
    pub closed spec fn key(&self) -> Seq<u8> {
        self.key@
    }

    /// The identifier to fetch.
    pub fn identifier(&self) -> (id: &String)
        ensures
            id@ == self.id(),
    {
        &self.id
    }

    /// Takes the reply to the fetch and opens the envelope it brought.
    pub fn on_fetched(self, reply: BackendReply) -> (plaintext: Result<Vec<u8>, TransferError>)
        ensures
            match download_outcome(self.key(), reply) {
                Ok(bytes) => plaintext is Ok && plaintext->Ok_0@ == bytes,
                Err(reason) => plaintext == Err::<Vec<u8>, TransferError>(reason),
            },
    {
        match download(reply) {
            Err(reason) => Err(reason),
            Ok(envelope) => open(&envelope, &self.key),
        }
    }
}

/// Begins a removal: the identifier to remove, unless it is empty.
pub fn start_delete(id: &str) -> (target: Result<String, TransferError>)
    ensures
        id@.len() == 0 ==> target == Err::<String, TransferError>(TransferError::InvalidInput),
        id@.len() > 0 ==> target is Ok && target->Ok_0@ == id@,
{
    if id.is_empty() {
        Err(TransferError::InvalidInput)
    } else {
        Ok(id.to_owned())
    }
}

/// Ends a removal with what the object store made of it, unchanged.
pub fn finish_delete(reply: &BackendReply) -> (removed: Result<(), TransferError>)
    ensures
        removed == removed_of(*reply),
{
    delete(reply)
}

/// A fetch that failed fails the download with the same reason, which is
/// `NotFound` or `BackendUnavailable` and never `AuthenticationFailure`,
/// whatever the key.
pub proof fn lemma_fetch_failure_passes_through(key: Seq<u8>, reply: BackendReply)
    requires
        fetched_of(reply) is Err,
    ensures
        download_outcome(key, reply) == Err::<Seq<u8>, TransferError>(fetched_of(reply)->Err_0),
        download_outcome(key, reply) == Err::<Seq<u8>, TransferError>(TransferError::NotFound)
            || download_outcome(key, reply) == Err::<Seq<u8>, TransferError>(
            TransferError::BackendUnavailable,
        ),
        (download_outcome(key, reply) == Err::<Seq<u8>, TransferError>(TransferError::NotFound))
            == (reply is Status && reply->code == crate::backend::STATUS_NOT_FOUND),
{
}

/// An object that was stored as a sealing of `plaintext` under `key`, and
/// that the object store hands back unchanged, downloads to `plaintext`
/// under the same key.
pub proof fn lemma_download_recovers_upload(
    request: StoreRequest,
    key: Seq<u8>,
    plaintext: Seq<u8>,
    reply: BackendReply,
)
    requires
        request.seals(key, plaintext),
        reply is Status,
        is_success(reply->code),
        reply->body@ == request.envelope(),
    ensures
        download_outcome(key, reply) == Ok::<Seq<u8>, TransferError>(plaintext),
{
}

/// A stored object shorter than a nonce downloads to `MalformedEnvelope`,
/// whatever the key.
pub proof fn lemma_short_object_is_malformed(key: Seq<u8>, reply: BackendReply)
    requires
        reply is Status,
        is_success(reply->code),
        reply->body@.len() < NONCE_LEN,
    ensures
        download_outcome(key, reply) == Err::<Seq<u8>, TransferError>(
            TransferError::MalformedEnvelope,
        ),
{
}

} // verus!
