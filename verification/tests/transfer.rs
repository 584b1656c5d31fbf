use rustystorage::backend::BackendReply;
use rustystorage::cipher::{open, seal};
use rustystorage::error::TransferError;
use rustystorage::key::SecretKey;
use rustystorage::transfer::{
    download_with_key, finish_delete, start_delete, start_download, start_update, start_upload,
    upload_with_key, UploadStep,
};
use std::collections::HashMap;

const ZERO_KEY: &str = "0000000000000000000000000000000000000000000000000000000000000000";
const OTHER_KEY: &str = "0100000000000000000000000000000000000000000000000000000000000000";

fn probe(store: &HashMap<String, Vec<u8>>, id: &str) -> BackendReply {
    let code = if store.contains_key(id) { 200 } else { 404 };
    BackendReply::Status { code, body: Vec::new() }
}

fn fetch(store: &HashMap<String, Vec<u8>>, id: &str) -> BackendReply {
    match store.get(id) {
        Some(body) => BackendReply::Status { code: 200, body: body.clone() },
        None => BackendReply::Status { code: 404, body: Vec::new() },
    }
}

fn run_upload(
    store: &mut HashMap<String, Vec<u8>>,
    plaintext: &[u8],
    key: &str,
) -> Result<String, TransferError> {
    let mut job = start_upload(plaintext.to_vec(), key)?;
    loop {
        let reply = probe(store, job.candidate_id());
        match job.on_probe(&reply) {
            UploadStep::Probe(next) => job = next,
            UploadStep::Failed(reason) => return Err(reason),
            UploadStep::Store(request) => {
                store.insert(request.identifier().clone(), request.body().clone());
                let written = BackendReply::Status { code: 200, body: Vec::new() };
                return request.on_stored(&written);
            }
        }
    }
}

fn run_download(
    store: &HashMap<String, Vec<u8>>,
    id: &str,
    key: &str,
) -> Result<Vec<u8>, TransferError> {
    let job = start_download(id, key)?;
    let reply = fetch(store, job.identifier());
    job.on_fetched(reply)
}

#[test]
fn upload_then_download_returns_the_plaintext() {
    let mut store = HashMap::new();
    let id = run_upload(&mut store, b"hello world", ZERO_KEY).unwrap();
    assert_eq!(id.len(), 36);
    assert!(store.contains_key(&id));
    assert_eq!(store[&id].len(), 12 + 11 + 16);
    assert_eq!(run_download(&store, &id, ZERO_KEY), Ok(b"hello world".to_vec()));
}

#[test]
fn download_with_another_key_fails_authentication() {
    let mut store = HashMap::new();
    let id = run_upload(&mut store, b"hello world", ZERO_KEY).unwrap();
    assert_eq!(run_download(&store, &id, OTHER_KEY), Err(TransferError::AuthenticationFailure));
}

#[test]
fn download_of_a_truncated_envelope_is_malformed() {
    let mut store = HashMap::new();
    let id = run_upload(&mut store, b"hello world", ZERO_KEY).unwrap();
    let truncated = store[&id][..5].to_vec();
    store.insert(id.clone(), truncated);
    assert_eq!(run_download(&store, &id, ZERO_KEY), Err(TransferError::MalformedEnvelope));
}

#[test]
fn fetch_failure_is_never_an_authentication_failure() {
    let store = HashMap::new();
    assert_eq!(run_download(&store, "missing", ZERO_KEY), Err(TransferError::NotFound));
    let job = start_download("any", ZERO_KEY).unwrap();
    assert_eq!(
        job.on_fetched(BackendReply::TransportFailure),
        Err(TransferError::BackendUnavailable)
    );
    let job = start_download("any", ZERO_KEY).unwrap();
    assert_eq!(
        job.on_fetched(BackendReply::Status { code: 503, body: vec![0; 64] }),
        Err(TransferError::BackendUnavailable)
    );
}

#[test]
fn upload_refuses_a_bad_key_before_any_probe() {
    assert!(matches!(start_upload(vec![1], ""), Err(TransferError::InvalidInput)));
    assert!(matches!(start_upload(vec![1], "zz"), Err(TransferError::InvalidInput)));
    assert!(matches!(start_upload(vec![1], "00ff"), Err(TransferError::InvalidKeyLength)));
}

#[test]
fn upload_job_keeps_payload_across_collisions() {
    let job = start_upload(b"payload".to_vec(), ZERO_KEY).unwrap();
    assert_eq!(job.collision_count(), 0);
    let first = job.candidate_id().clone();
    let taken = BackendReply::Status { code: 200, body: Vec::new() };
    let job = match job.on_probe(&taken) {
        UploadStep::Probe(next) => next,
        _ => panic!("a candidate in use must be replaced"),
    };
    assert_eq!(job.collision_count(), 1);
    assert_ne!(job.candidate_id(), &first);
    let second = job.candidate_id().clone();
    let free = BackendReply::Status { code: 404, body: Vec::new() };
    match job.on_probe(&free) {
        UploadStep::Store(request) => {
            assert_eq!(request.identifier(), &second);
            let key = SecretKey::from_hex(ZERO_KEY).unwrap();
            assert_eq!(open(request.body(), &key), Ok(b"payload".to_vec()));
        }
        _ => panic!("a free candidate must be stored under"),
    }
}

#[test]
fn upload_fails_when_the_probe_gets_no_answer() {
    let job = start_upload(b"payload".to_vec(), ZERO_KEY).unwrap();
    match job.on_probe(&BackendReply::TransportFailure) {
        UploadStep::Failed(reason) => assert_eq!(reason, TransferError::BackendUnavailable),
        _ => panic!("an unanswered probe must fail the upload"),
    }
}

#[test]
fn identifier_is_withheld_when_the_write_fails() {
    let job = start_upload(b"payload".to_vec(), ZERO_KEY).unwrap();
    let free = BackendReply::Status { code: 404, body: Vec::new() };
    let request = match job.on_probe(&free) {
        UploadStep::Store(request) => request,
        _ => panic!("a free candidate must be stored under"),
    };
    let refused = BackendReply::Status { code: 500, body: Vec::new() };
    assert_eq!(request.on_stored(&refused), Err(TransferError::BackendUnavailable));
}

#[test]
fn update_writes_under_the_given_identifier() {
    let request = start_update("my-object", b"new content".to_vec(), ZERO_KEY).unwrap();
    assert_eq!(request.identifier(), "my-object");
    let key = SecretKey::from_hex(ZERO_KEY).unwrap();
    assert_eq!(open(request.body(), &key), Ok(b"new content".to_vec()));
    let written = BackendReply::Status { code: 200, body: Vec::new() };
    assert_eq!(request.on_stored(&written), Ok("my-object".to_string()));
}

#[test]
fn update_refuses_bad_arguments() {
    assert!(matches!(start_update("", vec![1], ZERO_KEY), Err(TransferError::InvalidInput)));
    assert!(matches!(start_update("id", vec![1], "xy"), Err(TransferError::InvalidInput)));
    assert!(matches!(start_update("id", vec![1], "00"), Err(TransferError::InvalidKeyLength)));
}

#[test]
fn download_refuses_bad_arguments() {
    assert!(matches!(start_download("", ZERO_KEY), Err(TransferError::InvalidInput)));
    assert!(matches!(start_download("id", ""), Err(TransferError::InvalidInput)));
    assert!(matches!(start_download("id", "abcd"), Err(TransferError::InvalidKeyLength)));
    assert_eq!(start_download("id", ZERO_KEY).unwrap().identifier(), "id");
}

#[test]
fn download_opens_what_was_sealed() {
    let key = SecretKey::from_hex(OTHER_KEY).unwrap();
    let envelope = seal(&b"sealed elsewhere".to_vec(), &key);
    let job = start_download("id", OTHER_KEY).unwrap();
    assert_eq!(
        job.on_fetched(BackendReply::Status { code: 200, body: envelope }),
        Ok(b"sealed elsewhere".to_vec())
    );
}

#[test]
fn delete_passes_the_backend_answer_through() {
    assert_eq!(start_delete(""), Err(TransferError::InvalidInput));
    assert_eq!(start_delete("abc"), Ok("abc".to_string()));
    assert_eq!(finish_delete(&BackendReply::Status { code: 200, body: Vec::new() }), Ok(()));
    assert_eq!(
        finish_delete(&BackendReply::Status { code: 404, body: Vec::new() }),
        Err(TransferError::NotFound)
    );
    assert_eq!(
        finish_delete(&BackendReply::TransportFailure),
        Err(TransferError::BackendUnavailable)
    );
}

#[test]
fn transfers_start_under_a_parsed_key() {
    let key = SecretKey::from_hex(ZERO_KEY).unwrap();
    let job = upload_with_key(b"payload".to_vec(), key).ok().unwrap();
    assert_eq!(job.collision_count(), 0);
    assert_eq!(job.candidate_id().len(), 36);
    let key = SecretKey::from_hex(ZERO_KEY).unwrap();
    assert!(matches!(download_with_key("", key), Err(TransferError::InvalidInput)));
    let key = SecretKey::from_hex(ZERO_KEY).unwrap();
    assert_eq!(download_with_key("the-id", key).ok().unwrap().identifier(), "the-id");
}
