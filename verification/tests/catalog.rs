use rustystorage::catalog::{
    blank, create_tag, get, get_all, get_files_tagged_with, get_tags, get_tags_of_file, insert,
    link_file_with_tag, remove, remove_tag, remove_tag_from_file, Command,
    after_tag_creation, TagCreation,
    CreateTag, FileInfo, FileQuery, StorefileSvc, TagFileQuery, TagQuery, TagSvc,
};
use rustystorage::error::RpcClass;
use rustystorage::rpc::RpcStatus;

fn refusal(result: Result<Command, RpcStatus>) -> (RpcClass, String) {
    match result {
        Err(status) => (status.class, status.message),
        Ok(_) => panic!("the call was not refused"),
    }
}

fn file_info(name: &str, identifier: &str, size: i64, mime_type: &str) -> FileInfo {
    FileInfo {
        name: name.to_string(),
        identifier: identifier.to_string(),
        size,
        mime_type: mime_type.to_string(),
        tags: Vec::new(),
    }
}

#[test]
fn try_to_insert() {
    match insert(file_info("file1.txt", "abcd", 5, "text/plain")) {
        Command::InsertFile(info) => {
            assert_eq!(info.name, "file1.txt");
            assert_eq!(info.identifier, "abcd");
            assert_eq!(info.size, 5);
            assert_eq!(info.mime_type, "text/plain");
            assert!(info.tags.is_empty());
        }
        _ => panic!("insert gives the command to insert"),
    }
}

#[test]
fn try_to_remove() {
    assert!(matches!(remove("1234_5678"), Command::RemoveFile { identifier } if identifier == "1234_5678"));
}

#[test]
fn try_to_get() {
    assert!(matches!(get("1234_5678"), Command::GetFile { identifier } if identifier == "1234_5678"));
}

#[test]
fn try_to_get_all() {
    assert!(matches!(get_all(), Command::GetFiles));
}

#[test]
fn try_to_create_tag() {
    assert!(matches!(create_tag("tag1"), Command::CreateTag { name } if name == "tag1"));
}

#[test]
fn try_link_file_with_tag() {
    assert!(matches!(
        link_file_with_tag("abc", "tag1"),
        Command::LinkFileWithTag { file_id, tag_name } if file_id == "abc" && tag_name == "tag1"
    ));
}

#[test]
fn try_remove_tag() {
    assert!(matches!(remove_tag("tag1"), Command::RemoveTag { name } if name == "tag1"));
}

#[test]
fn try_get_tags() {
    assert!(matches!(get_tags(), Command::GetTags));
}

#[test]
fn try_get_tags_of_file() {
    assert!(matches!(get_tags_of_file("tag1"), Command::GetTagsOfFile { file_id } if file_id == "tag1"));
}

#[test]
fn try_remove_tag_from_file() {
    assert!(matches!(
        remove_tag_from_file("abc", "tag1"),
        Command::RemoveTagFromFile { file_id, tag_name } if file_id == "abc" && tag_name == "tag1"
    ));
}

#[test]
fn try_get_files_tagged_with() {
    assert!(matches!(
        get_files_tagged_with("tag1"),
        Command::GetFilesTaggedWith { tag_name } if tag_name == "tag1"
    ));
}

#[test]
fn blank_is_nothing_but_white_space() {
    assert!(blank(""));
    assert!(blank(" "));
    assert!(blank(" \t\r\n"));
    assert!(blank("\u{a0}\u{2003}\u{3000}\u{85}\u{1680}\u{2028}\u{2029}\u{202f}\u{205f}"));
    assert!(!blank("a"));
    assert!(!blank("  a  "));
    assert!(!blank("\u{200b}"));
    assert!(!blank("\u{1c}"));
    for code in 0..0x3100u32 {
        if let Some(c) = char::from_u32(code) {
            assert_eq!(blank(&c.to_string()), c.to_string().trim().is_empty());
        }
    }
}

#[test]
fn file_service_checks_the_description() {
    let svc = StorefileSvc::default();
    assert!(matches!(
        svc.insert(file_info("file1.txt", "abcd", 0, "text/plain")),
        Ok(Command::InsertFile(_))
    ));
    assert_eq!(
        refusal(svc.insert(file_info(" ", "", -1, ""))),
        (RpcClass::InvalidArgument, "File name cannot be empty".to_string())
    );
    assert_eq!(
        refusal(svc.insert(file_info("n", "\t", -1, ""))),
        (RpcClass::InvalidArgument, "File identifier cannot be empty".to_string())
    );
    assert_eq!(
        refusal(svc.insert(file_info("n", "i", -1, ""))),
        (RpcClass::InvalidArgument, "File size cannot be negative".to_string())
    );
    assert_eq!(
        refusal(svc.insert(file_info("n", "i", 1, " "))),
        (RpcClass::InvalidArgument, "File type cannot be empty".to_string())
    );
    assert!(matches!(svc.get("abcd"), Ok(Command::GetFile { identifier }) if identifier == "abcd"));
    assert_eq!(refusal(svc.get("")).1, "File identifier cannot be empty");
    assert!(matches!(svc.delete("abcd"), Ok(Command::RemoveFile { identifier }) if identifier == "abcd"));
    assert_eq!(refusal(svc.delete("  ")).1, "File identifier cannot be empty");
    assert!(matches!(svc.list(), Command::GetFiles));
}

#[test]
fn tag_service_checks_the_names() {
    let svc = TagSvc::default();
    assert!(matches!(svc.create_tag("t"), Ok(Command::CreateTag { name }) if name == "t"));
    assert_eq!(
        refusal(svc.create_tag(" ")),
        (RpcClass::InvalidArgument, "Tag name cannot be empty".to_string())
    );
    assert!(matches!(svc.remove_tag("t"), Ok(Command::RemoveTag { name }) if name == "t"));
    assert_eq!(refusal(svc.remove_tag("")).1, "Tag name cannot be empty");
    assert!(matches!(
        svc.link_file_with_tag("f", "t"),
        Ok(Command::LinkFileWithTag { file_id, tag_name }) if file_id == "f" && tag_name == "t"
    ));
    assert_eq!(refusal(svc.link_file_with_tag("", "")).1, "File id cannot be empty");
    assert_eq!(refusal(svc.link_file_with_tag("f", "")).1, "Tag name cannot be empty");
    assert!(matches!(svc.get_tags(), Command::GetTags));
    assert!(matches!(svc.get_file_tags("f"), Ok(Command::GetTagsOfFile { file_id }) if file_id == "f"));
    assert_eq!(refusal(svc.get_file_tags(" ")).1, "File id cannot be empty");
    assert!(matches!(
        svc.remove_file_tag("f", "t"),
        Ok(Command::RemoveTagFromFile { file_id, tag_name }) if file_id == "f" && tag_name == "t"
    ));
    assert_eq!(refusal(svc.remove_file_tag(" ", "t")).1, "File id cannot be empty");
    assert_eq!(refusal(svc.remove_file_tag("f", " ")).1, "Tag name cannot be empty");
    assert!(matches!(
        svc.get_files_tagged_with("t"),
        Ok(Command::GetFilesTaggedWith { tag_name }) if tag_name == "t"
    ));
    assert_eq!(refusal(svc.get_files_tagged_with("")).1, "Tag name cannot be empty");
}

#[test]
fn queries_hold_what_they_were_given() {
    assert_eq!(FileQuery { id: "a".to_string() }.id, "a");
    assert_eq!(CreateTag { name: "t".to_string() }.name, "t");
    assert_eq!(TagQuery { name: "t".to_string() }.name, "t");
    let query = TagFileQuery { tag_name: "t".to_string(), file_id: "f".to_string() };
    assert_eq!((query.tag_name.as_str(), query.file_id.as_str()), ("t", "f"));
}

#[test]
fn only_a_duplicate_tag_is_linked() {
    assert!(after_tag_creation("abcd", "tag1", TagCreation::Created).is_none());
    assert!(after_tag_creation("abcd", "tag1", TagCreation::Failed).is_none());
    assert!(matches!(
        after_tag_creation("abcd", "tag1", TagCreation::Duplicate),
        Some(Command::LinkFileWithTag { file_id, tag_name }) if file_id == "abcd" && tag_name == "tag1"
    ));
}
