use vstd::prelude::*;
use vstd::string::StrSliceExecFns;
use vstd::string::StringExecFns;
use crate::error::RpcClass;
use crate::rpc::RpcStatus;

verus! {

/// Whether `c` is white space as `str::trim` understands it: a character
/// with the Unicode property `White_Space`.
pub open spec fn is_whitespace(c: char) -> bool {
    let n = c as u32;
    (0x09 <= n && n <= 0x0D) || n == 0x20 || n == 0x85 || n == 0xA0 || n == 0x1680 || (0x2000 <= n
        && n <= 0x200A) || n == 0x2028 || n == 0x2029 || n == 0x202F || n == 0x205F || n == 0x3000
}

/// Whether `text` is empty once the white space around it is trimmed away,
/// that is, whether it holds nothing but white space.
pub open spec fn is_blank(text: Seq<char>) -> bool {
    forall|i: int| 0 <= i < text.len() ==> is_whitespace(#[trigger] text[i])
}

fn whitespace(c: char) -> (white: bool)
    ensures
        white == is_whitespace(c),
{
    let n: u32 = c as u32;
    (0x09 <= n && n <= 0x0D) || n == 0x20 || n == 0x85 || n == 0xA0 || n == 0x1680 || (0x2000 <= n
        && n <= 0x200A) || n == 0x2028 || n == 0x2029 || n == 0x202F || n == 0x205F || n == 0x3000
}

/// Whether `text` holds nothing but white space.
pub fn blank(text: &str) -> (empty: bool)
    ensures
        empty == is_blank(text@),
{
    let len = text.unicode_len();
    let mut i: usize = 0;
    while i < len
        invariant
            len == text@.len(),
            i <= len,
            forall|j: int| 0 <= j < i ==> is_whitespace(#[trigger] text@[j]),
        decreases len - i,
    {
        if !whitespace(text.get_char(i)) {
            return false;
        }
        i += 1;
    }
    true
}

/// The description of a file in the catalog.
#[derive(Debug)]
pub struct FileInfo {
    pub name: String,
    pub identifier: String,
    pub size: i64,
    pub mime_type: String,
    pub tags: Vec<String>,
}

/// The query that names a file by its identifier.
#[derive(Debug)]
pub struct FileQuery {
    pub id: String,
}

/// The request to create a tag.
#[derive(Debug)]
pub struct CreateTag {
    pub name: String,
}

/// The query that names a tag.
#[derive(Debug)]
pub struct TagQuery {
    pub name: String,
}

/// The query that names a tag and a file.
#[derive(Debug)]
pub struct TagFileQuery {
    pub tag_name: String,
    pub file_id: String,
}

/// One operation on the catalog, checked and ready to be carried out by
/// whoever holds the database.
pub enum Command {
    InsertFile(FileInfo),
    RemoveFile { identifier: String },
    GetFile { identifier: String },
    GetFiles,
    CreateTag { name: String },
    RemoveTag { name: String },
    LinkFileWithTag { file_id: String, tag_name: String },
    GetTags,
    GetTagsOfFile { file_id: String },
    RemoveTagFromFile { file_id: String, tag_name: String },
    GetFilesTaggedWith { tag_name: String },
}

/// What is wrong with the description of a file, if anything: the message
/// for the first field that fails, in the order name, identifier, size, type.
pub open spec fn file_info_fault(info: FileInfo) -> Option<Seq<char>> {
    if is_blank(info.name@) {
        Some("File name cannot be empty"@)
    } else if is_blank(info.identifier@) {
        Some("File identifier cannot be empty"@)
    } else if info.size < 0 {
        Some("File size cannot be negative"@)
    } else if is_blank(info.mime_type@) {
        Some("File type cannot be empty"@)
    } else {
        None
    }
}

/// The command that enters a file into the catalog.
pub fn insert(data: FileInfo) -> (command: Command)
    requires
        file_info_fault(data) is None,
    ensures
        command == Command::InsertFile(data),
{
    Command::InsertFile(data)
}

/// How the attempt to create a tag ended.
#[derive(Clone, Copy, Debug, PartialEq, Eq, Structural)]
pub enum TagCreation {
    Created,
    /// The catalog already holds a tag of that name.
    Duplicate,
    Failed,
}

/// What follows the attempt to create one tag of a file that was just
/// entered: a tag that the catalog held already is put on the file, and
/// nothing follows otherwise.
pub fn after_tag_creation(identifier: &str, tag: &str, creation: TagCreation) -> (command: Option<
    Command,
>)
    requires
        !is_blank(identifier@),
        !is_blank(tag@),
    ensures
        creation != TagCreation::Duplicate ==> command is None,
        creation == TagCreation::Duplicate ==> command is Some && command->Some_0
            is LinkFileWithTag && command->Some_0->LinkFileWithTag_file_id@ == identifier@
            && command->Some_0->LinkFileWithTag_tag_name@ == tag@,
{
    match creation {
        TagCreation::Duplicate => Some(link_file_with_tag(identifier, tag)),
        _ => None,
    }
}

/// The command that removes the file `identifier` from the catalog.
pub fn remove(identifier: &str) -> (command: Command)
    requires
        !is_blank(identifier@),
    ensures
        command is RemoveFile,
        command->RemoveFile_identifier@ == identifier@,
{
    Command::RemoveFile { identifier: String::from_str(identifier) }
}

/// The command that looks up the file `identifier`.
pub fn get(identifier: &str) -> (command: Command)
    requires
        !is_blank(identifier@),
    ensures
        command is GetFile,
        command->GetFile_identifier@ == identifier@,
{
    Command::GetFile { identifier: String::from_str(identifier) }
}

/// The command that lists every file.
pub fn get_all() -> (command: Command)
    ensures
        command is GetFiles,
{
    Command::GetFiles
}

/// The command that creates the tag `tag_name`.
pub fn create_tag(tag_name: &str) -> (command: Command)
    requires
        !is_blank(tag_name@),
    ensures
        command is CreateTag,
        command->CreateTag_name@ == tag_name@,
{
    Command::CreateTag { name: String::from_str(tag_name) }
}

/// The command that removes the tag `tag_name`.
pub fn remove_tag(tag_name: &str) -> (command: Command)
    requires
        !is_blank(tag_name@),
    ensures
        command is RemoveTag,
        command->RemoveTag_name@ == tag_name@,
{
    Command::RemoveTag { name: String::from_str(tag_name) }
}

/// The command that puts the tag `tag_name` on the file `file_id`.
pub fn link_file_with_tag(file_id: &str, tag_name: &str) -> (command: Command)
    requires
        !is_blank(file_id@),
        !is_blank(tag_name@),
    ensures
        command is LinkFileWithTag,
        command->LinkFileWithTag_file_id@ == file_id@,
        command->LinkFileWithTag_tag_name@ == tag_name@,
{
    Command::LinkFileWithTag {
        file_id: String::from_str(file_id),
        tag_name: String::from_str(tag_name),
    }
}

/// The command that lists every tag.
pub fn get_tags() -> (command: Command)
    ensures
        command is GetTags,
{
    Command::GetTags
}

/// The command that lists the tags of the file `file_id`.
pub fn get_tags_of_file(file_id: &str) -> (command: Command)
    requires
        !is_blank(file_id@),
    ensures
        command is GetTagsOfFile,
        command->GetTagsOfFile_file_id@ == file_id@,
{
    Command::GetTagsOfFile { file_id: String::from_str(file_id) }
}

/// The command that takes the tag `tag_name` off the file `file_id`.
pub fn remove_tag_from_file(file_id: &str, tag_name: &str) -> (command: Command)
    requires
        !is_blank(file_id@),
        !is_blank(tag_name@),
    ensures
        command is RemoveTagFromFile,
        command->RemoveTagFromFile_file_id@ == file_id@,
        command->RemoveTagFromFile_tag_name@ == tag_name@,
{
    Command::RemoveTagFromFile {
        file_id: String::from_str(file_id),
        tag_name: String::from_str(tag_name),
    }
}

/// The command that lists the files that carry the tag `tag_name`.
pub fn get_files_tagged_with(tag_name: &str) -> (command: Command)
    requires
        !is_blank(tag_name@),
    ensures
        command is GetFilesTaggedWith,
        command->GetFilesTaggedWith_tag_name@ == tag_name@,
{
    Command::GetFilesTaggedWith { tag_name: String::from_str(tag_name) }
}

/// The streamed face of the file catalog: each method checks what a call
/// brought and gives the command to carry out, or refuses the call.
#[derive(Debug, Default)]
pub struct StorefileSvc {}

impl StorefileSvc {
    /// Enters a file, unless its description has a fault.
    pub fn insert(&self, info: FileInfo) -> (command: Result<Command, RpcStatus>)
        ensures
            match file_info_fault(info) {
                Some(message) => command is Err && command->Err_0.has(
                    RpcClass::InvalidArgument,
                    message,
                ),
                None => command == Ok::<Command, RpcStatus>(Command::InsertFile(info)),
            },
    {
        if blank(info.name.as_str()) {
            Err(RpcStatus::new(RpcClass::InvalidArgument, "File name cannot be empty"))
        } else if blank(info.identifier.as_str()) {
            Err(RpcStatus::new(RpcClass::InvalidArgument, "File identifier cannot be empty"))
        } else if info.size < 0 {
            Err(RpcStatus::new(RpcClass::InvalidArgument, "File size cannot be negative"))
        } else if blank(info.mime_type.as_str()) {
            Err(RpcStatus::new(RpcClass::InvalidArgument, "File type cannot be empty"))
        } else {
            Ok(insert(info))
        }
    }

    /// Looks a file up, unless the identifier is blank.
    pub fn get(&self, id: &str) -> (command: Result<Command, RpcStatus>)
        ensures
            is_blank(id@) ==> command is Err && command->Err_0.has(
                RpcClass::InvalidArgument,
                "File identifier cannot be empty"@,
            ),
            !is_blank(id@) ==> command is Ok && command->Ok_0 is GetFile
                && command->Ok_0->GetFile_identifier@ == id@,
    {
        if blank(id) {
            Err(RpcStatus::new(RpcClass::InvalidArgument, "File identifier cannot be empty"))
        } else {
            Ok(get(id))
        }
    }

    /// Removes a file, unless the identifier is blank.
    pub fn delete(&self, id: &str) -> (command: Result<Command, RpcStatus>)
        ensures
            is_blank(id@) ==> command is Err && command->Err_0.has(
                RpcClass::InvalidArgument,
                "File identifier cannot be empty"@,
            ),
            !is_blank(id@) ==> command is Ok && command->Ok_0 is RemoveFile
                && command->Ok_0->RemoveFile_identifier@ == id@,
    {
        if blank(id) {
            Err(RpcStatus::new(RpcClass::InvalidArgument, "File identifier cannot be empty"))
        } else {
            Ok(remove(id))
        }
    }

    /// Lists every file.
    pub fn list(&self) -> (command: Command)
        ensures
            command is GetFiles,
    {
        get_all()
    }
}

/// The streamed face of the tag catalog.
#[derive(Debug, Default)]
pub struct TagSvc {}

/// What is wrong with a file identifier and a tag name, if anything: the
/// file identifier is looked at first.
pub open spec fn link_fault(file_id: Seq<char>, tag_name: Seq<char>) -> Option<Seq<char>> {
    if is_blank(file_id) {
        Some("File id cannot be empty"@)
    } else if is_blank(tag_name) {
        Some("Tag name cannot be empty"@)
    } else {
        None
    }
}

impl TagSvc {
    /// Creates a tag, unless the name is blank.
    pub fn create_tag(&self, name: &str) -> (command: Result<Command, RpcStatus>)
        ensures
            is_blank(name@) ==> command is Err && command->Err_0.has(
                RpcClass::InvalidArgument,
                "Tag name cannot be empty"@,
            ),
            !is_blank(name@) ==> command is Ok && command->Ok_0 is CreateTag
                && command->Ok_0->CreateTag_name@ == name@,
    {
        if blank(name) {
            Err(RpcStatus::new(RpcClass::InvalidArgument, "Tag name cannot be empty"))
        } else {
            Ok(create_tag(name))
        }
    }

    /// Removes a tag, unless the name is blank.
    pub fn remove_tag(&self, name: &str) -> (command: Result<Command, RpcStatus>)
        ensures
            is_blank(name@) ==> command is Err && command->Err_0.has(
                RpcClass::InvalidArgument,
                "Tag name cannot be empty"@,
            ),
            !is_blank(name@) ==> command is Ok && command->Ok_0 is RemoveTag
                && command->Ok_0->RemoveTag_name@ == name@,
    {
        if blank(name) {
            Err(RpcStatus::new(RpcClass::InvalidArgument, "Tag name cannot be empty"))
        } else {
            Ok(remove_tag(name))
        }
    }

    /// Puts a tag on a file, unless either name is blank.
    pub fn link_file_with_tag(&self, file_id: &str, tag_name: &str) -> (command: Result<
        Command,
        RpcStatus,
    >)
        ensures
            match link_fault(file_id@, tag_name@) {
                Some(message) => command is Err && command->Err_0.has(
                    RpcClass::InvalidArgument,
                    message,
                ),
                None => command is Ok && command->Ok_0 is LinkFileWithTag
                    && command->Ok_0->LinkFileWithTag_file_id@ == file_id@
                    && command->Ok_0->LinkFileWithTag_tag_name@ == tag_name@,
            },
    {
        if blank(file_id) {
            Err(RpcStatus::new(RpcClass::InvalidArgument, "File id cannot be empty"))
        } else if blank(tag_name) {
            Err(RpcStatus::new(RpcClass::InvalidArgument, "Tag name cannot be empty"))
        } else {
            Ok(link_file_with_tag(file_id, tag_name))
        }
    }

    /// Lists every tag.
    pub fn get_tags(&self) -> (command: Command)
        ensures
            command is GetTags,
    {
        get_tags()
    }

    /// Lists the tags of a file, unless the identifier is blank.
    pub fn get_file_tags(&self, file_id: &str) -> (command: Result<Command, RpcStatus>)
        ensures
            is_blank(file_id@) ==> command is Err && command->Err_0.has(
                RpcClass::InvalidArgument,
                "File id cannot be empty"@,
            ),
            !is_blank(file_id@) ==> command is Ok && command->Ok_0 is GetTagsOfFile
                && command->Ok_0->GetTagsOfFile_file_id@ == file_id@,
    {
        if blank(file_id) {
            Err(RpcStatus::new(RpcClass::InvalidArgument, "File id cannot be empty"))
        } else {
            Ok(get_tags_of_file(file_id))
        }
    }

    /// Takes a tag off a file, unless either name is blank.
    pub fn remove_file_tag(&self, file_id: &str, tag_name: &str) -> (command: Result<
        Command,
        RpcStatus,
    >)
        ensures
            match link_fault(file_id@, tag_name@) {
                Some(message) => command is Err && command->Err_0.has(
                    RpcClass::InvalidArgument,
                    message,
                ),
                None => command is Ok && command->Ok_0 is RemoveTagFromFile
                    && command->Ok_0->RemoveTagFromFile_file_id@ == file_id@
                    && command->Ok_0->RemoveTagFromFile_tag_name@ == tag_name@,
            },
    {
        if blank(file_id) {
            Err(RpcStatus::new(RpcClass::InvalidArgument, "File id cannot be empty"))
        } else if blank(tag_name) {
            Err(RpcStatus::new(RpcClass::InvalidArgument, "Tag name cannot be empty"))
        } else {
            Ok(remove_tag_from_file(file_id, tag_name))
        }
    }

    /// Lists the files that carry a tag, unless the name is blank.
    pub fn get_files_tagged_with(&self, tag_name: &str) -> (command: Result<Command, RpcStatus>)
        ensures
            is_blank(tag_name@) ==> command is Err && command->Err_0.has(
                RpcClass::InvalidArgument,
                "Tag name cannot be empty"@,
            ),
            !is_blank(tag_name@) ==> command is Ok && command->Ok_0 is GetFilesTaggedWith
                && command->Ok_0->GetFilesTaggedWith_tag_name@ == tag_name@,
    {
        if blank(tag_name) {
            Err(RpcStatus::new(RpcClass::InvalidArgument, "Tag name cannot be empty"))
        } else {
            Ok(get_files_tagged_with(tag_name))
        }
    }
}

} // verus!
