//! What the export and import of settings and favourites report back.
//!
//! Picking a file, serialising, reading and writing happen outside; the
//! functions here turn how each step went into the result that the user
//! interface is given. Settings and favourite words are carried through as
//! they are, so their types are parameters.
use vstd::prelude::*;

verus! {

/// Exported data: when and by which version it was made, with optional
/// settings and favourite words.
pub struct ExportData<S, F> {
    pub export_date: String,
    pub app_version: String,
    pub settings: Option<S>,
    pub favorites: Option<Vec<F>>,
}

/// The result of saving to a file.
pub struct FileOperationResult {
    pub success: bool,
    pub cancelled: Option<bool>,
    pub file_path: Option<String>,
    pub error: Option<String>,
}

/// How an export went.
pub enum ExportOutcome {
    /// No file was chosen.
    Cancelled,
    /// The data could not be serialised; the serialiser's message.
    SerializeFailed(String),
    /// The file could not be written; the system's message.
    WriteFailed(String),
    /// The data was written to this path.
    Written(String),
}

/// The result of loading from a file.
pub struct ImportDataResult<S, F> {
    pub success: bool,
    pub cancelled: Option<bool>,
    pub settings: Option<S>,
    pub favorites: Option<Vec<F>>,
    pub total_count: Option<usize>,
    pub valid_count: Option<usize>,
    pub error: Option<String>,
}

/// How an import went.
pub enum ImportOutcome<S, F> {
    /// No file was chosen.
    Cancelled,
    /// The file could not be read; the system's message.
    ReadFailed(String),
    /// The file is not valid exported data; the parser's message.
    ParseFailed(String),
    /// The file held this data.
    Parsed(ExportData<S, F>),
}

/// Prefix of the message for data that could not be serialised.
pub open spec fn serialize_failed_prefix() -> Seq<char> {
    "序列化失败: "@
}

/// Prefix of the message for a file that could not be written.
pub open spec fn write_failed_prefix() -> Seq<char> {
    "写入文件失败: "@
}

/// Prefix of the message for a file that could not be read.
pub open spec fn read_failed_prefix() -> Seq<char> {
    "读取文件失败: "@
}

/// Prefix of the message for a file that could not be parsed.
pub open spec fn parse_failed_prefix() -> Seq<char> {
    "解析 JSON 失败: "@
}

/// `prefix` followed by `detail`.
fn message(prefix: &str, detail: &str) -> (m: String)
    ensures
        m@ == prefix@ + detail@,
{
    let mut m = String::from_str(prefix);
    m.append(detail);
    m
}

/// The result reported for an export: a cancelled dialog is no success and
/// no error; a failure carries its message after a prefix naming the step;
/// a written file is a success with its path.
pub fn export_data_result(outcome: ExportOutcome) -> (r: FileOperationResult)
    ensures
        r.success <==> outcome is Written,
        r.cancelled == Some(outcome is Cancelled),
        match outcome {
            ExportOutcome::Written(path) => r.file_path == Some(path) && r.error is None,
            ExportOutcome::Cancelled => r.file_path is None && r.error is None,
            ExportOutcome::SerializeFailed(e) => {
                &&& r.file_path is None
                &&& r.error matches Some(m) && m@ == serialize_failed_prefix() + e@
            },
            ExportOutcome::WriteFailed(e) => {
                &&& r.file_path is None
                &&& r.error matches Some(m) && m@ == write_failed_prefix() + e@
            },
        },
{
    match outcome {
        ExportOutcome::Cancelled => FileOperationResult {
            success: false,
            cancelled: Some(true),
            file_path: None,
            error: None,
        },
        ExportOutcome::SerializeFailed(e) => FileOperationResult {
            success: false,
            cancelled: Some(false),
            file_path: None,
            error: Some(message("序列化失败: ", e.as_str())),
        },
        ExportOutcome::WriteFailed(e) => FileOperationResult {
            success: false,
            cancelled: Some(false),
            file_path: None,
            error: Some(message("写入文件失败: ", e.as_str())),
        },
        ExportOutcome::Written(path) => FileOperationResult {
            success: true,
            cancelled: Some(false),
            file_path: Some(path),
            error: None,
        },
    }
}

/// The number of favourite words, none counting as zero.
pub open spec fn favorite_count<F>(favorites: Option<Vec<F>>) -> nat {
    match favorites {
        Some(v) => v@.len(),
        None => 0,
    }
}

/// The result reported for an import. A cancelled dialog is no success and no
/// error. A file that cannot be read or parsed is an error whose message
/// names the step. Parsed data is a success carrying its settings and
/// favourites, with every favourite counted as read and as valid.
pub fn import_data_result<S, F>(outcome: ImportOutcome<S, F>) -> (r: Result<
    ImportDataResult<S, F>,
    String,
>)
    ensures
        match outcome {
            ImportOutcome::Cancelled => r matches Ok(res) && {
                &&& !res.success
                &&& res.cancelled == Some(true)
                &&& res.settings is None
                &&& res.favorites is None
                &&& res.total_count is None
                &&& res.valid_count is None
                &&& res.error is None
            },
            ImportOutcome::ReadFailed(e) => r matches Err(m) && m@ == read_failed_prefix() + e@,
            ImportOutcome::ParseFailed(e) => r matches Err(m) && m@ == parse_failed_prefix() + e@,
            ImportOutcome::Parsed(data) => r matches Ok(res) && {
                &&& res.success
                &&& res.cancelled == Some(false)
                &&& res.settings == data.settings
                &&& res.favorites == data.favorites
                &&& res.total_count == Some(favorite_count(data.favorites) as usize)
                &&& (data.favorites matches Some(v) ==> res.total_count == Some(v.len()))
                &&& (data.favorites is None ==> res.total_count == Some(0usize))
                &&& res.valid_count == res.total_count
                &&& res.error is None
            },
        },
{
    match outcome {
        ImportOutcome::Cancelled => Ok(
            ImportDataResult {
                success: false,
                cancelled: Some(true),
                settings: None,
                favorites: None,
                total_count: None,
                valid_count: None,
                error: None,
            },
        ),
        ImportOutcome::ReadFailed(e) => Err(message("读取文件失败: ", e.as_str())),
        ImportOutcome::ParseFailed(e) => Err(message("解析 JSON 失败: ", e.as_str())),
        ImportOutcome::Parsed(data) => {
            let count: usize = match &data.favorites {
                Some(v) => v.len(),
                None => 0,
            };
            Ok(
                ImportDataResult {
                    success: true,
                    cancelled: Some(false),
                    settings: data.settings,
                    favorites: data.favorites,
                    total_count: Some(count),
                    valid_count: Some(count),
                    error: None,
                },
            )
        },
    }
}

/// The favourites count is the length of the list, whatever its length, and
/// zero where there is no list.
pub proof fn lemma_favorite_count<F>(v: Vec<F>)
    ensures
        favorite_count(Some(v)) == v.len(),
        favorite_count::<F>(None) == 0,
{
}

} // verus!
