//! The file tool: reads, writes and probes files, optionally confined to one directory.
//!
//! A run goes through these steps; the file system is touched outside the
//! library, between them:
//! 1. `parse_request` reads the JSON arguments;
//! 2. the path (and the allowed directory) are canonicalized, and
//!    `path_allowed` decides whether the path may be used;
//! 3. `decide` picks the action: a report right away, a failure, or an
//!    operation on the file system;
//! 4. the operation's outcome becomes a report through `read_outcome`,
//!    `write_outcome` or `exists_outcome`.
//! Files and written contents are limited to `MAX_FILE_SIZE` bytes.

use vstd::prelude::*;
use vstd::utf8::encode_utf8;
use crate::text::{concat, owned, str_eq};
use super::json::{field_value, fields_view, json_string_fields, opt_view, parse_string_fields, parsed_view, string_field};
use super::traits::{argument_is, failure, result_is, success, ToolArgument, ToolDefinition, ToolResult};

verus! {

/// The largest file, in bytes, that the tool reads or writes: 10 MB.
pub const MAX_FILE_SIZE: usize = 10485760;

/// Whether the path `path` lies under `base`, as `std::path::Path::starts_with`
/// decides it, comparing whole path components.
pub uninterp spec fn path_has_prefix(path: Seq<char>, base: Seq<char>) -> bool;

/// Calls `Path::new(path).starts_with(Path::new(base))`. The contract names the
/// answer `path_has_prefix` of the two paths; how components are split and
/// compared is left unstated.
#[verifier::external_body]
fn path_starts_with(path: &str, base: &str) -> (r: bool)
    ensures
        r == path_has_prefix(path@, base@),
{
    std::path::Path::new(path).starts_with(std::path::Path::new(base))
}

/// The arguments of one file-tool call.
#[derive(Debug, Clone)]
pub struct FileRequest {
    pub operation: String,
    pub path: String,
    pub content: Option<String>,
}

/// What the file tool does next.
#[derive(Debug, Clone)]
pub enum FileAction {
    /// Report this result without touching the file system.
    Finish(ToolResult),
    /// Fail the call with this message.
    Fail(String),
    /// Read the file at this path.
    Read(String),
    /// Write this content to the file at this path.
    Write(String, String),
    /// Ask whether something exists at this path.
    Exists(String),
}

/// The arguments that parsed JSON arguments ask for: the parse error, or the
/// operation, the path and the optional content, when both of the former are strings.
pub open spec fn file_request_from(parsed: Result<Seq<(Seq<char>, Option<Seq<char>>)>, Seq<char>>) -> Result<(Seq<char>, Seq<char>, Option<Seq<char>>), Seq<char>> {
    match parsed {
        Err(e) => Err("Failed to parse arguments: "@ + e),
        Ok(fields) => match field_value(fields, "operation"@) {
            None => Err("Missing 'operation' parameter"@),
            Some(op) => match field_value(fields, "path"@) {
                None => Err("Missing 'path' parameter"@),
                Some(path) => Ok((op, path, field_value(fields, "content"@))),
            },
        },
    }
}

/// The arguments that a JSON argument text asks for.
pub open spec fn file_request_of(text: Seq<char>) -> Result<(Seq<char>, Seq<char>, Option<Seq<char>>), Seq<char>> {
    file_request_from(json_string_fields(text))
}

/// The request matches the arguments asked for, or the error matches the failure.
pub open spec fn request_matches(r: Result<FileRequest, String>, expected: Result<(Seq<char>, Seq<char>, Option<Seq<char>>), Seq<char>>) -> bool {
    match (r, expected) {
        (Ok(req), Ok(t)) => req.operation@ == t.0 && req.path@ == t.1 && opt_view(req.content) == t.2,
        (Err(e), Err(m)) => e@ == m,
        _ => false,
    }
}

/// The length in bytes that `str::len` reports for a string holding `s`:
/// the length of its UTF-8 encoding.
pub open spec fn byte_len(s: Seq<char>) -> usize {
    encode_utf8(s).len() as usize
}

/// A file tool, optionally confined to one directory.
#[derive(Debug, Clone)]
pub struct FileTool {
    allowed_directory: Option<String>,
}

impl Default for FileTool {
    fn default() -> (r: Self)
        ensures
            r.allowed() is None,
    {
        FileTool::new()
    }
}

impl FileTool {
    /// The directory the tool is confined to, if any.
    pub closed spec fn allowed(&self) -> Option<String> {
        self.allowed_directory
    }

    /// A tool that may use any path.
    pub fn new() -> (r: Self)
        ensures
            r.allowed() is None,
    {
        FileTool { allowed_directory: None }
    }

    /// A tool confined to `dir`.
    pub fn with_directory(dir: String) -> (r: Self)
        ensures
            r.allowed() == Some(dir),
    {
        FileTool { allowed_directory: Some(dir) }
    }

    /// The directory the tool is confined to, if any.
    pub fn allowed_directory(&self) -> (r: &Option<String>)
        ensures
            *r == self.allowed(),
    {
        &self.allowed_directory
    }

    pub fn name(&self) -> (r: &'static str)
        ensures
            r@ == "file"@,
    {
        "file"
    }

    /// The tool's description for the model.
    pub fn definition(&self) -> (d: ToolDefinition)
        ensures
            d.name@ == "file"@,
            d.description@ == "Read or write files"@,
            d.arguments@.len() == 3,
            argument_is(d.arguments@[0], "operation"@, "string"@, true, "Operation: read, write, or exists"@),
            argument_is(d.arguments@[1], "path"@, "string"@, true, "File path"@),
            argument_is(d.arguments@[2], "content"@, "string"@, false, "Content to write (for write operation)"@),
    {
        let mut arguments: Vec<ToolArgument> = Vec::new();
        arguments.push(ToolArgument {
            name: owned("operation"),
            arg_type: owned("string"),
            required: true,
            description: owned("Operation: read, write, or exists"),
        });
        arguments.push(ToolArgument {
            name: owned("path"),
            arg_type: owned("string"),
            required: true,
            description: owned("File path"),
        });
        arguments.push(ToolArgument {
            name: owned("content"),
            arg_type: owned("string"),
            required: false,
            description: owned("Content to write (for write operation)"),
        });
        ToolDefinition { name: owned("file"), description: owned("Read or write files"), arguments }
    }

    /// Reads the operation, the path and the optional content from the JSON arguments.
    pub fn parse_request(arguments: &str) -> (r: Result<FileRequest, String>)
        ensures
            request_matches(r, file_request_of(arguments@)),
    {
        FileTool::request_from_parsed(parse_string_fields(arguments))
    }

    /// Reads the operation, the path and the optional content from parsed
    /// JSON arguments: their top-level string fields, or the parse error.
    pub fn request_from_parsed(parsed: Result<Vec<(String, Option<String>)>, String>) -> (r: Result<FileRequest, String>)
        ensures
            request_matches(r, file_request_from(parsed_view(parsed))),
            match (r, parsed) {
                (Ok(req), Ok(f)) => {
                    &&& field_value(fields_view(f@), "operation"@) == Some(req.operation@)
                    &&& field_value(fields_view(f@), "path"@) == Some(req.path@)
                    &&& opt_view(req.content) == field_value(fields_view(f@), "content"@)
                },
                (Ok(_), Err(_)) => false,
                _ => true,
            },
    {
        let fields = match parsed {
            Ok(f) => f,
            Err(e) => {
                return Err(concat("Failed to parse arguments: ", e.as_str()));
            },
        };
        let operation = match string_field(&fields, "operation") {
            Some(op) => op,
            None => {
                return Err(owned("Missing 'operation' parameter"));
            },
        };
        let path = match string_field(&fields, "path") {
            Some(p) => p,
            None => {
                return Err(owned("Missing 'path' parameter"));
            },
        };
        let content = string_field(&fields, "content");
        Ok(FileRequest { operation, path, content })
    }

    /// Whether the path may be used, given the canonical form of the path and
    /// of the allowed directory (`None` where canonicalization failed). A tool
    /// without an allowed directory, or a path that cannot be canonicalized,
    /// lets the path through.
    pub fn path_allowed(&self, canonical_path: Option<String>, canonical_allowed: Option<String>) -> (r: bool)
        ensures
            r == match (self.allowed(), canonical_path, canonical_allowed) {
                (Some(_), Some(p), Some(a)) => path_has_prefix(p@, a@),
                _ => true,
            },
    {
        if self.allowed_directory.is_some() {
            match (canonical_path, canonical_allowed) {
                (Some(p), Some(a)) => {
                    return path_starts_with(p.as_str(), a.as_str());
                },
                _ => {},
            }
        }
        true
    }

    /// The next step for `request`, given whether its path may be used.
    pub fn decide(&self, request: &FileRequest, allowed: bool) -> (r: FileAction)
        ensures
            !allowed ==> (r matches FileAction::Finish(t) && result_is(t, false, Seq::empty(), Some("Path not in allowed directory"@))),
            allowed && request.operation@ == "read"@ ==> (r matches FileAction::Read(p) && p@ == request.path@),
            allowed && request.operation@ == "write"@ ==> match request.content {
                None => r matches FileAction::Fail(m) && m@ == "Missing 'content' parameter for write operation"@,
                Some(c) => if byte_len(c@) > MAX_FILE_SIZE {
                    r matches FileAction::Finish(t) && result_is(t, false, Seq::empty(), Some("Content exceeds the 10 MB file size limit"@))
                } else {
                    r matches FileAction::Write(p, w) && p@ == request.path@ && w@ == c@
                },
            },
            allowed && request.operation@ == "exists"@ ==> (r matches FileAction::Exists(p) && p@ == request.path@),
            allowed && request.operation@ != "read"@ && request.operation@ != "write"@
                && request.operation@ != "exists"@ ==> (r matches FileAction::Finish(t)
                && result_is(t, false, Seq::empty(), Some("Unknown operation: "@ + request.operation@))),
    {
        if !allowed {
            return FileAction::Finish(failure(owned("Path not in allowed directory")));
        }
        let op = request.operation.as_str();
        proof {
            reveal_strlit("read");
            reveal_strlit("write");
            reveal_strlit("exists");
            assert("exists"@.len() == 6);
            assert("read"@.len() == 4);
            assert("write"@.len() == 5);
            assert("exists"@ != "read"@);
            assert("exists"@ != "write"@);
            assert("write"@ != "read"@);
        }
        if str_eq(op, "read") {
            FileAction::Read(request.path.clone())
        } else if str_eq(op, "write") {
            match &request.content {
                None => FileAction::Fail(owned("Missing 'content' parameter for write operation")),
                Some(c) => {
                    if c.as_str().len() > MAX_FILE_SIZE {
                        FileAction::Finish(failure(owned("Content exceeds the 10 MB file size limit")))
                    } else {
                        FileAction::Write(request.path.clone(), c.clone())
                    }
                },
            }
        } else if str_eq(op, "exists") {
            FileAction::Exists(request.path.clone())
        } else {
            FileAction::Finish(failure(concat("Unknown operation: ", op)))
        }
    }

    /// The report for a file of `size` bytes that is too large to read, if it is.
    pub fn oversize_report(&self, size: u64) -> (r: Option<ToolResult>)
        ensures
            size > MAX_FILE_SIZE ==> (r matches Some(t) && result_is(t, false, Seq::empty(), Some("File exceeds the 10 MB file size limit"@))),
            size <= MAX_FILE_SIZE ==> r is None,
    {
        if size > MAX_FILE_SIZE as u64 {
            Some(failure(owned("File exceeds the 10 MB file size limit")))
        } else {
            None
        }
    }

    /// The report for a read that gave `outcome`: the file's text, or the
    /// reason it could not be read.
    pub fn read_outcome(&self, outcome: Result<String, String>) -> (r: ToolResult)
        ensures
            match outcome {
                Ok(text) => if byte_len(text@) > MAX_FILE_SIZE {
                    result_is(r, false, Seq::empty(), Some("File exceeds the 10 MB file size limit"@))
                } else {
                    result_is(r, true, text@, None)
                },
                Err(e) => result_is(r, false, Seq::empty(), Some("Failed to read file: "@ + e@)),
            },
    {
        match outcome {
            Ok(text) => {
                if text.as_str().len() > MAX_FILE_SIZE {
                    failure(owned("File exceeds the 10 MB file size limit"))
                } else {
                    success(text)
                }
            },
            Err(e) => failure(concat("Failed to read file: ", e.as_str())),
        }
    }

    /// The report for a write that gave `outcome`.
    pub fn write_outcome(&self, outcome: Result<(), String>) -> (r: ToolResult)
        ensures
            match outcome {
                Ok(()) => result_is(r, true, "File written successfully"@, None),
                Err(e) => result_is(r, false, Seq::empty(), Some("Failed to write file: "@ + e@)),
            },
    {
        match outcome {
            Ok(()) => success(owned("File written successfully")),
            Err(e) => failure(concat("Failed to write file: ", e.as_str())),
        }
    }

    /// The report for an existence check.
    pub fn exists_outcome(&self, exists: bool) -> (r: ToolResult)
        ensures
            result_is(r, true, if exists { "true"@ } else { "false"@ }, None),
    {
        if exists {
            success(owned("true"))
        } else {
            success(owned("false"))
        }
    }
}

/// The arguments a request asks for are the string fields named `operation`,
/// `path` and `content`; the content is whatever string the `content` field
/// holds, or none, whatever the operation. A request fails exactly when the
/// arguments could not be parsed or lack the operation or the path.
pub proof fn law_request_reads_fields(parsed: Result<Seq<(Seq<char>, Option<Seq<char>>)>, Seq<char>>)
    ensures
        match (file_request_from(parsed), parsed) {
            (Ok(t), Ok(fields)) => {
                &&& field_value(fields, "operation"@) == Some(t.0)
                &&& field_value(fields, "path"@) == Some(t.1)
                &&& t.2 == field_value(fields, "content"@)
            },
            (Ok(_), Err(_)) => false,
            (Err(_), Ok(fields)) => field_value(fields, "operation"@) is None || field_value(fields, "path"@) is None,
            (Err(_), Err(_)) => true,
        },
{
}

} // verus!
