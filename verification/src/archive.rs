//! Project archives: the errors of extracting an uploaded zip.
use vstd::prelude::*;
use crate::text::{extend_str, string_of};

verus! {

/// Why extracting an archive failed (each carries the underlying detail).
#[derive(Debug, Clone, PartialEq)]
pub enum ExtractError {
    Open(String),
    Read(String),
    Mkdir(String),
    Write(String),
    DestNotEmpty(String),
}

/// The message shown for an extraction error.
pub open spec fn extract_error_text(e: ExtractError) -> Seq<char> {
    match e {
        ExtractError::Open(d) => "打开压缩包失败："@ + d@,
        ExtractError::Read(d) => "读取压缩包失败："@ + d@,
        ExtractError::Mkdir(d) => "创建目录失败："@ + d@,
        ExtractError::Write(d) => "写入文件失败："@ + d@,
        ExtractError::DestNotEmpty(d) => "目标目录已存在且非空，拒绝覆盖："@ + d@,
    }
}

impl ExtractError {
    /// The message shown for this error.
    pub fn message(&self) -> (r: String)
        ensures
            r@ == extract_error_text(*self),
    {
        let mut v: Vec<char> = Vec::new();
        match self {
            ExtractError::Open(d) => {
                extend_str(&mut v, "打开压缩包失败：");
                extend_str(&mut v, d.as_str());
            },
            ExtractError::Read(d) => {
                extend_str(&mut v, "读取压缩包失败：");
                extend_str(&mut v, d.as_str());
            },
            ExtractError::Mkdir(d) => {
                extend_str(&mut v, "创建目录失败：");
                extend_str(&mut v, d.as_str());
            },
            ExtractError::Write(d) => {
                extend_str(&mut v, "写入文件失败：");
                extend_str(&mut v, d.as_str());
            },
            ExtractError::DestNotEmpty(d) => {
                extend_str(&mut v, "目标目录已存在且非空，拒绝覆盖：");
                extend_str(&mut v, d.as_str());
            },
        }
        string_of(&v)
    }
}

} // verus!
