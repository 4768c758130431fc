use vstd::prelude::*;

verus! {

/// A rotating file output, as mathematical values.
pub struct FileTargetView {
    pub directory: Seq<char>,
    pub base_name: Seq<char>,
    pub rotate_size: u64,
    pub keep_files: usize,
}

/// Where one sink writes to a rotating set of files.
#[derive(Clone, Debug, PartialEq, Eq)]
pub struct FileTarget {
    /// Directory that holds the files.
    pub directory: String,
    /// Name of the files, before the rotation number and the extension.
    pub base_name: String,
    /// Size in bytes at which a new file is started.
    pub rotate_size: u64,
    /// Number of rotated files that are kept; older ones are deleted.
    pub keep_files: usize,
}

impl View for FileTarget {
    type V = FileTargetView;

    open spec fn view(&self) -> FileTargetView {
        FileTargetView {
            directory: self.directory@,
            base_name: self.base_name@,
            rotate_size: self.rotate_size,
            keep_files: self.keep_files,
        }
    }
}

/// The settings of one sink, as mathematical values.
pub struct SinkConfigView {
    pub level: Seq<char>,
    pub file: Option<FileTargetView>,
    pub console: bool,
    pub filters: Seq<Seq<char>>,
}

/// Everything needed to open one sink: the main one or that of a module route.
#[derive(Clone, Debug, PartialEq, Eq)]
pub struct SinkConfig {
    /// Minimum level, in the backend's notation.
    pub level: String,
    /// The rotating file output, if the sink writes to files.
    pub file: Option<FileTarget>,
    /// Whether every accepted record is also written to standard error.
    pub console: bool,
    /// Targets whose records never reach this sink.
    pub filters: Vec<String>,
}

impl View for SinkConfig {
    type V = SinkConfigView;

    open spec fn view(&self) -> SinkConfigView {
        SinkConfigView {
            level: self.level@,
            file: match self.file {
                Some(target) => Some(target@),
                None => None,
            },
            console: self.console,
            filters: self.filters.deep_view(),
        }
    }
}

} // verus!
