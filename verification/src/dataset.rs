//! The dataset side of the viewer: an opaque loaded data frame behind a
//! small trusted surface, and the handle type whose cached dimensions the
//! view logic reads.
use vstd::prelude::*;
use polars::frame::DataFrame;
use polars::prelude::NamedFrom;
use polars::prelude::SerReader;
use polars::prelude::Series;
use polars::io::csv::read::{CsvParseOptions, CsvReadOptions};
use polars::prelude::JsonReader;
use polars::prelude::ParquetReader;

verus! {

/// An in-memory tabular dataset. The contents live in the external engine's
/// frame type and are opaque here; the trusted methods below are the only
/// doors to it.
#[verifier::external_body]
pub struct Frame {
    pub(crate) inner: DataFrame,
}

/// The number of rows a frame holds.
pub uninterp spec fn frame_rows(f: Frame) -> nat;

/// The number of columns a frame holds.
pub uninterp spec fn frame_cols(f: Frame) -> nat;

/// The number of rows that columnar binary bytes decode to.
pub uninterp spec fn parquet_rows(data: Seq<u8>) -> nat;

/// The number of columns that columnar binary bytes decode to.
pub uninterp spec fn parquet_cols(data: Seq<u8>) -> nat;

/// The number of rows that JSON bytes decode to.
pub uninterp spec fn json_rows(data: Seq<u8>) -> nat;

/// The number of columns that JSON bytes decode to.
pub uninterp spec fn json_cols(data: Seq<u8>) -> nat;

/// Options for reading a delimited text file, handed through to the reader.
pub struct CsvOptions {
    /// Field separator byte.
    pub separator: u8,
    /// Quote byte.
    pub quote_char: u8,
    /// The file has no header row.
    pub no_header: bool,
    /// Keep going over malformed rows.
    pub ignore_errors: bool,
    /// How many rows the reader may scan to infer a schema; `None` scans
    /// the whole file.
    pub infer_schema_length: Option<usize>,
}

impl Frame {
    /// Relies on DataFrame::height: the number of rows of the frame.
    #[verifier::external_body]
    pub fn height(&self) -> (r: usize)
        ensures
            r as nat == frame_rows(*self),
    {
        self.inner.height()
    }

    /// Relies on DataFrame::width: the number of columns of the frame.
    #[verifier::external_body]
    pub fn width(&self) -> (r: usize)
        ensures
            r as nat == frame_cols(*self),
    {
        self.inner.width()
    }

    /// Relies on Series::new and DataFrame::new: a frame of the given
    /// integer columns, one per name, each column as long as the first.
    #[verifier::external_body]
    pub fn from_int_columns(names: &Vec<String>, cols: &Vec<Vec<i64>>) -> (r: Frame)
        requires
            names@.len() == cols@.len(),
            forall|i: int, j: int|
                0 <= i < j < names@.len() ==> names@[i]@ != names@[j]@,
            forall|i: int| 0 <= i < cols@.len() ==> #[trigger] cols@[i]@.len() == cols@[0]@.len(),
        ensures
            frame_cols(r) == names@.len(),
            frame_rows(r) == if cols@.len() == 0 {
                0nat
            } else {
                cols@[0]@.len()
            },
    {
        let mut series: Vec<Series> = Vec::new();
        for i in 0..names.len() {
            series.push(Series::new(names[i].as_str(), cols[i].as_slice()));
        }
        Frame { inner: DataFrame::new(series).unwrap() }
    }

    /// Relies on polars' CSV reader: reads the file at `path` into a frame,
    /// or reports the reader's error as text.
    #[verifier::external_body]
    pub fn load_csv(path: &str, opts: &CsvOptions) -> (r: Result<Frame, String>) {
        let parse = CsvParseOptions::default().with_quote_char(Some(opts.quote_char)).with_separator(
            opts.separator,
        );
        let read = CsvReadOptions::default().with_ignore_errors(opts.ignore_errors).with_infer_schema_length(
            opts.infer_schema_length,
        ).with_has_header(!opts.no_header).with_parse_options(parse);
        match read.try_into_reader_with_file_path(Some(std::path::PathBuf::from(path))) {
            Ok(reader) => match reader.finish() {
                Ok(df) => Ok(Frame { inner: df }),
                Err(e) => Err(format!("{}", e)),
            },
            Err(e) => Err(format!("{}", e)),
        }
    }

    /// Relies on polars' parquet reader: decodes the bytes of a columnar
    /// binary file into a frame — a function of the bytes alone — or
    /// reports the reader's error as text.
    #[verifier::external_body]
    pub fn from_parquet_bytes(data: Vec<u8>) -> (r: Result<Frame, String>)
        ensures
            (match r {
                Ok(f) => frame_rows(f) == parquet_rows(data@) && frame_cols(f) == parquet_cols(
                    data@,
                ),
                Err(_) => true,
            }),
    {
        match ParquetReader::new(std::io::Cursor::new(data)).finish() {
            Ok(df) => Ok(Frame { inner: df }),
            Err(e) => Err(format!("{}", e)),
        }
    }

    /// Relies on polars' JSON reader: decodes the bytes of a JSON file
    /// into a frame — a function of the bytes alone — or reports the
    /// reader's error as text.
    #[verifier::external_body]
    pub fn from_json_bytes(data: Vec<u8>) -> (r: Result<Frame, String>)
        ensures
            (match r {
                Ok(f) => frame_rows(f) == json_rows(data@) && frame_cols(f) == json_cols(data@),
                Err(_) => true,
            }),
    {
        match JsonReader::new(std::io::Cursor::new(data)).finish() {
            Ok(df) => Ok(Frame { inner: df }),
            Err(e) => Err(format!("{}", e)),
        }
    }

    /// Relies on DataFrame::get_column_names: one name per column, in order.
    #[verifier::external_body]
    pub fn column_names(&self) -> (r: Vec<String>)
        ensures
            r@.len() == frame_cols(*self),
    {
        self.inner.get_column_names().iter().map(|s| s.to_string()).collect()
    }

    /// Relies on Series::get: the display text of one cell; empty when the
    /// position is outside the frame.
    #[verifier::external_body]
    pub fn cell_text(&self, row: usize, col: usize) -> (r: String) {
        match self.inner.get_columns().get(col) {
            Some(s) => match s.get(row) {
                Ok(v) => format!("{}", v),
                Err(_) => String::new(),
            },
            None => String::new(),
        }
    }
}

/// An opaque reference to a loaded tabular dataset. The id tells handles
/// apart; the cached dimensions agree with the frame itself.
pub struct DatasetHandle {
    pub frame: Frame,
    pub id: u64,
    pub row_count: usize,
    pub col_count: usize,
}

impl DatasetHandle {
    /// The cached dimensions are those of the frame.
    pub open spec fn wf(self) -> bool {
        self.row_count as nat == frame_rows(self.frame) && self.col_count as nat == frame_cols(
            self.frame,
        )
    }

    pub fn new(frame: Frame, id: u64) -> (h: DatasetHandle)
        ensures
            h.wf(),
            h.id == id,
            h.frame == frame,
    {
        let row_count: usize = frame.height();
        let col_count: usize = frame.width();
        DatasetHandle { frame, id, row_count, col_count }
    }
}

} // verus!
