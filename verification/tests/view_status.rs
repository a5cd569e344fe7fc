use polars::prelude::{DataFrame, NamedFrom, ParquetWriter, Series};
use tabiew::dataset::{DatasetHandle, Frame};
use tabiew::status::{Severity, StatusBar};
use tabiew::view::Tabular;

fn small_frame(rows: i64, cols: usize) -> Frame {
    let names: Vec<String> = (0..cols).map(|i| format!("c{}", i)).collect();
    let data: Vec<Vec<i64>> = (0..cols).map(|_| (0..rows).collect()).collect();
    Frame::from_int_columns(&names, &data)
}

#[test]
fn cursor_clamps_to_bounds() {
    let h = DatasetHandle::new(small_frame(3, 2), 0);
    assert_eq!(h.row_count, 3);
    assert_eq!(h.col_count, 2);
    let mut t = Tabular::new(h);
    t.move_cursor(10, 10);
    assert_eq!((t.cursor_row, t.cursor_col), (2, 1));
    t.move_cursor(-100, -100);
    assert_eq!((t.cursor_row, t.cursor_col), (0, 0));
    t.move_cursor(i64::MIN, i64::MAX);
    assert_eq!((t.cursor_row, t.cursor_col), (0, 1));
}

#[test]
fn cursor_pinned_on_empty_dataset() {
    let h = DatasetHandle::new(small_frame(0, 0), 0);
    assert_eq!(h.row_count, 0);
    assert_eq!(h.col_count, 0);
    let mut t = Tabular::new(h);
    t.move_cursor(5, -3);
    assert_eq!((t.cursor_row, t.cursor_col), (0, 0));
}

#[test]
fn replace_dataset_resets_cursor_and_viewport() {
    let h = DatasetHandle::new(small_frame(50, 3), 0);
    let mut t = Tabular::new(h);
    t.set_page(10, 2);
    t.move_cursor(49, 2);
    assert_eq!((t.cursor_row, t.cursor_col), (49, 2));
    assert!(t.offset_row > 0);
    let h2 = DatasetHandle::new(small_frame(4, 1), 1);
    t.replace_dataset(h2);
    assert_eq!((t.cursor_row, t.cursor_col), (0, 0));
    assert_eq!((t.offset_row, t.offset_col), (0, 0));
    assert_eq!(t.dataset.id, 1);
    assert_eq!(t.dataset.row_count, 4);
}

#[test]
fn viewport_scrolls_minimally() {
    let h = DatasetHandle::new(small_frame(20, 1), 0);
    let mut t = Tabular::new(h);
    t.set_page(5, 1);
    t.move_cursor(4, 0);
    assert_eq!(t.offset_row, 0);
    t.move_cursor(1, 0);
    assert_eq!(t.offset_row, 1);
    t.move_cursor(10, 0);
    assert_eq!(t.cursor_row, 15);
    assert_eq!(t.offset_row, 11);
    t.move_cursor(-15, 0);
    assert_eq!(t.cursor_row, 0);
    assert_eq!(t.offset_row, 0);
}

#[test]
fn view_tick_only_counts() {
    let h = DatasetHandle::new(small_frame(2, 1), 0);
    let mut t = Tabular::new(h);
    t.move_cursor(1, 0);
    t.tick();
    t.tick();
    assert_eq!(t.tick_count, 2);
    assert_eq!((t.cursor_row, t.cursor_col), (1, 0));
}

#[test]
fn message_decays_by_one_per_tick_and_clears_at_zero() {
    let mut s = StatusBar::new();
    s.set_message("hello".to_string(), Severity::Info, 3);
    let m = s.msg.as_ref().unwrap();
    assert_eq!(m.remaining_ticks, 3);
    s.tick();
    assert_eq!(s.msg.as_ref().unwrap().remaining_ticks, 2);
    s.tick();
    assert_eq!(s.msg.as_ref().unwrap().remaining_ticks, 1);
    s.tick();
    assert!(s.msg.is_none());
}

#[test]
fn new_message_replaces_old_one() {
    let mut s = StatusBar::new();
    s.set_message("first".to_string(), Severity::Info, 10);
    s.set_message("second".to_string(), Severity::Error, 2);
    let m = s.msg.as_ref().unwrap();
    assert_eq!(m.text, "second");
    assert_eq!(m.severity, Severity::Error);
    assert_eq!(m.remaining_ticks, 2);
}

#[test]
fn ticks_without_message_change_nothing() {
    let mut s = StatusBar::new();
    for _ in 0..5 {
        s.tick();
        assert!(s.msg.is_none());
    }
}

#[test]
fn zero_ttl_message_is_absent() {
    let mut s = StatusBar::new();
    s.set_message("gone".to_string(), Severity::Info, 0);
    assert!(s.msg.is_none());
}

#[test]
fn parquet_bytes_round_trip() {
    let s = Series::new("a", &[1i64, 2, 3]);
    let mut df = DataFrame::new(vec![s]).unwrap();
    let mut buf: Vec<u8> = Vec::new();
    ParquetWriter::new(&mut buf).finish(&mut df).unwrap();
    let f = Frame::from_parquet_bytes(buf).unwrap();
    assert_eq!(f.height(), 3);
    assert_eq!(f.width(), 1);
    assert_eq!(f.cell_text(0, 0), "1");
    assert_eq!(f.cell_text(2, 0), "3");
}

#[test]
fn json_bytes_decode() {
    let data = b"[{\"a\": 1, \"b\": 4}, {\"a\": 2, \"b\": 5}]".to_vec();
    let f = Frame::from_json_bytes(data).unwrap();
    assert_eq!(f.height(), 2);
    assert_eq!(f.width(), 2);
    assert_eq!(f.cell_text(1, 0), "2");
    assert_eq!(f.cell_text(0, 1), "4");
}

#[test]
fn bad_bytes_report_an_error() {
    assert!(Frame::from_parquet_bytes(vec![1u8, 2, 3]).is_err());
    assert!(Frame::from_json_bytes(vec![1u8, 2, 3]).is_err());
}

#[test]
fn cell_text_and_column_names_read_the_frame() {
    let names = vec!["a".to_string(), "b".to_string()];
    let cols = vec![vec![7i64, 8, 9], vec![10i64, 11, 12]];
    let f = Frame::from_int_columns(&names, &cols);
    assert_eq!(f.height(), 3);
    assert_eq!(f.width(), 2);
    assert_eq!(f.column_names(), names);
    assert_eq!(f.cell_text(0, 0), "7");
    assert_eq!(f.cell_text(2, 1), "12");
    assert_eq!(f.cell_text(9, 9), "");
}
