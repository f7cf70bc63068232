use msoxide::column::CellBlock;
use msoxide::column::CellValue;
use msoxide::column::ColumnMeta;
use msoxide::column::ElemType;
use msoxide::column::FixedCell;
use msoxide::column::ProbeOutcomes;
use msoxide::column::VarCell;
use msoxide::project::probe_select;
use msoxide::project::render_fixed_cell;
use msoxide::project::render_scalar_cell;
use msoxide::project::render_var_cell;
use msoxide::App;

fn app() -> App {
    App::new("store.ms".to_string(), vec![], vec!["COL".to_string()])
}

fn meta(elem: ElemType, scalar: bool, fixed_shape: bool, rank: u64) -> ColumnMeta {
    ColumnMeta {
        name: "COL".to_string(),
        tag_text: "i32".to_string(),
        elem,
        scalar,
        fixed_shape,
        rank,
        keywords: vec![],
    }
}

#[test]
fn scalar_cell_formats_typed_values() {
    assert_eq!(
        render_scalar_cell(ElemType::Int32, &CellValue::Int32(42)),
        format!("{}", 42)
    );
    assert_eq!(
        render_scalar_cell(ElemType::Bool, &CellValue::Bool(true)),
        format!("{}", true)
    );
    assert_eq!(
        render_scalar_cell(ElemType::Int8, &CellValue::Int8(-7)),
        format!("{}", -7i8)
    );
    assert_eq!(
        render_scalar_cell(ElemType::UInt16, &CellValue::UInt16(65535)),
        format!("{}", 65535u16)
    );
    assert_eq!(
        render_scalar_cell(ElemType::Int64, &CellValue::Int64(i64::MIN)),
        format!("{}", i64::MIN)
    );
    assert_eq!(
        render_scalar_cell(ElemType::Text, &CellValue::Text("hello".to_string())),
        "hello"
    );
    assert_eq!(
        render_scalar_cell(
            ElemType::Float64,
            &CellValue::Rendered(format!("{}", 1.5f64))
        ),
        "1.5"
    );
}

#[test]
fn scalar_cell_unsupported_kind() {
    assert_eq!(
        render_scalar_cell(ElemType::Other, &CellValue::Int32(0)),
        "Not implemented"
    );
}

#[test]
fn probe_takes_rank_one_first() {
    let p = ProbeOutcomes {
        rank1: Some("[1, 2]".to_string()),
        rank2: None,
        rank3: None,
    };
    assert_eq!(probe_select(&p), "[1, 2]\n");
}

#[test]
fn probe_falls_back_to_rank_two() {
    let p = ProbeOutcomes {
        rank1: None,
        rank2: Some("[[1, 2], [3, 4]]".to_string()),
        rank3: None,
    };
    assert_eq!(probe_select(&p), "[[1, 2], [3, 4]]\n");
}

#[test]
fn probe_falls_back_to_rank_three() {
    let p = ProbeOutcomes {
        rank1: None,
        rank2: None,
        rank3: Some("[[[1]]]".to_string()),
    };
    assert_eq!(probe_select(&p), "[[[1]]]\n");
}

#[test]
fn probe_placeholder_after_all_ranks_fail() {
    let p = ProbeOutcomes {
        rank1: None,
        rank2: None,
        rank3: None,
    };
    assert_eq!(probe_select(&p), "Failed to parse field.\n");
}

#[test]
fn var_string_cell_joins_in_brackets() {
    let c = VarCell::Strings(vec!["a".to_string(), "b".to_string()]);
    assert_eq!(
        render_var_cell(ElemType::Text, &"string".to_string(), &c),
        "[a, b]\n"
    );
}

#[test]
fn var_unsupported_cell_names_the_tag() {
    let c = VarCell::Unread;
    assert_eq!(
        render_var_cell(ElemType::Other, &"record".to_string(), &c),
        "Not implemented for record\n"
    );
}

#[test]
fn fixed_bool_rank_one_lists_elements() {
    let c = FixedCell::Bools(vec![true, false]);
    assert_eq!(
        render_fixed_cell(ElemType::Bool, 1, &"bool".to_string(), &c),
        "[true, false]\n"
    );
}

#[test]
fn fixed_rank_outside_one_and_two_shows_nothing() {
    let c = FixedCell::Unread;
    assert_eq!(
        render_fixed_cell(ElemType::Int32, 3, &"i32".to_string(), &c),
        "\n"
    );
}

#[test]
fn scalar_window_of_ten_rows() {
    // A table with ten rows, page size fifty, and a scalar integer column
    // holding 1..=10: the window [0, 10) projects ten data lines in
    // ascending row order.
    let a = app();
    let cells: Vec<CellValue> = (1..=10).map(CellValue::Int32).collect();
    let m = meta(ElemType::Int32, true, false, 0);
    let mut buf = String::new();
    let report = a.read_scalar_value_into_buffer(&mut buf, &m, 0, &cells);
    assert_eq!(report, buf);
    let lines: Vec<&str> = report.lines().collect();
    assert_eq!(lines.len(), 12);
    assert_eq!(lines[0], "Values: ");
    assert_eq!(lines[1], ": ROW : VALUE");
    for (i, line) in lines[2..].iter().enumerate() {
        assert_eq!(*line, format!(":{:>5}: {}", i, i + 1));
    }
    assert_eq!(lines[2], ":    0: 1");
    assert_eq!(lines[11], ":    9: 10");
}

#[test]
fn scalar_window_appends_to_existing_buffer() {
    let a = app();
    let cells = vec![CellValue::Bool(true), CellValue::Bool(false)];
    let m = meta(ElemType::Bool, true, false, 0);
    let mut buf = "head\n".to_string();
    let report = a.read_scalar_value_into_buffer(&mut buf, &m, 5, &cells);
    assert_eq!(
        report,
        "head\nValues: \n: ROW : VALUE\n:    5: true\n:    6: false\n"
    );
}

#[test]
fn scalar_window_unsupported_kind_on_every_line() {
    // Every data line of a scalar column of an unsupported kind reads
    // exactly "Not implemented".
    let a = app();
    let cells = vec![
        CellValue::Int32(1),
        CellValue::Int32(2),
        CellValue::Int32(3),
    ];
    let m = meta(ElemType::Other, true, false, 0);
    let mut buf = String::new();
    let report = a.read_scalar_value_into_buffer(&mut buf, &m, 0, &cells);
    let lines: Vec<&str> = report.lines().collect();
    assert_eq!(lines.len(), 5);
    for (i, line) in lines[2..].iter().enumerate() {
        assert_eq!(*line, format!(":{:>5}: Not implemented", i));
    }
}

#[test]
fn variable_window_rank_two_row() {
    // Row 3 parses at rank two but not rank one: its line shows the
    // rank-two rendering, not the failure placeholder.
    let a = app();
    let probed_one = |t: &str| {
        VarCell::Probed(ProbeOutcomes {
            rank1: Some(t.to_string()),
            rank2: None,
            rank3: None,
        })
    };
    let cells = vec![
        probed_one("[1]"),
        probed_one("[2]"),
        probed_one("[3]"),
        VarCell::Probed(ProbeOutcomes {
            rank1: None,
            rank2: Some("[[4, 5]]".to_string()),
            rank3: None,
        }),
        VarCell::Probed(ProbeOutcomes {
            rank1: None,
            rank2: None,
            rank3: None,
        }),
    ];
    let m = meta(ElemType::Float32, false, false, 0);
    let mut buf = String::new();
    let report = a.read_array_value_into_buffer(&mut buf, &m, 0, &CellBlock::Variable(cells));
    let lines: Vec<&str> = report.lines().collect();
    assert_eq!(lines.len(), 7);
    assert_eq!(lines[5], ":    3: [[4, 5]]");
    assert_eq!(lines[6], ":    4: Failed to parse field.");
}

#[test]
fn empty_window_keeps_header_only() {
    let a = app();
    let cells: Vec<CellValue> = vec![];
    let m = meta(ElemType::Int32, true, false, 0);
    let mut buf = String::new();
    let report = a.read_scalar_value_into_buffer(&mut buf, &m, 0, &cells);
    assert_eq!(report, "Values: \n: ROW : VALUE\n");
}

#[test]
fn var_string_cell_empty_list() {
    let c = VarCell::Strings(vec![]);
    assert_eq!(
        render_var_cell(ElemType::Text, &"string".to_string(), &c),
        "[]\n"
    );
}

#[test]
fn row_numbers_continue_from_window_start() {
    let a = app();
    let cells = vec![CellValue::Int64(-5), CellValue::Int64(5)];
    let m = meta(ElemType::Int64, true, false, 0);
    let mut buf = String::new();
    let report = a.read_scalar_value_into_buffer(&mut buf, &m, 99999, &cells);
    assert_eq!(
        report,
        "Values: \n: ROW : VALUE\n:99999: -5\n:100000: 5\n"
    );
}

#[test]
fn fixed_window_mixed_ranks() {
    let a = app();
    let cells = vec![
        FixedCell::Rendered("[1, 2, 3]".to_string()),
        FixedCell::Rendered("[4, 5, 6]".to_string()),
    ];
    let m = meta(ElemType::Int32, false, true, 1);
    let mut buf = String::new();
    let report = a.read_array_value_into_buffer(&mut buf, &m, 10, &CellBlock::Fixed(cells));
    assert_eq!(
        report,
        "Values: \n: ROW : VALUE\n:   10: [1, 2, 3]\n:   11: [4, 5, 6]\n"
    );
}
