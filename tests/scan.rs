use bigtable2::schema::{decimal_text, ColumnType, Layout, Value};
use bigtable2::vtab::{BindError, Chunk, HelloBindData, HelloVTab};

fn bound(layout: Layout, arg: &str) -> HelloBindData {
    HelloVTab::bind(layout, arg.to_string()).expect("argument binds")
}

fn first_chunk(bind: &HelloBindData) -> Chunk {
    let mut init = HelloVTab::init();
    HelloVTab::func(bind, &mut init)
}

fn text(v: &Value) -> &str {
    match v {
        Value::Text(s) => s.as_str(),
        other => panic!("not text: {:?}", other),
    }
}

#[test]
fn greeting_world_is_one_row() {
    let bind = bound(Layout::Greeting, "world");
    let columns = bind.columns();
    assert_eq!(columns.len(), 1);
    assert_eq!(columns[0].name, "column0");
    assert_eq!(columns[0].ty, ColumnType::Varchar);
    let chunk = first_chunk(&bind);
    assert_eq!(chunk.len, 1);
    assert_eq!(chunk.vectors.len(), 1);
    assert_eq!(chunk.vectors[0], vec![Value::Text("Hello world".to_string())]);
}

#[test]
fn greeting_counts_one_row() {
    let bind = bound(Layout::Greeting, "x");
    let mut init = HelloVTab::init();
    let mut total = 0;
    loop {
        let chunk = HelloVTab::func(&bind, &mut init);
        if chunk.len == 0 {
            break;
        }
        total += chunk.len;
    }
    assert_eq!(total, 1);
}

#[test]
fn greeting_empty_argument() {
    let bind = bound(Layout::Greeting, "");
    let chunk = first_chunk(&bind);
    assert_eq!(chunk.len, 1);
    assert_eq!(text(&chunk.vectors[0][0]), "Hello ");
}

#[test]
fn listing_has_ten_indexed_rows() {
    let bind = bound(Layout::Listing, "ignored");
    let names: Vec<String> = bind.columns().into_iter().map(|c| c.name).collect();
    assert_eq!(names, vec!["pe_id", "title", "price", "unit_price", "base_price"]);
    let chunk = first_chunk(&bind);
    assert_eq!(chunk.len, 10);
    for i in 0..10 {
        assert_eq!(chunk.vectors[0][i], Value::Integer(123));
        assert_eq!(text(&chunk.vectors[1][i]), format!("title {}", i));
        assert_eq!(chunk.vectors[2][i], Value::Float { tenths: 13 });
        assert_eq!(chunk.vectors[3][i], Value::Float { tenths: 17 });
        assert_eq!(chunk.vectors[4][i], Value::Float { tenths: 15 });
    }
}

#[test]
fn product_row_for_abc() {
    let bind = bound(Layout::Product, "abc");
    let columns = bind.columns();
    let types: Vec<ColumnType> = columns.iter().map(|c| c.ty).collect();
    assert_eq!(
        types,
        vec![
            ColumnType::UBigint,
            ColumnType::Varchar,
            ColumnType::Float,
            ColumnType::Float,
            ColumnType::Float
        ]
    );
    let chunk = first_chunk(&bind);
    assert_eq!(chunk.len, 1);
    assert_eq!(chunk.vectors[0], vec![Value::UBigint(123)]);
    assert_eq!(chunk.vectors[1], vec![Value::Text("title abc".to_string())]);
    assert_eq!(columns[2].name, "price");
    assert_eq!(chunk.vectors[2], vec![Value::Float { tenths: 13 }]);
    assert_eq!(columns[3].name, "unit_price");
    assert_eq!(chunk.vectors[3], vec![Value::Float { tenths: 17 }]);
    assert_eq!(columns[4].name, "base_price");
    assert_eq!(chunk.vectors[4], vec![Value::Float { tenths: 15 }]);
}

#[test]
fn two_scans_give_identical_rows_and_two_releases() {
    let mut left = bound(Layout::Product, "abc");
    let mut right = bound(Layout::Product, "abc");
    let a = first_chunk(&left);
    let b = first_chunk(&right);
    assert_eq!(a.len, b.len);
    assert_eq!(a.vectors, b.vectors);
    let again = first_chunk(&left);
    assert_eq!(again.len, a.len);
    assert_eq!(again.vectors, a.vectors);
    let released = [left.free(), right.free()];
    assert_eq!(released.iter().filter(|r| **r).count(), 2);
}

#[test]
fn later_calls_end_the_scan() {
    let bind = bound(Layout::Listing, "q");
    let mut init = HelloVTab::init();
    assert!(!init.done);
    let lengths: Vec<usize> = (0..4).map(|_| HelloVTab::func(&bind, &mut init).len).collect();
    assert_eq!(lengths, vec![10, 0, 0, 0]);
    assert!(init.done);
    let empty = HelloVTab::func(&bind, &mut init);
    assert_eq!(empty.vectors.len(), 5);
    assert!(empty.vectors.iter().all(|v| v.is_empty()));
}

#[test]
fn vectors_match_declared_types() {
    for layout in [Layout::Greeting, Layout::Listing, Layout::Product] {
        let bind = bound(layout, "t");
        let columns = bind.columns();
        let chunk = first_chunk(&bind);
        assert_eq!(chunk.vectors.len(), columns.len());
        for (column, vector) in columns.iter().zip(chunk.vectors.iter()) {
            assert_eq!(vector.len(), chunk.len);
            for v in vector {
                let ty = match v {
                    Value::Text(_) => ColumnType::Varchar,
                    Value::Integer(_) => ColumnType::Integer,
                    Value::UBigint(_) => ColumnType::UBigint,
                    Value::Float { .. } => ColumnType::Float,
                };
                assert_eq!(ty, column.ty);
            }
        }
    }
}

#[test]
fn release_runs_once_then_is_harmless() {
    let mut bind = bound(Layout::Product, "abc");
    assert!(bind.is_bound());
    assert!(bind.free());
    assert!(!bind.is_bound());
    assert_eq!(bind.name(), None);
    assert!(!bind.free());
    assert_eq!(bind.layout(), Layout::Product);
}

#[test]
fn release_after_partial_scan() {
    for calls in 0..3 {
        let mut bind = bound(Layout::Product, "abc");
        let mut init = HelloVTab::init();
        for _ in 0..calls {
            HelloVTab::func(&bind, &mut init);
        }
        assert_eq!(bind.name(), Some("abc"));
        assert!(bind.free());
        assert!(!bind.is_bound());
    }
}

#[test]
fn argument_comes_back_unchanged() {
    for arg in ["", "abc", "héllo wörld", "with 'quotes' and spaces"] {
        let bind = bound(Layout::Product, arg);
        assert_eq!(bind.name(), Some(arg));
        let chunk = first_chunk(&bind);
        assert_eq!(&text(&chunk.vectors[1][0])["title ".len()..], arg);
        let greeting = bound(Layout::Greeting, arg);
        let chunk = first_chunk(&greeting);
        assert_eq!(&text(&chunk.vectors[0][0])["Hello ".len()..], arg);
    }
}

#[test]
fn nul_in_argument_is_refused() {
    assert_eq!(
        HelloVTab::bind(Layout::Product, "a\0b".to_string()).err(),
        Some(BindError::InteriorNul)
    );
    assert_eq!(
        HelloVTab::bind(Layout::Greeting, "\0".to_string()).err(),
        Some(BindError::InteriorNul)
    );
}

#[test]
fn decimal_text_values() {
    assert_eq!(decimal_text(0), "0");
    assert_eq!(decimal_text(7), "7");
    assert_eq!(decimal_text(10), "10");
    assert_eq!(decimal_text(409), "409");
    assert_eq!(decimal_text(18446744073709551615), "18446744073709551615");
}

#[test]
fn declared_parameters() {
    assert_eq!(HelloVTab::parameters(), Some(vec![ColumnType::Varchar]));
    let named = HelloVTab::named_parameters().expect("named parameters");
    assert_eq!(named.len(), 1);
    assert_eq!(named[0].0, "title");
    assert_eq!(named[0].1, ColumnType::Varchar);
}

#[test]
fn standard_layout_is_product() {
    assert_eq!(Layout::standard(), Layout::Product);
    assert_eq!(Layout::standard().row_count(), 1);
    assert_eq!(Layout::Listing.row_count(), 10);
    assert_eq!(Layout::Greeting.column_count(), 1);
    assert_eq!(Layout::Product.column_count(), 5);
}
