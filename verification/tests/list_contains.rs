use vortex_layout::dtype::{DType, Nullability, ValueKind};
use vortex_layout::list_contains::{
    bytes_equal, contains_by_hash, contains_by_rows, list_contains, list_holds, uses_hash_path,
    ListColumn, ListContainsError, ValuesColumn, HASH_LIST_LENGTH_THRESHOLD,
    HASH_VALUES_LENGTH_THRESHOLD,
};

fn utf8(s: &str) -> Option<Vec<u8>> {
    Some(s.as_bytes().to_vec())
}

fn column(kind: ValueKind, nullability: Nullability, cells: Vec<Option<Vec<u8>>>) -> ValuesColumn {
    ValuesColumn { dtype: DType { kind, nullability }, cells }
}

#[test]
fn list_contains_zstd_utf8() {
    let values = column(
        ValueKind::Utf8,
        Nullability::Nullable,
        vec![utf8("a"), utf8("b"), None, utf8("d")],
    );
    let list = ListColumn::Constant {
        nullability: Nullability::NonNullable,
        list: Some(vec![utf8("b"), utf8("d")]),
    };

    let result = list_contains(&list, &values).unwrap();
    let expected = vec![Some(false), Some(true), Some(false), Some(true)];

    assert_eq!(result.cells, expected);
    assert_eq!(result.nullability, Nullability::Nullable);
}

#[test]
fn list_contains_zstd_utf8_hash_path() {
    let strings = (0..HASH_VALUES_LENGTH_THRESHOLD)
        .map(|i| format!("value-{i}"))
        .collect::<Vec<_>>();
    let values = column(
        ValueKind::Utf8,
        Nullability::Nullable,
        strings
            .iter()
            .enumerate()
            .map(|(i, value)| if i != 128 { Some(value.as_bytes().to_vec()) } else { None })
            .collect(),
    );
    let list = ListColumn::Constant {
        nullability: Nullability::NonNullable,
        list: Some(
            (0..HASH_LIST_LENGTH_THRESHOLD)
                .map(|i| Some(format!("value-{}", i * 8).into_bytes()))
                .collect(),
        ),
    };
    assert!(uses_hash_path(&list, &values));

    let result = list_contains(&list, &values).unwrap();
    let mut expected = (0..HASH_VALUES_LENGTH_THRESHOLD)
        .map(|i| Some(i % 8 == 0))
        .collect::<Vec<_>>();
    expected[128] = Some(false);

    assert_eq!(result.cells, expected);
    assert_eq!(result.nullability, Nullability::Nullable);
}

fn big_case(kind: ValueKind) -> (ListColumn, ValuesColumn) {
    let values = column(
        kind,
        Nullability::NonNullable,
        (0..300u32).map(|i| Some(vec![(i % 251) as u8, (i / 251) as u8])).collect(),
    );
    let mut elements: Vec<Option<Vec<u8>>> = (0..40u32).map(|i| Some(vec![(i * 3) as u8, 0])).collect();
    elements.push(None);
    let list = ListColumn::Constant { nullability: Nullability::NonNullable, list: Some(elements) };
    (list, values)
}

#[test]
fn hash_path_agrees_with_row_path() {
    let (list, values) = big_case(ValueKind::Binary);
    assert!(uses_hash_path(&list, &values));
    let by_rows = contains_by_rows(&list, &values).unwrap();
    let by_kernel = list_contains(&list, &values).unwrap();
    assert_eq!(by_rows.cells, by_kernel.cells);
    assert_eq!(by_kernel.nullability, Nullability::NonNullable);
    assert!(by_kernel.cells.iter().all(|c| c.is_some()));
    assert_eq!(by_kernel.cells[3], Some(true));
    assert_eq!(by_kernel.cells[4], Some(false));
    // row 254 is [3, 1], not in the list
    assert_eq!(by_kernel.cells[254], Some(false));
}

#[test]
fn hash_path_thresholds() {
    let (list, values) = big_case(ValueKind::Other);
    assert!(!uses_hash_path(&list, &values));
    let (list, mut values) = big_case(ValueKind::Utf8);
    assert!(uses_hash_path(&list, &values));
    values.cells.truncate(HASH_VALUES_LENGTH_THRESHOLD - 1);
    assert!(!uses_hash_path(&list, &values));
    let short = ListColumn::Constant {
        nullability: Nullability::NonNullable,
        list: Some(vec![utf8("x"); HASH_LIST_LENGTH_THRESHOLD - 1]),
    };
    let (_, values) = big_case(ValueKind::Utf8);
    assert!(!uses_hash_path(&short, &values));
}

#[test]
fn null_constant_list_gives_nulls() {
    let values = column(ValueKind::Utf8, Nullability::NonNullable, vec![utf8("a"), utf8("b")]);
    let list = ListColumn::Constant { nullability: Nullability::Nullable, list: None };
    let result = list_contains(&list, &values).unwrap();
    assert_eq!(result.cells, vec![None, None]);
    assert_eq!(result.nullability, Nullability::Nullable);
}

#[test]
fn per_row_lists() {
    let values = column(ValueKind::Utf8, Nullability::Nullable, vec![utf8("a"), utf8("b"), None, utf8("c")]);
    let list = ListColumn::Rows {
        nullability: Nullability::Nullable,
        lists: vec![
            Some(vec![utf8("a")]),
            Some(vec![None, utf8("c")]),
            Some(vec![None]),
            None,
        ],
    };
    let result = list_contains(&list, &values).unwrap();
    assert_eq!(result.cells, vec![Some(true), Some(false), Some(false), None]);
}

#[test]
fn per_row_length_mismatch() {
    let values = column(ValueKind::Binary, Nullability::NonNullable, vec![utf8("a")]);
    let list = ListColumn::Rows { nullability: Nullability::NonNullable, lists: vec![] };
    assert_eq!(list_contains(&list, &values).err(), Some(ListContainsError::LengthMismatch));
}

#[test]
fn hash_probe_ignores_null_elements() {
    let values = column(ValueKind::Binary, Nullability::Nullable, vec![None, utf8("z"), utf8("y")]);
    let elements = vec![None, utf8("y")];
    let out = contains_by_hash(&elements, &values, Nullability::Nullable);
    assert_eq!(out.cells, vec![Some(false), Some(false), Some(true)]);
}

#[test]
fn byte_helpers() {
    assert!(bytes_equal(&b"abc".to_vec(), &b"abc".to_vec()));
    assert!(!bytes_equal(&b"abc".to_vec(), &b"abd".to_vec()));
    assert!(!bytes_equal(&b"ab".to_vec(), &b"abc".to_vec()));
    let elements = vec![None, utf8("q")];
    assert!(list_holds(&elements, &b"q".to_vec()));
    assert!(!list_holds(&elements, &b"r".to_vec()));
}

#[test]
fn nullability_union() {
    assert_eq!(Nullability::NonNullable.union(Nullability::NonNullable), Nullability::NonNullable);
    assert_eq!(Nullability::NonNullable.union(Nullability::Nullable), Nullability::Nullable);
    assert_eq!(Nullability::Nullable.union(Nullability::NonNullable), Nullability::Nullable);
    assert!(DType { kind: ValueKind::Binary, nullability: Nullability::Nullable }.is_byte_string());
    assert!(!DType { kind: ValueKind::Other, nullability: Nullability::Nullable }.is_byte_string());
}
