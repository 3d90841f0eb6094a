use sbom_backend::model::product_line::{map_product_line, EnProductLineProducts, FromQueryProductLineProduct};
use sbom_backend::text::str_le;

fn row(pl_id: i16, pl_title: &str, p: Option<(i16, &str, i16)>) -> FromQueryProductLineProduct {
    FromQueryProductLineProduct {
        pl_id,
        pl_title: pl_title.to_string(),
        p_id: p.map(|x| x.0),
        p_title: p.map(|x| x.1.to_string()),
        p_product_line_id: p.map(|x| x.2),
    }
}

fn summary(lines: &[EnProductLineProducts]) -> Vec<(i16, String, Vec<(i16, String, i16)>)> {
    lines
        .iter()
        .map(|l| {
            (
                l.id,
                l.title.clone(),
                l.products.iter().map(|p| (p.id, p.title.clone(), p.product_line_id)).collect(),
            )
        })
        .collect()
}

#[test]
fn groups_rows_and_orders_lines_by_title() {
    let rows = vec![
        row(2, "Zeta", Some((10, "p1", 2))),
        row(1, "Alpha", None),
        row(2, "Zeta", Some((11, "p2", 2))),
        row(3, "Alpha", Some((12, "p3", 3))),
    ];
    let lines = map_product_line(rows);
    assert_eq!(
        summary(&lines),
        vec![
            (1, "Alpha".to_string(), vec![]),
            (3, "Alpha".to_string(), vec![(12, "p3".to_string(), 3)]),
            (2, "Zeta".to_string(), vec![(10, "p1".to_string(), 2), (11, "p2".to_string(), 2)]),
        ]
    );
}

#[test]
fn a_row_without_all_product_columns_adds_no_product() {
    let mut r = row(4, "Line", Some((1, "p", 4)));
    r.p_title = None;
    let lines = map_product_line(vec![r, row(4, "Other title", None)]);
    assert_eq!(summary(&lines), vec![(4, "Line".to_string(), vec![])]);
}

#[test]
fn no_rows_give_no_lines() {
    assert!(map_product_line(vec![]).is_empty());
}

#[test]
fn titles_order_by_code_point() {
    let lines = map_product_line(vec![
        row(1, "b", None),
        row(2, "B", None),
        row(3, "ab", None),
        row(4, "a", None),
        row(5, "é", None),
    ]);
    let titles: Vec<String> = lines.iter().map(|l| l.title.clone()).collect();
    assert_eq!(titles, vec!["B", "a", "ab", "b", "é"]);
}

#[test]
fn text_order_matches_std() {
    let samples = ["", "a", "ab", "b", "B", "é", "z", "aa"];
    for a in samples {
        for b in samples {
            assert_eq!(str_le(a, b), a <= b, "{} <= {}", a, b);
        }
    }
}

#[test]
fn every_line_id_is_kept_once() {
    let rows = vec![row(5, "x", None), row(5, "x", Some((1, "a", 5))), row(6, "w", None), row(5, "x", Some((2, "b", 5)))];
    let lines = map_product_line(rows);
    let ids: Vec<i16> = lines.iter().map(|l| l.id).collect();
    assert_eq!(ids, vec![6, 5]);
    assert_eq!(lines[1].products.len(), 2);
}

#[test]
fn lines_of_one_title_keep_their_order_and_their_products() {
    let rows = vec![
        row(5, "same", Some((50, "e", 5))),
        row(2, "alpha", Some((20, "b", 2))),
        row(3, "same", None),
        row(5, "same", Some((51, "f", 5))),
    ];
    let lines = map_product_line(rows);
    let ids: Vec<i16> = lines.iter().map(|l| l.id).collect();
    assert_eq!(ids, vec![2, 5, 3]);
    let five: Vec<i16> = lines[1].products.iter().map(|p| p.id).collect();
    assert_eq!(five, vec![50, 51]);
    assert!(lines[2].products.is_empty());
}
