use brewery_sales::amount::SalesAmount;
use brewery_sales::date::CalendarDate;
use brewery_sales::endpoint::{
    begin, proceed, respond, QueryError, Response, Step, NO_DATA_MESSAGE, STORE_FAILURE_MESSAGE,
};
use brewery_sales::engine::{
    plan_query, QueryPlan, DATE_FROM_PARAMETER, DATE_TO_PARAMETER, RANKING_QUERY,
};
use brewery_sales::params::SalesByColorParams;
use brewery_sales::record::SalesByColorRanked;
use brewery_sales::validate::ValidationError;

fn store_row(color: &str, style: &str, location: &str, total: f64, ranked: u32) -> SalesByColorRanked {
    SalesByColorRanked {
        brew_color: String::from(color),
        beer_style: String::from(style),
        location: String::from(location),
        total_sales: SalesAmount::from_bits(total.to_bits()),
        ranked,
    }
}

fn on(year: i32, month: u32, day: u32) -> CalendarDate {
    CalendarDate { year, month, day }
}

fn found_rows(response: Response) -> Vec<SalesByColorRanked> {
    match response {
        Response::Found(rows) => rows,
        other => panic!("Error occurred: {:?}", other),
    }
}

#[test]
fn test_name() {
    let step = begin("2020-01-01", "2020-03-01");
    let (date_from, date_to) = match step {
        Step::Query { date_from, date_to } => (date_from, date_to),
        Step::Respond(response) => panic!("Error occurred: {:?}", response),
    };
    assert_eq!(date_from, on(2020, 1, 1));
    assert_eq!(date_to, on(2020, 3, 1));
    let reply = Ok(vec![
        store_row("Amber", "Lager", "Denver", 1520.5, 1),
        store_row("Amber", "Lager", "Boulder", 980.0, 2),
        store_row("Gold", "Pale Ale", "Aspen", 410.25, 1),
    ]);
    let sales_by_color = found_rows(respond(reply));
    assert!(!sales_by_color.is_empty());
    for color_sales in sales_by_color {
        if color_sales.brew_color.is_empty() {
            panic!("Brew color is missing or empty.")
        }
        if color_sales.beer_style.is_empty() {
            panic!("Beer style is missing or empty.")
        }
        if color_sales.location.is_empty() {
            panic!("Location is missing or empty.")
        }
        if !f64::from_bits(color_sales.total_sales.to_bits()).is_finite() {
            panic!("Total sales is missing or not a finite number");
        }
        assert!(color_sales.ranked >= 1, "Pcs should be a non-negative number");
    }
}

#[test]
fn a_window_in_order_is_planned_as_a_query_over_its_bounds() {
    let window = SalesByColorParams { date_from: on(2020, 1, 1), date_to: on(2020, 3, 1) };
    assert_eq!(plan_query(&window), QueryPlan::Run { date_from: on(2020, 1, 1), date_to: on(2020, 3, 1) });
    let single = SalesByColorParams { date_from: on(2020, 1, 1), date_to: on(2020, 1, 1) };
    assert_eq!(plan_query(&single), QueryPlan::Run { date_from: on(2020, 1, 1), date_to: on(2020, 1, 1) });
}

#[test]
fn a_reversed_window_is_planned_as_the_empty_result() {
    let reversed = SalesByColorParams { date_from: on(2020, 3, 1), date_to: on(2020, 1, 1) };
    assert_eq!(plan_query(&reversed), QueryPlan::Empty);
    let by_a_day = SalesByColorParams { date_from: on(2021, 1, 1), date_to: on(2020, 12, 31) };
    assert_eq!(plan_query(&by_a_day), QueryPlan::Empty);
}

#[test]
fn a_reversed_window_ends_with_no_data_and_without_the_store() {
    match begin("2020-03-01", "2020-01-01") {
        Step::Respond(response) => {
            assert!(matches!(response, Response::NoData));
            assert_eq!(response.status(), 404);
        }
        Step::Query { .. } => panic!("the store was asked"),
    }
    let reversed = SalesByColorParams { date_from: on(2020, 1, 2), date_to: on(2020, 1, 1) };
    assert!(matches!(proceed(Ok(reversed)), Step::Respond(Response::NoData)));
}

#[test]
fn malformed_parameters_end_with_a_client_error() {
    match begin("2020-01-01", "soon") {
        Step::Respond(response) => {
            assert_eq!(response.status(), 400);
            assert_eq!(response.message(), None);
            match response {
                Response::Invalid(error) => assert_eq!(
                    error,
                    ValidationError { date_from_malformed: false, date_to_malformed: true }
                ),
                other => panic!("{:?}", other),
            }
        }
        Step::Query { .. } => panic!("the store was asked"),
    }
    let error = ValidationError { date_from_malformed: true, date_to_malformed: true };
    assert!(matches!(proceed(Err(error)), Step::Respond(Response::Invalid(e)) if e == error));
}

#[test]
fn a_window_without_rows_ends_with_no_data() {
    let response = respond(Ok(Vec::new()));
    assert!(matches!(response, Response::NoData));
    assert_eq!(response.status(), 404);
    assert_eq!(response.message(), Some("No data available in the database"));
    assert_eq!(NO_DATA_MESSAGE, "No data available in the database");
}

#[test]
fn rows_that_are_all_rejected_end_with_no_data() {
    let response = respond(Ok(vec![
        store_row("Amber", "Lager", "Denver", 10.0, 0),
        store_row("Gold", "Pils", "Aspen", 20.0, 0),
    ]));
    assert!(matches!(response, Response::NoData));
    assert_eq!(response.status(), 404);
}

#[test]
fn a_failing_store_ends_with_a_server_error() {
    let response = respond(Err(QueryError));
    assert!(matches!(response, Response::StoreFailure));
    assert_eq!(response.status(), 500);
    assert_eq!(response.message(), Some("Error retrieving Color Sales"));
    assert_eq!(STORE_FAILURE_MESSAGE, "Error retrieving Color Sales");
}

#[test]
fn rows_end_with_the_cleaned_rows() {
    let response = respond(Ok(vec![
        store_row("", "IPA", "null", f64::NAN, 3),
        store_row("Amber", "Lager", "Denver", 10.0, 0),
        store_row("Dark Brown", "Stout", "Fort Collins", f64::MAX, u32::MAX),
    ]));
    assert_eq!(response.status(), 200);
    assert_eq!(response.message(), None);
    assert_eq!(
        found_rows(response),
        vec![
            store_row("Unknown", "IPA", "Unknown", 0.0, 3),
            store_row("DarkBrown", "Stout", "FortCollins", 0.0, 0),
        ]
    );
}

#[test]
fn the_query_ranks_by_partition_over_the_bound_window() {
    assert!(RANKING_QUERY.contains("ROW_NUMBER() OVER (PARTITION BY c.color, bd.beer_style ORDER BY SUM(bd.total_sales) DESC) AS ranked"));
    assert!(RANKING_QUERY.contains("bd.brew_date >= :date_from AND bd.brew_date <= :date_to"));
    assert_eq!(DATE_FROM_PARAMETER, "date_from");
    assert_eq!(DATE_TO_PARAMETER, "date_to");
    assert!(RANKING_QUERY.contains("JOIN\n        colors c ON bd.color = c.color_number"));
    assert!(RANKING_QUERY.contains("GROUP BY\n        c.color, bd.beer_style, bd.location"));
    assert!(RANKING_QUERY.contains("ORDER BY\n    brew_color, beer_style, total_sales DESC;"));
}
