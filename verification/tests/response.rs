use steamgriddb_api::response::{
    response_to_result, response_to_result_flat, Response, SteamGridDbError,
};

const NO_DATA: &str = "success reported but no data found";

fn flat<T>(data: Option<Vec<T>>) -> Response<Vec<T>> {
    Response {
        success: true,
        data,
        status: None,
        errors: None,
    }
}

fn failure<T>(status: Option<u32>, errors: Option<Vec<&str>>) -> Response<T> {
    Response {
        success: false,
        data: None,
        status,
        errors: errors.map(|e| e.into_iter().map(String::from).collect()),
    }
}

fn error(status: Option<u32>, errors: Option<Vec<&str>>) -> SteamGridDbError {
    SteamGridDbError {
        status,
        errors: errors.map(|e| e.into_iter().map(String::from).collect()),
    }
}

#[test]
fn flat_success_with_data_is_the_data() {
    assert_eq!(response_to_result(flat(Some(vec!["x", "y"]))), Ok(vec!["x", "y"]));
}

#[test]
fn flat_success_with_an_empty_list_is_the_empty_list() {
    assert_eq!(response_to_result(flat(Some(Vec::<u8>::new()))), Ok(vec![]));
}

#[test]
fn flat_success_without_data_is_the_no_data_error() {
    assert_eq!(
        response_to_result(flat::<u8>(None)),
        Err(error(None, Some(vec![NO_DATA])))
    );
}

#[test]
fn flat_success_without_data_drops_status_and_errors_of_the_envelope() {
    let envelope: Response<Vec<u8>> = Response {
        success: true,
        data: None,
        status: Some(200),
        errors: Some(vec!["odd".to_string()]),
    };
    assert_eq!(
        response_to_result(envelope),
        Err(error(None, Some(vec![NO_DATA])))
    );
}

#[test]
fn flat_failure_keeps_status_and_errors() {
    assert_eq!(
        response_to_result(failure::<Vec<u8>>(Some(404), Some(vec!["Game not found"]))),
        Err(error(Some(404), Some(vec!["Game not found"])))
    );
}

#[test]
fn flat_failure_wins_over_data() {
    let envelope = Response {
        success: false,
        data: Some(vec![1, 2]),
        status: None,
        errors: None,
    };
    assert_eq!(response_to_result(envelope), Err(error(None, None)));
}

#[test]
fn batch_with_one_failed_id_keeps_both_results_in_order() {
    let envelope = flat(Some(vec![
        flat(Some(vec!["g1"])),
        failure(Some(404), Some(vec!["Game not found"])),
    ]));
    assert_eq!(
        response_to_result_flat(envelope),
        Ok(vec![
            Ok("g1"),
            Err(error(Some(404), Some(vec!["Game not found"]))),
        ])
    );
}

#[test]
fn batch_has_one_result_per_id() {
    let envelope = flat(Some(vec![
        flat(Some(vec![10])),
        flat(Some(vec![20])),
        flat(Some(vec![30])),
        flat(Some(vec![40])),
    ]));
    assert_eq!(
        response_to_result_flat(envelope),
        Ok(vec![Ok(10), Ok(20), Ok(30), Ok(40)])
    );
}

#[test]
fn batch_takes_the_first_entity_of_each_id() {
    let envelope = flat(Some(vec![flat(Some(vec![1, 2, 3])), flat(Some(vec![4, 5]))]));
    assert_eq!(response_to_result_flat(envelope), Ok(vec![Ok(1), Ok(4)]));
}

#[test]
fn batch_that_failed_is_one_error_without_status() {
    let envelope: Response<Vec<Response<Vec<u8>>>> =
        failure(Some(500), Some(vec!["Asset does not exist"]));
    assert_eq!(
        response_to_result_flat(envelope),
        Err(error(None, Some(vec!["Asset does not exist"])))
    );
}

#[test]
fn batch_that_failed_is_an_error_even_with_data() {
    let envelope = Response {
        success: false,
        data: Some(vec![flat(Some(vec![1]))]),
        status: None,
        errors: None,
    };
    assert_eq!(response_to_result_flat(envelope), Err(error(None, None)));
}

#[test]
fn batch_without_data_keeps_the_errors_of_the_batch() {
    let envelope: Response<Vec<Response<Vec<u8>>>> = Response {
        success: true,
        data: None,
        status: Some(200),
        errors: Some(vec!["nothing here".to_string()]),
    };
    assert_eq!(
        response_to_result_flat(envelope),
        Err(error(None, Some(vec!["nothing here"])))
    );
    let envelope: Response<Vec<Response<Vec<u8>>>> = flat(None);
    assert_eq!(response_to_result_flat(envelope), Err(error(None, None)));
}

#[test]
fn batch_with_no_ids_is_an_empty_list() {
    let envelope: Response<Vec<Response<Vec<u8>>>> = flat(Some(vec![]));
    assert_eq!(response_to_result_flat(envelope), Ok(vec![]));
}

#[test]
fn batch_item_without_entity_is_the_no_data_error() {
    let envelope = flat(Some(vec![flat::<u8>(None), flat(Some(vec![]))]));
    assert_eq!(
        response_to_result_flat(envelope),
        Ok(vec![
            Err(error(None, Some(vec![NO_DATA]))),
            Err(error(None, Some(vec![NO_DATA]))),
        ])
    );
}

#[test]
fn batch_item_without_entity_keeps_its_own_errors() {
    let without_data: Response<Vec<u8>> = Response {
        success: true,
        data: None,
        status: Some(200),
        errors: Some(vec!["hidden".to_string()]),
    };
    let with_empty_data: Response<Vec<u8>> = Response {
        success: true,
        data: Some(vec![]),
        status: Some(200),
        errors: Some(vec![]),
    };
    let envelope = flat(Some(vec![without_data, with_empty_data]));
    assert_eq!(
        response_to_result_flat(envelope),
        Ok(vec![
            Err(error(None, Some(vec!["hidden"]))),
            Err(error(None, Some(vec![]))),
        ])
    );
}

#[test]
fn batch_item_failure_keeps_its_status() {
    let envelope = flat(Some(vec![
        failure::<Vec<u8>>(Some(404), None),
        failure(None, Some(vec!["a", "b"])),
    ]));
    assert_eq!(
        response_to_result_flat(envelope),
        Ok(vec![
            Err(error(Some(404), None)),
            Err(error(None, Some(vec!["a", "b"]))),
        ])
    );
}

#[test]
fn normalizing_twice_gives_equal_results() {
    let envelope = || {
        flat(Some(vec![
            flat(Some(vec![7])),
            failure(Some(404), Some(vec!["Game not found"])),
            flat(None),
        ]))
    };
    assert_eq!(
        response_to_result_flat(envelope()),
        response_to_result_flat(envelope())
    );
    assert_eq!(
        response_to_result(flat(Some(vec![1, 2]))),
        response_to_result(flat(Some(vec![1, 2])))
    );
    assert_eq!(
        response_to_result(flat::<u8>(None)),
        response_to_result(flat::<u8>(None))
    );
}

#[test]
fn error_text_names_status_and_errors() {
    let e = error(Some(404), Some(vec!["Game not found"]));
    assert_eq!(
        e.to_string(),
        "API reported status: Some(404) with errors: Some([\"Game not found\"])"
    );
    let e = error(None, None);
    assert_eq!(
        e.to_string(),
        "API reported status: None with errors: None"
    );
}
