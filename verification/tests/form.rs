use meta_baby::dimension::{parse_dimension, DimensionField};
use meta_baby::endpoint::QrError;
use meta_baby::form::{show_response, FormController, Shown, Submission, FAILURE_NOTICE};

fn request_of(outcome: Submission) -> (Vec<String>, Option<u32>, Option<u32>) {
    match outcome {
        Submission::Send(request) => (request.contents, request.width, request.height),
        Submission::Cancel => panic!("the submission was cancelled"),
    }
}

fn is_cancelled(outcome: Submission) -> bool {
    matches!(outcome, Submission::Cancel)
}

#[test]
fn new_form_has_one_empty_field() {
    let form = FormController::new();
    assert_eq!(form.len(), 1);
    assert_eq!(form.ids(), vec![0]);
    assert_eq!(form.next_id(), 1);
    assert_eq!(form.contents(), vec![String::new()]);
}

#[test]
fn add_field_appends_with_growing_identifiers() {
    let mut form = FormController::new();
    assert_eq!(form.add_field(), 1);
    assert_eq!(form.add_field(), 2);
    assert_eq!(form.add_field(), 3);
    assert_eq!(form.ids(), vec![0, 1, 2, 3]);
    assert_eq!(form.next_id(), 4);
    assert_eq!(form.contents(), vec![String::new(); 4]);
}

#[test]
fn add_then_remove_gives_the_list_back() {
    let mut form = FormController::new();
    form.add_field();
    form.set_value(0, String::from("first"));
    form.set_value(1, String::from("second"));
    let ids = form.ids();
    let contents = form.contents();
    let added = form.add_field();
    form.remove_field(added);
    assert_eq!(form.len(), 2);
    assert_eq!(form.ids(), ids);
    assert_eq!(form.contents(), contents);
}

#[test]
fn removing_one_of_many_keeps_the_others_in_order() {
    let mut form = FormController::new();
    form.remove_field(0);
    assert_eq!(form.len(), 0);
    let added: Vec<u64> = (0..5).map(|_| form.add_field()).collect();
    assert_eq!(added, vec![1, 2, 3, 4, 5]);
    for id in &added {
        form.set_value(*id, format!("text {}", id));
    }
    form.remove_field(added[2]);
    assert_eq!(form.len(), 4);
    assert_eq!(form.ids(), vec![1, 2, 4, 5]);
    assert_eq!(form.contents(), vec!["text 1", "text 2", "text 4", "text 5"]);
}

#[test]
fn removing_the_first_and_the_last_field() {
    let mut form = FormController::new();
    form.add_field();
    form.add_field();
    form.remove_field(0);
    assert_eq!(form.ids(), vec![1, 2]);
    form.remove_field(2);
    assert_eq!(form.ids(), vec![1]);
    form.remove_field(1);
    assert_eq!(form.ids(), Vec::<u64>::new());
    assert_eq!(form.next_id(), 3);
}

#[test]
fn removing_an_unknown_identifier_changes_nothing() {
    let mut form = FormController::new();
    form.add_field();
    form.set_value(1, String::from("kept"));
    form.remove_field(7);
    assert_eq!(form.ids(), vec![0, 1]);
    assert_eq!(form.contents(), vec!["", "kept"]);
    assert_eq!(form.next_id(), 2);
    form.remove_field(1);
    form.remove_field(1);
    assert_eq!(form.ids(), vec![0]);
}

#[test]
fn identifiers_are_never_given_twice() {
    let mut form = FormController::new();
    let first = form.add_field();
    form.remove_field(first);
    let second = form.add_field();
    assert_eq!((first, second), (1, 2));
    form.remove_field(0);
    form.remove_field(second);
    assert_eq!(form.len(), 0);
    assert_eq!(form.add_field(), 3);
    assert_eq!(form.ids(), vec![3]);
}

#[test]
fn set_value_changes_one_field() {
    let mut form = FormController::new();
    form.add_field();
    form.add_field();
    form.set_value(1, String::from("middle"));
    assert_eq!(form.contents(), vec!["", "middle", ""]);
    form.set_value(1, String::from("again"));
    form.set_value(2, String::from("last"));
    assert_eq!(form.contents(), vec!["", "again", "last"]);
    assert_eq!(form.ids(), vec![0, 1, 2]);
    form.set_value(9, String::from("nowhere"));
    assert_eq!(form.contents(), vec!["", "again", "last"]);
    assert_eq!(form.next_id(), 3);
}

#[test]
fn submit_sends_the_texts_in_display_order() {
    let mut form = FormController::new();
    let second = form.add_field();
    let third = form.add_field();
    form.set_value(third, String::from("c"));
    form.set_value(0, String::from("a"));
    form.set_value(second, String::from("b"));
    assert_eq!(
        request_of(form.submit("", "")),
        (vec![String::from("a"), String::from("b"), String::from("c")], None, None)
    );
    form.remove_field(second);
    assert_eq!(
        request_of(form.submit("300", "200")),
        (vec![String::from("a"), String::from("c")], Some(300), Some(200))
    );
}

#[test]
fn a_cloned_form_goes_its_own_way() {
    let mut form = FormController::new();
    form.add_field();
    form.set_value(1, String::from("shared"));
    let mut copy = form.clone();
    assert_eq!(copy.ids(), vec![0, 1]);
    assert_eq!(copy.contents(), vec!["", "shared"]);
    assert_eq!(copy.next_id(), 2);
    copy.remove_field(0);
    assert_eq!(copy.add_field(), 2);
    assert_eq!(form.ids(), vec![0, 1]);
    assert_eq!(form.next_id(), 2);
}

#[test]
fn a_submitted_form_gets_its_image() {
    let mut form = meta_baby::FormController::new();
    let second = form.add_field();
    form.set_value(0, String::from("A"));
    form.set_value(second, String::from("B"));
    let request = match form.submit("96", "") {
        meta_baby::Submission::Send(request) => request,
        meta_baby::Submission::Cancel => panic!("the submission was cancelled"),
    };
    let response = meta_baby::qr_code_post(request.contents, request.width, request.height);
    assert!(response.is_ok());
    assert_eq!(response, meta_baby::qr_code_post(vec![String::from("AB")], Some(96), None));
    assert_eq!(show_response(response.clone()), Shown::Image { src: response.unwrap() });
}

#[test]
fn submit_of_an_empty_form_sends_no_contents() {
    let mut form = FormController::new();
    form.remove_field(0);
    assert_eq!(request_of(form.submit("", "64")), (Vec::new(), None, Some(64)));
}

#[test]
fn submit_reads_each_dimension_alone() {
    let form = FormController::new();
    assert_eq!(request_of(form.submit("640", "")), (vec![String::new()], Some(640), None));
    assert_eq!(request_of(form.submit("", "480")), (vec![String::new()], None, Some(480)));
    assert_eq!(request_of(form.submit("0", "+7")), (vec![String::new()], Some(0), Some(7)));
}

#[test]
fn submit_is_cancelled_by_a_malformed_dimension() {
    let form = FormController::new();
    assert!(is_cancelled(form.submit("wide", "")));
    assert!(is_cancelled(form.submit("", "tall")));
    assert!(is_cancelled(form.submit("12", "-1")));
    assert!(is_cancelled(form.submit("1e3", "12")));
    assert!(is_cancelled(form.submit("4294967296", "")));
}

#[test]
fn dimension_fields_are_decimal_numbers() {
    assert_eq!(parse_dimension(""), DimensionField::Absent);
    assert_eq!(parse_dimension("0"), DimensionField::Pixels(0));
    assert_eq!(parse_dimension("512"), DimensionField::Pixels(512));
    assert_eq!(parse_dimension("+512"), DimensionField::Pixels(512));
    assert_eq!(parse_dimension("007"), DimensionField::Pixels(7));
    assert_eq!(parse_dimension("4294967295"), DimensionField::Pixels(u32::MAX));
    assert_eq!(parse_dimension("0000000000000000000004294967295"), DimensionField::Pixels(u32::MAX));
    assert_eq!(parse_dimension("4294967296"), DimensionField::Malformed);
    assert_eq!(parse_dimension("99999999999999999999999999"), DimensionField::Malformed);
    assert_eq!(parse_dimension("+"), DimensionField::Malformed);
    assert_eq!(parse_dimension("++1"), DimensionField::Malformed);
    assert_eq!(parse_dimension("1+"), DimensionField::Malformed);
    assert_eq!(parse_dimension("-1"), DimensionField::Malformed);
    assert_eq!(parse_dimension(" 1"), DimensionField::Malformed);
    assert_eq!(parse_dimension("1 "), DimensionField::Malformed);
    assert_eq!(parse_dimension("1.0"), DimensionField::Malformed);
    assert_eq!(parse_dimension("0x10"), DimensionField::Malformed);
    assert_eq!(parse_dimension("\u{664}"), DimensionField::Malformed);
    assert_eq!(parse_dimension("12\u{e9}"), DimensionField::Malformed);
}

#[test]
fn dimension_fields_agree_with_the_standard_parser() {
    let samples = [
        "", "1", "+1", "-1", "+", "-", "00", "+00", "12a", "a12", "4294967295", "4294967296",
        "42949672950", "+4294967295", "+4294967296", " ", "1_000", "١٢", "2147483648", "9", "10",
    ];
    for text in samples {
        let expected = if text.is_empty() {
            DimensionField::Absent
        } else {
            match text.parse::<u32>() {
                Ok(pixels) => DimensionField::Pixels(pixels),
                Err(_) => DimensionField::Malformed,
            }
        };
        assert_eq!(parse_dimension(text), expected, "{:?}", text);
    }
}

#[test]
fn responses_are_shown_as_image_or_notice() {
    assert_eq!(
        show_response::<QrError>(Ok(String::from("data:image/png;base64,AAAA"))),
        Shown::Image { src: String::from("data:image/png;base64,AAAA") }
    );
    let error = QrError { message: String::from("Error with the title or post!") };
    assert_eq!(
        show_response(Err(error)),
        Shown::Notice { text: String::from("Oh nooooo we had an issue! Try again") }
    );
    assert_eq!(
        show_response::<u8>(Err(3)),
        Shown::Notice { text: String::from("Oh nooooo we had an issue! Try again") }
    );
    assert_eq!(FAILURE_NOTICE, "Oh nooooo we had an issue! Try again");
}
