use sdl2::query::{flag_query_outcome, status_query_outcome, text_query_outcome};

#[test]
fn empty_text_result_maps_to_error() {
    let r = text_query_outcome(String::new(), String::from("no clipboard text"));
    match r {
        Ok(_) => panic!("an empty platform result must not be a success"),
        Err(e) => assert_eq!(e.message(), "no clipboard text"),
    }
}

#[test]
fn empty_diagnostic_still_yields_a_message() {
    let r = text_query_outcome(String::new(), String::new());
    match r {
        Ok(_) => panic!("an empty platform result must not be a success"),
        Err(e) => {
            assert!(!e.message().is_empty());
            assert_eq!(e.message(), "platform query failed");
        }
    }
}

#[test]
fn nonempty_text_result_is_returned_unchanged() {
    let r = text_query_outcome(String::from("/home/user/.app/"), String::from("ignored"));
    assert_eq!(r.ok().as_deref(), Some("/home/user/.app/"));
}

#[test]
fn success_is_never_empty() {
    let r = text_query_outcome(String::from("x"), String::new());
    let s = r.ok().unwrap();
    assert!(!s.is_empty());
}

#[test]
fn zero_status_maps_to_error() {
    let r = status_query_outcome(0, String::from("could not set clipboard"));
    match r {
        Ok(()) => panic!("a zero status must not be a success"),
        Err(e) => assert_eq!(e.message(), "could not set clipboard"),
    }
}

#[test]
fn nonzero_status_is_success() {
    assert!(status_query_outcome(1, String::new()).is_ok());
    assert!(status_query_outcome(-3, String::new()).is_ok());
}

#[test]
fn clipboard_flag_is_one() {
    assert!(flag_query_outcome(1));
    assert!(!flag_query_outcome(0));
    assert!(!flag_query_outcome(2));
    assert!(!flag_query_outcome(-1));
}
